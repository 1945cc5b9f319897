use vstd::prelude::*;

verus! {

use crate::big_uint::BigUint;
use crate::byte_ops::clone_bytes;
use crate::token_identifier::{MoaxOrDctTokenIdentifier, TokenIdentifier};
use crate::tx_input::{transfers_of, TxInput, TxInputDCT, TxTransferV};

/// Failures of the value transfer resolver: a cardinality mismatch, a
/// non-fungible token where a fungible one was required, or a payment
/// handed to a non-payable endpoint.
#[derive(Clone, Copy, Debug, PartialEq, Eq, Structural)]
pub enum CallValueError {
    IncorrectNumDctTransfers,
    FungibleTokenExpected,
    NonPayable,
}

/// The host side of the value transfer resolver: what the virtual machine
/// knows about the value sent with the current call. The views are the
/// recorded native amount and the recorded list of token transfers; each
/// method's contract ties what it returns to those views.
pub trait CallValueApiImpl: Sized {
    /// The native amount recorded on the current call.
    spec fn moax_view(&self) -> nat;

    /// The token transfers recorded on the current call, in submission
    /// order.
    spec fn transfers_view(&self) -> Seq<TxTransferV>;

    /// Fails exactly when the call carries any value at all.
    fn check_not_payable(&self) -> (r: Result<(), CallValueError>)
        ensures
            r is Ok <==> (self.moax_view() == 0 && self.transfers_view().len() == 0),
            r is Err ==> r->Err_0 == CallValueError::NonPayable,
    ;

    /// The native amount sent with the call.
    fn load_moax_value(&self) -> (r: BigUint)
        ensures
            r@ == self.moax_view(),
    ;

    /// How many token transfers the call carries.
    fn dct_num_transfers(&self) -> (n: usize)
        ensures
            n == self.transfers_view().len(),
    ;

    /// The identifier bytes of the transfer at the index.
    fn token_by_index(&self, index: usize) -> (t: Vec<u8>)
        requires
            index < self.transfers_view().len(),
        ensures
            t@ == self.transfers_view()[index as int].token_identifier,
    ;

    /// The nonce of the transfer at the index; 0 means fungible.
    fn dct_token_nonce_by_index(&self, index: usize) -> (n: u64)
        requires
            index < self.transfers_view().len(),
        ensures
            n == self.transfers_view()[index as int].nonce,
    ;

    /// The amount of the transfer at the index.
    fn dct_value_by_index(&self, index: usize) -> (v: BigUint)
        requires
            index < self.transfers_view().len(),
        ensures
            v@ == self.transfers_view()[index as int].amount,
    ;

    /// The single-transfer DCT amount: the first transfer's amount, or 0
    /// when the call carried only the native coin.
    fn load_single_dct_value(&self) -> (v: BigUint)
        ensures
            self.transfers_view().len() == 0 ==> v@ == 0,
            self.transfers_view().len() > 0 ==> v@ == self.transfers_view()[0].amount,
    ;
}

/// The mock host: a call-value source backed by plain in-memory values,
/// as recorded on a transaction descriptor.
#[derive(Debug)]
pub struct DebugApi {
    pub moax_value: BigUint,
    pub dct_values: Vec<TxInputDCT>,
}

impl DebugApi {
    /// Records the value data of one transaction descriptor.
    pub fn from_input(input: &TxInput) -> (r: DebugApi)
        ensures
            r.moax_view() == input@.moax_value,
            r.transfers_view() == input@.dct_values,
    {
        DebugApi {
            moax_value: input.moax_value.duplicate(),
            dct_values: crate::tx_input::clone_transfers(&input.dct_values),
        }
    }
}

impl CallValueApiImpl for DebugApi {
    open spec fn moax_view(&self) -> nat {
        self.moax_value@
    }

    open spec fn transfers_view(&self) -> Seq<TxTransferV> {
        transfers_of(self.dct_values@)
    }

    fn check_not_payable(&self) -> (r: Result<(), CallValueError>) {
        if crate::big_uint::big_is_zero(&self.moax_value) && self.dct_values.len() == 0 {
            Ok(())
        } else {
            Err(CallValueError::NonPayable)
        }
    }

    fn load_moax_value(&self) -> (r: BigUint) {
        self.moax_value.duplicate()
    }

    fn dct_num_transfers(&self) -> (n: usize) {
        self.dct_values.len()
    }

    fn token_by_index(&self, index: usize) -> (t: Vec<u8>) {
        clone_bytes(&self.dct_values[index].token_identifier)
    }

    fn dct_token_nonce_by_index(&self, index: usize) -> (n: u64) {
        self.dct_values[index].nonce
    }

    fn dct_value_by_index(&self, index: usize) -> (v: BigUint) {
        self.dct_values[index].value.duplicate()
    }

    fn load_single_dct_value(&self) -> (v: BigUint) {
        if self.dct_values.len() == 0 {
            BigUint::new_zero()
        } else {
            self.dct_values[0].value.duplicate()
        }
    }
}

/// Reads every token transfer of the call out of the host, by querying the
/// transfer count and then each (identifier, nonce, amount) triple by
/// index, in submission order.
pub fn load_all_dct_transfers_from_unmanaged<A: CallValueApiImpl>(api: &A) -> (r: Vec<TxInputDCT>)
    ensures
        transfers_of(r@) == api.transfers_view(),
{
    let num_transfers = api.dct_num_transfers();
    let mut r: Vec<TxInputDCT> = Vec::new();
    let mut i: usize = 0;
    while i < num_transfers
        invariant
            i <= num_transfers,
            num_transfers == api.transfers_view().len(),
            r@.len() == i,
            forall|j: int| 0 <= j < i ==> r@[j]@ == api.transfers_view()[j],
        decreases num_transfers - i,
    {
        let token_identifier = api.token_by_index(i);
        let token_nonce = api.dct_token_nonce_by_index(i);
        let amount = api.dct_value_by_index(i);
        r.push(TxInputDCT { token_identifier, nonce: token_nonce, value: amount });
        i += 1;
    }
    assert(transfers_of(r@) =~= api.transfers_view());
    r
}

/// One payment that is either native MOAX or a DCT token: the resolved
/// form returned by the combined resolver entry points.
#[derive(Debug)]
pub struct MoaxOrDctTokenPayment {
    pub token_identifier: MoaxOrDctTokenIdentifier,
    pub token_nonce: u64,
    pub amount: BigUint,
}

/// The contract-facing value transfer resolver, over any host.
pub struct CallValueWrapper<A: CallValueApiImpl> {
    pub api: A,
}

impl<A: CallValueApiImpl> CallValueWrapper<A> {
    /// Wraps a host.
    pub fn new(api: A) -> (r: CallValueWrapper<A>)
        ensures
            r.api == api,
    {
        CallValueWrapper { api }
    }

    /// Fails exactly when the call carries any value at all.
    pub fn check_not_payable(&self) -> (r: Result<(), CallValueError>)
        ensures
            r is Ok <==> (self.api.moax_view() == 0 && self.api.transfers_view().len() == 0),
            r is Err ==> r->Err_0 == CallValueError::NonPayable,
    {
        self.api.check_not_payable()
    }

    /// The MOAX call value; 0 whenever the call carried token transfers
    /// instead (a call cannot carry both).
    pub fn moax_value(&self) -> (r: BigUint)
        ensures
            self.api.transfers_view().len() == 0 ==> r@ == self.api.moax_view(),
            self.api.transfers_view().len() > 0 ==> r@ == 0,
    {
        if self.api.dct_num_transfers() > 0 {
            BigUint::new_zero()
        } else {
            self.api.load_moax_value()
        }
    }

    /// All DCT transfers that accompany this call, in submission order;
    /// empty if nothing, or only MOAX, was transferred.
    pub fn all_dct_transfers(&self) -> (r: Vec<TxInputDCT>)
        ensures
            transfers_of(r@) == self.api.transfers_view(),
    {
        load_all_dct_transfers_from_unmanaged(&self.api)
    }

    /// How many token transfers the call carries.
    pub fn transfer_count(&self) -> (n: usize)
        ensures
            n == self.api.transfers_view().len(),
    {
        self.api.dct_num_transfers()
    }

    /// The (identifier, nonce, amount) triple recorded at the index.
    /// Out-of-range access is a programming error, not a recoverable
    /// condition.
    pub fn transfer_at(&self, index: usize) -> (r: TxInputDCT)
        requires
            index < self.api.transfers_view().len(),
        ensures
            r@ == self.api.transfers_view()[index as int],
    {
        let token_identifier = self.api.token_by_index(index);
        let nonce = self.api.dct_token_nonce_by_index(index);
        let value = self.api.dct_value_by_index(index);
        TxInputDCT { token_identifier, nonce, value }
    }

    /// Exactly `count` transfers, or a cardinality failure if the call
    /// carries any other number.
    pub fn multi_dct(&self, count: usize) -> (r: Result<Vec<TxInputDCT>, CallValueError>)
        ensures
            count == self.api.transfers_view().len() ==> (r matches Ok(v) && transfers_of(v@)
                == self.api.transfers_view()),
            count != self.api.transfers_view().len() ==> r == Err::<Vec<TxInputDCT>, CallValueError>(
                CallValueError::IncorrectNumDctTransfers,
            ),
    {
        if self.api.dct_num_transfers() == count {
            Ok(self.all_dct_transfers())
        } else {
            Err(CallValueError::IncorrectNumDctTransfers)
        }
    }

    /// Precisely one DCT transfer, fungible or not; a cardinality failure
    /// otherwise.
    pub fn single_dct(&self) -> (r: Result<TxInputDCT, CallValueError>)
        ensures
            self.api.transfers_view().len() == 1 ==> (r matches Ok(p) && p@
                == self.api.transfers_view()[0]),
            self.api.transfers_view().len() != 1 ==> r == Err::<TxInputDCT, CallValueError>(
                CallValueError::IncorrectNumDctTransfers,
            ),
    {
        if self.api.dct_num_transfers() == 1 {
            Ok(self.transfer_at(0))
        } else {
            Err(CallValueError::IncorrectNumDctTransfers)
        }
    }

    /// Precisely one fungible DCT transfer: its identifier and amount.
    /// A cardinality failure for any other count, a fungibility failure
    /// for a non-zero nonce.
    pub fn single_fungible_dct(&self) -> (r: Result<(TokenIdentifier, BigUint), CallValueError>)
        ensures
            self.api.transfers_view().len() != 1 ==> r == Err::<
                (TokenIdentifier, BigUint),
                CallValueError,
            >(CallValueError::IncorrectNumDctTransfers),
            self.api.transfers_view().len() == 1 && self.api.transfers_view()[0].nonce != 0 ==> r
                == Err::<(TokenIdentifier, BigUint), CallValueError>(
                CallValueError::FungibleTokenExpected,
            ),
            self.api.transfers_view().len() == 1 && self.api.transfers_view()[0].nonce == 0 ==> (
            r matches Ok(p) && p.0@ == self.api.transfers_view()[0].token_identifier && p.1@
                == self.api.transfers_view()[0].amount),
    {
        let payment = self.single_dct()?;
        if payment.nonce != 0 {
            return Err(CallValueError::FungibleTokenExpected);
        }
        Ok((TokenIdentifier::from_bytes(payment.token_identifier), payment.value))
    }

    /// The DCT call value: the sole transfer's amount, 0 when the call
    /// carried only MOAX.
    pub fn dct_value(&self) -> (r: BigUint)
        ensures
            self.api.transfers_view().len() == 0 ==> r@ == 0,
            self.api.transfers_view().len() > 0 ==> r@ == self.api.transfers_view()[0].amount,
    {
        self.api.load_single_dct_value()
    }

    /// Either the MOAX payment or the single DCT token: with no transfer,
    /// a native payment of the call's MOAX value (possibly 0); with one
    /// transfer, that transfer; with more, a cardinality failure.
    pub fn moax_or_single_dct(&self) -> (r: Result<MoaxOrDctTokenPayment, CallValueError>)
        ensures
            self.api.transfers_view().len() == 0 ==> (r matches Ok(p) && p.token_identifier@
                is None && p.token_nonce == 0 && p.amount@ == self.api.moax_view()),
            self.api.transfers_view().len() == 1 ==> (r matches Ok(p) && p.token_identifier@
                == Some(self.api.transfers_view()[0].token_identifier) && p.token_nonce
                == self.api.transfers_view()[0].nonce && p.amount@
                == self.api.transfers_view()[0].amount),
            self.api.transfers_view().len() > 1 ==> r == Err::<
                MoaxOrDctTokenPayment,
                CallValueError,
            >(CallValueError::IncorrectNumDctTransfers),
    {
        let n = self.api.dct_num_transfers();
        if n == 0 {
            Ok(
                MoaxOrDctTokenPayment {
                    token_identifier: MoaxOrDctTokenIdentifier::moax(),
                    token_nonce: 0,
                    amount: self.api.load_moax_value(),
                },
            )
        } else if n == 1 {
            let p = self.transfer_at(0);
            Ok(
                MoaxOrDctTokenPayment {
                    token_identifier: MoaxOrDctTokenIdentifier::dct(
                        TokenIdentifier::from_bytes(p.token_identifier),
                    ),
                    token_nonce: p.nonce,
                    amount: p.value,
                },
            )
        } else {
            Err(CallValueError::IncorrectNumDctTransfers)
        }
    }

    /// Either the MOAX payment or the single fungible DCT token, as an
    /// (identifier, amount) pair; a fungibility failure when the single
    /// transfer's nonce is not 0.
    pub fn moax_or_single_fungible_dct(&self) -> (r: Result<
        (MoaxOrDctTokenIdentifier, BigUint),
        CallValueError,
    >)
        ensures
            self.api.transfers_view().len() == 0 ==> (r matches Ok(p) && p.0@ is None && p.1@
                == self.api.moax_view()),
            self.api.transfers_view().len() == 1 && self.api.transfers_view()[0].nonce == 0 ==> (
            r matches Ok(p) && p.0@ == Some(self.api.transfers_view()[0].token_identifier) && p.1@
                == self.api.transfers_view()[0].amount),
            self.api.transfers_view().len() == 1 && self.api.transfers_view()[0].nonce != 0 ==> r
                == Err::<(MoaxOrDctTokenIdentifier, BigUint), CallValueError>(
                CallValueError::FungibleTokenExpected,
            ),
            self.api.transfers_view().len() > 1 ==> r == Err::<
                (MoaxOrDctTokenIdentifier, BigUint),
                CallValueError,
            >(CallValueError::IncorrectNumDctTransfers),
    {
        let payment = self.moax_or_single_dct()?;
        if payment.token_nonce != 0 {
            return Err(CallValueError::FungibleTokenExpected);
        }
        Ok((payment.token_identifier, payment.amount))
    }
}

} // verus!
