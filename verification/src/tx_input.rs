use vstd::prelude::*;

verus! {

use crate::big_uint::BigUint;
use crate::byte_ops::{clone_bytes, clone_bytes_list};

/// A 32-byte account address.
#[derive(Debug)]
pub struct Address {
    pub bytes: Vec<u8>,
}

/// The all-zero sequence of 32 bytes.
pub open spec fn zero_32() -> Seq<u8> {
    Seq::new(32, |i: int| 0u8)
}

impl View for Address {
    type V = Seq<u8>;

    open spec fn view(&self) -> Seq<u8> {
        self.bytes@
    }
}

impl Address {
    /// An address is well-formed when it holds exactly 32 bytes.
    pub open spec fn wf(&self) -> bool {
        self.bytes@.len() == 32
    }

    /// The all-zero address.
    pub fn zero() -> (r: Address)
        ensures
            r@ == zero_32(),
            r.wf(),
    {
        let mut bytes: Vec<u8> = Vec::new();
        let mut i: usize = 0;
        while i < 32
            invariant
                i <= 32,
                bytes@.len() == i,
                forall|j: int| 0 <= j < i ==> bytes@[j] == 0u8,
            decreases 32 - i,
        {
            bytes.push(0);
            i += 1;
        }
        assert(bytes@ =~= zero_32());
        Address { bytes }
    }

    /// An exact copy of the address.
    pub fn duplicate(&self) -> (r: Address)
        ensures
            r@ == self@,
    {
        Address { bytes: clone_bytes(&self.bytes) }
    }
}

/// A 32-byte hash.
#[derive(Debug)]
pub struct H256 {
    pub bytes: Vec<u8>,
}

impl View for H256 {
    type V = Seq<u8>;

    open spec fn view(&self) -> Seq<u8> {
        self.bytes@
    }
}

impl H256 {
    /// The all-zero hash.
    pub fn zero() -> (r: H256)
        ensures
            r@ == zero_32(),
    {
        let a = Address::zero();
        H256 { bytes: a.bytes }
    }

    /// An exact copy of the hash.
    pub fn duplicate(&self) -> (r: H256)
        ensures
            r@ == self@,
    {
        H256 { bytes: clone_bytes(&self.bytes) }
    }
}

/// One token transfer accompanying a call: identifier bytes, nonce
/// (0 for fungible), and amount.
#[derive(Debug)]
pub struct TxInputDCT {
    pub token_identifier: Vec<u8>,
    pub nonce: u64,
    pub value: BigUint,
}

/// The mathematical content of one token transfer.
pub struct TxTransferV {
    pub token_identifier: Seq<u8>,
    pub nonce: u64,
    pub amount: nat,
}

impl View for TxInputDCT {
    type V = TxTransferV;

    open spec fn view(&self) -> TxTransferV {
        TxTransferV {
            token_identifier: self.token_identifier@,
            nonce: self.nonce,
            amount: self.value@,
        }
    }
}

impl TxInputDCT {
    /// An exact copy of the transfer.
    pub fn duplicate(&self) -> (r: TxInputDCT)
        ensures
            r@ == self@,
    {
        TxInputDCT {
            token_identifier: clone_bytes(&self.token_identifier),
            nonce: self.nonce,
            value: self.value.duplicate(),
        }
    }
}

/// The content of a list of token transfers.
pub open spec fn transfers_of(s: Seq<TxInputDCT>) -> Seq<TxTransferV> {
    s.map_values(|d: TxInputDCT| d@)
}

/// An exact copy of a list of token transfers.
pub fn clone_transfers(v: &Vec<TxInputDCT>) -> (r: Vec<TxInputDCT>)
    ensures
        transfers_of(r@) == transfers_of(v@),
        r@.len() == v@.len(),
{
    let mut r: Vec<TxInputDCT> = Vec::new();
    let mut i: usize = 0;
    while i < v.len()
        invariant
            i <= v.len(),
            r@.len() == i,
            forall|j: int| 0 <= j < i ==> r@[j]@ == v@[j]@,
        decreases v.len() - i,
    {
        r.push(v[i].duplicate());
        i += 1;
    }
    assert(transfers_of(r@) =~= transfers_of(v@));
    r
}

/// One call to execute: the canonical transaction descriptor handed to the
/// mock execution engine.
#[derive(Debug)]
pub struct TxInput {
    pub from: Address,
    pub to: Address,
    pub moax_value: BigUint,
    pub dct_values: Vec<TxInputDCT>,
    pub func_name: Vec<u8>,
    pub args: Vec<Vec<u8>>,
    pub gas_limit: u64,
    pub gas_price: u64,
    pub tx_hash: H256,
}

/// The mathematical content of a transaction descriptor.
pub struct TxInputV {
    pub from: Seq<u8>,
    pub to: Seq<u8>,
    pub moax_value: nat,
    pub dct_values: Seq<TxTransferV>,
    pub func_name: Seq<u8>,
    pub args: Seq<Seq<u8>>,
    pub gas_limit: u64,
    pub gas_price: u64,
    pub tx_hash: Seq<u8>,
}

impl View for TxInput {
    type V = TxInputV;

    open spec fn view(&self) -> TxInputV {
        TxInputV {
            from: self.from@,
            to: self.to@,
            moax_value: self.moax_value@,
            dct_values: transfers_of(self.dct_values@),
            func_name: self.func_name@,
            args: self.args@.map_values(|a: Vec<u8>| a@),
            gas_limit: self.gas_limit,
            gas_price: self.gas_price,
            tx_hash: self.tx_hash@,
        }
    }
}

impl TxInput {
    /// Appends one argument; every other field stays as it was.
    pub fn add_arg(&mut self, arg: Vec<u8>)
        ensures
            final(self)@ == (TxInputV { args: old(self)@.args.push(arg@), ..old(self)@ }),
    {
        self.args.push(arg);
        assert(final(self)@.args =~= old(self)@.args.push(arg@));
    }

    /// A descriptor with zero addresses, zero amounts, no transfers, no
    /// function, no arguments and no gas.
    pub fn dummy() -> (r: TxInput)
        ensures
            r@.from == zero_32(),
            r@.to == zero_32(),
            r@.moax_value == 0,
            r@.dct_values.len() == 0,
            r@.func_name.len() == 0,
            r@.args.len() == 0,
            r@.gas_limit == 0,
            r@.gas_price == 0,
            r@.tx_hash == zero_32(),
    {
        let r = TxInput {
            from: Address::zero(),
            to: Address::zero(),
            moax_value: crate::big_uint::big_zero(),
            dct_values: Vec::new(),
            func_name: Vec::new(),
            args: Vec::new(),
            gas_limit: 0,
            gas_price: 0,
            tx_hash: H256::zero(),
        };
        assert(r@.dct_values =~= transfers_of(r.dct_values@));
        r
    }

    /// An exact copy of the descriptor.
    pub fn duplicate(&self) -> (r: TxInput)
        ensures
            r@ == self@,
    {
        let r = TxInput {
            from: self.from.duplicate(),
            to: self.to.duplicate(),
            moax_value: self.moax_value.duplicate(),
            dct_values: clone_transfers(&self.dct_values),
            func_name: clone_bytes(&self.func_name),
            args: clone_bytes_list(&self.args),
            gas_limit: self.gas_limit,
            gas_price: self.gas_price,
            tx_hash: self.tx_hash.duplicate(),
        };
        assert(r@.args =~= self@.args);
        r
    }
}

} // verus!
