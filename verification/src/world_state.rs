use vstd::prelude::*;

verus! {

use crate::big_uint::{big_add, big_checked_sub, BigUint};
use crate::byte_ops::{clone_bytes, eq_bytes};
use crate::tx_input::Address;

/// Why a value movement was refused: a party with no account, or a sender
/// balance smaller than the amount.
#[derive(Clone, Copy, Debug, PartialEq, Eq, Structural)]
pub enum TransferError {
    UnknownAccount,
    InsufficientFunds,
}

/// One token balance of an account.
#[derive(Debug)]
pub struct DctBalanceEntry {
    pub token_identifier: Vec<u8>,
    pub nonce: u64,
    pub amount: BigUint,
}

/// The mathematical content of one token balance.
pub struct DctBalanceV {
    pub token_identifier: Seq<u8>,
    pub nonce: u64,
    pub amount: nat,
}

impl View for DctBalanceEntry {
    type V = DctBalanceV;

    open spec fn view(&self) -> DctBalanceV {
        DctBalanceV {
            token_identifier: self.token_identifier@,
            nonce: self.nonce,
            amount: self.amount@,
        }
    }
}

/// One storage cell of an account.
#[derive(Debug)]
pub struct StorageEntry {
    pub key: Vec<u8>,
    pub value: Vec<u8>,
}

impl View for StorageEntry {
    type V = (Seq<u8>, Seq<u8>);

    open spec fn view(&self) -> (Seq<u8>, Seq<u8>) {
        (self.key@, self.value@)
    }
}

/// One account of the mock ledger: its address, native balance, token
/// balances and storage.
#[derive(Debug)]
pub struct AccountData {
    pub address: Address,
    pub moax_balance: BigUint,
    pub dct: Vec<DctBalanceEntry>,
    pub storage: Vec<StorageEntry>,
}

/// The mathematical content of one account.
pub struct AccountV {
    pub address: Seq<u8>,
    pub moax_balance: nat,
    pub dct: Seq<DctBalanceV>,
    pub storage: Seq<(Seq<u8>, Seq<u8>)>,
}

impl View for AccountData {
    type V = AccountV;

    open spec fn view(&self) -> AccountV {
        AccountV {
            address: self.address@,
            moax_balance: self.moax_balance@,
            dct: self.dct@.map_values(|e: DctBalanceEntry| e@),
            storage: self.storage@.map_values(|e: StorageEntry| e@),
        }
    }
}

/// The World State: every account of the in-memory mock ledger. It is the
/// single mutable resource of the execution engine; a snapshot taken on
/// frame entry and restored on failure is the sole isolation mechanism.
#[derive(Debug)]
pub struct WorldState {
    pub accounts: Vec<AccountData>,
}

impl View for WorldState {
    type V = Seq<AccountV>;

    open spec fn view(&self) -> Seq<AccountV> {
        self.accounts@.map_values(|a: AccountData| a@)
    }
}

/// The first account recorded under the address, if any.
pub open spec fn find_account(w: Seq<AccountV>, addr: Seq<u8>) -> Option<AccountV>
    decreases w.len(),
{
    if w.len() == 0 {
        None
    } else if w.first().address == addr {
        Some(w.first())
    } else {
        find_account(w.drop_first(), addr)
    }
}

pub open spec fn has_account(w: Seq<AccountV>, addr: Seq<u8>) -> bool {
    find_account(w, addr) is Some
}

/// The native balance recorded under the address; 0 with no account.
pub open spec fn moax_of(w: Seq<AccountV>, addr: Seq<u8>) -> nat {
    match find_account(w, addr) {
        Some(a) => a.moax_balance,
        None => 0,
    }
}

/// The first token balance recorded under the (identifier, nonce) key.
pub open spec fn find_dct_entry(es: Seq<DctBalanceV>, token: Seq<u8>, nonce: u64) -> Option<
    DctBalanceV,
>
    decreases es.len(),
{
    if es.len() == 0 {
        None
    } else if es.first().token_identifier == token && es.first().nonce == nonce {
        Some(es.first())
    } else {
        find_dct_entry(es.drop_first(), token, nonce)
    }
}

/// The token balance amount under the key; 0 with no entry.
pub open spec fn dct_entry_of(es: Seq<DctBalanceV>, token: Seq<u8>, nonce: u64) -> nat {
    match find_dct_entry(es, token, nonce) {
        Some(e) => e.amount,
        None => 0,
    }
}

/// The token balance of an account; 0 with no account or no entry.
pub open spec fn dct_of(w: Seq<AccountV>, addr: Seq<u8>, token: Seq<u8>, nonce: u64) -> nat {
    match find_account(w, addr) {
        Some(a) => dct_entry_of(a.dct, token, nonce),
        None => 0,
    }
}

/// The first storage cell recorded under the key, if any.
pub open spec fn find_storage_entry(es: Seq<(Seq<u8>, Seq<u8>)>, key: Seq<u8>) -> Option<Seq<u8>>
    decreases es.len(),
{
    if es.len() == 0 {
        None
    } else if es.first().0 == key {
        Some(es.first().1)
    } else {
        find_storage_entry(es.drop_first(), key)
    }
}

/// The storage value of an account under the key; empty with none.
pub open spec fn storage_of(w: Seq<AccountV>, addr: Seq<u8>, key: Seq<u8>) -> Seq<u8> {
    match find_account(w, addr) {
        Some(a) => match find_storage_entry(a.storage, key) {
            Some(v) => v,
            None => Seq::empty(),
        },
        None => Seq::empty(),
    }
}

/// Every account under the address rewritten by `f`, all others kept.
pub open spec fn map_at_address(
    w: Seq<AccountV>,
    addr: Seq<u8>,
    f: spec_fn(AccountV) -> AccountV,
) -> Seq<AccountV> {
    Seq::new(
        w.len(),
        |i: int|
            if w[i].address == addr {
                f(w[i])
            } else {
                w[i]
            },
    )
}

/// The world with the native balance under the address set to `m`.
pub open spec fn with_moax(w: Seq<AccountV>, addr: Seq<u8>, m: nat) -> Seq<AccountV> {
    map_at_address(w, addr, |a: AccountV| AccountV { moax_balance: m, ..a })
}

/// The entries with the amount under the key set to `m`: every matching
/// entry is rewritten; with no matching entry a new one is appended.
pub open spec fn with_dct_entry(es: Seq<DctBalanceV>, token: Seq<u8>, nonce: u64, m: nat) -> Seq<
    DctBalanceV,
> {
    if find_dct_entry(es, token, nonce) is Some {
        Seq::new(
            es.len(),
            |i: int|
                if es[i].token_identifier == token && es[i].nonce == nonce {
                    DctBalanceV { amount: m, ..es[i] }
                } else {
                    es[i]
                },
        )
    } else {
        es.push(DctBalanceV { token_identifier: token, nonce, amount: m })
    }
}

/// The world with the token balance of the account set to `m`.
pub open spec fn with_dct(w: Seq<AccountV>, addr: Seq<u8>, token: Seq<u8>, nonce: u64, m: nat) -> Seq<
    AccountV,
> {
    map_at_address(w, addr, |a: AccountV| AccountV { dct: with_dct_entry(a.dct, token, nonce, m), ..a })
}

/// Rewriting accounts under one address leaves lookups under every other
/// address as they were, and maps the lookup under that address by `f`.
pub proof fn lemma_find_map_at_address(
    w: Seq<AccountV>,
    addr: Seq<u8>,
    f: spec_fn(AccountV) -> AccountV,
    other: Seq<u8>,
)
    requires
        forall|a: AccountV| (#[trigger] f(a)).address == a.address,
    ensures
        other != addr ==> find_account(map_at_address(w, addr, f), other) == find_account(w, other),
        other == addr ==> find_account(map_at_address(w, addr, f), other) == match find_account(
            w,
            addr,
        ) {
            Some(a) => Some(f(a)),
            None => None::<AccountV>,
        },
    decreases w.len(),
{
    let w2 = map_at_address(w, addr, f);
    if w.len() == 0 {
        assert(w2 =~= Seq::empty());
    } else {
        assert(w2.len() == w.len());
        assert(w2.first() == (if w.first().address == addr {
            f(w.first())
        } else {
            w.first()
        }));
        assert(w2.drop_first() =~= map_at_address(w.drop_first(), addr, f));
        lemma_find_map_at_address(w.drop_first(), addr, f, other);
    }
}

/// A lookup skips any prefix of accounts under other addresses.
pub proof fn lemma_find_skip(w: Seq<AccountV>, addr: Seq<u8>, i: int)
    requires
        0 <= i <= w.len(),
        forall|j: int| 0 <= j < i ==> w[j].address != addr,
    ensures
        find_account(w, addr) == find_account(w.skip(i), addr),
    decreases i,
{
    if i > 0 {
        assert(w.first().address != addr);
        assert(w.drop_first().skip(i - 1) =~= w.skip(i));
        lemma_find_skip(w.drop_first(), addr, i - 1);
    } else {
        assert(w.skip(0) =~= w);
    }
}

/// An entry lookup skips any prefix of entries under other keys.
pub proof fn lemma_find_dct_entry_skip(es: Seq<DctBalanceV>, token: Seq<u8>, nonce: u64, i: int)
    requires
        0 <= i <= es.len(),
        forall|j: int|
            0 <= j < i ==> !(es[j].token_identifier == token && es[j].nonce == nonce),
    ensures
        find_dct_entry(es, token, nonce) == find_dct_entry(es.skip(i), token, nonce),
    decreases i,
{
    if i > 0 {
        assert(es.drop_first().skip(i - 1) =~= es.skip(i));
        lemma_find_dct_entry_skip(es.drop_first(), token, nonce, i - 1);
    } else {
        assert(es.skip(0) =~= es);
    }
}

/// Setting the amount under one key leaves entry lookups under every other
/// key as they were and makes the amount under that key `m`.
pub proof fn lemma_find_dct_entry_set(
    es: Seq<DctBalanceV>,
    token: Seq<u8>,
    nonce: u64,
    m: nat,
    t2: Seq<u8>,
    n2: u64,
)
    ensures
        dct_entry_of(with_dct_entry(es, token, nonce, m), token, nonce) == m,
        !(t2 == token && n2 == nonce) ==> find_dct_entry(with_dct_entry(es, token, nonce, m), t2, n2)
            == find_dct_entry(es, t2, n2),
    decreases es.len(),
{
    let es2 = with_dct_entry(es, token, nonce, m);
    if find_dct_entry(es, token, nonce) is Some {
        if es.len() > 0 {
            if es.first().token_identifier == token && es.first().nonce == nonce {
                assert(es2.first() == DctBalanceV { amount: m, ..es.first() });
            } else {
                assert(es2.first() == es.first());
            }
            if find_dct_entry(es.drop_first(), token, nonce) is Some {
                assert(es2.drop_first() =~= with_dct_entry(es.drop_first(), token, nonce, m));
                lemma_find_dct_entry_set(es.drop_first(), token, nonce, m, t2, n2);
            } else {
                // the only match is the first entry
                assert(es.first().token_identifier == token && es.first().nonce == nonce);
                assert(es2.drop_first() =~= es.drop_first()) by {
                    lemma_no_dct_entry_means_no_match(es.drop_first(), token, nonce);
                    assert forall|i: int| 0 <= i < es.drop_first().len() implies es2.drop_first()[i]
                        == es.drop_first()[i] by {
                        assert(!(es.drop_first()[i].token_identifier == token
                            && es.drop_first()[i].nonce == nonce));
                    }
                }
            }
        }
    } else {
        lemma_no_dct_entry_means_no_match(es, token, nonce);
        lemma_entry_push_find(es, DctBalanceV { token_identifier: token, nonce, amount: m }, t2, n2);
    }
}

/// With no entry under the key, no position matches the key.
pub proof fn lemma_no_dct_entry_means_no_match(es: Seq<DctBalanceV>, token: Seq<u8>, nonce: u64)
    requires
        find_dct_entry(es, token, nonce) is None,
    ensures
        forall|i: int|
            0 <= i < es.len() ==> !((#[trigger] es[i]).token_identifier == token && es[i].nonce
                == nonce),
    decreases es.len(),
{
    if es.len() > 0 {
        lemma_no_dct_entry_means_no_match(es.drop_first(), token, nonce);
        assert forall|i: int|
            0 <= i < es.len() implies !((#[trigger] es[i]).token_identifier == token && es[i].nonce
            == nonce) by {
            if i > 0 {
                assert(es[i] == es.drop_first()[i - 1]);
            }
        }
    }
}

/// Appending a fresh entry makes the amount under its key the appended one
/// and leaves lookups under every other key as they were.
pub proof fn lemma_entry_push_find(es: Seq<DctBalanceV>, e: DctBalanceV, t2: Seq<u8>, n2: u64)
    requires
        find_dct_entry(es, e.token_identifier, e.nonce) is None,
    ensures
        find_dct_entry(es.push(e), e.token_identifier, e.nonce) == Some(e),
        !(t2 == e.token_identifier && n2 == e.nonce) ==> find_dct_entry(es.push(e), t2, n2)
            == find_dct_entry(es, t2, n2),
    decreases es.len(),
{
    if es.len() == 0 {
        let s1 = es.push(e);
        assert(s1.first() == e);
        assert(s1.drop_first() =~= Seq::<DctBalanceV>::empty());
        assert(find_dct_entry(s1.drop_first(), t2, n2) is None);
        if !(t2 == e.token_identifier && n2 == e.nonce) {
            assert(!(s1.first().token_identifier == t2 && s1.first().nonce == n2));
            assert(find_dct_entry(s1, t2, n2) == find_dct_entry(s1.drop_first(), t2, n2));
        }
    } else {
        assert(es.push(e).first() == es.first());
        assert(es.push(e).drop_first() =~= es.drop_first().push(e));
        lemma_entry_push_find(es.drop_first(), e, t2, n2);
    }
}

/// What a native transfer does, account by account: the sender is debited
/// and the receiver credited — a transfer to oneself changes nothing —
/// every other account is untouched, no account appears or disappears,
/// and no token balance or storage cell moves anywhere.
pub proof fn lemma_moax_transfer_balances(w: Seq<AccountV>, from: Seq<u8>, to: Seq<u8>, amount: nat)
    requires
        apply_moax_transfer(w, from, to, amount) is Some,
    ensures
        ({
            let w2 = apply_moax_transfer(w, from, to, amount)->0;
            &&& from != to ==> moax_of(w2, from) == moax_of(w, from) - amount
            &&& from != to ==> moax_of(w2, to) == moax_of(w, to) + amount
            &&& from == to ==> moax_of(w2, from) == moax_of(w, from)
            &&& forall|a: Seq<u8>|
                a != from && a != to ==> find_account(w2, a) == find_account(w, a)
            &&& forall|a: Seq<u8>| has_account(w2, a) == has_account(w, a)
            &&& forall|a: Seq<u8>, t: Seq<u8>, n: u64| dct_of(w2, a, t, n) == dct_of(w, a, t, n)
            &&& forall|a: Seq<u8>, k: Seq<u8>| storage_of(w2, a, k) == storage_of(w, a, k)
        }),
{
    let m1 = (moax_of(w, from) - amount) as nat;
    let w1 = with_moax(w, from, m1);
    let f1 = |a: AccountV| AccountV { moax_balance: m1, ..a };
    let m2 = (moax_of(w1, to) + amount) as nat;
    let w2 = with_moax(w1, to, m2);
    let f2 = |a: AccountV| AccountV { moax_balance: m2, ..a };
    assert forall|a: Seq<u8>| true implies {
        &&& find_account(w1, a) == (if a == from {
            match find_account(w, a) {
                Some(acc) => Some(f1(acc)),
                None => None::<AccountV>,
            }
        } else {
            find_account(w, a)
        })
        &&& find_account(w2, a) == (if a == to {
            match find_account(w1, a) {
                Some(acc) => Some(f2(acc)),
                None => None::<AccountV>,
            }
        } else {
            find_account(w1, a)
        })
    } by {
        lemma_find_map_at_address(w, from, f1, a);
        lemma_find_map_at_address(w1, to, f2, a);
    }
}

/// What a token transfer does, account by account: the sender's balance
/// under the (identifier, nonce) key is debited and the receiver's
/// credited — a transfer to oneself changes nothing — every other account,
/// every other token balance, every native balance and every storage cell
/// stay as they were.
pub proof fn lemma_dct_transfer_balances(
    w: Seq<AccountV>,
    from: Seq<u8>,
    to: Seq<u8>,
    token: Seq<u8>,
    nonce: u64,
    amount: nat,
)
    requires
        apply_dct_transfer(w, from, to, token, nonce, amount) is Some,
    ensures
        ({
            let w2 = apply_dct_transfer(w, from, to, token, nonce, amount)->0;
            &&& from != to ==> dct_of(w2, from, token, nonce) == dct_of(w, from, token, nonce)
                - amount
            &&& from != to ==> dct_of(w2, to, token, nonce) == dct_of(w, to, token, nonce) + amount
            &&& from == to ==> dct_of(w2, from, token, nonce) == dct_of(w, from, token, nonce)
            &&& forall|a: Seq<u8>|
                a != from && a != to ==> find_account(w2, a) == find_account(w, a)
            &&& forall|a: Seq<u8>| has_account(w2, a) == has_account(w, a)
            &&& forall|a: Seq<u8>| moax_of(w2, a) == moax_of(w, a)
            &&& forall|a: Seq<u8>, t2: Seq<u8>, n2: u64|
                !(t2 == token && n2 == nonce) ==> dct_of(w2, a, t2, n2) == dct_of(w, a, t2, n2)
            &&& forall|a: Seq<u8>, k: Seq<u8>| storage_of(w2, a, k) == storage_of(w, a, k)
        }),
{
    let m1 = (dct_of(w, from, token, nonce) - amount) as nat;
    let w1 = with_dct(w, from, token, nonce, m1);
    let f1 = |a: AccountV| AccountV { dct: with_dct_entry(a.dct, token, nonce, m1), ..a };
    let m2 = (dct_of(w1, to, token, nonce) + amount) as nat;
    let w2 = with_dct(w1, to, token, nonce, m2);
    let f2 = |a: AccountV| AccountV { dct: with_dct_entry(a.dct, token, nonce, m2), ..a };
    assert forall|a: Seq<u8>| true implies {
        &&& find_account(w1, a) == (if a == from {
            match find_account(w, a) {
                Some(acc) => Some(f1(acc)),
                None => None::<AccountV>,
            }
        } else {
            find_account(w, a)
        })
        &&& find_account(w2, a) == (if a == to {
            match find_account(w1, a) {
                Some(acc) => Some(f2(acc)),
                None => None::<AccountV>,
            }
        } else {
            find_account(w1, a)
        })
    } by {
        lemma_find_map_at_address(w, from, f1, a);
        lemma_find_map_at_address(w1, to, f2, a);
    }
    assert forall|es: Seq<DctBalanceV>, m: nat|
        dct_entry_of(#[trigger] with_dct_entry(es, token, nonce, m), token, nonce) == m by {
        lemma_find_dct_entry_set(es, token, nonce, m, token, nonce);
    }
    assert forall|es: Seq<DctBalanceV>, m: nat, t2: Seq<u8>, n2: u64|
        !(t2 == token && n2 == nonce) implies #[trigger] find_dct_entry(
        with_dct_entry(es, token, nonce, m),
        t2,
        n2,
    ) == find_dct_entry(es, t2, n2) by {
        lemma_find_dct_entry_set(es, token, nonce, m, t2, n2);
    }
}

/// With no match at any position there is no entry under the key.
pub proof fn lemma_no_match_means_no_dct_entry(es: Seq<DctBalanceV>, token: Seq<u8>, nonce: u64)
    requires
        forall|i: int|
            0 <= i < es.len() ==> !((#[trigger] es[i]).token_identifier == token && es[i].nonce
                == nonce),
    ensures
        find_dct_entry(es, token, nonce) is None,
    decreases es.len(),
{
    if es.len() > 0 {
        assert(forall|i: int|
            0 <= i < es.drop_first().len() ==> es.drop_first()[i] == es[i + 1]);
        lemma_no_match_means_no_dct_entry(es.drop_first(), token, nonce);
    }
}

/// An exact copy of a list of token balances.
pub fn clone_dct_entries(v: &Vec<DctBalanceEntry>) -> (r: Vec<DctBalanceEntry>)
    ensures
        r@.len() == v@.len(),
        forall|i: int| 0 <= i < v@.len() ==> r@[i]@ == v@[i]@,
{
    let mut r: Vec<DctBalanceEntry> = Vec::new();
    let mut i: usize = 0;
    while i < v.len()
        invariant
            i <= v.len(),
            r@.len() == i,
            forall|j: int| 0 <= j < i ==> r@[j]@ == v@[j]@,
        decreases v.len() - i,
    {
        let e = &v[i];
        r.push(
            DctBalanceEntry {
                token_identifier: clone_bytes(&e.token_identifier),
                nonce: e.nonce,
                amount: e.amount.duplicate(),
            },
        );
        i += 1;
    }
    r
}

/// An exact copy of a list of storage cells.
pub fn clone_storage_entries(v: &Vec<StorageEntry>) -> (r: Vec<StorageEntry>)
    ensures
        r@.len() == v@.len(),
        forall|i: int| 0 <= i < v@.len() ==> r@[i]@ == v@[i]@,
{
    let mut r: Vec<StorageEntry> = Vec::new();
    let mut i: usize = 0;
    while i < v.len()
        invariant
            i <= v.len(),
            r@.len() == i,
            forall|j: int| 0 <= j < i ==> r@[j]@ == v@[j]@,
        decreases v.len() - i,
    {
        let e = &v[i];
        r.push(StorageEntry { key: clone_bytes(&e.key), value: clone_bytes(&e.value) });
        i += 1;
    }
    r
}

impl AccountData {
    /// An exact copy of the account.
    pub fn duplicate(&self) -> (r: AccountData)
        ensures
            r@ == self@,
    {
        let r = AccountData {
            address: self.address.duplicate(),
            moax_balance: self.moax_balance.duplicate(),
            dct: clone_dct_entries(&self.dct),
            storage: clone_storage_entries(&self.storage),
        };
        assert(r@.dct =~= self@.dct);
        assert(r@.storage =~= self@.storage);
        r
    }

    /// The token balance amount recorded under the key; 0 with none.
    #[verifier::loop_isolation(false)]
    pub fn get_dct_amount(&self, token: &Vec<u8>, nonce: u64) -> (r: BigUint)
        ensures
            r@ == dct_entry_of(self@.dct, token@, nonce),
    {
        let mut i: usize = 0;
        let n = self.dct.len();
        while i < n
            invariant
                i <= n,
                forall|j: int|
                    0 <= j < i ==> !((#[trigger] self@.dct[j]).token_identifier == token@
                        && self@.dct[j].nonce == nonce),
            decreases n - i,
        {
            let e = &self.dct[i];
            if e.nonce == nonce && eq_bytes(&e.token_identifier, token) {
                proof {
                    lemma_find_dct_entry_skip(self@.dct, token@, nonce, i as int);
                    assert(self@.dct.skip(i as int).first() == self@.dct[i as int]);
                }
                return e.amount.duplicate();
            }
            i += 1;
        }
        proof {
            lemma_no_match_means_no_dct_entry(self@.dct, token@, nonce);
        }
        BigUint::new_zero()
    }

    /// The account with the token balance under the key set to the value,
    /// every other field kept.
    #[verifier::loop_isolation(false)]
    pub fn with_dct_amount(&self, token: &Vec<u8>, nonce: u64, value: &BigUint) -> (r: AccountData)
        ensures
            r@ == (AccountV { dct: with_dct_entry(self@.dct, token@, nonce, value@), ..self@ }),
    {
        let mut entries: Vec<DctBalanceEntry> = Vec::new();
        let mut found = false;
        let mut i: usize = 0;
        let n = self.dct.len();
        while i < n
            invariant
                i <= n,
                entries@.len() == i,
                found ==> exists|j: int|
                    0 <= j < i && (#[trigger] self@.dct[j]).token_identifier == token@
                        && self@.dct[j].nonce == nonce,
                !found ==> forall|j: int|
                    0 <= j < i ==> !((#[trigger] self@.dct[j]).token_identifier == token@
                        && self@.dct[j].nonce == nonce),
                forall|j: int|
                    0 <= j < i ==> entries@[j]@ == (if (#[trigger] self@.dct[j]).token_identifier
                        == token@ && self@.dct[j].nonce == nonce {
                        DctBalanceV { amount: value@, ..self@.dct[j] }
                    } else {
                        self@.dct[j]
                    }),
            decreases n - i,
        {
            let e = &self.dct[i];
            if e.nonce == nonce && eq_bytes(&e.token_identifier, token) {
                entries.push(
                    DctBalanceEntry {
                        token_identifier: clone_bytes(&e.token_identifier),
                        nonce: e.nonce,
                        amount: value.duplicate(),
                    },
                );
                found = true;
                proof {
                    assert(self@.dct[i as int].token_identifier == token@ && self@.dct[i as int].nonce
                        == nonce);
                }
            } else {
                entries.push(
                    DctBalanceEntry {
                        token_identifier: clone_bytes(&e.token_identifier),
                        nonce: e.nonce,
                        amount: e.amount.duplicate(),
                    },
                );
            }
            i += 1;
        }
        if !found {
            proof {
                lemma_no_match_means_no_dct_entry(self@.dct, token@, nonce);
            }
            entries.push(
                DctBalanceEntry {
                    token_identifier: clone_bytes(token),
                    nonce,
                    amount: value.duplicate(),
                },
            );
        } else {
            proof {
                if find_dct_entry(self@.dct, token@, nonce) is None {
                    lemma_no_dct_entry_means_no_match(self@.dct, token@, nonce);
                    let j = choose|j: int|
                        0 <= j < self@.dct.len() && (#[trigger] self@.dct[j]).token_identifier
                            == token@ && self@.dct[j].nonce == nonce;
                    assert(!(self@.dct[j].token_identifier == token@ && self@.dct[j].nonce == nonce));
                    assert(false);
                }
            }
        }
        let r = AccountData {
            address: self.address.duplicate(),
            moax_balance: self.moax_balance.duplicate(),
            dct: entries,
            storage: clone_storage_entries(&self.storage),
        };
        assert(r@.dct =~= with_dct_entry(self@.dct, token@, nonce, value@));
        assert(r@.storage =~= self@.storage);
        r
    }
}

/// The world after moving a native amount, or None when refused: every
/// party must have an account and the sender must hold the amount. The
/// sender's balance falls first, then the receiver's rises, so a transfer
/// to oneself leaves the balance as it was.
pub open spec fn apply_moax_transfer(
    w: Seq<AccountV>,
    from: Seq<u8>,
    to: Seq<u8>,
    amount: nat,
) -> Option<Seq<AccountV>> {
    if has_account(w, from) && has_account(w, to) && moax_of(w, from) >= amount {
        let w1 = with_moax(w, from, (moax_of(w, from) - amount) as nat);
        Some(with_moax(w1, to, (moax_of(w1, to) + amount) as nat))
    } else {
        None
    }
}

/// The world after moving a token amount, or None when refused: first the
/// sender's balance is reduced, then the receiver's is raised, so a
/// transfer to oneself leaves the balance as it was.
pub open spec fn apply_dct_transfer(
    w: Seq<AccountV>,
    from: Seq<u8>,
    to: Seq<u8>,
    token: Seq<u8>,
    nonce: u64,
    amount: nat,
) -> Option<Seq<AccountV>> {
    if has_account(w, from) && has_account(w, to) && dct_of(w, from, token, nonce) >= amount {
        let w1 = with_dct(w, from, token, nonce, (dct_of(w, from, token, nonce) - amount) as nat);
        Some(with_dct(w1, to, token, nonce, (dct_of(w1, to, token, nonce) + amount) as nat))
    } else {
        None
    }
}

impl WorldState {
    /// The empty ledger.
    pub fn new() -> (r: WorldState)
        ensures
            r@.len() == 0,
    {
        WorldState { accounts: Vec::new() }
    }

    /// An exact copy of the whole world: the snapshot taken on frame entry.
    pub fn snapshot(&self) -> (r: WorldState)
        ensures
            r@ == self@,
    {
        let mut accounts: Vec<AccountData> = Vec::new();
        let mut i: usize = 0;
        while i < self.accounts.len()
            invariant
                i <= self.accounts.len(),
                accounts@.len() == i,
                forall|j: int| 0 <= j < i ==> accounts@[j]@ == self.accounts@[j]@,
            decreases self.accounts.len() - i,
        {
            accounts.push(self.accounts[i].duplicate());
            i += 1;
        }
        let r = WorldState { accounts };
        assert(r@ =~= self@);
        r
    }

    /// Adds a fresh account; the address must not be taken yet.
    pub fn set_account(&mut self, account: AccountData)
        requires
            !has_account(old(self)@, account.address@),
        ensures
            final(self)@ == old(self)@.push(account@),
    {
        self.accounts.push(account);
        assert(final(self)@ =~= old(self)@.push(self.accounts@.last()@));
    }

    /// Whether the address has an account.
    #[verifier::loop_isolation(false)]
    pub fn account_exists(&self, addr: &Address) -> (r: bool)
        ensures
            r == has_account(self@, addr@),
    {
        let mut i: usize = 0;
        let n = self.accounts.len();
        while i < n
            invariant
                i <= n,
                forall|j: int| 0 <= j < i ==> (#[trigger] self@[j]).address != addr@,
            decreases n - i,
        {
            let acc = &self.accounts[i];
            if eq_bytes(&acc.address.bytes, &addr.bytes) {
                proof {
                    lemma_find_skip(self@, addr@, i as int);
                    assert(self@.skip(i as int).first() == self@[i as int]);
                }
                return true;
            }
            i += 1;
        }
        proof {
            lemma_find_skip(self@, addr@, n as int);
            assert(self@.skip(n as int) =~= Seq::<AccountV>::empty());
        }
        false
    }

    /// The native balance under the address; 0 with no account.
    #[verifier::loop_isolation(false)]
    pub fn get_moax_balance(&self, addr: &Address) -> (r: BigUint)
        ensures
            r@ == moax_of(self@, addr@),
    {
        let mut i: usize = 0;
        let n = self.accounts.len();
        while i < n
            invariant
                i <= n,
                forall|j: int| 0 <= j < i ==> (#[trigger] self@[j]).address != addr@,
            decreases n - i,
        {
            let acc = &self.accounts[i];
            if eq_bytes(&acc.address.bytes, &addr.bytes) {
                proof {
                    lemma_find_skip(self@, addr@, i as int);
                    assert(self@.skip(i as int).first() == self@[i as int]);
                }
                return acc.moax_balance.duplicate();
            }
            i += 1;
        }
        proof {
            lemma_find_skip(self@, addr@, n as int);
            assert(self@.skip(n as int) =~= Seq::<AccountV>::empty());
        }
        BigUint::new_zero()
    }

    /// The token balance under the address and key; 0 with no account.
    #[verifier::loop_isolation(false)]
    pub fn get_dct_balance(&self, addr: &Address, token: &Vec<u8>, nonce: u64) -> (r: BigUint)
        ensures
            r@ == dct_of(self@, addr@, token@, nonce),
    {
        let mut i: usize = 0;
        let n = self.accounts.len();
        while i < n
            invariant
                i <= n,
                forall|j: int| 0 <= j < i ==> (#[trigger] self@[j]).address != addr@,
            decreases n - i,
        {
            let acc = &self.accounts[i];
            if eq_bytes(&acc.address.bytes, &addr.bytes) {
                proof {
                    lemma_find_skip(self@, addr@, i as int);
                    assert(self@.skip(i as int).first() == self@[i as int]);
                }
                return acc.get_dct_amount(token, nonce);
            }
            i += 1;
        }
        proof {
            lemma_find_skip(self@, addr@, n as int);
            assert(self@.skip(n as int) =~= Seq::<AccountV>::empty());
        }
        BigUint::new_zero()
    }

    /// Sets the native balance of every account under the address.
    #[verifier::loop_isolation(false)]
    pub fn set_moax_balance(&mut self, addr: &Address, value: &BigUint)
        ensures
            final(self)@ == with_moax(old(self)@, addr@, value@),
    {
        let ghost w0 = self@;
        let n = self.accounts.len();
        let mut i: usize = 0;
        while i < n
            invariant
                i <= n,
                self.accounts@.len() == n,
                forall|j: int|
                    0 <= j < i ==> self@[j] == (if (#[trigger] w0[j]).address == addr@ {
                        AccountV { moax_balance: value@, ..w0[j] }
                    } else {
                        w0[j]
                    }),
                forall|j: int| i <= j < n ==> self@[j] == w0[j],
            decreases n - i,
        {
            let acc = &self.accounts[i];
            if eq_bytes(&acc.address.bytes, &addr.bytes) {
                let updated = AccountData {
                    address: acc.address.duplicate(),
                    moax_balance: value.duplicate(),
                    dct: clone_dct_entries(&acc.dct),
                    storage: clone_storage_entries(&acc.storage),
                };
                assert(updated@.dct =~= w0[i as int].dct);
                assert(updated@.storage =~= w0[i as int].storage);
                self.accounts.set(i, updated);
            }
            i += 1;
        }
        assert(final(self)@ =~= with_moax(w0, addr@, value@));
    }

    /// Sets the token balance of every account under the address.
    #[verifier::loop_isolation(false)]
    pub fn set_dct_balance(&mut self, addr: &Address, token: &Vec<u8>, nonce: u64, value: &BigUint)
        ensures
            final(self)@ == with_dct(old(self)@, addr@, token@, nonce, value@),
    {
        let ghost w0 = self@;
        let n = self.accounts.len();
        let mut i: usize = 0;
        while i < n
            invariant
                i <= n,
                self.accounts@.len() == n,
                forall|j: int|
                    0 <= j < i ==> self@[j] == (if (#[trigger] w0[j]).address == addr@ {
                        AccountV { dct: with_dct_entry(w0[j].dct, token@, nonce, value@), ..w0[j] }
                    } else {
                        w0[j]
                    }),
                forall|j: int| i <= j < n ==> self@[j] == w0[j],
            decreases n - i,
        {
            let acc = &self.accounts[i];
            if eq_bytes(&acc.address.bytes, &addr.bytes) {
                let updated = acc.with_dct_amount(token, nonce, value);
                self.accounts.set(i, updated);
            }
            i += 1;
        }
        assert(final(self)@ =~= with_dct(w0, addr@, token@, nonce, value@));
    }

    /// Moves a native amount between two accounts, or refuses: both must
    /// have accounts and the sender must hold the amount. On refusal the
    /// world is untouched.
    pub fn transfer_moax(&mut self, from: &Address, to: &Address, amount: &BigUint) -> (r: Result<
        (),
        TransferError,
    >)
        ensures
            r is Ok <==> apply_moax_transfer(old(self)@, from@, to@, amount@) is Some,
            r is Ok ==> final(self)@ == apply_moax_transfer(old(self)@, from@, to@, amount@)->0,
            r is Err ==> final(self)@ == old(self)@,
            !(has_account(old(self)@, from@) && has_account(old(self)@, to@)) ==> r == Err::<
                (),
                TransferError,
            >(TransferError::UnknownAccount),
            has_account(old(self)@, from@) && has_account(old(self)@, to@) && moax_of(
                old(self)@,
                from@,
            ) < amount@ ==> r == Err::<(), TransferError>(TransferError::InsufficientFunds),
    {
        if !self.account_exists(from) || !self.account_exists(to) {
            return Err(TransferError::UnknownAccount);
        }
        let bal_from = self.get_moax_balance(from);
        match big_checked_sub(&bal_from, amount) {
            None => Err(TransferError::InsufficientFunds),
            Some(new_from) => {
                self.set_moax_balance(from, &new_from);
                let bal_to = self.get_moax_balance(to);
                let new_to = big_add(&bal_to, amount);
                self.set_moax_balance(to, &new_to);
                Ok(())
            },
        }
    }

    /// Moves a token amount between two accounts, or refuses: both must
    /// have accounts and the sender must hold the amount under the key.
    /// On refusal the world is untouched.
    pub fn transfer_dct(
        &mut self,
        from: &Address,
        to: &Address,
        token: &Vec<u8>,
        nonce: u64,
        amount: &BigUint,
    ) -> (r: Result<(), TransferError>)
        ensures
            r is Ok <==> apply_dct_transfer(old(self)@, from@, to@, token@, nonce, amount@)
                is Some,
            r is Ok ==> final(self)@ == apply_dct_transfer(
                old(self)@,
                from@,
                to@,
                token@,
                nonce,
                amount@,
            )->0,
            r is Err ==> final(self)@ == old(self)@,
            !(has_account(old(self)@, from@) && has_account(old(self)@, to@)) ==> r == Err::<
                (),
                TransferError,
            >(TransferError::UnknownAccount),
            has_account(old(self)@, from@) && has_account(old(self)@, to@) && dct_of(
                old(self)@,
                from@,
                token@,
                nonce,
            ) < amount@ ==> r == Err::<(), TransferError>(TransferError::InsufficientFunds),
    {
        if !self.account_exists(from) || !self.account_exists(to) {
            return Err(TransferError::UnknownAccount);
        }
        let bal_from = self.get_dct_balance(from, token, nonce);
        match big_checked_sub(&bal_from, amount) {
            None => Err(TransferError::InsufficientFunds),
            Some(new_from) => {
                self.set_dct_balance(from, token, nonce, &new_from);
                let bal_to = self.get_dct_balance(to, token, nonce);
                let new_to = big_add(&bal_to, amount);
                self.set_dct_balance(to, token, nonce, &new_to);
                Ok(())
            },
        }
    }
}

} // verus!
