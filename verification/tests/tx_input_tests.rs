use dharitri_mock::big_uint::BigUint;
use dharitri_mock::tx_input::{Address, TxInput, TxInputDCT};
use dharitri_mock::world_state::{AccountData, TransferError, WorldState};

#[test]
fn test_dummy() {
    let tx = TxInput::dummy();
    assert_eq!(tx.from.bytes, vec![0u8; 32]);
    assert_eq!(tx.to.bytes, vec![0u8; 32]);
    assert_eq!(tx.moax_value.bytes, vec![0]);
    assert!(tx.dct_values.is_empty());
    assert!(tx.func_name.is_empty());
    assert!(tx.args.is_empty());
    assert_eq!(tx.gas_limit, 0);
    assert_eq!(tx.gas_price, 0);
    assert_eq!(tx.tx_hash.bytes, vec![0u8; 32]);
}

#[test]
fn test_add_arg() {
    let mut tx = TxInput::dummy();
    tx.add_arg(vec![1, 2, 3]);
    tx.add_arg(vec![4]);
    assert_eq!(tx.args, vec![vec![1, 2, 3], vec![4]]);
    assert!(tx.dct_values.is_empty());
}

#[test]
fn test_duplicate_is_deep() {
    let mut tx = TxInput::dummy();
    tx.add_arg(vec![9]);
    tx.dct_values.push(TxInputDCT {
        token_identifier: b"TKA-000001".to_vec(),
        nonce: 1,
        value: BigUint { bytes: vec![2] },
    });
    let copy = tx.duplicate();
    assert_eq!(copy.args, tx.args);
    assert_eq!(copy.dct_values[0].token_identifier, tx.dct_values[0].token_identifier);
    assert_eq!(copy.dct_values[0].value.bytes, tx.dct_values[0].value.bytes);
}

fn named_address(name: &[u8]) -> Address {
    let mut bytes = name.to_vec();
    bytes.resize(32, b'_');
    Address { bytes }
}

#[test]
fn test_world_transfer_moax() {
    let mut world = WorldState::new();
    world.set_account(AccountData {
        address: named_address(b"a"),
        moax_balance: BigUint { bytes: vec![10] },
        dct: vec![],
        storage: vec![],
    });
    world.set_account(AccountData {
        address: named_address(b"b"),
        moax_balance: BigUint { bytes: vec![] },
        dct: vec![],
        storage: vec![],
    });
    let a = named_address(b"a");
    let b = named_address(b"b");
    world.transfer_moax(&a, &b, &BigUint { bytes: vec![4] }).unwrap();
    assert_eq!(world.get_moax_balance(&a).bytes, vec![6]);
    assert_eq!(world.get_moax_balance(&b).bytes, vec![4]);
    let err = world.transfer_moax(&a, &b, &BigUint { bytes: vec![7] }).unwrap_err();
    assert_eq!(err, TransferError::InsufficientFunds);
    let err = world
        .transfer_moax(&named_address(b"nobody"), &b, &BigUint { bytes: vec![1] })
        .unwrap_err();
    assert_eq!(err, TransferError::UnknownAccount);
}

#[test]
fn test_world_transfer_dct_creates_entry() {
    let mut world = WorldState::new();
    let mut a_acc = AccountData {
        address: named_address(b"a"),
        moax_balance: BigUint { bytes: vec![] },
        dct: vec![],
        storage: vec![],
    };
    a_acc.dct.push(dharitri_mock::world_state::DctBalanceEntry {
        token_identifier: b"TKA-000001".to_vec(),
        nonce: 0,
        amount: BigUint { bytes: vec![9] },
    });
    world.set_account(a_acc);
    world.set_account(AccountData {
        address: named_address(b"b"),
        moax_balance: BigUint { bytes: vec![] },
        dct: vec![],
        storage: vec![],
    });
    let a = named_address(b"a");
    let b = named_address(b"b");
    let token = b"TKA-000001".to_vec();
    world.transfer_dct(&a, &b, &token, 0, &BigUint { bytes: vec![3] }).unwrap();
    assert_eq!(world.get_dct_balance(&a, &token, 0).bytes, vec![6]);
    assert_eq!(world.get_dct_balance(&b, &token, 0).bytes, vec![3]);
    // the receiver had no entry for this token before the transfer
    assert_eq!(world.get_dct_balance(&b, &token, 5).bytes, Vec::<u8>::new());
}

#[test]
fn test_snapshot_restores_exactly() {
    let mut world = WorldState::new();
    world.set_account(AccountData {
        address: named_address(b"a"),
        moax_balance: BigUint { bytes: vec![10] },
        dct: vec![],
        storage: vec![],
    });
    world.set_account(AccountData {
        address: named_address(b"b"),
        moax_balance: BigUint { bytes: vec![1] },
        dct: vec![],
        storage: vec![],
    });
    let snapshot = world.snapshot();
    let a = named_address(b"a");
    let b = named_address(b"b");
    world.transfer_moax(&a, &b, &BigUint { bytes: vec![4] }).unwrap();
    assert_eq!(world.get_moax_balance(&a).bytes, vec![6]);
    let restored = snapshot;
    assert_eq!(restored.get_moax_balance(&a).bytes, vec![10]);
    assert_eq!(restored.get_moax_balance(&b).bytes, vec![1]);
}
