use dharitri_mock::big_uint::BigUint;
use dharitri_mock::call_value::CallValueError;
use dharitri_mock::engine::{
    run_transaction, CheckStatus, ContractEndpoint, ContractRegistry, ExecutionError, NestedCall,
    TxInstruction, TxResultStatus,
};
use dharitri_mock::scenario::{TxCall, TxCallRaw, TxDCTRaw};
use dharitri_mock::tx_input::Address;
use dharitri_mock::world_state::{AccountData, DctBalanceEntry, StorageEntry, TransferError, WorldState};

fn named_address(name: &[u8]) -> Address {
    let mut bytes = name.to_vec();
    bytes.resize(32, b'_');
    Address { bytes }
}

fn account(name: &[u8], moax: &[u8]) -> AccountData {
    AccountData {
        address: named_address(name),
        moax_balance: BigUint { bytes: moax.to_vec() },
        dct: vec![],
        storage: vec![],
    }
}

fn raw_fixture(function: &[u8]) -> TxCallRaw {
    TxCallRaw {
        from: b"address:alice".to_vec(),
        to: b"address:bob".to_vec(),
        value: None,
        moax_value: None,
        dct_value: vec![],
        function: function.to_vec(),
        arguments: vec![],
        gas_limit: b"100".to_vec(),
        gas_price: b"0".to_vec(),
    }
}

fn registry_with(name: &[u8], instructions: Vec<TxInstruction>) -> ContractRegistry {
    ContractRegistry { endpoints: vec![ContractEndpoint { name: name.to_vec(), instructions }] }
}

#[test]
fn test_scenario_native_payment_success() {
    // fixture {from: A, to: B, nativeAmount: 100, function: "foo", arguments: []}
    // against a contract that requires exactly one native-or-token payment
    let mut raw = raw_fixture(b"foo");
    raw.moax_value = Some(b"100".to_vec());
    let call = TxCall::interpret_from(raw).unwrap();
    let tx = call.to_tx_input();
    // the descriptor carries a native amount of 100 at contract entry
    assert_eq!(tx.moax_value.bytes, vec![100]);

    let mut world = WorldState::new();
    world.set_account(account(b"alice", &[100]));
    world.set_account(account(b"bob", &[]));
    let registry = registry_with(b"foo", vec![TxInstruction::AcceptMoaxOrSingleDct]);
    let result = run_transaction(&mut world, &registry, &tx, 10);
    assert!(result.status.is_success());
    assert!(CheckStatus::Success.check(&result.status));
    assert_eq!(world.get_moax_balance(&named_address(b"bob")).bytes, vec![100]);
    assert_eq!(world.get_moax_balance(&named_address(b"alice")).bytes, vec![0]);
}

#[test]
fn test_scenario_two_transfers_cardinality_failure() {
    // fixture with two token transfers [{T1,0,5},{T2,0,7}] and no native
    // amount, against a contract calling the native-or-single resolver
    let mut raw = raw_fixture(b"foo");
    raw.dct_value = vec![
        TxDCTRaw {
            token_identifier: b"str:TKA-000001".to_vec(),
            nonce: b"0".to_vec(),
            value: b"5".to_vec(),
        },
        TxDCTRaw {
            token_identifier: b"str:TKB-000001".to_vec(),
            nonce: b"0".to_vec(),
            value: b"7".to_vec(),
        },
    ];
    let call = TxCall::interpret_from(raw).unwrap();
    let tx = call.to_tx_input();

    let mut world = WorldState::new();
    let mut alice = account(b"alice", &[]);
    alice.dct = vec![
        DctBalanceEntry {
            token_identifier: b"TKA-000001".to_vec(),
            nonce: 0,
            amount: BigUint { bytes: vec![5] },
        },
        DctBalanceEntry {
            token_identifier: b"TKB-000001".to_vec(),
            nonce: 0,
            amount: BigUint { bytes: vec![7] },
        },
    ];
    world.set_account(alice);
    world.set_account(account(b"bob", &[]));
    let registry = registry_with(b"foo", vec![TxInstruction::AcceptMoaxOrSingleDct]);
    let result = run_transaction(&mut world, &registry, &tx, 10);
    assert_eq!(
        result.status,
        TxResultStatus::Failure(ExecutionError::CallValue(
            CallValueError::IncorrectNumDctTransfers
        ))
    );
    // a checker expecting failure status passes
    assert!(CheckStatus::Failure.check(&result.status));
    // the failed transaction rolled back: alice still holds her tokens
    let alice_addr = named_address(b"alice");
    assert_eq!(
        world.get_dct_balance(&alice_addr, &b"TKA-000001".to_vec(), 0).bytes,
        vec![5]
    );
    assert_eq!(
        world.get_dct_balance(&alice_addr, &b"TKB-000001".to_vec(), 0).bytes,
        vec![7]
    );
}

#[test]
fn test_nested_call_rollback() {
    // the parent catches a failing child; the world after the parent
    // resumes is exactly the world before the nested call was issued
    let alice = named_address(b"alice");
    let bob = named_address(b"bob");
    let carol = named_address(b"carol");
    let mut world = WorldState::new();
    world.set_account(account(b"alice", &[100]));
    let mut bob_acc = account(b"bob", &[50]);
    bob_acc.storage = vec![StorageEntry { key: b"k".to_vec(), value: b"v".to_vec() }];
    world.set_account(bob_acc);
    world.set_account(account(b"carol", &[]));

    // child: bob pays carol 30, then signals an error
    let registry = ContractRegistry {
        endpoints: vec![
            ContractEndpoint {
                name: b"outer".to_vec(),
                instructions: vec![TxInstruction::SyncCall {
                    call: NestedCall {
                        to: named_address(b"bob"),
                        moax_value: BigUint { bytes: vec![] },
                        dct_values: vec![],
                        func_name: b"inner".to_vec(),
                        arguments: vec![],
                        gas_limit: 50,
                    },
                    catch: true,
                }],
            },
            ContractEndpoint {
                name: b"inner".to_vec(),
                instructions: vec![
                    TxInstruction::TransferExecute {
                        call: NestedCall {
                            to: named_address(b"carol"),
                            moax_value: BigUint { bytes: vec![30] },
                            dct_values: vec![],
                            func_name: vec![],
                            arguments: vec![],
                            gas_limit: 10,
                        },
                    },
                    TxInstruction::SignalError,
                ],
            },
        ],
    };

    let mut tx = dharitri_mock::tx_input::TxInput::dummy();
    tx.from = alice.duplicate();
    tx.to = named_address(b"bob");
    tx.func_name = b"outer".to_vec();
    let result = run_transaction(&mut world, &registry, &tx, 20);
    // the parent caught the child's failure and succeeded
    assert!(result.status.is_success());
    // the child's value movement was rolled back with the child
    assert_eq!(world.get_moax_balance(&bob).bytes, vec![50]);
    assert_eq!(world.get_moax_balance(&carol).bytes, Vec::<u8>::new());
    assert_eq!(world.get_moax_balance(&alice).bytes, vec![100]);
}

#[test]
fn test_transfer_execute_moves_value_despite_child_failure() {
    let bob = named_address(b"bob");
    let carol = named_address(b"carol");
    let mut world = WorldState::new();
    world.set_account(account(b"alice", &[100]));
    world.set_account(account(b"bob", &[50]));
    world.set_account(account(b"carol", &[]));

    // bob transfer-and-executes 30 to carol, whose endpoint fails;
    // the value stays moved, and bob's own frame then goes on
    let registry = ContractRegistry {
        endpoints: vec![
            ContractEndpoint {
                name: b"outer".to_vec(),
                instructions: vec![TxInstruction::TransferExecute {
                    call: NestedCall {
                        to: named_address(b"carol"),
                        moax_value: BigUint { bytes: vec![30] },
                        dct_values: vec![],
                        func_name: b"failing".to_vec(),
                        arguments: vec![],
                        gas_limit: 10,
                    },
                }],
            },
            ContractEndpoint {
                name: b"failing".to_vec(),
                instructions: vec![TxInstruction::SignalError],
            },
        ],
    };

    let mut tx = dharitri_mock::tx_input::TxInput::dummy();
    tx.from = named_address(b"alice");
    tx.to = named_address(b"bob");
    tx.func_name = b"outer".to_vec();
    let result = run_transaction(&mut world, &registry, &tx, 20);
    assert!(result.status.is_success());
    assert_eq!(world.get_moax_balance(&carol).bytes, vec![30]);
    assert_eq!(world.get_moax_balance(&bob).bytes, vec![20]);
}

#[test]
fn test_uncaught_child_failure_propagates() {
    let mut world = WorldState::new();
    world.set_account(account(b"alice", &[100]));
    world.set_account(account(b"bob", &[50]));
    let registry = ContractRegistry {
        endpoints: vec![
            ContractEndpoint {
                name: b"outer".to_vec(),
                instructions: vec![
                    TxInstruction::EmitLog {
                        endpoint: b"before".to_vec(),
                        topics: vec![],
                        data: vec![],
                    },
                    TxInstruction::SyncCall {
                        call: NestedCall {
                            to: named_address(b"bob"),
                            moax_value: BigUint { bytes: vec![] },
                            dct_values: vec![],
                            func_name: b"failing".to_vec(),
                            arguments: vec![],
                            gas_limit: 10,
                        },
                        catch: false,
                    },
                ],
            },
            ContractEndpoint {
                name: b"failing".to_vec(),
                instructions: vec![TxInstruction::SignalError],
            },
        ],
    };
    let mut tx = dharitri_mock::tx_input::TxInput::dummy();
    tx.from = named_address(b"alice");
    tx.to = named_address(b"bob");
    tx.func_name = b"outer".to_vec();
    let result = run_transaction(&mut world, &registry, &tx, 20);
    assert_eq!(
        result.status,
        TxResultStatus::Failure(ExecutionError::SignalledError)
    );
    // a failed top-level transaction commits no logs
    assert_eq!(result.logs.len(), 0);
}

#[test]
fn test_plain_transfer_and_logs() {
    let mut world = WorldState::new();
    world.set_account(account(b"alice", &[100]));
    world.set_account(account(b"bob", &[]));
    let registry = ContractRegistry { endpoints: vec![] };
    // an empty function name is a plain value transfer
    let mut tx = dharitri_mock::tx_input::TxInput::dummy();
    tx.from = named_address(b"alice");
    tx.to = named_address(b"bob");
    tx.moax_value = BigUint { bytes: vec![40] };
    let result = run_transaction(&mut world, &registry, &tx, 10);
    assert!(result.status.is_success());
    assert_eq!(world.get_moax_balance(&named_address(b"bob")).bytes, vec![40]);
    assert_eq!(world.get_moax_balance(&named_address(b"alice")).bytes, vec![60]);
}

#[test]
fn test_emitted_logs_reach_the_result() {
    let mut world = WorldState::new();
    world.set_account(account(b"alice", &[1]));
    world.set_account(account(b"bob", &[]));
    let registry = registry_with(
        b"foo",
        vec![TxInstruction::EmitLog {
            endpoint: b"myEvent".to_vec(),
            topics: vec![b"t0".to_vec()],
            data: b"d".to_vec(),
        }],
    );
    let mut tx = dharitri_mock::tx_input::TxInput::dummy();
    tx.from = named_address(b"alice");
    tx.to = named_address(b"bob");
    tx.func_name = b"foo".to_vec();
    let result = run_transaction(&mut world, &registry, &tx, 10);
    assert!(result.status.is_success());
    assert_eq!(result.logs.len(), 1);
    // the log carries the executing contract's address
    assert_eq!(result.logs[0].address.bytes, named_address(b"bob").bytes);
    assert_eq!(result.logs[0].endpoint, b"myEvent".to_vec());
    assert_eq!(result.logs[0].topics, vec![b"t0".to_vec()]);
    assert_eq!(result.logs[0].data, b"d".to_vec());
}

#[test]
fn test_async_call_runs_after_sync_portion() {
    let mut world = WorldState::new();
    world.set_account(account(b"alice", &[1]));
    world.set_account(account(b"bob", &[50]));
    world.set_account(account(b"carol", &[]));
    let registry = ContractRegistry {
        endpoints: vec![ContractEndpoint {
            name: b"outer".to_vec(),
            instructions: vec![TxInstruction::AsyncCall {
                call: NestedCall {
                    to: named_address(b"carol"),
                    moax_value: BigUint { bytes: vec![25] },
                    dct_values: vec![],
                    func_name: vec![],
                    arguments: vec![],
                    gas_limit: 10,
                },
            }],
        }],
    };
    let mut tx = dharitri_mock::tx_input::TxInput::dummy();
    tx.from = named_address(b"alice");
    tx.to = named_address(b"bob");
    tx.func_name = b"outer".to_vec();
    let result = run_transaction(&mut world, &registry, &tx, 10);
    assert!(result.status.is_success());
    // the deferred transfer ran in the second pass
    assert_eq!(world.get_moax_balance(&named_address(b"carol")).bytes, vec![25]);
    assert_eq!(world.get_moax_balance(&named_address(b"bob")).bytes, vec![25]);
}

#[test]
fn test_async_callback_delivery() {
    let mut world = WorldState::new();
    world.set_account(account(b"alice", &[1]));
    world.set_account(account(b"bob", &[50]));
    world.set_account(account(b"carol", &[]));
    let registry = ContractRegistry {
        endpoints: vec![
            ContractEndpoint {
                name: b"outer".to_vec(),
                instructions: vec![TxInstruction::AsyncCall {
                    call: NestedCall {
                        to: named_address(b"carol"),
                        moax_value: BigUint { bytes: vec![25] },
                        dct_values: vec![],
                        func_name: vec![],
                        arguments: vec![],
                        gas_limit: 10,
                    },
                }],
            },
            ContractEndpoint {
                name: b"callBack".to_vec(),
                instructions: vec![TxInstruction::EmitLog {
                    endpoint: b"cb".to_vec(),
                    topics: vec![],
                    data: vec![],
                }],
            },
        ],
    };
    let mut tx = dharitri_mock::tx_input::TxInput::dummy();
    tx.from = named_address(b"alice");
    tx.to = named_address(b"bob");
    tx.func_name = b"outer".to_vec();
    let result = run_transaction(&mut world, &registry, &tx, 10);
    assert!(result.status.is_success());
    // the callback ran at the caller and left its log
    assert_eq!(result.logs.len(), 1);
    assert_eq!(result.logs[0].endpoint, b"cb".to_vec());
    assert_eq!(result.logs[0].address.bytes, named_address(b"bob").bytes);
}

#[test]
fn test_gas_exhaustion() {
    let mut world = WorldState::new();
    world.set_account(account(b"alice", &[100]));
    world.set_account(account(b"bob", &[]));
    let registry = ContractRegistry { endpoints: vec![] };
    let mut tx = dharitri_mock::tx_input::TxInput::dummy();
    tx.from = named_address(b"alice");
    tx.to = named_address(b"bob");
    tx.moax_value = BigUint { bytes: vec![40] };
    let result = run_transaction(&mut world, &registry, &tx, 0);
    assert_eq!(
        result.status,
        TxResultStatus::Failure(ExecutionError::GasExhausted)
    );
    assert_eq!(world.get_moax_balance(&named_address(b"alice")).bytes, vec![100]);
}

#[test]
fn test_deferred_calls_beyond_budget_exhaust_gas() {
    let mut world = WorldState::new();
    world.set_account(account(b"alice", &[100]));
    world.set_account(account(b"bob", &[50]));
    world.set_account(account(b"carol", &[]));
    fn deferred_call() -> NestedCall {
        NestedCall {
            to: {
                let mut bytes = b"carol".to_vec();
                bytes.resize(32, b'_');
                Address { bytes }
            },
            moax_value: BigUint { bytes: vec![5] },
            dct_values: vec![],
            func_name: vec![],
            arguments: vec![],
            gas_limit: 10,
        }
    }
    let registry = registry_with(
        b"outer",
        vec![
            TxInstruction::AsyncCall { call: deferred_call() },
            TxInstruction::AsyncCall { call: deferred_call() },
        ],
    );
    let mut tx = dharitri_mock::tx_input::TxInput::dummy();
    tx.from = named_address(b"alice");
    tx.to = named_address(b"bob");
    tx.func_name = b"outer".to_vec();
    // a budget of 1 drains only one of the two deferred calls: the whole
    // transaction is aborted and the world restored
    let result = run_transaction(&mut world, &registry, &tx, 1);
    assert_eq!(
        result.status,
        TxResultStatus::Failure(ExecutionError::GasExhausted)
    );
    assert!(CheckStatus::Unspecified.check(&result.status));
    assert!(!CheckStatus::Success.check(&result.status));
    assert_eq!(world.get_moax_balance(&named_address(b"bob")).bytes, vec![50]);
    assert_eq!(
        world.get_moax_balance(&named_address(b"carol")).bytes,
        Vec::<u8>::new()
    );
}

#[test]
fn test_function_not_found_and_insufficient_funds() {
    let mut world = WorldState::new();
    world.set_account(account(b"alice", &[10]));
    world.set_account(account(b"bob", &[]));
    let registry = ContractRegistry { endpoints: vec![] };
    let mut tx = dharitri_mock::tx_input::TxInput::dummy();
    tx.from = named_address(b"alice");
    tx.to = named_address(b"bob");
    tx.func_name = b"missing".to_vec();
    let result = run_transaction(&mut world, &registry, &tx, 10);
    assert_eq!(
        result.status,
        TxResultStatus::Failure(ExecutionError::FunctionNotFound)
    );

    let mut tx = dharitri_mock::tx_input::TxInput::dummy();
    tx.from = named_address(b"alice");
    tx.to = named_address(b"bob");
    tx.moax_value = BigUint { bytes: vec![99] };
    let result = run_transaction(&mut world, &registry, &tx, 10);
    assert_eq!(
        result.status,
        TxResultStatus::Failure(ExecutionError::Transfer(TransferError::InsufficientFunds))
    );
    assert_eq!(world.get_moax_balance(&named_address(b"alice")).bytes, vec![10]);
}
