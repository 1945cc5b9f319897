use dharitri_mock::big_uint::BigUint;
use dharitri_mock::call_value::{CallValueError, CallValueWrapper, DebugApi};
use dharitri_mock::tx_input::TxInputDCT;

fn transfer(token: &[u8], nonce: u64, amount: &[u8]) -> TxInputDCT {
    TxInputDCT {
        token_identifier: token.to_vec(),
        nonce,
        value: BigUint { bytes: amount.to_vec() },
    }
}

fn wrapper(moax: &[u8], transfers: Vec<TxInputDCT>) -> CallValueWrapper<DebugApi> {
    CallValueWrapper::new(DebugApi {
        moax_value: BigUint { bytes: moax.to_vec() },
        dct_values: transfers,
    })
}

#[test]
fn test_transfer_count_and_transfer_at() {
    let cv = wrapper(
        &[],
        vec![transfer(b"TKA-000001", 0, &[5]), transfer(b"TKB-000001", 7, &[9])],
    );
    assert_eq!(cv.transfer_count(), 2);
    let t0 = cv.transfer_at(0);
    assert_eq!(t0.token_identifier, b"TKA-000001".to_vec());
    assert_eq!(t0.nonce, 0);
    assert_eq!(t0.value.bytes, vec![5]);
    let t1 = cv.transfer_at(1);
    assert_eq!(t1.token_identifier, b"TKB-000001".to_vec());
    assert_eq!(t1.nonce, 7);
    assert_eq!(t1.value.bytes, vec![9]);
    assert_eq!(wrapper(&[], vec![]).transfer_count(), 0);
}

#[test]
fn test_all_dct_transfers_preserves_order() {
    let cv = wrapper(
        &[],
        vec![
            transfer(b"TKA-000001", 0, &[1]),
            transfer(b"TKB-000001", 0, &[2]),
            transfer(b"TKC-000001", 0, &[3]),
        ],
    );
    let all = cv.all_dct_transfers();
    assert_eq!(all.len(), 3);
    assert_eq!(all[0].token_identifier, b"TKA-000001".to_vec());
    assert_eq!(all[1].token_identifier, b"TKB-000001".to_vec());
    assert_eq!(all[2].token_identifier, b"TKC-000001".to_vec());
    assert_eq!(all[2].value.bytes, vec![3]);
}

#[test]
fn test_moax_or_single_dct_native_case() {
    let cv = wrapper(&[100], vec![]);
    let p = cv.moax_or_single_dct().unwrap();
    assert!(p.token_identifier.is_moax());
    assert_eq!(p.token_nonce, 0);
    assert_eq!(p.amount.bytes, vec![100]);
}

#[test]
fn test_moax_or_single_dct_single_case() {
    let cv = wrapper(&[], vec![transfer(b"TKA-000001", 3, &[42])]);
    let p = cv.moax_or_single_dct().unwrap();
    assert!(p.token_identifier.is_dct());
    assert_eq!(p.token_nonce, 3);
    assert_eq!(p.amount.bytes, vec![42]);
}

#[test]
fn test_moax_or_single_dct_fails_on_two() {
    let cv = wrapper(
        &[],
        vec![transfer(b"TKA-000001", 0, &[5]), transfer(b"TKB-000001", 0, &[7])],
    );
    assert_eq!(
        cv.moax_or_single_dct().unwrap_err(),
        CallValueError::IncorrectNumDctTransfers
    );
}

#[test]
fn test_single_fungible_dct() {
    let cv = wrapper(&[], vec![transfer(b"TKA-000001", 0, &[8])]);
    let (token, amount) = cv.single_fungible_dct().unwrap();
    assert_eq!(token.into_bytes(), b"TKA-000001".to_vec());
    assert_eq!(amount.bytes, vec![8]);
    let cv = wrapper(&[], vec![transfer(b"TKA-000001", 4, &[8])]);
    assert_eq!(
        cv.single_fungible_dct().unwrap_err(),
        CallValueError::FungibleTokenExpected
    );
    let cv = wrapper(&[], vec![]);
    assert_eq!(
        cv.single_fungible_dct().unwrap_err(),
        CallValueError::IncorrectNumDctTransfers
    );
}

#[test]
fn test_moax_or_single_fungible_dct() {
    let cv = wrapper(&[9], vec![]);
    let (token, amount) = cv.moax_or_single_fungible_dct().unwrap();
    assert!(token.is_moax());
    assert_eq!(amount.bytes, vec![9]);
    let cv = wrapper(&[], vec![transfer(b"TKA-000001", 1, &[8])]);
    assert_eq!(
        cv.moax_or_single_fungible_dct().unwrap_err(),
        CallValueError::FungibleTokenExpected
    );
}

#[test]
fn test_multi_dct_cardinality() {
    let cv = wrapper(
        &[],
        vec![transfer(b"TKA-000001", 0, &[5]), transfer(b"TKB-000001", 0, &[7])],
    );
    let two = cv.multi_dct(2).unwrap();
    assert_eq!(two.len(), 2);
    assert_eq!(
        cv.multi_dct(3).unwrap_err(),
        CallValueError::IncorrectNumDctTransfers
    );
    let single = cv.single_dct();
    assert_eq!(single.unwrap_err(), CallValueError::IncorrectNumDctTransfers);
}

#[test]
fn test_moax_value_zero_with_transfers() {
    let cv = wrapper(&[100], vec![transfer(b"TKA-000001", 0, &[5])]);
    // a call carrying token transfers resolves to a native value of 0
    assert_eq!(cv.moax_value().bytes, Vec::<u8>::new());
    let cv = wrapper(&[100], vec![]);
    assert_eq!(cv.moax_value().bytes, vec![100]);
}

#[test]
fn test_dct_value() {
    let cv = wrapper(&[], vec![transfer(b"TKA-000001", 0, &[33])]);
    assert_eq!(cv.dct_value().bytes, vec![33]);
}

#[test]
fn test_check_not_payable() {
    assert!(wrapper(&[], vec![]).check_not_payable().is_ok());
    assert_eq!(
        wrapper(&[1], vec![]).check_not_payable().unwrap_err(),
        CallValueError::NonPayable
    );
    assert_eq!(
        wrapper(&[], vec![transfer(b"TKA-000001", 0, &[1])])
            .check_not_payable()
            .unwrap_err(),
        CallValueError::NonPayable
    );
}

#[test]
fn test_load_all_dct_transfers_from_unmanaged() {
    let api = DebugApi {
        moax_value: BigUint { bytes: vec![] },
        dct_values: vec![transfer(b"TKA-000001", 0, &[5]), transfer(b"TKB-000001", 2, &[7])],
    };
    let loaded = dharitri_mock::call_value::load_all_dct_transfers_from_unmanaged(&api);
    assert_eq!(loaded.len(), 2);
    assert_eq!(loaded[0].token_identifier, b"TKA-000001".to_vec());
    assert_eq!(loaded[1].nonce, 2);
    assert_eq!(loaded[1].value.bytes, vec![7]);
}
