use dharitri_mock::scenario::{
    interpret_bytes, interpret_moax_value, interpret_u64, AddressValue, InterpretError, TxCall,
    TxCallRaw, TxDCTRaw,
};

fn empty_raw_call() -> TxCallRaw {
    TxCallRaw {
        from: b"address:alice".to_vec(),
        to: b"address:bob".to_vec(),
        value: None,
        moax_value: None,
        dct_value: vec![],
        function: vec![],
        arguments: vec![],
        gas_limit: b"5000".to_vec(),
        gas_price: b"0".to_vec(),
    }
}

#[test]
fn test_interpret_bytes_hex() {
    assert_eq!(interpret_bytes(&b"0x0a0b".to_vec()).unwrap(), vec![10, 11]);
    assert_eq!(interpret_bytes(&b"0x".to_vec()).unwrap(), Vec::<u8>::new());
    assert_eq!(interpret_bytes(&b"0xFF".to_vec()).unwrap(), vec![255]);
}

#[test]
fn test_interpret_bytes_str_and_empty() {
    assert_eq!(interpret_bytes(&b"str:hello".to_vec()).unwrap(), b"hello".to_vec());
    assert_eq!(interpret_bytes(&b"".to_vec()).unwrap(), Vec::<u8>::new());
}

#[test]
fn test_interpret_bytes_decimal() {
    assert_eq!(interpret_bytes(&b"100".to_vec()).unwrap(), vec![100]);
    assert_eq!(interpret_bytes(&b"256".to_vec()).unwrap(), vec![1, 0]);
    // zero has the empty minimal encoding
    assert_eq!(interpret_bytes(&b"0".to_vec()).unwrap(), Vec::<u8>::new());
}

#[test]
fn test_interpret_bytes_errors() {
    assert_eq!(
        interpret_bytes(&b"0x0g".to_vec()).unwrap_err(),
        InterpretError::BadHexLiteral
    );
    assert_eq!(
        interpret_bytes(&b"0x123".to_vec()).unwrap_err(),
        InterpretError::BadHexLiteral
    );
    assert_eq!(
        interpret_bytes(&b"12a".to_vec()).unwrap_err(),
        InterpretError::BadNumberLiteral
    );
}

#[test]
fn test_interpret_u64() {
    assert_eq!(interpret_u64(&b"5000".to_vec()).unwrap(), 5000);
    assert_eq!(interpret_u64(&b"".to_vec()).unwrap(), 0);
    assert_eq!(
        interpret_u64(&b"18446744073709551615".to_vec()).unwrap(),
        u64::MAX
    );
    assert_eq!(
        interpret_u64(&b"18446744073709551616".to_vec()).unwrap_err(),
        InterpretError::U64OutOfRange
    );
    assert_eq!(
        interpret_u64(&b"12a".to_vec()).unwrap_err(),
        InterpretError::BadNumberLiteral
    );
}

#[test]
fn test_interpret_address_shorthand() {
    let a = AddressValue::interpret_from(b"address:alice".to_vec()).unwrap();
    let mut expected = b"alice".to_vec();
    expected.resize(32, b'_');
    assert_eq!(a.value.bytes, expected);
    assert_eq!(a.original, b"address:alice".to_vec());
    let err = AddressValue::interpret_from(
        b"address:a23456789012345678901234567890123".to_vec(),
    )
    .unwrap_err();
    assert_eq!(err, InterpretError::AddressTooLong);
    let err = AddressValue::interpret_from(b"bob".to_vec()).unwrap_err();
    assert_eq!(err, InterpretError::BadAddressLiteral);
}

#[test]
fn test_moax_value_precedence() {
    // the explicit field wins over the legacy bare field when both exist
    let both = interpret_moax_value(&Some(b"7".to_vec()), &Some(b"100".to_vec())).unwrap();
    assert_eq!(both.value.bytes, vec![100]);
    assert_eq!(both.original, b"100".to_vec());
    let legacy_only = interpret_moax_value(&Some(b"7".to_vec()), &None).unwrap();
    assert_eq!(legacy_only.value.bytes, vec![7]);
    let neither = interpret_moax_value(&None, &None).unwrap();
    assert_eq!(neither.value.bytes, Vec::<u8>::new());
}

#[test]
fn test_tx_call_interpret_from() {
    let mut raw = empty_raw_call();
    raw.moax_value = Some(b"100".to_vec());
    raw.function = b"foo".to_vec();
    raw.arguments = vec![b"0x01".to_vec(), b"str:x".to_vec()];
    raw.dct_value = vec![TxDCTRaw {
        token_identifier: b"str:TKA-000001".to_vec(),
        nonce: b"0".to_vec(),
        value: b"5".to_vec(),
    }];
    let call = TxCall::interpret_from(raw).unwrap();
    assert_eq!(call.moax_value.value.bytes, vec![100]);
    assert_eq!(call.function, b"foo".to_vec());
    assert_eq!(call.arguments.len(), 2);
    assert_eq!(call.arguments[0].value, vec![1]);
    assert_eq!(call.arguments[1].value, b"x".to_vec());
    assert_eq!(call.dct_value.len(), 1);
    assert_eq!(call.dct_value[0].token_identifier.value, b"TKA-000001".to_vec());
    assert_eq!(call.dct_value[0].nonce.value, 0);
    assert_eq!(call.dct_value[0].value.value.bytes, vec![5]);
    assert_eq!(call.gas_limit.value, 5000);
    assert_eq!(call.gas_price.value, 0);
}

#[test]
fn test_tx_call_interpret_error_aborts() {
    let mut raw = empty_raw_call();
    raw.arguments = vec![b"0xzz".to_vec()];
    assert_eq!(
        TxCall::interpret_from(raw).unwrap_err(),
        InterpretError::BadHexLiteral
    );
    let mut raw = empty_raw_call();
    raw.gas_limit = b"many".to_vec();
    assert_eq!(
        TxCall::interpret_from(raw).unwrap_err(),
        InterpretError::BadNumberLiteral
    );
}

#[test]
fn test_tx_call_into_raw_round_trip() {
    let mut raw = empty_raw_call();
    raw.value = Some(b"7".to_vec());
    raw.function = b"foo".to_vec();
    raw.arguments = vec![b"123".to_vec()];
    let call = TxCall::interpret_from(raw).unwrap();
    let back = call.into_raw();
    assert_eq!(back.from, b"address:alice".to_vec());
    assert_eq!(back.to, b"address:bob".to_vec());
    // the amount goes back out under the canonical spelling alone
    assert_eq!(back.value, None);
    assert_eq!(back.moax_value, Some(b"7".to_vec()));
    assert_eq!(back.function, b"foo".to_vec());
    assert_eq!(back.arguments, vec![b"123".to_vec()]);
    assert_eq!(back.gas_limit, b"5000".to_vec());
}

#[test]
fn test_to_tx_input() {
    let mut raw = empty_raw_call();
    raw.moax_value = Some(b"100".to_vec());
    raw.function = b"foo".to_vec();
    let call = TxCall::interpret_from(raw).unwrap();
    let tx = call.to_tx_input();
    assert_eq!(tx.from.bytes, call.from.value.bytes);
    assert_eq!(tx.to.bytes, call.to.value.bytes);
    assert_eq!(tx.moax_value.bytes, vec![100]);
    assert_eq!(tx.func_name, b"foo".to_vec());
    assert_eq!(tx.gas_limit, 5000);
    assert_eq!(tx.tx_hash.bytes, vec![0u8; 32]);
}
