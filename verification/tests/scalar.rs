use can_dbc::{
    access_type, big_endian, byte_order, env_var_type, ieee_double_64bit, ieee_float_32bit,
    little_endian, message_id, multiplexer, multiplexer_indicator, multiplexor, plain,
    signal_extended_value_type, signed, signed_or_unsigned_integer, unsigned, value_type,
    AccessType, ByteOrder, EnvType, ErrorKind, MessageId, MultiplexIndicator, ParseError,
    SignalExtendedValueType, ValueType,
};

fn failure(input: &[u8], kind: ErrorKind) -> ParseError<'_> {
    ParseError { input, kind }
}

#[test]
fn byte_order_takes_one_byte() {
    assert_eq!(byte_order(b"0+"), Ok((&b"+"[..], ByteOrder::BigEndian)));
    assert_eq!(byte_order(b"1-"), Ok((&b"-"[..], ByteOrder::LittleEndian)));
    assert_eq!(little_endian(b"1"), Ok((&b""[..], ByteOrder::LittleEndian)));
    assert_eq!(big_endian(b"0"), Ok((&b""[..], ByteOrder::BigEndian)));
}

#[test]
fn byte_order_rejects_every_other_byte() {
    for b in 0u8..=255 {
        let input = [b, b'x'];
        let r = byte_order(&input);
        if b == b'0' || b == b'1' {
            assert!(r.is_ok());
        } else {
            assert_eq!(r, Err(failure(&input, ErrorKind::Alt)));
        }
    }
    assert_eq!(byte_order(b""), Err(failure(b"", ErrorKind::Alt)));
    assert_eq!(little_endian(b"0"), Err(failure(b"0", ErrorKind::Char)));
    assert_eq!(big_endian(b""), Err(failure(b"", ErrorKind::Eof)));
}

#[test]
fn value_type_rejects_every_other_byte() {
    for b in 0u8..=255 {
        let input = [b];
        let r = value_type(&input);
        if b == b'-' {
            assert_eq!(r, Ok((&b""[..], ValueType::Signed)));
        } else if b == b'+' {
            assert_eq!(r, Ok((&b""[..], ValueType::Unsigned)));
        } else {
            assert_eq!(r, Err(failure(&input, ErrorKind::Alt)));
        }
    }
    assert_eq!(value_type(b""), Err(failure(b"", ErrorKind::Alt)));
    assert_eq!(signed(b"-"), Ok((&b""[..], ValueType::Signed)));
    assert_eq!(unsigned(b"+"), Ok((&b""[..], ValueType::Unsigned)));
    assert_eq!(signed(b"+"), Err(failure(b"+", ErrorKind::Char)));
}

#[test]
fn message_id_is_a_number() {
    assert_eq!(message_id(b"2000 x"), Ok((&b" x"[..], MessageId(2000))));
    assert_eq!(message_id(b"x"), Err(failure(b"x", ErrorKind::Digit)));
}

#[test]
fn multiplexer_indicator_takes_its_spaces() {
    assert_eq!(
        multiplexer_indicator(b" m34920 : 1"),
        Ok((&b": 1"[..], MultiplexIndicator::MultiplexedSignal(34920)))
    );
    assert_eq!(multiplexer_indicator(b" M : 1"), Ok((&b": 1"[..], MultiplexIndicator::Multiplexor)));
    assert_eq!(multiplexer_indicator(b" : 1"), Ok((&b": 1"[..], MultiplexIndicator::Plain)));
}

#[test]
fn multiplexer_indicator_falls_back_to_plain() {
    // a mark that is not complete leaves the plain space
    assert_eq!(multiplexer_indicator(b" m12:"), Ok((&b"m12:"[..], MultiplexIndicator::Plain)));
    assert_eq!(multiplexer_indicator(b" M:"), Ok((&b"M:"[..], MultiplexIndicator::Plain)));
    assert_eq!(multiplexer_indicator(b" m "), Ok((&b"m "[..], MultiplexIndicator::Plain)));
}

#[test]
fn multiplexer_indicator_needs_a_leading_space() {
    assert_eq!(multiplexer_indicator(b"3m34920 "), Err(failure(b"3m34920 ", ErrorKind::Alt)));
    assert_eq!(multiplexer_indicator(b"3M "), Err(failure(b"3M ", ErrorKind::Alt)));
    assert_eq!(multiplexer_indicator(b"m1 "), Err(failure(b"m1 ", ErrorKind::Alt)));
    assert_eq!(multiplexer_indicator(b""), Err(failure(b"", ErrorKind::Alt)));
}

#[test]
fn multiplexer_forms_alone() {
    assert_eq!(multiplexer(b" m1 "), Ok((&b""[..], MultiplexIndicator::MultiplexedSignal(1))));
    assert_eq!(multiplexer(b" M "), Err(failure(b"M ", ErrorKind::Char)));
    assert_eq!(multiplexer(b" m "), Err(failure(b" ", ErrorKind::Digit)));
    assert_eq!(multiplexer(b" m1"), Err(failure(b"", ErrorKind::Eof)));
    assert_eq!(multiplexor(b" M "), Ok((&b""[..], MultiplexIndicator::Multiplexor)));
    assert_eq!(multiplexor(b" m "), Err(failure(b"m ", ErrorKind::Char)));
    assert_eq!(plain(b" x"), Ok((&b"x"[..], MultiplexIndicator::Plain)));
    assert_eq!(plain(b"x"), Err(failure(b"x", ErrorKind::Char)));
}

#[test]
fn env_var_type_codes() {
    assert_eq!(env_var_type(b"0 "), Ok((&b" "[..], EnvType::EnvTypeFloat)));
    assert_eq!(env_var_type(b"1 "), Ok((&b" "[..], EnvType::EnvTypeu64)));
    assert_eq!(env_var_type(b"2 "), Ok((&b" "[..], EnvType::EnvTypeData)));
    assert_eq!(env_var_type(b"3 "), Err(failure(b"3 ", ErrorKind::Alt)));
    assert_eq!(env_var_type(b""), Err(failure(b"", ErrorKind::Alt)));
}

#[test]
fn access_type_codes() {
    assert_eq!(access_type(b"DUMMY_NODE_VECTOR0 "), Ok((&b" "[..], AccessType::DummyNodeVector0)));
    assert_eq!(access_type(b"DUMMY_NODE_VECTOR1"), Ok((&b""[..], AccessType::DummyNodeVector1)));
    assert_eq!(access_type(b"DUMMY_NODE_VECTOR2"), Ok((&b""[..], AccessType::DummyNodeVector2)));
    assert_eq!(access_type(b"DUMMY_NODE_VECTOR3"), Ok((&b""[..], AccessType::DummyNodeVector3)));
    assert_eq!(access_type(b"DUMMY_NODE_VECTOR4"), Err(failure(b"4", ErrorKind::Alt)));
    assert_eq!(access_type(b"DUMMY_NODE_VECTOR"), Err(failure(b"", ErrorKind::Alt)));
    assert_eq!(access_type(b"DUMMY_NODE"), Err(failure(b"DUMMY_NODE", ErrorKind::Eof)));
    assert_eq!(access_type(b"VECTOR_XXX"), Err(failure(b"VECTOR_XXX", ErrorKind::Tag)));
}

#[test]
fn signal_extended_value_type_codes() {
    assert_eq!(
        signal_extended_value_type(b"0;"),
        Ok((&b";"[..], SignalExtendedValueType::SignedOrUnsignedInteger))
    );
    assert_eq!(
        signal_extended_value_type(b"1;"),
        Ok((&b";"[..], SignalExtendedValueType::IEEEfloat32Bit))
    );
    assert_eq!(
        signal_extended_value_type(b"2;"),
        Ok((&b";"[..], SignalExtendedValueType::IEEEdouble64bit))
    );
    assert_eq!(signal_extended_value_type(b"3;"), Err(failure(b"3;", ErrorKind::Alt)));
    assert_eq!(signed_or_unsigned_integer(b""), Err(failure(b"", ErrorKind::Eof)));
    assert_eq!(ieee_float_32bit(b"2"), Err(failure(b"2", ErrorKind::Tag)));
    assert_eq!(
        ieee_double_64bit(b"2"),
        Ok((&b""[..], SignalExtendedValueType::IEEEdouble64bit))
    );
}
