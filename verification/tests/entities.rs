use can_dbc::{
    access_node, bit_timing, environment_variable, environment_variable_data, message,
    message_transmitter, new_symbols, node, signal, signal_extended_value_type_list,
    signal_groups, signal_type, signal_type_ref, symbol, transmitter, transmitter_node_name,
    transmitter_vector_xxx, value_description, value_description_list, value_table, version,
    AccessNode, Baudrate, ByteOrder, Double, ErrorKind, Message, MessageId, MessageTransmitter,
    MultiplexIndicator, Node, ParseError, Signal, SignalExtendedValueType,
    SignalExtendedValueTypeList, SignalTypeRef, Symbol, Transmitter, ValDescription, ValueTable,
    ValueType, Version,
};

fn failure(input: &[u8], kind: ErrorKind) -> ParseError<'_> {
    ParseError { input, kind }
}

fn double(value: f64) -> Double {
    Double(value.to_bits())
}

fn abc_1() -> Signal {
    Signal {
        name: "ABC_1".to_string(),
        multiplexer_indicator: MultiplexIndicator::Plain,
        start_bit: 9,
        signal_size: 2,
        byte_order: ByteOrder::LittleEndian,
        value_type: ValueType::Unsigned,
        factor: double(1.0),
        offset: double(0.0),
        min: double(0.0),
        max: double(0.0),
        unit: "x".to_string(),
        receivers: vec!["XYZ_OUS".to_string()],
    }
}

fn bas_l2() -> Signal {
    Signal {
        name: "BasL2".to_string(),
        multiplexer_indicator: MultiplexIndicator::Plain,
        start_bit: 3,
        signal_size: 2,
        byte_order: ByteOrder::BigEndian,
        value_type: ValueType::Signed,
        factor: double(1.0),
        offset: double(0.0),
        min: double(0.0),
        max: double(0.0),
        unit: "x".to_string(),
        receivers: vec!["DFA_FUS".to_string()],
    }
}

#[test]
fn signal_reads_every_field() {
    let line = b"  SG_ Speed m3 : 8|16@0- (0.25,-40) [-40|215.5] \"km/h\" ECU1,ECU2\nrest";
    let expected = Signal {
        name: "Speed".to_string(),
        multiplexer_indicator: MultiplexIndicator::MultiplexedSignal(3),
        start_bit: 8,
        signal_size: 16,
        byte_order: ByteOrder::BigEndian,
        value_type: ValueType::Signed,
        factor: double(0.25),
        offset: double(-40.0),
        min: double(-40.0),
        max: double(215.5),
        unit: "km/h".to_string(),
        receivers: vec!["ECU1".to_string(), "ECU2".to_string()],
    };
    let (rest, found) = signal(line).unwrap();
    assert_eq!(rest, b"rest");
    assert_eq!(found, expected);
    assert_eq!(found.name(), "Speed");
    assert_eq!(*found.multiplexer_indicator(), MultiplexIndicator::MultiplexedSignal(3));
    assert_eq!(*found.start_bit(), 8);
    assert_eq!(*found.signal_size(), 16);
    assert_eq!(*found.byte_order(), ByteOrder::BigEndian);
    assert_eq!(*found.value_type(), ValueType::Signed);
    assert_eq!(f64::from_bits(found.factor().to_bits()), 0.25);
    assert_eq!(f64::from_bits(found.offset().to_bits()), -40.0);
    assert_eq!(f64::from_bits(found.min().to_bits()), -40.0);
    assert_eq!(f64::from_bits(found.max().to_bits()), 215.5);
    assert_eq!(found.unit(), "km/h");
    assert_eq!(found.receivers().len(), 2);
}

#[test]
fn signal_failures_name_the_place() {
    assert_eq!(signal(b"SG_ 3x"), Err(failure(b"3x", ErrorKind::TakeWhile1)));
    assert_eq!(signal(b" x"), Err(failure(b"x", ErrorKind::Tag)));
    assert_eq!(signal(b"SG_ N: 1"), Err(failure(b": 1", ErrorKind::Alt)));
    assert_eq!(
        signal(b"SG_ N : 3|2@2- (1,0) [0|0] \"x\" A\n"),
        Err(failure(b"2- (1,0) [0|0] \"x\" A\n", ErrorKind::Alt))
    );
    assert_eq!(
        signal(b"SG_ N : 3|2@1- (a,0) [0|0] \"x\" A\n"),
        Err(failure(b"a,0) [0|0] \"x\" A\n", ErrorKind::Float))
    );
    assert_eq!(
        signal(b"SG_ N : 3|2@1- (1,0) [0|0] \"x\" A"),
        Err(failure(b"", ErrorKind::CrLf))
    );
}

#[test]
fn message_owns_its_signals_in_order() {
    let def = b"BO_ 1 MCA_A1: 6 MFA\r\nSG_ ABC_1 : 9|2@1+ (1,0) [0|0] \"x\" XYZ_OUS\r\nSG_ BasL2 : 3|2@0- (1,0) [0|0] \"x\" DFA_FUS\r\n x";
    let expected = Message {
        message_id: MessageId(1),
        message_name: "MCA_A1".to_string(),
        message_size: 6,
        transmitter: Transmitter::NodeName("MFA".to_string()),
        signals: vec![abc_1(), bas_l2()],
    };
    let (rest, found) = message(def).unwrap();
    assert_eq!(found, expected);
    assert_eq!(rest, b" x");
    assert_eq!(*found.message_id(), MessageId(1));
    assert_eq!(found.message_name(), "MCA_A1");
    assert_eq!(*found.message_size(), 6);
    assert_eq!(*found.transmitter(), Transmitter::NodeName("MFA".to_string()));
    assert_eq!(found.signals().len(), 2);
}

#[test]
fn message_leaves_a_malformed_third_line() {
    let def = b"BO_ 1 MCA_A1: 6 MFA\nSG_ ABC_1 : 9|2@1+ (1,0) [0|0] \"x\" XYZ_OUS\nSG_ BasL2 : 3|2@0- (1,0) [0|0] \"x\" DFA_FUS\nSG_ Broken : 3|2@7- (1,0) [0|0] \"x\" DFA_FUS\n";
    let (rest, found) = message(def).unwrap();
    assert_eq!(found.signals, vec![abc_1(), bas_l2()]);
    assert_eq!(rest, b"SG_ Broken : 3|2@7- (1,0) [0|0] \"x\" DFA_FUS\n");
}

#[test]
fn message_stops_at_the_next_message() {
    let def = b"BO_ 1 A: 6 MFA\n SG_ ABC_1 : 9|2@1+ (1,0) [0|0] \"x\" XYZ_OUS\nBO_ 2 B: 1 MFA\n";
    let (rest, found) = message(def).unwrap();
    assert_eq!(found.signals, vec![abc_1()]);
    assert_eq!(rest, b"BO_ 2 B: 1 MFA\n");
}

#[test]
fn message_needs_a_signal() {
    let def = b"BO_ 1 A: 6 MFA\nBO_ 2 B: 1 MFA\n";
    assert_eq!(message(def), Err(failure(b"\nBO_ 2 B: 1 MFA\n", ErrorKind::Many1)));
}

#[test]
fn transmitter_forms() {
    assert_eq!(transmitter(b"Vector__XXX\n"), Ok((&b"\n"[..], Transmitter::VectorXXX)));
    assert_eq!(transmitter(b"PC\n"), Ok((&b"\n"[..], Transmitter::NodeName("PC".to_string()))));
    assert_eq!(
        transmitter(b"Vector__XX;"),
        Ok((&b";"[..], Transmitter::NodeName("Vector__XX".to_string())))
    );
    assert_eq!(transmitter(b"1"), Err(failure(b"1", ErrorKind::Alt)));
    assert_eq!(transmitter_vector_xxx(b"PC"), Err(failure(b"PC", ErrorKind::Tag)));
    assert_eq!(transmitter_node_name(b"1"), Err(failure(b"1", ErrorKind::TakeWhile1)));
}

#[test]
fn message_transmitter_line() {
    let expected = MessageTransmitter {
        message_id: MessageId(12345),
        transmitter: Transmitter::NodeName("XZY".to_string()),
    };
    let (rest, found) = message_transmitter(b"BO_TX_BU_ 12345 : XZY;\n").unwrap();
    assert_eq!(rest, b"");
    assert_eq!(found, expected);
    assert_eq!(*found.message_id(), MessageId(12345));
    assert_eq!(*found.transmitter(), Transmitter::NodeName("XZY".to_string()));
    assert_eq!(
        message_transmitter(b"BO_TX_BU_ 12345: XZY;\n"),
        Err(failure(b": XZY;\n", ErrorKind::Char))
    );
}

#[test]
fn version_needs_its_line_end() {
    assert_eq!(version(b"\n\nVERSION \"\"\r\nNS_"), Ok((&b"NS_"[..], Version("".to_string()))));
    assert_eq!(version(b"VERSION \"1\""), Err(failure(b"", ErrorKind::CrLf)));
    assert_eq!(version(b"VERSIO"), Err(failure(b"VERSIO", ErrorKind::Eof)));
    assert_eq!(version(b"NS_ :"), Err(failure(b"NS_ :", ErrorKind::Tag)));
}

#[test]
fn symbol_line() {
    assert_eq!(symbol(b"\tCM_\nx"), Ok((&b"x"[..], Symbol("CM_".to_string()))));
    assert_eq!(symbol(b"CM_\n"), Err(failure(b"CM_\n", ErrorKind::Space)));
}

#[test]
fn new_symbols_may_be_empty() {
    assert_eq!(new_symbols(b"NS_ : \t\nBS_:"), Ok((&b"BS_:"[..], vec![])));
    assert_eq!(new_symbols(b"NS_ :x\n"), Err(failure(b"x\n", ErrorKind::CrLf)));
}

#[test]
fn bit_timing_with_and_without_rates() {
    assert_eq!(bit_timing(b"BS_:\nBU_:"), Ok((&b"\nBU_:"[..], vec![])));
    assert_eq!(
        bit_timing(b"BS_: 500,250\n"),
        Ok((&b"\n"[..], vec![Baudrate(500), Baudrate(250)]))
    );
    // a space that no rate follows is not consumed
    assert_eq!(bit_timing(b"BS_: x"), Ok((&b" x"[..], vec![])));
    assert_eq!(bit_timing(b"BU_:"), Err(failure(b"BU_:", ErrorKind::Tag)));
}

#[test]
fn node_needs_a_name() {
    assert_eq!(node(b"BU_: A\n"), Ok((&b""[..], Node(vec!["A".to_string()]))));
    assert_eq!(node(b"BU_:\n"), Err(failure(b"\n", ErrorKind::Char)));
    assert_eq!(node(b"BU_: A  B\n"), Err(failure(b"  B\n", ErrorKind::CrLf)));
}

#[test]
fn value_description_pair() {
    let (rest, found) = value_description(b"2 \"two\" ;").unwrap();
    assert_eq!(rest, b" ;");
    assert_eq!(found, ValDescription { a: double(2.0), b: "two".to_string() });
    assert_eq!(f64::from_bits(found.a().to_bits()), 2.0);
    assert_eq!(found.b(), "two");
    assert_eq!(value_description(b"2\"two\""), Err(failure(b"\"two\"", ErrorKind::Char)));
}

#[test]
fn value_description_list_ends_at_the_semicolon() {
    assert_eq!(value_description_list(b" ;\n"), Ok((&b"\n"[..], vec![])));
    assert_eq!(
        value_description_list(b" 1 \"a\" 0 \"b\" ;x"),
        Ok((
            &b"x"[..],
            vec![
                ValDescription { a: double(1.0), b: "a".to_string() },
                ValDescription { a: double(0.0), b: "b".to_string() },
            ]
        ))
    );
}

#[test]
fn value_description_list_without_end_fails() {
    assert_eq!(value_description_list(b""), Err(failure(b"", ErrorKind::ManyTill)));
    assert_eq!(value_description_list(b" 1 \"a\";"), Err(failure(b";", ErrorKind::ManyTill)));
    assert_eq!(value_description_list(b" 1 \"a\" x ;"), Err(failure(b" x ;", ErrorKind::ManyTill)));
}

#[test]
fn value_table_line() {
    let expected = ValueTable {
        value_table_name: "Tab".to_string(),
        value_descriptions: vec![
            ValDescription { a: double(2.0), b: "two".to_string() },
            ValDescription { a: double(1.0), b: "one".to_string() },
        ],
    };
    let (rest, found) = value_table(b"VAL_TABLE_ Tab  2 \"two\" 1 \"one\" ;\n").unwrap();
    assert_eq!(rest, b"");
    assert_eq!(found, expected);
    assert_eq!(found.value_table_name(), "Tab");
    assert_eq!(found.value_descriptions().len(), 2);
}

#[test]
fn access_node_forms() {
    assert_eq!(access_node(b"VECTOR_XXX;"), Ok((&b";"[..], AccessNode::AccessNodeVectorXXX)));
    assert_eq!(
        access_node(b"ECU;"),
        Ok((&b";"[..], AccessNode::AccessNodeName("ECU".to_string())))
    );
    assert_eq!(access_node(b";"), Err(failure(b";", ErrorKind::Alt)));
}

#[test]
fn environment_variable_getters() {
    let def = b"EV_ IUV: 1 [-22|+20] \"mm\" 3.5 -7 DUMMY_NODE_VECTOR3 A,VECTOR_XXX;\n";
    let (rest, found) = environment_variable(def).unwrap();
    assert_eq!(rest, b"");
    assert_eq!(found.env_var_name(), "IUV");
    assert_eq!(*found.env_var_type(), can_dbc::EnvType::EnvTypeu64);
    assert_eq!(*found.min(), -22);
    assert_eq!(*found.max(), 20);
    assert_eq!(found.unit(), "mm");
    assert_eq!(f64::from_bits(found.initial_value().to_bits()), 3.5);
    assert_eq!(*found.ev_id(), -7);
    assert_eq!(*found.access_type(), can_dbc::AccessType::DummyNodeVector3);
    assert_eq!(
        *found.access_nodes(),
        vec![AccessNode::AccessNodeName("A".to_string()), AccessNode::AccessNodeVectorXXX]
    );
}

#[test]
fn environment_variable_data_getters() {
    let (_, found) = environment_variable_data(b"\nENVVAR_DATA_ Big: 399;\r\n").unwrap();
    assert_eq!(found.env_var_name(), "Big");
    assert_eq!(*found.data_size(), 399);
    assert_eq!(
        environment_variable_data(b"ENVVAR_DATA_ Big: 399\n"),
        Err(failure(b"\n", ErrorKind::Char))
    );
}

#[test]
fn signal_type_getters() {
    let def = b"SGTYPE_ t: 8@0- (5,2) [1|3] \"unit\" 2.5 tab;\n";
    let (_, found) = signal_type(def).unwrap();
    assert_eq!(found.signal_type_name(), "t");
    assert_eq!(*found.signal_size(), 8);
    assert_eq!(*found.byte_order(), ByteOrder::BigEndian);
    assert_eq!(*found.value_type(), ValueType::Signed);
    assert_eq!(f64::from_bits(found.factor().to_bits()), 5.0);
    assert_eq!(f64::from_bits(found.offset().to_bits()), 2.0);
    assert_eq!(f64::from_bits(found.min().to_bits()), 1.0);
    assert_eq!(f64::from_bits(found.max().to_bits()), 3.0);
    assert_eq!(found.unit(), "unit");
    assert_eq!(f64::from_bits(found.default_value().to_bits()), 2.5);
    assert_eq!(found.value_table(), "tab");
}

#[test]
fn signal_type_ref_line() {
    let expected = SignalTypeRef {
        message_id: MessageId(7),
        signal_name: "sig".to_string(),
        signal_type_name: "t".to_string(),
    };
    assert_eq!(signal_type_ref(b"SGTYPE_ 7 sig : t;\n"), Ok((&b""[..], expected)));
    assert_eq!(
        signal_type_ref(b"SGTYPE_ t: 8@0- (5,2) [1|3] \"unit\" 2.5 tab;\n"),
        Err(failure(b"t: 8@0- (5,2) [1|3] \"unit\" 2.5 tab;\n", ErrorKind::Digit))
    );
}

#[test]
fn signal_groups_finds_no_repetitions_after_the_name() {
    // the name takes every digit that follows it, so none is left for the count
    assert_eq!(
        signal_groups(b"SIG_GROUP_1g2 : a,b;\n"),
        Err(failure(b" : a,b;\n", ErrorKind::Digit))
    );
    assert_eq!(
        signal_groups(b"SIG_GROUP_ 1 g 2 : a,b;\n"),
        Err(failure(b" 1 g 2 : a,b;\n", ErrorKind::Digit))
    );
}

#[test]
fn signal_extended_value_type_list_line() {
    let expected = SignalExtendedValueTypeList {
        message_id: MessageId(2000),
        signal_name: "Signal_8".to_string(),
        signal_extended_value_type: SignalExtendedValueType::IEEEfloat32Bit,
    };
    let (rest, found) = signal_extended_value_type_list(b"SIG_VALTYPE_ 2000 Signal_8 1;\n").unwrap();
    assert_eq!(rest, b"");
    assert_eq!(found, expected);
    assert_eq!(*found.message_id(), MessageId(2000));
    assert_eq!(found.signal_name(), "Signal_8");
    assert_eq!(*found.signal_extended_value_type(), SignalExtendedValueType::IEEEfloat32Bit);
}
