use can_dbc::{
    dbc, many0, many1, opt, separated_nonempty_list, AttributeDefinition, Baudrate, BitTiming,
    Comma, Comment, Error, ErrorKind, Identifier, MessageId, Node, ParseError, Rule, Signal,
    SignalExtendedValueType, Space, Symbol, Transmitter, ValueDescription, Version, DBC,
};

fn failure(input: &[u8], kind: ErrorKind) -> ParseError<'_> {
    ParseError { input, kind }
}

const MINIMAL: &[u8] = b"VERSION \"0.1\"
NS_ :
BS_:
BU_: PC
BO_ 2000 WebData_2000: 4 Vector__XXX
    SG_ Signal_8 : 24|8@1+ (1,0) [0|255] \"\" Vector__XXX
    SG_ Signal_7 : 16|8@1+ (1,0) [0|255] \"\" Vector__XXX
    SG_ Signal_6 : 8|8@1+ (1,0) [0|255] \"\" Vector__XXX
    SG_ Signal_5 : 0|8@1+ (1,0) [0|255] \"\" Vector__XXX

EV_ Environment1: 0 [0|220] \"\" 0 6 DUMMY_NODE_VECTOR0 DUMMY_NODE_VECTOR2;
EV_ Environment2: 0 [0|177] \"\" 0 7 DUMMY_NODE_VECTOR1 DUMMY_NODE_VECTOR2;
ENVVAR_DATA_ SomeEnvVarData: 399;

CM_ SG_ 4 TestSigLittleUnsigned1 \"asaklfjlsdfjlsdfgls
HH?=(%)/&KKDKFSDKFKDFKSDFKSDFNKCnvsdcvsvxkcv\";
CM_ SG_ 5 TestSigLittleUnsigned1 \"asaklfjlsdfjlsdfgls
=0943503450KFSDKFKDFKSDFKSDFNKCnvsdcvsvxkcv\";

BA_DEF_DEF_ \"BusType\" \"AS\";

BA_ \"Attr\" BO_ 4358435 283;
BA_ \"Attr\" BO_ 56949545 344;
";

#[test]
fn minimal_document_has_the_expected_sections() {
    let document = DBC::from_slice(MINIMAL).expect("the document is complete");
    assert_eq!(*document.version(), Version("0.1".to_string()));
    assert_eq!(document.new_symbols().len(), 0);
    assert_eq!(*document.bit_timing(), Some(vec![]));
    assert_eq!(*document.nodes(), vec![Node(vec!["PC".to_string()])]);
    assert_eq!(document.value_tables().len(), 0);
    assert_eq!(document.messages().len(), 1);
    assert_eq!(document.messages()[0].signals().len(), 4);
    assert_eq!(document.messages()[0].signals()[0].name(), "Signal_8");
    assert_eq!(document.messages()[0].signals()[3].name(), "Signal_5");
    assert_eq!(document.message_transmitters().len(), 0);
    assert_eq!(document.environment_variables().len(), 2);
    assert_eq!(document.environment_variable_data().len(), 1);
    assert_eq!(document.signal_types().len(), 0);
    assert_eq!(document.comments().len(), 2);
    assert!(matches!(
        document.comments()[1],
        Comment::Signal { message_id: MessageId(5), .. }
    ));
    assert_eq!(document.attribute_definitions().len(), 0);
    assert_eq!(document.attribute_defaults().len(), 1);
    assert_eq!(document.attribute_values().len(), 2);
    assert_eq!(document.value_descriptions().len(), 0);
    assert_eq!(document.signal_type_refs().len(), 0);
    assert!(document.signal_groups().is_none());
    assert!(document.signal_extended_value_type_list().is_none());
}

#[test]
fn minimal_document_leaves_no_input() {
    let (rest, _) = dbc(MINIMAL).expect("the sections match");
    assert_eq!(rest, b"");
}

#[test]
fn reading_twice_gives_equal_documents() {
    let first = DBC::from_slice(MINIMAL).expect("the document is complete");
    let copy = MINIMAL.to_vec();
    let second = DBC::from_slice(&copy).expect("the document is complete");
    assert_eq!(first, second);
}

#[test]
fn trailing_data_is_incomplete() {
    let text = b"VERSION \"1\"\nNS_ :\nBS_:\nBU_: A B\nthis is no section\n";
    match DBC::from_slice(text) {
        Err(Error::Incomplete(document, remaining)) => {
            assert_eq!(remaining, b"this is no section\n");
            assert_eq!(*document.nodes(), vec![Node(vec!["A".to_string(), "B".to_string()])]);
            assert_eq!(document.messages().len(), 0);
        }
        other => panic!("expected trailing data, found {:?}", other),
    }
}

#[test]
fn trailing_white_space_is_incomplete_too() {
    let text = b"VERSION \"1\"\nNS_ :\n\n";
    match DBC::from_slice(text) {
        Err(Error::Incomplete(document, remaining)) => {
            assert_eq!(remaining, b"\n");
            assert!(document.bit_timing().is_none());
        }
        other => panic!("expected trailing data, found {:?}", other),
    }
}

#[test]
fn sections_out_of_order_are_left_over() {
    // a comment before the messages ends the document at the comment's end
    let text = b"VERSION \"1\"\nNS_ :\nCM_ \"c\";\nBU_: A\n";
    match DBC::from_slice(text) {
        Err(Error::Incomplete(document, remaining)) => {
            assert_eq!(document.comments().len(), 1);
            assert_eq!(document.nodes().len(), 0);
            assert_eq!(remaining, b"BU_: A\n");
        }
        other => panic!("expected trailing data, found {:?}", other),
    }
}

#[test]
fn missing_version_is_a_syntax_failure() {
    match DBC::from_slice(b"NS_ :\n") {
        Err(Error::NomError(e)) => assert_eq!(e, failure(b"NS_ :\n", ErrorKind::Tag)),
        other => panic!("expected a syntax failure, found {:?}", other),
    }
    match DBC::from_slice(b"") {
        Err(Error::NomError(e)) => assert_eq!(e, failure(b"", ErrorKind::Eof)),
        other => panic!("expected a syntax failure, found {:?}", other),
    }
}

#[test]
fn missing_new_symbols_is_a_syntax_failure() {
    match DBC::from_slice(b"VERSION \"1\"\nBS_:\n") {
        Err(Error::NomError(e)) => assert_eq!(e, failure(b"BS_:\n", ErrorKind::Tag)),
        other => panic!("expected a syntax failure, found {:?}", other),
    }
}

#[test]
fn smallest_complete_document() {
    let document = DBC::from_slice(b"VERSION \"\"\nNS_ :\n").expect("complete");
    assert_eq!(*document.version(), Version("".to_string()));
    assert!(document.bit_timing().is_none());
    assert_eq!(document.nodes().len(), 0);
}

#[test]
fn many0_stops_without_failing() {
    assert_eq!(many0::<Symbol>(b"x"), Ok((&b"x"[..], vec![])));
    assert_eq!(
        many0::<Symbol>(b" A\n B\nC\n"),
        Ok((&b"C\n"[..], vec![Symbol("A".to_string()), Symbol("B".to_string())]))
    );
}

#[test]
fn many0_ends_where_nothing_is_consumed() {
    // the bit timing matches without consuming anything after its keyword
    assert_eq!(many0::<BitTiming>(b"BS_:BS_:x"), Ok((&b"x"[..], vec![vec![], vec![]])));
    assert_eq!(many0::<BitTiming>(b""), Ok((&b""[..], vec![])));
}

#[test]
fn many1_needs_one() {
    assert_eq!(many1::<Signal>(b"BO_"), Err(failure(b"BO_", ErrorKind::Many1)));
    assert_eq!(many1::<Symbol>(b" A\nx"), Ok((&b"x"[..], vec![Symbol("A".to_string())])));
}

#[test]
fn opt_keeps_the_input_on_failure() {
    assert_eq!(opt::<BitTiming>(b"BU_: A"), Ok((&b"BU_: A"[..], None)));
    assert_eq!(opt::<BitTiming>(b"BS_: 1"), Ok((&b""[..], Some(vec![Baudrate(1)]))));
}

#[test]
fn separated_list_with_spaces() {
    assert_eq!(
        separated_nonempty_list::<Space, Identifier>(b"a b  c"),
        Ok((&b"  c"[..], vec!["a".to_string(), "b".to_string()]))
    );
    assert_eq!(
        separated_nonempty_list::<Comma, Baudrate>(b"1,2,x"),
        Ok((&b",x"[..], vec![Baudrate(1), Baudrate(2)]))
    );
    assert_eq!(
        separated_nonempty_list::<Comma, Baudrate>(b"x"),
        Err(failure(b"x", ErrorKind::Digit))
    );
}

const FULL: &[u8] = b"VERSION \"full\"
NS_ :
\tCM_
\tBA_
BS_: 500,250
BU_: ECU1 ECU2
VAL_TABLE_ OnOff  1 \"on\" 0 \"off\" ;
BO_ 100 Engine: 8 ECU1
 SG_ Mode M : 0|4@1+ (1,0) [0|15] \"\" ECU2
 SG_ Rpm m1 : 8|16@1+ (0.25,0) [0|8000] \"rpm\" ECU2
BO_ 200 Body: 2 Vector__XXX
 SG_ Door : 0|1@0- (1,0) [0|1] \"\" ECU1,ECU2
BO_TX_BU_ 100 : ECU2;
EV_ Temp: 0 [-40|120] \"C\" 20.5 1 DUMMY_NODE_VECTOR0 ECU1;
ENVVAR_DATA_ Temp: 4;
SGTYPE_ Speed: 16@1+ (0.5,0) [0|100] \"km/h\" 0 OnOff;
CM_ \"a bus\";
CM_ BU_ ECU1 \"a node\";
BA_DEF_ BO_ \"Cycle\" INT 0 1000;
BA_DEF_  \"Bus\" STRING ;
BA_DEF_DEF_ \"Cycle\" 100;
BA_ \"Cycle\" BO_ 100 10;
BA_ \"Bus\" \"CAN\";
VAL_ 100 Mode 1 \"run\" 0 \"stop\" ;
VAL_ Temp 0 \"cold\" ;
SGTYPE_ 100 Rpm : Speed;
SIG_VALTYPE_ 100 Rpm 2;
";

#[test]
fn document_with_every_section() {
    let document = DBC::from_slice(FULL).expect("the document is complete");
    assert_eq!(*document.version(), Version("full".to_string()));
    assert_eq!(
        *document.new_symbols(),
        vec![Symbol("CM_".to_string()), Symbol("BA_".to_string())]
    );
    assert_eq!(*document.bit_timing(), Some(vec![Baudrate(500), Baudrate(250)]));
    assert_eq!(document.nodes().len(), 1);
    assert_eq!(document.value_tables().len(), 1);
    assert_eq!(document.value_tables()[0].value_descriptions().len(), 2);
    assert_eq!(document.messages().len(), 2);
    assert_eq!(document.messages()[0].signals().len(), 2);
    assert_eq!(document.messages()[1].signals().len(), 1);
    assert_eq!(*document.messages()[1].transmitter(), Transmitter::VectorXXX);
    assert_eq!(document.message_transmitters().len(), 1);
    assert_eq!(document.environment_variables().len(), 1);
    assert_eq!(document.environment_variable_data().len(), 1);
    assert_eq!(document.signal_types().len(), 1);
    assert_eq!(document.comments().len(), 2);
    assert_eq!(
        *document.attribute_definitions(),
        vec![
            AttributeDefinition::Message("\"Cycle\" INT 0 1000".to_string()),
            AttributeDefinition::Plain("\"Bus\" STRING ".to_string()),
        ]
    );
    assert_eq!(document.attribute_defaults().len(), 1);
    assert_eq!(document.attribute_values().len(), 2);
    assert_eq!(document.value_descriptions().len(), 2);
    assert!(matches!(document.value_descriptions()[0], ValueDescription::Signal { .. }));
    assert!(matches!(
        document.value_descriptions()[1],
        ValueDescription::EnvironmentVariable { .. }
    ));
    assert_eq!(document.signal_type_refs.len(), 1);
    assert!(document.signal_groups().is_none());
    let encoding = document.signal_extended_value_type_list().as_ref().expect("one encoding");
    assert_eq!(
        *encoding.signal_extended_value_type(),
        SignalExtendedValueType::IEEEdouble64bit
    );
}

#[test]
fn failure_offset_lies_inside_the_buffer() {
    let text = b"VERSION \"1\"\nNS_ ;\n";
    match DBC::from_slice(text) {
        Err(Error::NomError(e)) => {
            assert!(e.input.len() <= text.len());
            assert_eq!(e.input, &text[text.len() - e.input.len()..]);
            assert_eq!(text.len() - e.input.len(), 12);
            assert_eq!(e.kind, ErrorKind::Tag);
        }
        other => panic!("expected a syntax failure, found {:?}", other),
    }
}

#[test]
fn rules_parse_as_their_functions_do() {
    let line = b" SG_ Door : 0|1@0- (1,0) [0|1] \"\" ECU1,ECU2\nrest";
    assert_eq!(<Signal as Rule>::parse(line), can_dbc::signal(line));
    assert_eq!(<Comma as Rule>::parse(b",x"), can_dbc::comma(b",x"));
    assert_eq!(<Identifier as Rule>::parse(b"ab c"), can_dbc::c_ident(b"ab c"));
}
