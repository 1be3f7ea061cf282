use can_dbc::{
    attribute_default, attribute_definition, attribute_definition_environment_variable,
    attribute_definition_message, attribute_definition_node, attribute_definition_plain,
    attribute_definition_signal, attribute_value, attribute_value_charstr, attribute_value_f64,
    attribute_value_for_object, attribute_value_int64, attribute_value_uint64, comment,
    comment_plain, definition_text, env_var_comment, env_variable_attribute_value,
    message_comment, message_definition_attribute_value, network_node_attribute_value,
    node_comment, raw_attribute_value, signal_attribute_value, signal_comment,
    value_description_for_env_var, value_description_for_signal, value_descriptions,
    AttributeDefinition, AttributeValue, AttributeValueForObject, AttributeValuedForObjectType,
    Comment, Double, ErrorKind, MessageId, ParseError, ValDescription, ValueDescription,
};

fn failure(input: &[u8], kind: ErrorKind) -> ParseError<'_> {
    ParseError { input, kind }
}

fn double(value: f64) -> Double {
    Double(value.to_bits())
}

#[test]
fn comment_without_target() {
    let expected = Comment::Plain { comment: "about the bus".to_string() };
    assert_eq!(comment(b"CM_ \"about the bus\";\n"), Ok((&b""[..], expected)));
}

#[test]
fn comment_tag_decides_the_variant() {
    let (_, c) = comment(b"CM_ BU_ n \"t\";\n").unwrap();
    assert!(matches!(c, Comment::Node { .. }));
    let (_, c) = comment(b"CM_ BO_ 1 \"t\";\n").unwrap();
    assert!(matches!(c, Comment::Message { .. }));
    let (_, c) = comment(b"CM_ EV_ n \"t\";\n").unwrap();
    assert!(matches!(c, Comment::EnvVar { .. }));
    let (_, c) = comment(b"CM_ SG_ 1 n \"t\";\n").unwrap();
    assert!(matches!(c, Comment::Signal { .. }));
}

#[test]
fn comment_text_may_span_lines() {
    let expected = Comment::Signal {
        message_id: MessageId(4),
        signal_name: "S".to_string(),
        comment: "one\ntwo; three".to_string(),
    };
    assert_eq!(comment(b"\nCM_ SG_ 4 S \"one\ntwo; three\";\r\n"), Ok((&b""[..], expected)));
}

#[test]
fn comment_failures() {
    assert_eq!(comment(b"CM_ SG_ x \"t\";\n"), Err(failure(b"SG_ x \"t\";\n", ErrorKind::Alt)));
    assert_eq!(comment(b"CM_ \"t\"\n"), Err(failure(b"\n", ErrorKind::Char)));
    assert_eq!(comment(b"CM_ \"t\";"), Err(failure(b"", ErrorKind::CrLf)));
    assert_eq!(comment(b"CM_\"t\";\n"), Err(failure(b"\"t\";\n", ErrorKind::Char)));
}

#[test]
fn comment_forms_alone() {
    assert_eq!(
        node_comment(b"BU_ n \"t\";"),
        Ok((&b";"[..], Comment::Node { node_name: "n".to_string(), comment: "t".to_string() }))
    );
    assert_eq!(node_comment(b"BO_ 1 \"t\""), Err(failure(b"BO_ 1 \"t\"", ErrorKind::Tag)));
    assert_eq!(
        message_comment(b"BO_ 1 \"t\""),
        Ok((&b""[..], Comment::Message { message_id: MessageId(1), comment: "t".to_string() }))
    );
    assert_eq!(
        env_var_comment(b"EV_ v \"t\""),
        Ok((&b""[..], Comment::EnvVar { env_var_name: "v".to_string(), comment: "t".to_string() }))
    );
    assert_eq!(signal_comment(b"SG_ 1 \"t\""), Err(failure(b"\"t\"", ErrorKind::TakeWhile1)));
    assert_eq!(
        comment_plain(b"\"t\";"),
        Ok((&b";"[..], Comment::Plain { comment: "t".to_string() }))
    );
}

#[test]
fn attribute_value_forms_alone() {
    assert_eq!(
        attribute_value_uint64(b"12;"),
        Ok((&b";"[..], AttributeValue::AttributeValueU64(12)))
    );
    assert_eq!(
        attribute_value_int64(b"-12;"),
        Ok((&b";"[..], AttributeValue::AttributeValueI64(-12)))
    );
    assert_eq!(
        attribute_value_f64(b"-12;"),
        Ok((&b";"[..], AttributeValue::AttributeValueF64(double(-12.0))))
    );
    assert_eq!(
        attribute_value_charstr(b"\"12\";"),
        Ok((&b";"[..], AttributeValue::AttributeValueCharString("12".to_string())))
    );
}

#[test]
fn attribute_value_reads_integers_as_floating_point() {
    assert_eq!(
        attribute_value(b"283;"),
        Ok((&b";"[..], AttributeValue::AttributeValueF64(double(283.0))))
    );
    assert_eq!(attribute_value(b"x"), Err(failure(b"x", ErrorKind::Alt)));
}

#[test]
fn attribute_default_getters() {
    let (rest, found) = attribute_default(b"BA_DEF_DEF_ \t\"Cycle\" 100.5;\n").unwrap();
    assert_eq!(rest, b"");
    assert_eq!(found.attribute_name(), "Cycle");
    assert_eq!(*found.attribute_value(), AttributeValue::AttributeValueF64(double(100.5)));
    assert_eq!(
        attribute_default(b"BA_DEF_DEF_\"Cycle\" 1;\n"),
        Err(failure(b"\"Cycle\" 1;\n", ErrorKind::Space))
    );
}

#[test]
fn attribute_value_for_message_may_lack_a_value() {
    let expected = AttributeValueForObject {
        attribute_name: "A".to_string(),
        attribute_value: AttributeValuedForObjectType::MessageDefinitionAttributeValue(
            MessageId(5),
            None,
        ),
    };
    let (rest, found) = attribute_value_for_object(b"BA_ \"A\" BO_ 5 ;\n").unwrap();
    assert_eq!(rest, b"");
    assert_eq!(found, expected);
    assert_eq!(found.attribute_name(), "A");
    assert_eq!(
        *found.attribute_value(),
        AttributeValuedForObjectType::MessageDefinitionAttributeValue(MessageId(5), None)
    );
}

#[test]
fn attribute_value_for_untargeted_number() {
    let expected = AttributeValueForObject {
        attribute_name: "A".to_string(),
        attribute_value: AttributeValuedForObjectType::RawAttributeValue(
            AttributeValue::AttributeValueF64(double(1.0)),
        ),
    };
    assert_eq!(attribute_value_for_object(b"BA_ \"A\" 1;\n"), Ok((&b""[..], expected)));
}

#[test]
fn attribute_value_forms() {
    assert_eq!(
        network_node_attribute_value(b"BU_ n 1"),
        Ok((
            &b""[..],
            AttributeValuedForObjectType::NetworkNodeAttributeValue(
                "n".to_string(),
                AttributeValue::AttributeValueF64(double(1.0))
            )
        ))
    );
    assert_eq!(
        message_definition_attribute_value(b"BO_ 2 \"x\""),
        Ok((
            &b""[..],
            AttributeValuedForObjectType::MessageDefinitionAttributeValue(
                MessageId(2),
                Some(AttributeValue::AttributeValueCharString("x".to_string()))
            )
        ))
    );
    assert_eq!(
        signal_attribute_value(b"SG_ 2 s 3"),
        Ok((
            &b""[..],
            AttributeValuedForObjectType::SignalAttributeValue(
                MessageId(2),
                "s".to_string(),
                AttributeValue::AttributeValueF64(double(3.0))
            )
        ))
    );
    assert_eq!(
        env_variable_attribute_value(b"EV_ v 3"),
        Ok((
            &b""[..],
            AttributeValuedForObjectType::EnvVariableAttributeValue(
                "v".to_string(),
                AttributeValue::AttributeValueF64(double(3.0))
            )
        ))
    );
    assert_eq!(
        raw_attribute_value(b"\"r\""),
        Ok((
            &b""[..],
            AttributeValuedForObjectType::RawAttributeValue(
                AttributeValue::AttributeValueCharString("r".to_string())
            )
        ))
    );
    assert_eq!(network_node_attribute_value(b"BU_ n x"), Err(failure(b"x", ErrorKind::Alt)));
}

#[test]
fn attribute_value_for_object_failures() {
    assert_eq!(
        attribute_value_for_object(b"BA_ \"A\" SG_ 1 ;\n"),
        Err(failure(b"SG_ 1 ;\n", ErrorKind::Alt))
    );
    assert_eq!(attribute_value_for_object(b"BA_ A 1;\n"), Err(failure(b"A 1;\n", ErrorKind::Char)));
}

#[test]
fn definition_text_stops_at_the_semicolon() {
    assert_eq!(definition_text(b"a \"b\" c;d"), Ok((&b";d"[..], "a \"b\" c".to_string())));
    assert_eq!(definition_text(b";"), Ok((&b";"[..], "".to_string())));
    assert_eq!(definition_text(b"abc"), Ok((&b""[..], "abc".to_string())));
    assert_eq!(definition_text(b"\xc3\xa9;"), Ok((&b";"[..], "\u{e9}".to_string())));
}

#[test]
fn definition_text_must_be_utf8() {
    assert_eq!(definition_text(b"a\xff;"), Err(failure(b"a\xff;", ErrorKind::MapRes)));
    assert_eq!(
        attribute_definition(b"BA_DEF_ BO_ \"\xff\" INT 0 1;\n"),
        Err(failure(b"BO_ \"\xff\" INT 0 1;\n", ErrorKind::Alt))
    );
}

#[test]
fn attribute_definition_without_class() {
    assert_eq!(
        attribute_definition(b"BA_DEF_  \"Bus\" STRING ;\n"),
        Ok((&b""[..], AttributeDefinition::Plain("\"Bus\" STRING ".to_string())))
    );
    // one space only, and no tag: no form matches
    assert_eq!(
        attribute_definition(b"BA_DEF_ \"Bus\" STRING ;\n"),
        Err(failure(b"\"Bus\" STRING ;\n", ErrorKind::Alt))
    );
}

#[test]
fn attribute_definition_forms_alone() {
    assert_eq!(
        attribute_definition_node(b"BU_ x;"),
        Ok((&b";"[..], AttributeDefinition::Node("x".to_string())))
    );
    assert_eq!(
        attribute_definition_signal(b"SG_ x;"),
        Ok((&b";"[..], AttributeDefinition::Signal("x".to_string())))
    );
    assert_eq!(
        attribute_definition_environment_variable(b"EV_ x;"),
        Ok((&b";"[..], AttributeDefinition::EnvironmentVariable("x".to_string())))
    );
    assert_eq!(
        attribute_definition_message(b"BO_ x;"),
        Ok((&b";"[..], AttributeDefinition::Message("x".to_string())))
    );
    assert_eq!(
        attribute_definition_plain(b" x;"),
        Ok((&b";"[..], AttributeDefinition::Plain("x".to_string())))
    );
    assert_eq!(attribute_definition_node(b"BU_x;"), Err(failure(b"x;", ErrorKind::Char)));
    assert_eq!(attribute_definition_message(b"SG_ x;"), Err(failure(b"SG_ x;", ErrorKind::Tag)));
}

#[test]
fn value_descriptions_with_several_pairs() {
    let expected = ValueDescription::Signal {
        message_id: MessageId(2000),
        signal_name: "Signal_3".to_string(),
        value_descriptions: vec![
            ValDescription { a: double(255.0), b: "NOP".to_string() },
            ValDescription { a: double(0.0), b: "off".to_string() },
        ],
    };
    assert_eq!(
        value_descriptions(b"\nVAL_ 2000 Signal_3 255 \"NOP\" 0 \"off\" ;\n"),
        Ok((&b""[..], expected))
    );
}

#[test]
fn value_descriptions_failures() {
    assert_eq!(
        value_descriptions(b"VAL_ 1 s 1 \"a\";\n"),
        Err(failure(b"VAL_ 1 s 1 \"a\";\n", ErrorKind::Alt))
    );
    assert_eq!(value_descriptions(b"VAL_ v ;"), Err(failure(b"", ErrorKind::CrLf)));
    assert_eq!(
        value_description_for_signal(b"VAL_ v ;"),
        Err(failure(b"v ;", ErrorKind::Digit))
    );
    assert_eq!(
        value_description_for_env_var(b"VAL_ 1 s ;"),
        Err(failure(b"1 s ;", ErrorKind::TakeWhile1))
    );
}
