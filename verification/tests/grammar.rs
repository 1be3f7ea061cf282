use can_dbc::{
    attribute_default, attribute_definition, attribute_value, attribute_value_for_object,
    byte_order, c_ident, c_ident_vec, comment, environment_variable, environment_variable_data,
    message, multiplexer_indicator, new_symbols, node, signal, signal_type, value_descriptions,
    value_type, version, AccessNode, AccessType, AttributeDefault, AttributeDefinition,
    AttributeValue, AttributeValueForObject, AttributeValuedForObjectType, ByteOrder, Comment,
    Double, EnvType, EnvironmentVariable, EnvironmentVariableData, Error, MessageId,
    MultiplexIndicator, Node, SignalType, Symbol, ValDescription, ValueDescription, ValueType,
    Version, DBC,
};

fn double(value: f64) -> Double {
    Double(value.to_bits())
}

#[test]
fn c_ident_test() {
    let def1 = b"EALL_DUSasb18 ";
    let (_, cid1) = c_ident(def1).unwrap();
    assert_eq!("EALL_DUSasb18", cid1);

    let def2 = b"_EALL_DUSasb18 ";
    let (_, cid2) = c_ident(def2).unwrap();
    assert_eq!("_EALL_DUSasb18", cid2);

    // identifiers must not start with digits
    let def3 = b"3EALL_DUSasb18 ";
    let cid3_result = c_ident(def3);
    assert!(cid3_result.is_err());
}

#[test]
fn c_ident_vec_test() {
    let cid = b"FZHL_DUSasb18 ";
    let (_, cid1) = c_ident_vec(cid).unwrap();

    assert_eq!(vec!("FZHL_DUSasb18".to_string()), cid1);

    let cid_vec = b"FZHL_DUSasb19,xkask_3298 ";
    let (_, cid2) = c_ident_vec(cid_vec).unwrap();

    assert_eq!(
        vec!("FZHL_DUSasb19".to_string(), "xkask_3298".to_string()),
        cid2
    );
}

#[test]
fn signal_test() {
    let signal_line = b"SG_ NAME : 3|2@1- (1,0) [0|0] \"x\" UFA\r\n";
    let _signal = signal(signal_line).unwrap();
}

#[test]
fn byte_order_test() {
    let (_, big_endian) = byte_order(b"0").expect("Failed to parse big endian");
    assert_eq!(ByteOrder::BigEndian, big_endian);

    let (_, little_endian) = byte_order(b"1").expect("Failed to parse little endian");
    assert_eq!(ByteOrder::LittleEndian, little_endian);
}

#[test]
fn multiplexer_indicator_test() {
    let (_, multiplexer) = multiplexer_indicator(b" m34920 ").expect("Failed to parse multiplexer");
    assert_eq!(MultiplexIndicator::MultiplexedSignal(34920), multiplexer);

    let (_, multiplexor) = multiplexer_indicator(b" M ").expect("Failed to parse multiplexor");
    assert_eq!(MultiplexIndicator::Multiplexor, multiplexor);

    let (_, plain) = multiplexer_indicator(b" ").expect("Failed to parse plain");
    assert_eq!(MultiplexIndicator::Plain, plain);
}

#[test]
fn value_type_test() {
    let (_, vt) = value_type(b"- ").expect("Failed to parse value type");
    assert_eq!(ValueType::Signed, vt);

    let (_, vt) = value_type(b"+ ").expect("Failed to parse value type");
    assert_eq!(ValueType::Unsigned, vt);
}

#[test]
fn message_definition_test() {
    let def = b"BO_ 1 MCA_A1: 6 MFA\r\nSG_ ABC_1 : 9|2@1+ (1,0) [0|0] \"x\" XYZ_OUS\r\nSG_ BasL2 : 3|2@0- (1,0) [0|0] \"x\" DFA_FUS\r\n x";
    signal(b"\r\n\r\nSG_ BasL2 : 3|2@0- (1,0) [0|0] \"x\" DFA_FUS\r\n").expect("Faield");
    let (_, _message_def) = message(def).expect("Failed to parse message definition");
}

#[test]
fn signal_comment_test() {
    let def1 = b"CM_ SG_ 193 KLU_R_X \"This is a signal comment test\";\n";
    let message_id = MessageId(193);
    let comment1 = Comment::Signal {
        message_id,
        signal_name: "KLU_R_X".to_string(),
        comment: "This is a signal comment test".to_string(),
    };
    let (_, comment1_def) = comment(def1).expect("Failed to parse signal comment definition");
    assert_eq!(comment1, comment1_def);
}

#[test]
fn message_definition_comment_test() {
    let def1 = b"CM_ BO_ 34544 \"Some Message comment\";\n";
    let message_id = MessageId(34544);
    let comment1 = Comment::Message {
        message_id,
        comment: "Some Message comment".to_string(),
    };
    let (_, comment1_def) =
        comment(def1).expect("Failed to parse message definition comment definition");
    assert_eq!(comment1, comment1_def);
}

#[test]
fn node_comment_test() {
    let def1 = b"CM_ BU_ network_node \"Some network node comment\";\n";
    let comment1 = Comment::Node {
        node_name: "network_node".to_string(),
        comment: "Some network node comment".to_string(),
    };
    let (_, comment1_def) = comment(def1).expect("Failed to parse node comment definition");
    assert_eq!(comment1, comment1_def);
}

#[test]
fn env_var_comment_test() {
    let def1 = b"CM_ EV_ ENVXYZ \"Some env var name comment\";\n";
    let comment1 = Comment::EnvVar {
        env_var_name: "ENVXYZ".to_string(),
        comment: "Some env var name comment".to_string(),
    };
    let (_, comment1_def) = comment(def1).expect("Failed to parse env var comment definition");
    assert_eq!(comment1, comment1_def);
}

#[test]
fn value_description_for_signal_test() {
    let def1 = b"VAL_ 837 UF_HZ_OI 255 \"NOP\" ;\n";
    let message_id = MessageId(837);
    let signal_name = "UF_HZ_OI".to_string();
    let val_descriptions = vec![ValDescription {
        a: double(255.0),
        b: "NOP".to_string(),
    }];
    let value_description_for_signal1 = ValueDescription::Signal {
        message_id,
        signal_name,
        value_descriptions: val_descriptions,
    };
    let (_, value_signal_def) =
        value_descriptions(def1).expect("Failed to parse value desc for signal");
    assert_eq!(value_description_for_signal1, value_signal_def);
}

#[test]
fn value_description_for_env_var_test() {
    let def1 = b"VAL_ MY_ENV_VAR 255 \"NOP\" ;\n";
    let env_var_name = "MY_ENV_VAR".to_string();
    let val_descriptions = vec![ValDescription {
        a: double(255.0),
        b: "NOP".to_string(),
    }];
    let value_env_var1 = ValueDescription::EnvironmentVariable {
        env_var_name,
        value_descriptions: val_descriptions,
    };
    let (_, value_env_var) =
        value_descriptions(def1).expect("Failed to parse value desc for env var");
    assert_eq!(value_env_var1, value_env_var);
}

#[test]
fn environment_variable_test() {
    let def1 = b"EV_ IUV: 0 [-22|20] \"mm\" 3 7 DUMMY_NODE_VECTOR0 VECTOR_XXX;\n";
    let env_var1 = EnvironmentVariable {
        env_var_name: "IUV".to_string(),
        env_var_type: EnvType::EnvTypeFloat,
        min: -22,
        max: 20,
        unit: "mm".to_string(),
        initial_value: double(3.0),
        ev_id: 7,
        access_type: AccessType::DummyNodeVector0,
        access_nodes: vec![AccessNode::AccessNodeVectorXXX],
    };
    let (_, env_var) = environment_variable(def1).expect("Failed to parse environment variable");
    assert_eq!(env_var1, env_var);
}

#[test]
fn network_node_attribute_value_test() {
    let def = b"BA_ \"AttrName\" BU_ NodeName 12;\n";
    let attribute_value = AttributeValuedForObjectType::NetworkNodeAttributeValue(
        "NodeName".to_string(),
        AttributeValue::AttributeValueF64(double(12.0)),
    );
    let attr_val_exp = AttributeValueForObject {
        attribute_name: "AttrName".to_string(),
        attribute_value,
    };
    let (_, attr_val) = attribute_value_for_object(def).unwrap();
    assert_eq!(attr_val_exp, attr_val);
}

#[test]
fn message_definition_attribute_value_test() {
    let def = b"BA_ \"AttrName\" BO_ 298 13;\n";
    let attribute_value = AttributeValuedForObjectType::MessageDefinitionAttributeValue(
        MessageId(298),
        Some(AttributeValue::AttributeValueF64(double(13.0))),
    );
    let attr_val_exp = AttributeValueForObject {
        attribute_name: "AttrName".to_string(),
        attribute_value,
    };
    let (_, attr_val) = attribute_value_for_object(def).unwrap();
    assert_eq!(attr_val_exp, attr_val);
}

#[test]
fn signal_attribute_value_test() {
    let def = b"BA_ \"AttrName\" SG_ 198 SGName 13;\n";
    let attribute_value = AttributeValuedForObjectType::SignalAttributeValue(
        MessageId(198),
        "SGName".to_string(),
        AttributeValue::AttributeValueF64(double(13.0)),
    );
    let attr_val_exp = AttributeValueForObject {
        attribute_name: "AttrName".to_string(),
        attribute_value,
    };
    let (_, attr_val) = attribute_value_for_object(def).unwrap();
    assert_eq!(attr_val_exp, attr_val);
}

#[test]
fn env_var_attribute_value_test() {
    let def = b"BA_ \"AttrName\" EV_ EvName \"CharStr\";\n";
    let attribute_value = AttributeValuedForObjectType::EnvVariableAttributeValue(
        "EvName".to_string(),
        AttributeValue::AttributeValueCharString("CharStr".to_string()),
    );
    let attr_val_exp = AttributeValueForObject {
        attribute_name: "AttrName".to_string(),
        attribute_value,
    };
    let (_, attr_val) = attribute_value_for_object(def).unwrap();
    assert_eq!(attr_val_exp, attr_val);
}

#[test]
fn raw_attribute_value_test() {
    let def = b"BA_ \"AttrName\" \"RAW\";\n";
    let attribute_value = AttributeValuedForObjectType::RawAttributeValue(
        AttributeValue::AttributeValueCharString("RAW".to_string()),
    );
    let attr_val_exp = AttributeValueForObject {
        attribute_name: "AttrName".to_string(),
        attribute_value,
    };
    let (_, attr_val) = attribute_value_for_object(def).unwrap();
    assert_eq!(attr_val_exp, attr_val);
}

#[test]
fn new_symbols_test() {
    let def = b"NS_ :
                NS_DESC_
                CM_
                BA_DEF_

            ";
    let symbols_exp = vec!(
        Symbol("NS_DESC_".to_string()),
        Symbol("CM_".to_string()),
        Symbol("BA_DEF_".to_string())
    );
    let (_, symbols) = new_symbols(def).unwrap();
    assert_eq!(symbols_exp, symbols);
}

#[test]
fn network_node_test() {
    let def = b"BU_: ZU XYZ ABC OIU\n";
    let nodes = vec!(
        "ZU".to_string(),
        "XYZ".to_string(),
        "ABC".to_string(),
        "OIU".to_string()
    );
    let (_, node) = node(def).unwrap();
    let node_exp = Node(nodes);
    assert_eq!(node_exp, node);
}

#[test]
fn envvar_data_test() {
    let def = b"ENVVAR_DATA_ SomeEnvVarData: 399;\n";
    let (_, envvar_data) = environment_variable_data(def).unwrap();
    let envvar_data_exp = EnvironmentVariableData {
        env_var_name: "SomeEnvVarData".to_string(),
        data_size: 399,
    };
    assert_eq!(envvar_data_exp, envvar_data);
}

#[test]
fn signal_type_test() {
    let def = b"SGTYPE_ signal_type_name: 1024@1+ (5,2) [1|3] \"unit\" 2.0 val_table;\n";

    let exp = SignalType {
        signal_type_name: "signal_type_name".to_string(),
        signal_size: 1024,
        byte_order: ByteOrder::LittleEndian,
        value_type: ValueType::Unsigned,
        factor: double(5.0),
        offset: double(2.0),
        min: double(1.0),
        max: double(3.0),
        unit: "unit".to_string(),
        default_value: double(2.0),
        value_table: "val_table".to_string(),
    };

    let (_, signal_type) = signal_type(def).unwrap();
    assert_eq!(exp, signal_type);
}

#[test]
fn attribute_default_test() {
    let def = b"BA_DEF_DEF_  \"ZUV\" \"OAL\";\n";
    let (_, attr_default) = attribute_default(def).unwrap();
    let attr_default_exp = AttributeDefault {
        attribute_name: "ZUV".to_string(),
        attribute_value: AttributeValue::AttributeValueCharString("OAL".to_string()),
    };
    assert_eq!(attr_default_exp, attr_default);
}

#[test]
fn attribute_value_f64_test() {
    let def = b"80.0";
    let (_, val) = attribute_value(def).unwrap();
    assert_eq!(AttributeValue::AttributeValueF64(double(80.0)), val);
}

#[test]
fn attribute_definition_test() {
    let def_bo = b"BA_DEF_ BO_ \"BaDef1BO\" INT 0 1000000;\n";
    let (_, bo_def) = attribute_definition(def_bo).unwrap();
    let bo_def_exp = AttributeDefinition::Message("\"BaDef1BO\" INT 0 1000000".to_string());
    assert_eq!(bo_def_exp, bo_def);

    let def_bu = b"BA_DEF_ BU_ \"BuDef1BO\" INT 0 1000000;\n";
    let (_, bu_def) = attribute_definition(def_bu).unwrap();
    let bu_def_exp = AttributeDefinition::Node("\"BuDef1BO\" INT 0 1000000".to_string());
    assert_eq!(bu_def_exp, bu_def);

    let def_signal = b"BA_DEF_ SG_ \"SgDef1BO\" INT 0 1000000;\n";
    let (_, signal_def) = attribute_definition(def_signal).unwrap();
    let signal_def_exp = AttributeDefinition::Signal("\"SgDef1BO\" INT 0 1000000".to_string());
    assert_eq!(signal_def_exp, signal_def);

    let def_env_var = b"BA_DEF_ EV_ \"EvDef1BO\" INT 0 1000000;\n";
    let (_, env_var_def) = attribute_definition(def_env_var).unwrap();
    let env_var_def_exp =
        AttributeDefinition::EnvironmentVariable("\"EvDef1BO\" INT 0 1000000".to_string());
    assert_eq!(env_var_def_exp, env_var_def);
}

#[test]
fn version_test() {
    let def = b"VERSION \"HNPBNNNYNNNNNNNNNNNNNNNNNNNNNNNNYNYYYYYYYY>4>%%%/4>'%**4YYY///\"\n";
    let version_exp =
        Version("HNPBNNNYNNNNNNNNNNNNNNNNNNNNNNNNYNYYYYYYYY>4>%%%/4>'%**4YYY///".to_string());
    let (_, version) = version(def).unwrap();
    assert_eq!(version_exp, version);
}

#[test]
fn dbc_definition_test() {
    let sample_dbc = b"
VERSION \"0.1\"
NS_ :
    NS_DESC_
    CM_
    BA_DEF_
    BA_
    VAL_
    CAT_DEF_
    CAT_
    FILTER
    BA_DEF_DEF_
    EV_DATA_
    ENVVAR_DATA_
    SGTYPE_
    SGTYPE_VAL_
    BA_DEF_SGTYPE_
    BA_SGTYPE_
    SIG_TYPE_REF_
    VAL_TABLE_
    SIG_GROUP_
    SIG_VALTYPE_
    SIGTYPE_VALTYPE_
    BO_TX_BU_
    BA_DEF_REL_
    BA_REL_
    BA_DEF_DEF_REL_
    BU_SG_REL_
    BU_EV_REL_
    BU_BO_REL_
    SG_MUL_VAL_
BS_:
BU_: PC
BO_ 2000 WebData_2000: 4 Vector__XXX
    SG_ Signal_8 : 24|8@1+ (1,0) [0|255] \"\" Vector__XXX
    SG_ Signal_7 : 16|8@1+ (1,0) [0|255] \"\" Vector__XXX
    SG_ Signal_6 : 8|8@1+ (1,0) [0|255] \"\" Vector__XXX
    SG_ Signal_5 : 0|8@1+ (1,0) [0|255] \"\" Vector__XXX
BO_ 1840 WebData_1840: 4 PC
    SG_ Signal_4 : 24|8@1+ (1,0) [0|255] \"\" Vector__XXX
    SG_ Signal_3 : 16|8@1+ (1,0) [0|255] \"\" Vector__XXX
    SG_ Signal_2 : 8|8@1+ (1,0) [0|255] \"\" Vector__XXX
    SG_ Signal_1 : 0|8@1+ (1,0) [0|0] \"\" Vector__XXX

EV_ Environment1: 0 [0|220] \"\" 0 6 DUMMY_NODE_VECTOR0 DUMMY_NODE_VECTOR2;
EV_ Environment2: 0 [0|177] \"\" 0 7 DUMMY_NODE_VECTOR1 DUMMY_NODE_VECTOR2;
ENVVAR_DATA_ SomeEnvVarData: 399;

CM_ SG_ 4 TestSigLittleUnsigned1 \"asaklfjlsdfjlsdfgls
HH?=(%)/&KKDKFSDKFKDFKSDFKSDFNKCnvsdcvsvxkcv\";
CM_ SG_ 5 TestSigLittleUnsigned1 \"asaklfjlsdfjlsdfgls
=0943503450KFSDKFKDFKSDFKSDFNKCnvsdcvsvxkcv\";

BA_DEF_DEF_ \"BusType\" \"AS\";

BA_ \"Attr\" BO_ 4358435 283;
BA_ \"Attr\" BO_ 56949545 344;
";
    match DBC::from_slice(sample_dbc) {
        Ok(dbc_content) => println!("DBC Content{:#?}", dbc_content),
        Err(e) => {
            match e {
                Error::NomError(failure) => println!(
                    "Error Kind: {:?}, Code: {:?}",
                    failure.kind,
                    std::str::from_utf8(failure.input)
                ),
                Error::Incomplete(dbc, remaining) => println!(
                    "Not all data in buffer was read {:#?}, remaining unparsed: {}",
                    dbc,
                    String::from_utf8(remaining).unwrap()
                ),
            }
            panic!("Failed to read DBC");
        }
    }
}
