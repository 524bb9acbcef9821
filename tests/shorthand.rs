use avp_policy_sync::shorthand::{from_cli_string, structure, CliShorthandValue};

#[test]
fn all() {
    let s = r#"principal={unspecified=boolean,identifier={entityType=string,entityId="this is \"string"}},resource={unspecified=boolean,identifier={entityType=string,entityId=string}},policyType=string,policyTemplateId=string"#;
    let r = structure(s).expect("Should have parsed");
    assert!(r.0.is_empty(), "Should have consumed the entire string");
}

#[test]
fn all_with_whitespace() {
    let s1 = r#"principal={unspecified=boolean,identifier={entityType=string,entityId="this is \"string"}},resource={unspecified=boolean,identifier={entityType=string,entityId=string}},policyType=string,policyTemplateId=string"#;
    let s2 = " \n\t\t\tprincipal = { \n\t\t\t\tunspecified = boolean , \n\t\t\t\tidentifier  = \n\t\t\t\t{    \n\t\t\t\t\tentityType = string, \n\t\t\t\t\tentityId   = \"this is \\\"string\"\n\t\t\t\t} \n\t\t\t}, \n\t\t\tresource = { \n\t\t\t\tunspecified   =  boolean,  \n\t\t\t\tidentifier = {\t\n\t\t\t\t\tentityType = string,   \n\t\t\t\t\tentityId   =  string  \n\t\t\t\t}   \n\t\t\t},   \n\t\t\tpolicyType        = string,  \n\t\t\tpolicyTemplateId  = string   \n\t\t";
    let r1 = structure(s1).expect("s1 should have parsed");
    let r2 = structure(s2).expect("s2 should have parsed");
    assert!(r2.0.is_empty(), "Should have consumed the entire string");
    assert_eq!(
        r1.1, r2.1,
        "with and without whitespace should parse to the same value"
    );
}

#[test]
fn no_structs() {
    let s = r#"policyType=string1,policyTemplateId=string2"#;
    let r = structure(s).expect("Should have parsed");
    assert!(r.0.is_empty(), "Should have consumed the entire string");
    if let [(k1, v1), (k2, v2)] = r.1.as_slice() {
        assert_eq!(*k1, "policyType");
        assert!(
            matches!(v1, CliShorthandValue::SimpleValue(v) if v == "string1"),
            "Expected CliShorthandValue::SimpleValue(string1): {v1:#?}"
        );
        assert_eq!(*k2, "policyTemplateId");
        assert!(
            matches!(v2, CliShorthandValue::SimpleValue(v) if v == "string2"),
            "Expected CliShorthandValue::SimpleValue(string2): {v2:#?}"
        );
    } else {
        assert_eq!(r.1.len(), 2);
    }
}

#[test]
fn only_one_simple() {
    let s = r#"policyType=string1"#;
    let r = structure(s).expect("Should have parsed");
    assert!(r.0.is_empty(), "Should have consumed the entire string");
    if let [(k1, v1)] = r.1.as_slice() {
        assert_eq!(*k1, "policyType");
        assert!(
            matches!(v1, CliShorthandValue::SimpleValue(v) if v == "string1"),
            "Expected CliShorthandValue::SimpleValue(string1): {v1:#?}"
        );
    } else {
        assert_eq!(r.1.len(), 1);
    }
}

#[test]
fn only_one_struct_with_escape() {
    let s = r#"principal={unspecified=boolean,identifier={entityType=string,entityId="this is \"string"}}"#;
    let r = structure(s).expect("Should have parsed");
    assert!(r.0.is_empty(), "Should have consumed the entire string");
    if let [(k1, v1)] = r.1.as_slice() {
        assert_eq!(*k1, "principal");
        if let CliShorthandValue::Struct(s) = v1 {
            if let [(f1, f1v), (f2, f2v)] = s.as_slice() {
                assert_eq!(*f1, "unspecified");
                assert!(
                    matches!(f1v, CliShorthandValue::SimpleValue(v) if v == "boolean"),
                    "'unspecified' should have a simple value of 'boolean': {f1v:#?}"
                );
                assert_eq!(*f2, "identifier");
                if let CliShorthandValue::Struct(s2) = f2v {
                    if let [(f3, f3v), (f4, f4v)] = s2.as_slice() {
                        assert_eq!(*f3, "entityType");
                        assert!(
                            matches!(f3v, CliShorthandValue::SimpleValue(v) if v == "string"),
                            "'entityType' should have a simple value of 'string': {f3v:#?}"
                        );
                        assert_eq!(*f4, "entityId");
                        assert!(matches!(f4v, CliShorthandValue::MaybeEscapedValue(v) if v == "this is \\\"string"), "'entityType' should have a 'maybe escaped' value of 'this is \\\"string': {f4v:#?}");
                    } else {
                        panic!("Unable to verify value: {s2:#?}");
                    }
                } else {
                    panic!("Unable to verify value: {f2v:#?}");
                }
            } else {
                panic!("Unable to verify value: {s:#?}");
            }
        } else {
            panic!("Unable to verify value: {v1:#?}");
        }
    } else {
        panic!("Unable to verify value: {:#?}", r.1);
    }
}

#[test]
fn text_not_starting_with_a_property_is_refused() {
    assert!(from_cli_string("=value").is_err());
    assert!(from_cli_string("name").is_err());
    assert!(from_cli_string("name=,").is_err());
    assert!(from_cli_string("").is_err());
}

#[test]
fn simple_values_are_trimmed_and_stop_at_line_breaks() {
    let r = from_cli_string("a =  x y  \nb=z").unwrap();
    assert_eq!(r.len(), 1);
    assert_eq!(r[0].0, "a");
    assert_eq!(r[0].1, CliShorthandValue::SimpleValue("x y".to_string()));
}

#[test]
fn value_texts() {
    assert_eq!(CliShorthandValue::SimpleValue("a".to_string()).to_string(), Some("a".to_string()));
    assert_eq!(
        CliShorthandValue::MaybeEscapedValue("say \\\"hi\\\" \\\\".to_string()).to_string(),
        Some("say \"hi\" ".to_string())
    );
    assert_eq!(CliShorthandValue::Struct(vec![]).to_string(), None);
    assert!(CliShorthandValue::SimpleValue("a".to_string()).is_string());
    assert!(CliShorthandValue::MaybeEscapedValue("a".to_string()).is_string());
    assert!(!CliShorthandValue::Struct(vec![]).is_string());
}

#[test]
fn empty_quotes_are_read_as_an_unquoted_value() {
    let r = from_cli_string("a=\"\"").unwrap();
    assert_eq!(r[0].1, CliShorthandValue::SimpleValue("\"\"".to_string()));
}
