use avp_policy_sync::translator::{
    EntityIdentifier, PolicyDefinition, PolicyDefinitionDetail, TemplateRecord, TranslatedPolicy,
    TranslatedSchema, TranslatedTemplate, TranslatorException,
};

const POLICY_ID: &str = "dummy-policy-id";
const TEMPLATE_ID: &str = "dummy-template-id";
const VALID_POLICY: &str = r#"
    permit(
        principal == User::"alice",
        action == Action::"view",
        resource == Photo::"VacationPhoto94.jpg"
    );"#;
const INVALID_POLICY: &str = r#"
    permit(
        principal == User::"alice",
        action == Action::"view",
    );"#;
const PRINCIPAL_ENTITY_TYPE: &str = "USER";
const PRINCIPAL_ENTITY_ID: &str = "alice";
const RESOURCE_ENTITY_TYPE: &str = "PHOTO";
const RESOURCE_ENTITY_ID: &str = "VacationPhoto22.jpg";
const VALID_TEMPLATE: &str = r#"
    permit (
        principal == ?principal,
        action in [Action::"ReadBox"],
        resource == ?resource
    );"#;
const INVALID_TEMPLATE: &str = r#"
    permit (
        principal == ?principal,
        action in [Action::"Rea
    );"#;
const VALID_SCHEMA: &str = r#"
{
"AvpLocalAgent": {
    "entityTypes": {
        "User": {
            "memberOfTypes": ["UserGroup"],
            "shape": {
                "type": "Record",
                "attributes": {
                    "department": {
                        "type": "String"
                    },
                    "jobLevel": {
                        "type": "Long"
                    }
                }
            }
        },
        "UserGroup": {},
        "Photo": {
            "shape": {
                "type": "Record",
                "attributes": {
                    "private": {
                        "type": "Boolean"
                    }
                }
            }
        }
    },
    "actions": {
        "viewPhoto": {
            "appliesTo": {
                "principalTypes": ["User"],
                "resourceTypes": ["Photo"],
                "context": {
                    "type": "Record",
                    "attributes": {
                        "authenticated": {
                            "type": "Boolean"
                        }
                    }
                }
            }
        }
    }
}}"#;
const INVALID_SCHEMA: &str = r#"
{
"AvpLocalAgent": {
    "entityTypo": {},
    "actions": {
        "public": {},
        "like": {
            "memberOf": [{
                "id": "public"
            }]
        }
    }
}}"#;

fn principal() -> EntityIdentifier {
    EntityIdentifier {
        entity_type: PRINCIPAL_ENTITY_TYPE.to_string(),
        entity_id: PRINCIPAL_ENTITY_ID.to_string(),
    }
}

fn resource() -> EntityIdentifier {
    EntityIdentifier {
        entity_type: RESOURCE_ENTITY_TYPE.to_string(),
        entity_id: RESOURCE_ENTITY_ID.to_string(),
    }
}

#[test]
fn static_policy_valid_translation() {
    let definition = PolicyDefinition {
        policy_id: POLICY_ID.to_string(),
        detail: PolicyDefinitionDetail::Static { statement: Some(VALID_POLICY.to_string()) },
    };
    let policy = TranslatedPolicy::try_from(definition).expect("policy should translate");
    match policy {
        TranslatedPolicy::Static(p) => {
            assert_eq!(p.id(), POLICY_ID);
            assert_eq!(p.policy().id().to_string(), POLICY_ID);
        }
        _ => panic!("expected a static policy"),
    }
}

#[test]
fn static_policy_translation_invalid_policy() {
    let definition = PolicyDefinition {
        policy_id: POLICY_ID.to_string(),
        detail: PolicyDefinitionDetail::Static { statement: Some(INVALID_POLICY.to_string()) },
    };
    let result = TranslatedPolicy::try_from(definition);
    assert!(matches!(result, Err(TranslatorException::ParsePolicy(id)) if id == POLICY_ID));
}

#[test]
fn static_policy_without_statement_is_refused() {
    let definition = PolicyDefinition {
        policy_id: POLICY_ID.to_string(),
        detail: PolicyDefinitionDetail::Static { statement: None },
    };
    assert!(matches!(
        TranslatedPolicy::try_from(definition),
        Err(TranslatorException::StaticPolicyStatementNotFound())
    ));
}

#[test]
fn template_linked_policy_valid_translation() {
    let definition = PolicyDefinition {
        policy_id: POLICY_ID.to_string(),
        detail: PolicyDefinitionDetail::TemplateLinked {
            policy_template_id: Some(TEMPLATE_ID.to_string()),
            principal: Some(principal()),
            resource: Some(resource()),
        },
    };
    match TranslatedPolicy::try_from(definition).expect("policy should translate") {
        TranslatedPolicy::TemplateLinked(policy_id, template_id, bindings) => {
            assert_eq!(policy_id.to_string(), POLICY_ID);
            assert_eq!(template_id.to_string(), TEMPLATE_ID);
            let p = bindings.principal.expect("principal should be bound");
            assert_eq!(
                p.to_string(),
                format!("{PRINCIPAL_ENTITY_TYPE}::\"{PRINCIPAL_ENTITY_ID}\"")
            );
            let r = bindings.resource.expect("resource should be bound");
            assert_eq!(
                r.to_string(),
                format!("{RESOURCE_ENTITY_TYPE}::\"{RESOURCE_ENTITY_ID}\"")
            );
        }
        _ => panic!("expected a template-linked policy"),
    }
}

#[test]
fn template_linked_policy_with_unbound_resource() {
    let definition = PolicyDefinition {
        policy_id: POLICY_ID.to_string(),
        detail: PolicyDefinitionDetail::TemplateLinked {
            policy_template_id: Some(TEMPLATE_ID.to_string()),
            principal: Some(principal()),
            resource: None,
        },
    };
    match TranslatedPolicy::try_from(definition).expect("policy should translate") {
        TranslatedPolicy::TemplateLinked(_, _, bindings) => {
            assert!(bindings.principal.is_some());
            assert!(bindings.resource.is_none());
        }
        _ => panic!("expected a template-linked policy"),
    }
}

#[test]
fn template_linked_policy_without_template_is_invalid() {
    let definition = PolicyDefinition {
        policy_id: POLICY_ID.to_string(),
        detail: PolicyDefinitionDetail::TemplateLinked {
            policy_template_id: None,
            principal: None,
            resource: None,
        },
    };
    assert!(matches!(
        TranslatedPolicy::try_from(definition),
        Err(TranslatorException::InvalidInput())
    ));
}

#[test]
fn template_linked_policy_with_bad_entity_type() {
    let definition = PolicyDefinition {
        policy_id: POLICY_ID.to_string(),
        detail: PolicyDefinitionDetail::TemplateLinked {
            policy_template_id: Some(TEMPLATE_ID.to_string()),
            principal: Some(EntityIdentifier {
                entity_type: "not a type".to_string(),
                entity_id: "x".to_string(),
            }),
            resource: None,
        },
    };
    assert!(matches!(
        TranslatedPolicy::try_from(definition),
        Err(TranslatorException::ParseEntity(id)) if id == POLICY_ID
    ));
}

#[test]
fn unknown_definition_is_invalid() {
    let definition = PolicyDefinition {
        policy_id: POLICY_ID.to_string(),
        detail: PolicyDefinitionDetail::Unknown,
    };
    assert!(matches!(
        TranslatedPolicy::try_from(definition),
        Err(TranslatorException::InvalidInput())
    ));
}

#[test]
fn template_translator_valid_translation() {
    let record = TemplateRecord {
        policy_template_id: TEMPLATE_ID.to_string(),
        statement: VALID_TEMPLATE.to_string(),
    };
    let template = TranslatedTemplate::try_from(&record).expect("template should translate");
    assert_eq!(template.0.id(), TEMPLATE_ID);
    assert_eq!(template.0.template().id().to_string(), TEMPLATE_ID);
    assert_eq!(template.0.template().slots().count(), 2);
}

#[test]
fn template_translator_parsing_error() {
    let record = TemplateRecord {
        policy_template_id: TEMPLATE_ID.to_string(),
        statement: INVALID_TEMPLATE.to_string(),
    };
    assert!(matches!(
        TranslatedTemplate::try_from(&record),
        Err(TranslatorException::ParseTemplate(id)) if id == TEMPLATE_ID
    ));
}

#[test]
fn schema_translator_valid_translation() {
    let schema = TranslatedSchema::try_from(&VALID_SCHEMA.to_string()).expect("schema should parse");
    assert!(schema.0.action_entities().is_ok());
}

#[test]
fn schema_translator_parsing_error() {
    assert!(matches!(
        TranslatedSchema::try_from(&INVALID_SCHEMA.to_string()),
        Err(TranslatorException::ParseSchema())
    ));
}
