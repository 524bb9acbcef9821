use avp_policy_sync::shorthand::from_cli_string;
use avp_policy_sync::filter::{
    Entity, PolicyFilterInputError, PolicyStoreFilter, PolicyStoreFilterInput, PolicyTypeInput,
};

static FULL_FILTER_CLI: &str = r"
    principal = {
        identifier = {
            entityType = User,
            entityId = nobody
        }
    },
    resource = {
        identifier = {
            entityType = Path,
            entityId = /one/two/three
        }
    },
    policyType = STATIC,
    policyTemplateId = my-template-id
";

#[test]
fn cli_all() {
    let cli = r"
        principal = {
            identifier = {
            entityType = User,
            entityId = nobody
            }
        },
        resource = {
            identifier = {
            entityType = Path,
            entityId = /one/two/three
            }
        },
        policyType = STATIC,
        policyTemplateId = my-template-id
    )";
    let p = PolicyStoreFilterInput::from_str(cli).expect("Unable to parse intended format");
    assert_eq!(
        p.policy_template_id.expect("Template ID should be set"),
        "my-template-id"
    );
    assert_eq!(
        p.policy_type.expect("Policy type should be set"),
        PolicyTypeInput::Static
    );
    assert!(
        matches!(p.principal, Some(Entity::Identifier {entity_type, entity_id}) if entity_type == "User" && entity_id == "nobody")
    );
    assert!(
        matches!(p.resource, Some(Entity::Identifier {entity_type, entity_id}) if entity_type == "Path" && entity_id == "/one/two/three")
    );
}

#[test]
fn cli_all_with_unspecified() {
    let cli = r"
        principal = {
            unspecified = true
        },
        resource = {
            unspecified = false
        },
        policyType = TEMPLATE_LINKED,
        policyTemplateId = my-template-id
    ";
    let p: PolicyStoreFilterInput =
        PolicyStoreFilterInput::from_str(cli).expect("Unable to parse intended format");
    assert_eq!(
        p.policy_template_id.expect("Template ID should be set"),
        "my-template-id"
    );
    assert_eq!(
        p.policy_type.expect("Policy type should be set"),
        PolicyTypeInput::TemplateLinked
    );
    assert!(matches!(p.principal, Some(Entity::Unspecified(true))));
    assert!(matches!(p.resource, Some(Entity::Unspecified(false))));
}

#[test]
fn cli_none() {
    let cli = "";
    let filters: PolicyStoreFilterInput =
        PolicyStoreFilterInput::from_str(cli).expect("Unable to parse intended format");
    assert!(
        matches!(filters, PolicyStoreFilterInput{principal,resource,policy_type,policy_template_id} if principal.is_none() && resource.is_none() && policy_type.is_none() && policy_template_id.is_none())
    );
}

#[test]
fn test_full_filter_from_cli() {
    let filter = PolicyStoreFilter::from_cli_str(FULL_FILTER_CLI)
        .expect("shorthand should be correctly parsed");
    assert_eq!(
        filter
            .policy_template_id
            .expect("Template ID should be set"),
        "my-template-id"
    );
    assert_eq!(
        filter.policy_type.expect("Policy type should be set"),
        PolicyTypeInput::Static
    );
    assert!(
        matches!(filter.principal, Some(Entity::Identifier {entity_type, entity_id}) if entity_type == "User" && entity_id == "nobody")
    );
    assert!(
        matches!(filter.resource, Some(Entity::Identifier {entity_type, entity_id}) if entity_type == "Path" && entity_id == "/one/two/three")
    );
}

#[test]
fn blank_filter_is_empty() {
    assert!(matches!(
        PolicyStoreFilter::from_cli_str("  \n "),
        Err(PolicyFilterInputError::EmptyFilter)
    ));
}

#[test]
fn unknown_field_is_refused() {
    let r = PolicyStoreFilterInput::from_str("owner=me");
    match r {
        Err(e) => assert_eq!(
            e.to_string(),
            "shorthand content error: unrecognized field for policy filter: owner"
        ),
        Ok(_) => panic!("expected an error"),
    }
}

#[test]
fn bad_syntax_is_a_parse_error() {
    assert!(matches!(
        PolicyStoreFilterInput::from_str("{principal}"),
        Err(PolicyFilterInputError::ShorthandParseError(_))
    ));
}

#[test]
fn entity_shapes_are_checked() {
    assert!(matches!(
        PolicyStoreFilterInput::from_str("principal=User"),
        Err(PolicyFilterInputError::ShorthandContentError(m)) if m == "invalid value type for Entity reference"
    ));
    assert!(matches!(
        PolicyStoreFilterInput::from_str("principal={identifier={entityType=User}}"),
        Err(PolicyFilterInputError::ShorthandContentError(m)) if m == "unrecognized field or value for Entity identifier"
    ));
    assert!(matches!(
        PolicyStoreFilterInput::from_str("principal={somebody=x}"),
        Err(PolicyFilterInputError::ShorthandContentError(m)) if m == "unrecognized type for Entity reference: somebody"
    ));
    let p = PolicyStoreFilterInput::from_str("resource={identifier={entityId=i,entityType=T}}").unwrap();
    assert!(matches!(p.resource, Some(Entity::Identifier {entity_type, entity_id}) if entity_type == "T" && entity_id == "i"));
}

#[test]
fn bad_policy_type_is_refused() {
    assert!(matches!(
        PolicyStoreFilterInput::from_str("policyType=BOTH"),
        Err(PolicyFilterInputError::ShorthandContentError(m)) if m == "Invalid value for Policy type"
    ));
}

#[test]
fn properties_set_their_fields_and_later_ones_win() {
    let parsed = from_cli_string("policyTemplateId=a,policyTemplateId=b").unwrap();
    let p = PolicyStoreFilterInput::from_properties(parsed).unwrap();
    assert_eq!(p.policy_template_id.as_deref(), Some("b"));
    assert!(p.principal.is_none() && p.resource.is_none() && p.policy_type.is_none());
}
