use std::sync::Arc;

use avp_policy_sync::errors::{PolicyException, TemplateException};
use avp_policy_sync::ids::{PolicyId, TemplateId};
use avp_policy_sync::snapshot::{
    build_policy_set, initial_policy_set, publish, refresh_policy_set, schema_for_entities,
    PolicySetError, ProviderError,
};
use avp_policy_sync::errors::SchemaException;
use avp_policy_sync::sources::{PolicySourceException, TemplateSourceException};
use avp_policy_sync::translator::{
    EntityIdentifier, PolicyDefinition, PolicyDefinitionDetail, TemplateRecord, TranslatedPolicy,
    TranslatedTemplate,
};

const STATIC_POLICY: &str = r#"permit(principal == User::"alice", action, resource);"#;
const TEMPLATE: &str = r#"permit(principal == ?principal, action, resource == ?resource);"#;

fn template(id: &str) -> (TemplateId, TranslatedTemplate) {
    let record = TemplateRecord { policy_template_id: id.to_string(), statement: TEMPLATE.to_string() };
    (TemplateId(id.to_string()), TranslatedTemplate::try_from(&record).unwrap())
}

fn static_policy(id: &str) -> (PolicyId, TranslatedPolicy) {
    let definition = PolicyDefinition {
        policy_id: id.to_string(),
        detail: PolicyDefinitionDetail::Static { statement: Some(STATIC_POLICY.to_string()) },
    };
    (PolicyId(id.to_string()), TranslatedPolicy::try_from(definition).unwrap())
}

fn entity(t: &str, i: &str) -> EntityIdentifier {
    EntityIdentifier { entity_type: t.to_string(), entity_id: i.to_string() }
}

fn linked(id: &str, template_id: &str, resource: bool) -> (PolicyId, TranslatedPolicy) {
    let definition = PolicyDefinition {
        policy_id: id.to_string(),
        detail: PolicyDefinitionDetail::TemplateLinked {
            policy_template_id: Some(template_id.to_string()),
            principal: Some(entity("User", "bob")),
            resource: if resource { Some(entity("Photo", "p.jpg")) } else { None },
        },
    };
    (PolicyId(id.to_string()), TranslatedPolicy::try_from(definition).unwrap())
}

#[test]
fn build_adds_templates_static_and_linked_policies() {
    let set = build_policy_set(
        vec![template("t1")],
        vec![static_policy("p1"), linked("p2", "t1", true)],
    )
    .expect("set should build");
    assert_eq!(set.templates().count(), 1);
    assert_eq!(set.policies().count(), 2);
}

#[test]
fn build_with_nothing_gives_an_empty_set() {
    let set = build_policy_set(vec![], vec![]).expect("set should build");
    assert_eq!(set.policies().count(), 0);
}

#[test]
fn link_to_missing_template_fails_the_build_and_keeps_the_published_set() {
    let mut published = Arc::new(build_policy_set(vec![], vec![static_policy("p0")]).unwrap());
    let built = build_policy_set(vec![template("t1")], vec![linked("p2", "t-missing", true)]);
    match &built {
        Err(e) => assert_eq!(
            e.to_string(),
            "Fail to link the template linked policy to the policy set, policy id: p2, template id: t-missing"
        ),
        Ok(_) => panic!("the build should fail"),
    }
    assert!(publish(&mut published, built).is_err());
    assert_eq!(published.policies().count(), 1);
    assert!(published.policies().any(|p| p.id().to_string() == "p0"));
}

#[test]
fn template_and_policy_sharing_an_id_is_refused() {
    let built = build_policy_set(vec![template("x")], vec![static_policy("x")]);
    assert!(matches!(built, Err(PolicySetError::StaticPolicy(p)) if p == "x"));
}

#[test]
fn linked_policy_reusing_a_policy_id_is_refused() {
    let built = build_policy_set(
        vec![template("t1")],
        vec![static_policy("p1"), linked("p1", "t1", true)],
    );
    assert!(matches!(
        built,
        Err(PolicySetError::TemplateLinkedPolicy(p, t)) if p == "p1" && t == "t1"
    ));
}

#[test]
fn initialization_with_only_templates_absent_uses_the_policies() {
    let r = initial_policy_set(
        Err(TemplateSourceException::TemplateSource(TemplateException::ResourceNotFound(String::new()))),
        Ok(vec![static_policy("p1")]),
    );
    assert_eq!(r.expect("absent templates count as none").policies().count(), 1);
}

#[test]
fn link_with_missing_slot_names_policy_and_template() {
    let built = build_policy_set(vec![template("t1")], vec![linked("p2", "t1", false)]);
    assert!(matches!(
        built,
        Err(PolicySetError::TemplateLinkedPolicy(p, t)) if p == "p2" && t == "t1"
    ));
}

#[test]
fn duplicate_static_policy_is_named() {
    let built = build_policy_set(vec![], vec![static_policy("p1"), static_policy("p1")]);
    assert!(matches!(built, Err(PolicySetError::StaticPolicy(p)) if p == "p1"));
}

#[test]
fn duplicate_template_is_named() {
    let built = build_policy_set(vec![template("t1"), template("t1")], vec![]);
    assert!(matches!(built, Err(PolicySetError::Template(t)) if t == "t1"));
}

#[test]
fn successful_build_is_published() {
    let mut published = Arc::new(build_policy_set(vec![], vec![]).unwrap());
    let built: Result<_, PolicySetError> = build_policy_set(vec![], vec![static_policy("p1")]);
    assert!(publish(&mut published, built).is_ok());
    assert_eq!(published.policies().count(), 1);
}

#[test]
fn refresh_fails_on_a_failed_template_fetch() {
    let r = refresh_policy_set(
        Err(TemplateSourceException::TemplateSource(TemplateException::AccessDenied(String::new()))),
        Ok(vec![]),
    );
    assert!(matches!(r, Err(ProviderError::TemplateSourceException(_))));
}

#[test]
fn refresh_fails_on_a_missing_store() {
    let r = refresh_policy_set(
        Ok(vec![]),
        Err(PolicySourceException::PolicySource(PolicyException::ResourceNotFound(String::new()))),
    );
    assert!(matches!(r, Err(ProviderError::PolicySourceException(_))));
}

#[test]
fn initialization_treats_absent_items_as_empty() {
    let r = initial_policy_set(
        Err(TemplateSourceException::TemplateSource(TemplateException::ResourceNotFound(String::new()))),
        Err(PolicySourceException::PolicySource(PolicyException::ResourceNotFound(String::new()))),
    );
    assert_eq!(r.expect("absent items count as none").policies().count(), 0);
}

#[test]
fn initialization_fails_on_other_errors() {
    let r = initial_policy_set(
        Ok(vec![]),
        Err(PolicySourceException::PolicySource(PolicyException::Validation(String::new()))),
    );
    assert!(matches!(r, Err(ProviderError::PolicySourceException(_))));
}

#[test]
fn missing_schema_means_no_entities() {
    let r = schema_for_entities(Err(SchemaException::ResourceNotFound(String::new())));
    assert!(matches!(r, Ok(None)));
    let r = schema_for_entities(Err(SchemaException::Retryable(String::new())));
    assert!(r.is_err());
    let r = schema_for_entities(Ok("{}".to_string()));
    assert!(matches!(r, Ok(Some(_))));
}
