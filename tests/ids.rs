use avp_policy_sync::ids::{PolicyId, TemplateId};

#[test]
fn policy_id_formats_as_expected() {
    let key = PolicyId("p-1".to_string());
    assert_eq!(key.to_string(), "p-1");
}

#[test]
fn policy_id_empty_string() {
    let key = PolicyId(String::new());
    assert_eq!(key.to_string(), "");
}

#[test]
fn policy_id_is_cloneable() {
    let key = PolicyId("p-1".to_string());
    assert_eq!(key.clone(), key);
}

#[test]
fn policy_id_equal_to_another_key() {
    assert_eq!(PolicyId("p-1".to_string()), PolicyId("p-1".to_string()));
}

#[test]
fn policy_id_not_equal_to_another_key() {
    assert_ne!(PolicyId("p-2".to_string()), PolicyId("p-1".to_string()));
}

#[test]
fn from_string_to_policy_id() {
    assert_eq!(
        PolicyId("p-1".to_string()),
        PolicyId::from("p-1".to_string())
    )
}

#[test]
fn policy_id_can_be_inserted_into_map() {
    let mut map: std::collections::HashMap<PolicyId, i32> = std::collections::HashMap::new();
    assert_eq!(map.insert(PolicyId("p-1".to_string()), 10), None);
    assert_eq!(map.get(&PolicyId("p-1".to_string())), Some(&10));
}

#[test]
fn template_id_formats_as_expected() {
    let id = TemplateId("template-id".to_string());
    assert_eq!(id.to_string(), "template-id");
}

#[test]
fn template_id_empty_string() {
    let id = TemplateId(String::new());
    assert_eq!(id.to_string(), "");
}

#[test]
fn template_id_can_be_inserted_into_map() {
    let mut map: std::collections::HashMap<TemplateId, i32> = std::collections::HashMap::new();
    assert_eq!(map.insert(TemplateId("templateId".to_string()), 10), None);
    assert_eq!(map.get(&TemplateId("templateId".to_string())), Some(&10));
}

#[test]
fn template_id_is_cloneable() {
    let key = TemplateId("templateId".to_string());
    assert_eq!(key.clone(), key);
}

#[test]
fn template_id_is_equal() {
    assert_eq!(
        TemplateId("templateId".to_string()),
        TemplateId("templateId".to_string())
    );
}

#[test]
fn template_id_is_not_equal() {
    assert_ne!(
        TemplateId("templateId".to_string()),
        TemplateId("templateId2".to_string())
    );
}
