use std::collections::HashMap;

use avp_policy_sync::filter::{Entity, PolicyStoreFilter, PolicyTypeInput};
use avp_policy_sync::store::{PolicySelector, PolicyStoreId};

#[test]
fn policy_selector_policy_store_id_formats_as_expected() {
    let id = PolicySelector::from("id".to_string());
    assert_eq!(id.to_string(), "id");
}

#[test]
fn policy_selector_policy_store_id_empty_string() {
    let id = PolicySelector::from(String::new());
    assert_eq!(id.to_string(), "");
}

#[test]
fn policy_selector_policy_store_id_can_be_inserted_into_hashmap() {
    let mut map: HashMap<PolicySelector, i32> = HashMap::new();
    assert_eq!(map.insert(PolicySelector::from("id".to_string()), 1), None);
    assert_eq!(map.get(&PolicySelector::from("id".to_string())), Some(&1));
}

#[test]
fn policy_selector_policy_store_id_is_cloneable() {
    let id = PolicySelector::from("id".to_string());
    assert_eq!(id.clone(), id);
}

#[test]
fn policy_selector_policy_store_id_is_equal_to_another_id_with_same_value() {
    assert!(PolicySelector::from("id".to_string()).eq(&PolicySelector::from("id".to_string())));
}

#[test]
fn policy_selector_policy_store_id_is_not_equal_to_another_id_with_different_value() {
    assert!(
        !PolicySelector::from("id".to_string()).eq(&PolicySelector::from("other".to_string()))
    );
}

#[test]
fn policy_selector_from_string_to_policy_store_id() {
    assert_eq!(
        PolicySelector::from("ps-1".to_string()),
        PolicySelector::from("ps-1".to_string())
    );
}

#[test]
fn policy_selector_policy_store_id_with_filters_formats_as_expected() {
    let id = PolicySelector::from("id".to_string())
        .with_cli_filters("policyTemplateId=mockPolicyTemplate")
        .expect("CLI filter string should parse correctly");
    assert_eq!(
        id.to_string(),
        "id;filter=policyTemplateId=mockPolicyTemplate"
    );
}

#[test]
fn policy_selector_policy_store_id_with_filters_can_be_inserted_into_hashmap() {
    let mut map: HashMap<PolicySelector, i32> = HashMap::new();
    let id = PolicySelector::from("id".to_string())
        .with_cli_filters("policyTemplateId=mockPolicyTemplate")
        .expect("CLI filter string should parse correctly");
    let p2 = id.clone();
    assert_eq!(map.insert(id, 1), None);
    assert_eq!(map.get(&p2), Some(&1));
}

#[test]
fn policy_selector_policy_store_id_with_filters_is_cloneable() {
    let id = PolicySelector::from("id".to_string())
        .with_cli_filters("policyTemplateId=mockPolicyTemplate")
        .expect("CLI filter string should parse correctly");
    assert_eq!(id.clone(), id);
}

#[test]
fn policy_selector_policy_store_id_with_filters_is_equal_to_another_id_with_same_value() {
    let id = PolicySelector::from("id".to_string())
        .with_cli_filters("policyTemplateId=mockPolicyTemplate")
        .expect("CLI filter string should parse correctly");
    let id2 = PolicySelector::from("id".to_string())
        .with_cli_filters("policyTemplateId=mockPolicyTemplate")
        .expect("CLI filter string should parse correctly");
    assert!(id.eq(&id2));
}

#[test]
fn policy_selector_policy_store_id_with_filters_is_not_equal_to_another_id_with_different_value() {
    assert!(
        !PolicySelector::from("id".to_string()).eq(&PolicySelector::from("other".to_string()))
    );
}

#[test]
fn policy_store_id_policy_store_id_formats_as_expected() {
    let id = PolicyStoreId::from("id".to_string());
    assert_eq!(id.to_string(), "id");
}

#[test]
fn policy_store_id_policy_store_id_empty_string() {
    let id = PolicyStoreId::from(String::new());
    assert_eq!(id.to_string(), "");
}

#[test]
fn policy_store_id_policy_store_id_can_be_inserted_into_hashmap() {
    let mut map: HashMap<PolicyStoreId, i32> = HashMap::new();
    assert_eq!(map.insert(PolicyStoreId::from("id".to_string()), 1), None);
    assert_eq!(map.get(&PolicyStoreId::from("id".to_string())), Some(&1));
}

#[test]
fn policy_store_id_policy_store_id_is_cloneable() {
    let id = PolicyStoreId::from("id".to_string());
    assert_eq!(id.clone(), id);
}

#[test]
fn policy_store_id_policy_store_id_is_equal_to_another_id_with_same_value() {
    assert!(PolicyStoreId::from("id".to_string()).eq(&PolicyStoreId::from("id".to_string())));
}

#[test]
fn policy_store_id_policy_store_id_is_not_equal_to_another_id_with_different_value() {
    assert!(
        !PolicyStoreId::from("id".to_string()).eq(&PolicyStoreId::from("other".to_string()))
    );
}

#[test]
fn policy_store_id_from_string_to_policy_store_id() {
    assert_eq!(
        PolicyStoreId::from("ps-1".to_string()),
        PolicyStoreId::from("ps-1".to_string())
    );
}

#[test]
fn policy_store_id_policy_store_id_with_filters_formats_as_expected() {
    let id = PolicyStoreId::from("id".to_string())
        .with_cli_filters("policyTemplateId=mockPolicyTemplate")
        .expect("CLI filter string should parse correctly");
    assert_eq!(
        id.to_string(),
        "id;filter=policyTemplateId=mockPolicyTemplate"
    );
}

#[test]
fn policy_store_id_policy_store_id_with_filters_can_be_inserted_into_hashmap() {
    let mut map: HashMap<PolicyStoreId, i32> = HashMap::new();
    let id = PolicyStoreId::from("id".to_string())
        .with_cli_filters("policyTemplateId=mockPolicyTemplate")
        .expect("CLI filter string should parse correctly");
    let p2 = id.clone();
    assert_eq!(map.insert(id, 1), None);
    assert_eq!(map.get(&p2), Some(&1));
}

#[test]
fn policy_store_id_policy_store_id_with_filters_is_cloneable() {
    let id = PolicyStoreId::from("id".to_string())
        .with_cli_filters("policyTemplateId=mockPolicyTemplate")
        .expect("CLI filter string should parse correctly");
    assert_eq!(id.clone(), id);
}

#[test]
fn policy_store_id_policy_store_id_with_filters_is_equal_to_another_id_with_same_value() {
    let id = PolicyStoreId::from("id".to_string())
        .with_cli_filters("policyTemplateId=mockPolicyTemplate")
        .expect("CLI filter string should parse correctly");
    let id2 = PolicyStoreId::from("id".to_string())
        .with_cli_filters("policyTemplateId=mockPolicyTemplate")
        .expect("CLI filter string should parse correctly");
    assert!(id.eq(&id2));
}

#[test]
fn policy_store_id_policy_store_id_with_filters_is_not_equal_to_another_id_with_different_value() {
    assert!(
        !PolicyStoreId::from("id".to_string()).eq(&PolicyStoreId::from("other".to_string()))
    );
}

#[test]
fn filter_text_lists_set_fields_in_order() {
    let filter = PolicyStoreFilter {
        principal: Some(Entity::Identifier { entity_type: "User".to_string(), entity_id: "nobody".to_string() }),
        resource: Some(Entity::Unspecified(true)),
        policy_type: Some(PolicyTypeInput::TemplateLinked),
        policy_template_id: Some("t".to_string()),
    };
    assert_eq!(
        filter.to_string(),
        "principal={identifier={entityType=User,entityId=nobody}},resource={unspecified=true},policyType=TEMPLATE_LINKED,policyTemplateId=t"
    );
}

#[test]
fn filter_text_round_trips_through_shorthand() {
    let filter = PolicyStoreFilter {
        principal: None,
        resource: Some(Entity::Identifier { entity_type: "Path".to_string(), entity_id: "/a".to_string() }),
        policy_type: Some(PolicyTypeInput::Static),
        policy_template_id: None,
    };
    assert_eq!(filter.to_string(), "resource={identifier={entityType=Path,entityId=/a}},policyType=STATIC");
    assert_eq!(PolicyStoreFilter::from_cli_str(&filter.to_string()).unwrap(), filter);
}

#[test]
fn a_second_filter_is_refused() {
    let id = PolicyStoreId::from("id".to_string())
        .with_cli_filters("policyType=STATIC")
        .unwrap();
    assert!(id.with_cli_filters("policyType=STATIC").is_err());
    assert!(PolicyStoreId::from("id".to_string()).with_cli_filters(" ").is_err());
}
