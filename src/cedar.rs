//! The policy engine's object types, and the calls into the engine that the
//! library makes. Each item here is taken on trust from the engine's source.
use vstd::prelude::*;
use std::collections::HashMap;

verus! {

#[verifier::external_type_specification]
#[verifier::external_body]
pub struct ExPolicy(cedar_policy::Policy);

#[verifier::external_type_specification]
#[verifier::external_body]
pub struct ExTemplate(cedar_policy::Template);

#[verifier::external_type_specification]
#[verifier::external_body]
pub struct ExSchema(cedar_policy::Schema);

#[verifier::external_type_specification]
#[verifier::external_body]
pub struct ExPolicySet(cedar_policy::PolicySet);

#[verifier::external_type_specification]
#[verifier::external_body]
pub struct ExEntityUid(cedar_policy::EntityUid);

#[verifier::external_type_specification]
#[verifier::external_body]
pub struct ExEntityTypeName(cedar_policy::EntityTypeName);

/// Whether the engine accepts `text` as one static policy.
pub uninterp spec fn static_policy_parses(text: Seq<char>) -> bool;

/// Whether the engine accepts `text` as one policy template.
pub uninterp spec fn template_parses(text: Seq<char>) -> bool;

/// Whether the engine accepts `name` as a normalized entity type name.
pub uninterp spec fn entity_type_parses(name: Seq<char>) -> bool;

/// Whether the engine accepts `text` as a schema in its JSON form.
pub uninterp spec fn schema_parses(text: Seq<char>) -> bool;

/// A static policy of the engine together with the id it was parsed with.
/// Only `parse_static_policy` makes one, so the id is the policy's own.
#[derive(Debug)]
pub struct EnginePolicy {
    id: String,
    policy: cedar_policy::Policy,
}

impl EnginePolicy {
    /// The policy's id.
    pub closed spec fn id_view(&self) -> Seq<char> {
        self.id@
    }

    /// The policy's id.
    pub fn id(&self) -> (r: &String)
        ensures
            r@ == self.id_view(),
    {
        &self.id
    }

    /// The engine's policy.
    pub fn policy(&self) -> &cedar_policy::Policy {
        &self.policy
    }
}

/// A template of the engine together with the id it was parsed with and the
/// names of the slots it declares (`?principal`, `?resource`). Only
/// `parse_template` makes one, so both are the template's own.
#[derive(Debug)]
pub struct EngineTemplate {
    id: String,
    slots: Vec<String>,
    template: cedar_policy::Template,
}

/// The names of a list of slots, as a set.
pub open spec fn slot_set(slots: Seq<String>) -> Set<Seq<char>> {
    Set::new(|n: Seq<char>| exists|i: int| 0 <= i < slots.len() && #[trigger] slots[i]@ == n)
}

impl EngineTemplate {
    /// The template's id.
    pub closed spec fn id_view(&self) -> Seq<char> {
        self.id@
    }

    /// The names of the slots the template declares.
    pub closed spec fn slots_view(&self) -> Set<Seq<char>> {
        slot_set(self.slots@)
    }

    /// The template's id.
    pub fn id(&self) -> (r: &String)
        ensures
            r@ == self.id_view(),
    {
        &self.id
    }

    /// The engine's template.
    pub fn template(&self) -> &cedar_policy::Template {
        &self.template
    }
}

/// The names of the slots (`?principal`, `?resource`) that the template
/// written in `text` declares.
pub uninterp spec fn template_slot_names(text: Seq<char>) -> Set<Seq<char>>;

/// The ids of the policies (static and linked) that a policy set holds.
pub uninterp spec fn engine_policy_ids(ps: cedar_policy::PolicySet) -> Set<Seq<char>>;

/// The templates that a policy set holds: id to the names of its slots.
pub uninterp spec fn engine_templates(ps: cedar_policy::PolicySet) -> Map<Seq<char>, Set<Seq<char>>>;

/// The slot names that bindings of the principal and of the resource fill.
pub open spec fn bound_slot_names(principal: bool, resource: bool) -> Set<Seq<char>> {
    Set::new(|n: Seq<char>| (principal && n == "?principal"@) || (resource && n == "?resource"@))
}

/// Relies on cedar_policy::Policy::parse: success depends on the text alone
/// (the identifier given is only attached to the result, and is kept beside it).
#[verifier::external_body]
pub(crate) fn parse_static_policy(id: &String, text: &String) -> (r: Option<EnginePolicy>)
    ensures
        r.is_some() == static_policy_parses(text@),
        r is Some ==> r->Some_0.id_view() == id@,
{
    cedar_policy::Policy::parse(Some(cedar_policy::PolicyId::new(id)), text)
        .ok()
        .map(|policy| EnginePolicy { id: id.clone(), policy })
}

/// Relies on cedar_policy::Template::parse, whose success depends on the text
/// alone, and on cedar_policy::Template::slots, whose names (`SlotId`'s
/// `Display`) are kept beside the template with the identifier it was given.
#[verifier::external_body]
pub(crate) fn parse_template(id: &String, text: &String) -> (r: Option<EngineTemplate>)
    ensures
        r.is_some() == template_parses(text@),
        r is Some ==> r->Some_0.id_view() == id@ && r->Some_0.slots_view() == template_slot_names(text@),
{
    cedar_policy::Template::parse(Some(cedar_policy::PolicyId::new(id)), text).ok().map(|template| {
        let slots = template.slots().map(|s| s.to_string()).collect();
        EngineTemplate { id: id.clone(), slots, template }
    })
}

/// Relies on `FromStr` for cedar_policy::EntityTypeName.
#[verifier::external_body]
pub(crate) fn parse_entity_type(name: &String) -> (r: Option<cedar_policy::EntityTypeName>)
    ensures
        r.is_some() == entity_type_parses(name@),
{
    <cedar_policy::EntityTypeName as std::str::FromStr>::from_str(name).ok()
}

/// Relies on cedar_policy::Schema::from_json_str. The remote store keeps
/// schemas in the engine's JSON form, so that form is read here (the
/// engine's `FromStr` reads its other, Cedar-syntax form).
#[verifier::external_body]
pub(crate) fn parse_schema(text: &String) -> (r: Option<cedar_policy::Schema>)
    ensures
        r.is_some() == schema_parses(text@),
{
    cedar_policy::Schema::from_json_str(text).ok()
}

/// Relies on cedar_policy::EntityUid::from_type_name_and_id, which cannot
/// fail (an entity id is any text).
#[verifier::external_body]
pub(crate) fn entity_uid(entity_type: cedar_policy::EntityTypeName, id: &String) -> cedar_policy::EntityUid {
    cedar_policy::EntityUid::from_type_name_and_id(entity_type, cedar_policy::EntityId::new(id))
}

/// Relies on cedar_policy::PolicySet::new: an empty set.
#[verifier::external_body]
pub(crate) fn new_policy_set() -> (r: cedar_policy::PolicySet)
    ensures
        engine_policy_ids(r).is_empty(),
        engine_templates(r).is_empty(),
{
    cedar_policy::PolicySet::new()
}

/// Relies on cedar_policy::PolicySet::add_template (api.rs and the core's
/// `PolicySet::add_template`): it fails, changing nothing, exactly when the id
/// is already held by a policy or a template; true when it succeeded.
#[verifier::external_body]
pub(crate) fn add_template_to(ps: &mut cedar_policy::PolicySet, template: EngineTemplate) -> (r: bool)
    ensures
        r == !(engine_policy_ids(*old(ps)).contains(template.id_view()) || engine_templates(*old(ps)).contains_key(
            template.id_view(),
        )),
        r ==> engine_policy_ids(*final(ps)) == engine_policy_ids(*old(ps)) && engine_templates(*final(ps))
            == engine_templates(*old(ps)).insert(template.id_view(), template.slots_view()),
        !r ==> engine_policy_ids(*final(ps)) == engine_policy_ids(*old(ps)) && engine_templates(*final(ps))
            == engine_templates(*old(ps)),
{
    ps.add_template(template.template).is_ok()
}

/// Relies on cedar_policy::PolicySet::add for a static policy (api.rs and the
/// core's `PolicySet::add`): an id held by no policy and no template is
/// added; an id held by a policy is refused, changing nothing; true when it
/// succeeded.
#[verifier::external_body]
pub(crate) fn add_policy_to(ps: &mut cedar_policy::PolicySet, policy: EnginePolicy) -> (r: bool)
    ensures
        !engine_policy_ids(*old(ps)).contains(policy.id_view()) && !engine_templates(*old(ps)).contains_key(
            policy.id_view(),
        ) ==> r,
        engine_policy_ids(*old(ps)).contains(policy.id_view()) ==> !r,
        r ==> engine_policy_ids(*final(ps)) == engine_policy_ids(*old(ps)).insert(policy.id_view())
            && engine_templates(*final(ps)) == engine_templates(*old(ps)),
        !r ==> engine_policy_ids(*final(ps)) == engine_policy_ids(*old(ps)) && engine_templates(*final(ps))
            == engine_templates(*old(ps)),
{
    ps.add(policy.policy).is_ok()
}

/// Relies on cedar_policy::PolicySet::link, with both identifiers made by
/// cedar_policy::PolicyId::new and the bindings put in a map under
/// `SlotId::principal` and `SlotId::resource`: it succeeds exactly when the
/// template is held, the bindings fill exactly its slots, and the new id is
/// held by no policy and no template (api.rs `link`, the core's
/// `PolicySet::link` and `Template::check_binding`); a failure changes
/// nothing. True when it succeeded.
#[verifier::external_body]
pub(crate) fn link_template(
    ps: &mut cedar_policy::PolicySet,
    template_id: &String,
    new_id: &String,
    principal: Option<cedar_policy::EntityUid>,
    resource: Option<cedar_policy::EntityUid>,
) -> (r: bool)
    ensures
        r == (engine_templates(*old(ps)).contains_key(template_id@) && engine_templates(*old(ps))[template_id@]
            == bound_slot_names(principal is Some, resource is Some) && !engine_policy_ids(*old(ps)).contains(
            new_id@,
        ) && !engine_templates(*old(ps)).contains_key(new_id@)),
        r ==> engine_policy_ids(*final(ps)) == engine_policy_ids(*old(ps)).insert(new_id@) && engine_templates(
            *final(ps),
        ) == engine_templates(*old(ps)),
        !r ==> engine_policy_ids(*final(ps)) == engine_policy_ids(*old(ps)) && engine_templates(*final(ps))
            == engine_templates(*old(ps)),
{
    let vals: HashMap<cedar_policy::SlotId, cedar_policy::EntityUid> = principal
        .into_iter()
        .map(|p| (cedar_policy::SlotId::principal(), p))
        .chain(resource.into_iter().map(|r| (cedar_policy::SlotId::resource(), r)))
        .collect();
    ps.link(cedar_policy::PolicyId::new(template_id), cedar_policy::PolicyId::new(new_id), vals).is_ok()
}

} // verus!
