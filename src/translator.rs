//! Translation of the remote store's items into the policy engine's objects.
use vstd::prelude::*;
use vstd::string::StringExecFns;
use crate::cedar::{
    entity_type_parses, entity_uid, parse_entity_type, parse_schema, parse_static_policy,
    parse_template, schema_parses, static_policy_parses, template_parses, template_slot_names,
    EnginePolicy, EngineTemplate,
};
use crate::ids::{PolicyId, TemplateId};

verus! {

/// Why an item of the remote store could not be translated.
#[derive(Debug)]
pub enum TranslatorException {
    /// The item has a shape that cannot be translated.
    InvalidInput(),
    /// A static policy's statement does not parse; holds the policy id.
    ParsePolicy(String),
    /// An entity reference of a template-linked policy does not parse; holds
    /// the policy id.
    ParseEntity(String),
    /// A template's statement does not parse; holds the template id.
    ParseTemplate(String),
    /// The schema does not parse.
    ParseSchema(),
    /// A static policy carries no statement.
    StaticPolicyStatementNotFound(),
}

impl TranslatorException {
    /// The text shown for this exception.
    pub open spec fn text(&self) -> Seq<char> {
        match self {
            TranslatorException::InvalidInput() => "Input is invalid."@,
            TranslatorException::ParsePolicy(id) => "Error occurred when parsing the policy, policy id: "@ + id@ + "."@,
            TranslatorException::ParseEntity(id) => "Error occurred when parsing the entity in the policy, policy id: "@ + id@ + "."@,
            TranslatorException::ParseTemplate(id) => "Error occurred when parsing the template, template id: "@ + id@ + "."@,
            TranslatorException::ParseSchema() => "Error occurred when parsing the schema"@,
            TranslatorException::StaticPolicyStatementNotFound() => "Static policy statement is not found."@,
        }
    }

    /// The exception as text.
    pub fn to_string(&self) -> (r: String)
        ensures
            r@ == self.text(),
    {
        match self {
            TranslatorException::InvalidInput() => String::from_str("Input is invalid."),
            TranslatorException::ParsePolicy(id) => {
                let mut s = String::from_str("Error occurred when parsing the policy, policy id: ");
                s.append(id.as_str());
                s.append(".");
                s
            },
            TranslatorException::ParseEntity(id) => {
                let mut s = String::from_str("Error occurred when parsing the entity in the policy, policy id: ");
                s.append(id.as_str());
                s.append(".");
                s
            },
            TranslatorException::ParseTemplate(id) => {
                let mut s = String::from_str("Error occurred when parsing the template, template id: ");
                s.append(id.as_str());
                s.append(".");
                s
            },
            TranslatorException::ParseSchema() => String::from_str("Error occurred when parsing the schema"),
            TranslatorException::StaticPolicyStatementNotFound() => String::from_str("Static policy statement is not found."),
        }
    }
}

/// A reference to an entity: its type name and its id.
#[derive(Debug, PartialEq)]
pub struct EntityIdentifier {
    pub entity_type: String,
    pub entity_id: String,
}

/// The definition of a policy as the remote store holds it.
#[derive(Debug, PartialEq)]
pub enum PolicyDefinitionDetail {
    /// A self-contained policy and its statement text.
    Static { statement: Option<String> },
    /// A policy that instantiates a template, with the entities bound to its
    /// principal and resource slots (an absent one is left unbound).
    TemplateLinked {
        policy_template_id: Option<String>,
        principal: Option<EntityIdentifier>,
        resource: Option<EntityIdentifier>,
    },
    /// A kind of definition this library does not know.
    Unknown,
}

impl Clone for EntityIdentifier {
    fn clone(&self) -> (r: EntityIdentifier)
        ensures
            r == *self,
    {
        EntityIdentifier { entity_type: self.entity_type.clone(), entity_id: self.entity_id.clone() }
    }
}

/// Copies an optional entity reference.
fn clone_identifier(e: &Option<EntityIdentifier>) -> (r: Option<EntityIdentifier>)
    ensures
        r == *e,
{
    match e {
        None => None,
        Some(i) => Some(i.clone()),
    }
}

impl Clone for PolicyDefinitionDetail {
    fn clone(&self) -> (r: PolicyDefinitionDetail)
        ensures
            r == *self,
    {
        match self {
            PolicyDefinitionDetail::Static { statement } => PolicyDefinitionDetail::Static {
                statement: match statement {
                    None => None,
                    Some(t) => Some(t.clone()),
                },
            },
            PolicyDefinitionDetail::TemplateLinked { policy_template_id, principal, resource } =>
                PolicyDefinitionDetail::TemplateLinked {
                policy_template_id: match policy_template_id {
                    None => None,
                    Some(t) => Some(t.clone()),
                },
                principal: clone_identifier(principal),
                resource: clone_identifier(resource),
            },
            PolicyDefinitionDetail::Unknown => PolicyDefinitionDetail::Unknown,
        }
    }
}

/// A policy's id together with its definition.
#[derive(Debug, Clone)]
pub struct PolicyDefinition {
    pub policy_id: String,
    pub detail: PolicyDefinitionDetail,
}

/// The entities bound to a template's slots; an absent one leaves its slot
/// unbound.
#[derive(Debug)]
pub struct SlotBindings {
    pub principal: Option<cedar_policy::EntityUid>,
    pub resource: Option<cedar_policy::EntityUid>,
}

/// A translated policy.
#[derive(Debug)]
pub enum TranslatedPolicy {
    /// A parsed static policy, identified by the remote policy id.
    Static(EnginePolicy),
    /// A policy to link: its id, its template's id and the slot bindings.
    TemplateLinked(PolicyId, TemplateId, SlotBindings),
}

/// A translated policy template.
#[derive(Debug)]
pub struct TranslatedTemplate(pub EngineTemplate);

/// A translated schema.
#[derive(Debug)]
pub struct TranslatedSchema(pub cedar_policy::Schema);

/// An optional entity reference that, if present, has a type name that parses.
pub open spec fn entity_ok(e: Option<EntityIdentifier>) -> bool {
    match e {
        None => true,
        Some(i) => entity_type_parses(i.entity_type@),
    }
}

/// The definition translates into a policy.
pub open spec fn translates(d: PolicyDefinitionDetail) -> bool {
    match d {
        PolicyDefinitionDetail::Static { statement } => statement is Some && static_policy_parses(
            statement->Some_0@,
        ),
        PolicyDefinitionDetail::TemplateLinked { policy_template_id, principal, resource } =>
            policy_template_id is Some && entity_ok(principal) && entity_ok(resource),
        PolicyDefinitionDetail::Unknown => false,
    }
}

/// The text of the error that translating a definition that fails gives.
pub open spec fn translation_error(id: Seq<char>, d: PolicyDefinitionDetail) -> Seq<char> {
    match d {
        PolicyDefinitionDetail::Static { statement } => if statement is None {
            "Static policy statement is not found."@
        } else {
            "Error occurred when parsing the policy, policy id: "@ + id + "."@
        },
        PolicyDefinitionDetail::TemplateLinked { policy_template_id, .. } => if policy_template_id is None {
            "Input is invalid."@
        } else {
            "Error occurred when parsing the entity in the policy, policy id: "@ + id + "."@
        },
        PolicyDefinitionDetail::Unknown => "Input is invalid."@,
    }
}

/// The entity an optional reference names, if it is present.
fn entity_binding(
    policy_id: &String,
    option_identifier: &Option<EntityIdentifier>,
) -> (r: Result<Option<cedar_policy::EntityUid>, TranslatorException>)
    ensures
        r.is_ok() == entity_ok(*option_identifier),
        r.is_ok() ==> (r->Ok_0 is Some <==> *option_identifier is Some),
        r.is_err() ==> r->Err_0 == TranslatorException::ParseEntity(*policy_id),
{
    match option_identifier {
        None => Ok(None),
        Some(identifier) => {
            match parse_entity_type(&identifier.entity_type) {
                None => Err(TranslatorException::ParseEntity(policy_id.clone())),
                Some(entity_name) => Ok(Some(entity_uid(entity_name, &identifier.entity_id))),
            }
        },
    }
}

/// The translation matches its definition: a static policy keeps the
/// policy's id; a linked one keeps the policy and template ids and binds
/// exactly the slots whose references are present.
pub open spec fn translated_from(p: TranslatedPolicy, id: Seq<char>, d: PolicyDefinitionDetail) -> bool {
    match p {
        TranslatedPolicy::Static(e) => d is Static && e.id_view() == id,
        TranslatedPolicy::TemplateLinked(pid, tid, b) => d is TemplateLinked && pid@ == id
            && d->TemplateLinked_policy_template_id is Some && tid@
            == d->TemplateLinked_policy_template_id->Some_0@ && (b.principal is Some
            <==> d->TemplateLinked_principal is Some) && (b.resource is Some
            <==> d->TemplateLinked_resource is Some),
    }
}

impl TranslatedPolicy {
    /// Translates a policy definition: a static one is parsed, a
    /// template-linked one has its slot bindings parsed.
    pub fn try_from(definition: PolicyDefinition) -> (r: Result<TranslatedPolicy, TranslatorException>)
        ensures
            r.is_ok() == translates(definition.detail),
            r.is_err() ==> r->Err_0.text() == translation_error(definition.policy_id@, definition.detail),
            r.is_ok() ==> translated_from(r->Ok_0, definition.policy_id@, definition.detail),
    {
        let PolicyDefinition { policy_id, detail } = definition;
        match detail {
            PolicyDefinitionDetail::Static { statement } => {
                match statement {
                    None => Err(TranslatorException::StaticPolicyStatementNotFound()),
                    Some(text) => {
                        match parse_static_policy(&policy_id, &text) {
                            Some(p) => Ok(TranslatedPolicy::Static(p)),
                            None => Err(TranslatorException::ParsePolicy(policy_id)),
                        }
                    },
                }
            },
            PolicyDefinitionDetail::TemplateLinked { policy_template_id, principal, resource } => {
                match policy_template_id {
                    None => Err(TranslatorException::InvalidInput()),
                    Some(template_id) => {
                        let principal = match entity_binding(&policy_id, &principal) {
                            Err(e) => { return Err(e); },
                            Ok(b) => b,
                        };
                        let resource = match entity_binding(&policy_id, &resource) {
                            Err(e) => { return Err(e); },
                            Ok(b) => b,
                        };
                        Ok(TranslatedPolicy::TemplateLinked(
                            PolicyId(policy_id),
                            TemplateId(template_id),
                            SlotBindings { principal, resource },
                        ))
                    },
                }
            },
            PolicyDefinitionDetail::Unknown => Err(TranslatorException::InvalidInput()),
        }
    }
}

/// A policy template as the remote store holds it.
#[derive(Debug, Clone, PartialEq)]
pub struct TemplateRecord {
    pub policy_template_id: String,
    pub statement: String,
}

impl TranslatedTemplate {
    /// Parses a template's statement, identified by its template id.
    pub fn try_from(record: &TemplateRecord) -> (r: Result<TranslatedTemplate, TranslatorException>)
        ensures
            r.is_ok() == template_parses(record.statement@),
            r.is_err() ==> r->Err_0 is ParseTemplate && r->Err_0->ParseTemplate_0@ == record.policy_template_id@,
            r.is_ok() ==> r->Ok_0.0.id_view() == record.policy_template_id@ && r->Ok_0.0.slots_view()
                == template_slot_names(record.statement@),
    {
        match parse_template(&record.policy_template_id, &record.statement) {
            Some(t) => Ok(TranslatedTemplate(t)),
            None => Err(TranslatorException::ParseTemplate(record.policy_template_id.clone())),
        }
    }
}

impl TranslatedSchema {
    /// Parses a schema given in the engine's JSON form.
    pub fn try_from(text: &String) -> (r: Result<TranslatedSchema, TranslatorException>)
        ensures
            r.is_ok() == schema_parses(text@),
            r.is_err() ==> r->Err_0 is ParseSchema,
    {
        match parse_schema(text) {
            Some(s) => Ok(TranslatedSchema(s)),
            None => Err(TranslatorException::ParseSchema()),
        }
    }
}

} // verus!
