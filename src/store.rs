//! Policy store identifiers, optionally narrowed by a policy filter, and
//! the shorthand text of filters.
use vstd::prelude::*;
use vstd::string::{StrSliceExecFns, StringExecFns};
use crate::filter::{trimmed, Entity, PolicyFilterInputError, PolicyStoreFilter, PolicyTypeInput};
use crate::snapshot::ProviderError;

verus! {

/// Shorthand text of an entity reference.
pub open spec fn entity_text(e: Entity) -> Seq<char> {
    match e {
        Entity::Identifier { entity_type, entity_id } => "{identifier={entityType="@ + entity_type@
            + ",entityId="@ + entity_id@ + "}}"@,
        Entity::Unspecified(b) => "{unspecified="@ + (if b {
            "true"@
        } else {
            "false"@
        }) + "}"@,
    }
}

/// Shorthand text of a policy kind.
pub open spec fn policy_type_text(t: PolicyTypeInput) -> Seq<char> {
    match t {
        PolicyTypeInput::Static => "STATIC"@,
        PolicyTypeInput::TemplateLinked => "TEMPLATE_LINKED"@,
    }
}

/// `acc` followed by `part`, with a comma between them when both are there.
pub open spec fn with_part(acc: Seq<char>, part: Option<Seq<char>>) -> Seq<char> {
    match part {
        None => acc,
        Some(p) => if acc.len() == 0 {
            p
        } else {
            acc + ","@ + p
        },
    }
}

/// Shorthand text of a filter: its set fields as `name=value`, in the order
/// principal, resource, policy type, template id, separated by commas.
pub open spec fn filter_text(f: PolicyStoreFilter) -> Seq<char> {
    let a = with_part(Seq::empty(), match f.principal {
        Some(e) => Some("principal="@ + entity_text(e)),
        None => None,
    });
    let b = with_part(a, match f.resource {
        Some(e) => Some("resource="@ + entity_text(e)),
        None => None,
    });
    let c = with_part(b, match f.policy_type {
        Some(t) => Some("policyType="@ + policy_type_text(t)),
        None => None,
    });
    with_part(c, match f.policy_template_id {
        Some(t) => Some("policyTemplateId="@ + t@),
        None => None,
    })
}

fn entity_to_text(e: &Entity) -> (r: String)
    ensures
        r@ == entity_text(*e),
{
    match e {
        Entity::Identifier { entity_type, entity_id } => {
            let mut s = String::from_str("{identifier={entityType=");
            s.append(entity_type.as_str());
            s.append(",entityId=");
            s.append(entity_id.as_str());
            s.append("}}");
            s
        },
        Entity::Unspecified(b) => {
            let mut s = String::from_str("{unspecified=");
            if *b {
                s.append("true");
            } else {
                s.append("false");
            }
            s.append("}");
            s
        },
    }
}

fn append_part(acc: &mut String, part: &str)
    ensures
        final(acc)@ == with_part(old(acc)@, Some(part@)),
{
    if acc.as_str().unicode_len() == 0 {
        acc.append(part);
    } else {
        acc.append(",");
        acc.append(part);
    }
}

impl PolicyStoreFilter {
    /// The filter in shorthand syntax.
    pub fn to_string(&self) -> (r: String)
        ensures
            r@ == filter_text(*self),
    {
        let mut s = String::new();
        match &self.principal {
            Some(e) => {
                let mut p = String::from_str("principal=");
                let t = entity_to_text(e);
                p.append(t.as_str());
                append_part(&mut s, p.as_str());
            },
            None => {},
        }
        match &self.resource {
            Some(e) => {
                let mut p = String::from_str("resource=");
                let t = entity_to_text(e);
                p.append(t.as_str());
                append_part(&mut s, p.as_str());
            },
            None => {},
        }
        match &self.policy_type {
            Some(t) => {
                let mut p = String::from_str("policyType=");
                match t {
                    PolicyTypeInput::Static => p.append("STATIC"),
                    PolicyTypeInput::TemplateLinked => p.append("TEMPLATE_LINKED"),
                }
                append_part(&mut s, p.as_str());
            },
            None => {},
        }
        match &self.policy_template_id {
            Some(t) => {
                let mut p = String::from_str("policyTemplateId=");
                p.append(t.as_str());
                append_part(&mut s, p.as_str());
            },
            None => {},
        }
        s
    }
}

/// Text of an identifier with an optional filter: the identifier, then
/// `;filter=` and the filter's shorthand if there is one.
pub open spec fn selector_text(id: Seq<char>, filter: Option<PolicyStoreFilter>) -> Seq<char> {
    match filter {
        Some(f) => id + ";filter="@ + filter_text(f),
        None => id,
    }
}

fn selector_to_string(id: &String, filter: &Option<PolicyStoreFilter>) -> (r: String)
    ensures
        r@ == selector_text(id@, *filter),
{
    let mut s = id.clone();
    match filter {
        Some(f) => {
            s.append(";filter=");
            let t = f.to_string();
            s.append(t.as_str());
        },
        None => {},
    }
    s
}

/// The filter read from shorthand, or the reason it was refused.
fn cli_filter(filters: &str) -> (r: Result<PolicyStoreFilter, ProviderError>)
    ensures
        r is Err ==> r->Err_0 is Configuration,
        trimmed(filters@).len() == 0 ==> r is Err,
{
    match PolicyStoreFilter::from_cli_str(filters) {
        Ok(f) => Ok(f),
        Err(e) => Err(ProviderError::Configuration(e.to_string())),
    }
}

/// The identifier of a policy store, optionally narrowed by a policy filter.
#[derive(Debug, Clone, PartialEq, Eq, Hash)]
pub struct PolicyStoreId(pub String, pub Option<PolicyStoreFilter>);

impl PolicyStoreId {
    /// The identifier, followed by `;filter=` and the filter if one is set.
    pub fn to_string(&self) -> (r: String)
        ensures
            r@ == selector_text(self.0@, self.1),
    {
        selector_to_string(&self.0, &self.1)
    }

    /// Sets the filter from an already-read one; refused when a filter is set.
    pub fn with_parsed_filters(self, filters: Result<PolicyStoreFilter, PolicyFilterInputError>) -> (r: Result<PolicyStoreId, ProviderError>)
        ensures
            self.1 is Some ==> r is Err && r->Err_0 is Configuration,
            self.1 is None && filters is Err ==> r is Err && r->Err_0 is Configuration,
            self.1 is None && filters is Ok ==> r is Ok && r->Ok_0.0 == self.0 && r->Ok_0.1 == Some(filters->Ok_0),
    {
        if self.1.is_some() {
            return Err(ProviderError::Configuration(String::from_str("PolicyStoreFilter has already been set")));
        }
        match filters {
            Ok(f) => Ok(PolicyStoreId(self.0, Some(f))),
            Err(e) => Err(ProviderError::Configuration(e.to_string())),
        }
    }

    /// Sets the filter from shorthand; refused when a filter is set or the
    /// shorthand does not read as a filter.
    pub fn with_cli_filters(self, filters: &str) -> (r: Result<PolicyStoreId, ProviderError>)
        ensures
            self.1 is Some ==> r is Err && r->Err_0 is Configuration,
            trimmed(filters@).len() == 0 ==> r is Err,
            r is Err ==> r->Err_0 is Configuration,
            r is Ok ==> r->Ok_0.0 == self.0 && r->Ok_0.1 is Some,
    {
        if self.1.is_some() {
            return Err(ProviderError::Configuration(String::from_str("PolicyStoreFilter has already been set")));
        }
        match cli_filter(filters) {
            Ok(f) => Ok(PolicyStoreId(self.0, Some(f))),
            Err(e) => Err(e),
        }
    }

    /// The store identifier.
    pub fn id(&self) -> (r: &str)
        ensures
            r@ == self.0@,
    {
        self.0.as_str()
    }

    /// The filter, if one is set.
    pub fn filters(&self) -> (r: Option<&PolicyStoreFilter>)
        ensures
            r is Some <==> self.1 is Some,
            r is Some ==> *r->Some_0 == self.1->Some_0,
    {
        match &self.1 {
            Some(f) => Some(f),
            None => None,
        }
    }
}

impl From<String> for PolicyStoreId {
    fn from(item: String) -> (r: PolicyStoreId)
        ensures
            r == PolicyStoreId(item, None),
    {
        PolicyStoreId(item, None)
    }
}

impl vstd::std_specs::convert::FromSpecImpl<String> for PolicyStoreId {
    open spec fn obeys_from_spec() -> bool {
        true
    }

    open spec fn from_spec(v: String) -> PolicyStoreId {
        PolicyStoreId(v, None)
    }
}

/// Which policies of a store to read: the store's identifier and an optional
/// policy filter.
#[derive(Debug, Clone, PartialEq, Eq, Hash)]
pub struct PolicySelector(String, Option<PolicyStoreFilter>);

impl PolicySelector {
    pub closed spec fn store(&self) -> String {
        self.0
    }

    pub closed spec fn filter(&self) -> Option<PolicyStoreFilter> {
        self.1
    }

    /// The identifier, followed by `;filter=` and the filter if one is set.
    pub fn to_string(&self) -> (r: String)
        ensures
            r@ == selector_text(self.store()@, self.filter()),
    {
        selector_to_string(&self.0, &self.1)
    }

    /// Sets the filter from shorthand; refused when a filter is set or the
    /// shorthand does not read as a filter.
    pub fn with_cli_filters(self, filters: &str) -> (r: Result<PolicySelector, ProviderError>)
        ensures
            self.filter() is Some ==> r is Err && r->Err_0 is Configuration,
            trimmed(filters@).len() == 0 ==> r is Err,
            r is Err ==> r->Err_0 is Configuration,
            r is Ok ==> r->Ok_0.store() == self.store() && r->Ok_0.filter() is Some,
    {
        if self.1.is_some() {
            return Err(ProviderError::Configuration(String::from_str("PolicyStoreFilter has already been set")));
        }
        match cli_filter(filters) {
            Ok(f) => Ok(PolicySelector(self.0, Some(f))),
            Err(e) => Err(e),
        }
    }

    /// Replaces the filter.
    pub fn with_filters(self, filters: Option<PolicyStoreFilter>) -> (r: PolicySelector)
        ensures
            r.store() == self.store() && r.filter() == filters,
    {
        PolicySelector(self.0, filters)
    }

    /// The store identifier.
    pub fn id(&self) -> (r: &str)
        ensures
            r@ == self.store()@,
    {
        self.0.as_str()
    }

    /// The filter, if one is set.
    pub fn filters(&self) -> (r: Option<&PolicyStoreFilter>)
        ensures
            r is Some <==> self.filter() is Some,
            r is Some ==> *r->Some_0 == self.filter()->Some_0,
    {
        match &self.1 {
            Some(f) => Some(f),
            None => None,
        }
    }
}

impl From<String> for PolicySelector {
    fn from(item: String) -> (r: PolicySelector)
        ensures
            r.store() == item && r.filter() is None,
    {
        PolicySelector(item, None)
    }
}

impl vstd::std_specs::convert::FromSpecImpl<String> for PolicySelector {
    open spec fn obeys_from_spec() -> bool {
        true
    }

    closed spec fn from_spec(v: String) -> PolicySelector {
        PolicySelector(v, None)
    }
}

} // verus!
