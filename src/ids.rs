//! String-backed identifiers of policies and templates.
use vstd::prelude::*;

verus! {

/// Identifier of a policy in the remote store.
#[derive(Debug, Clone, Hash)]
pub struct PolicyId(pub String);

/// Identifier of a policy template in the remote store.
#[derive(Debug, Clone, Hash)]
pub struct TemplateId(pub String);

impl PolicyId {
    pub open spec fn view(&self) -> Seq<char> {
        self.0@
    }

    /// The identifier as text.
    pub fn to_string(&self) -> (r: String)
        ensures
            r@ == self.0@,
    {
        self.0.clone()
    }
}

impl TemplateId {
    pub open spec fn view(&self) -> Seq<char> {
        self.0@
    }

    /// The identifier as text.
    pub fn to_string(&self) -> (r: String)
        ensures
            r@ == self.0@,
    {
        self.0.clone()
    }
}

impl PartialEq for PolicyId {
    fn eq(&self, o: &PolicyId) -> (r: bool)
        ensures
            r == (self.0@ == o.0@),
    {
        self.0 == o.0
    }
}

impl vstd::std_specs::cmp::PartialEqSpecImpl for PolicyId {
    open spec fn obeys_eq_spec() -> bool {
        true
    }

    open spec fn eq_spec(&self, o: &PolicyId) -> bool {
        self.0@ == o.0@
    }
}

impl Eq for PolicyId {}

impl PartialEq for TemplateId {
    fn eq(&self, o: &TemplateId) -> (r: bool)
        ensures
            r == (self.0@ == o.0@),
    {
        self.0 == o.0
    }
}

impl vstd::std_specs::cmp::PartialEqSpecImpl for TemplateId {
    open spec fn obeys_eq_spec() -> bool {
        true
    }

    open spec fn eq_spec(&self, o: &TemplateId) -> bool {
        self.0@ == o.0@
    }
}

impl Eq for TemplateId {}

impl From<String> for PolicyId {
    fn from(item: String) -> (r: PolicyId)
        ensures
            r.0@ == item@,
    {
        PolicyId(item)
    }
}

impl vstd::std_specs::convert::FromSpecImpl<String> for PolicyId {
    open spec fn obeys_from_spec() -> bool {
        true
    }

    open spec fn from_spec(v: String) -> PolicyId {
        PolicyId(v)
    }
}

impl From<String> for TemplateId {
    fn from(item: String) -> (r: TemplateId)
        ensures
            r.0@ == item@,
    {
        TemplateId(item)
    }
}

impl vstd::std_specs::convert::FromSpecImpl<String> for TemplateId {
    open spec fn obeys_from_spec() -> bool {
        true
    }

    open spec fn from_spec(v: String) -> TemplateId {
        TemplateId(v)
    }
}

} // verus!
