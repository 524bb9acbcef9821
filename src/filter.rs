//! Policy store filters written in command-line shorthand.
use vstd::prelude::*;
use vstd::string::{StrSliceExecFns, StringExecFns};
use crate::shorthand::{from_cli_string, property_ok, CliShorthandValue};

verus! {

/// A reference to the principal or resource of the policies to keep.
#[derive(Debug, Clone, PartialEq, Eq, Hash)]
pub enum Entity {
    /// Policies whose slot is unspecified (`true`) or specified (`false`).
    Unspecified(bool),
    /// Policies that name this entity.
    Identifier { entity_type: String, entity_id: String },
}

/// The kind of policies to keep.
#[derive(Debug, Clone, Copy, PartialEq, Eq, Structural, Hash)]
pub enum PolicyTypeInput {
    Static,
    TemplateLinked,
}

/// Why a filter expression was refused.
#[derive(Debug)]
pub enum PolicyFilterInputError {
    /// An entity reference that the remote service refuses: type, id, reason.
    InvalidEntityReference(String, String, String),
    /// The filter restricts nothing.
    EmptyFilter,
    /// A JSON expression is invalid.
    JsonDeserializationError(String),
    /// A shorthand expression is not in shorthand syntax.
    ShorthandParseError(String),
    /// A shorthand expression holds unsupported structures.
    ShorthandContentError(String),
}

impl PolicyFilterInputError {
    /// The error as text.
    pub fn to_string(&self) -> (r: String)
        ensures
            self is EmptyFilter ==> r@ == "Empty filter"@,
            self is ShorthandParseError ==> r@ == "shorthand syntax error: "@ + self->ShorthandParseError_0@,
            self is ShorthandContentError ==> r@ == "shorthand content error: "@ + self->ShorthandContentError_0@,
            self is JsonDeserializationError ==> r@ == "JSON error: "@ + self->JsonDeserializationError_0@,
    {
        match self {
            PolicyFilterInputError::InvalidEntityReference(t, i, e) => {
                let mut s = String::from_str("invalid entity reference ");
                s.append(t.as_str());
                s.append(" ");
                s.append(i.as_str());
                s.append(": ");
                s.append(e.as_str());
                s
            },
            PolicyFilterInputError::EmptyFilter => String::from_str("Empty filter"),
            PolicyFilterInputError::JsonDeserializationError(m) => {
                let mut s = String::from_str("JSON error: ");
                s.append(m.as_str());
                s
            },
            PolicyFilterInputError::ShorthandParseError(m) => {
                let mut s = String::from_str("shorthand syntax error: ");
                s.append(m.as_str());
                s
            },
            PolicyFilterInputError::ShorthandContentError(m) => {
                let mut s = String::from_str("shorthand content error: ");
                s.append(m.as_str());
                s
            },
        }
    }
}

/// Both properties of an entity identifier, in either order, with unquoted
/// values.
pub open spec fn identifier_fields_ok(v: Seq<(String, CliShorthandValue)>) -> bool {
    v.len() == 2 && v[0].1 is SimpleValue && v[1].1 is SimpleValue && ((v[0].0@ == "entityType"@
        && v[1].0@ == "entityId"@) || (v[0].0@ == "entityId"@ && v[1].0@ == "entityType"@))
}

/// The shorthand value is one `unspecified=...` or `identifier={...}` property.
pub open spec fn entity_ok(v: CliShorthandValue) -> bool {
    v is Struct && v->Struct_0@.len() == 1 && {
        let (k, x) = v->Struct_0@[0];
        (k@ == "unspecified"@ && x is SimpleValue) || (k@ == "identifier"@ && x is Struct
            && identifier_fields_ok(x->Struct_0@))
    }
}

fn is_text(s: &String, lit: &str) -> (r: bool)
    ensures
        r == (s@ == lit@),
{
    let l = String::from_str(lit);
    *s == l
}

impl Entity {
    /// Reads an entity reference from its shorthand form.
    pub fn try_from(value: CliShorthandValue) -> (r: Result<Entity, PolicyFilterInputError>)
        ensures
            r is Ok <==> entity_ok(value),
            r is Err ==> r->Err_0 is ShorthandContentError,
            r is Ok && value->Struct_0@[0].0@ == "unspecified"@ ==> r->Ok_0 == Entity::Unspecified(
                value->Struct_0@[0].1->SimpleValue_0@ == "true"@,
            ),
            r is Ok && value->Struct_0@[0].0@ == "identifier"@ ==> r->Ok_0 is Identifier && {
                let f = value->Struct_0@[0].1->Struct_0@;
                if f[0].0@ == "entityType"@ {
                    r->Ok_0->entity_type@ == f[0].1->SimpleValue_0@ && r->Ok_0->entity_id@ == f[1].1->SimpleValue_0@
                } else {
                    r->Ok_0->entity_type@ == f[1].1->SimpleValue_0@ && r->Ok_0->entity_id@ == f[0].1->SimpleValue_0@
                }
            },
    {
        proof {
            reveal_strlit("unspecified");
            reveal_strlit("identifier");
            reveal_strlit("entityType");
            reveal_strlit("entityId");
            assert("unspecified"@.len() != "identifier"@.len());
            assert("entityType"@.len() != "entityId"@.len());
        }
        let c = match value {
            CliShorthandValue::Struct(c) => c,
            _ => {
                return Err(PolicyFilterInputError::ShorthandContentError(
                    String::from_str("invalid value type for Entity reference"),
                ));
            },
        };
        if c.len() != 1 {
            return Err(PolicyFilterInputError::ShorthandContentError(
                String::from_str("invalid content for Entity reference"),
            ));
        }
        let (k, v) = &c[0];
        if is_text(k, "unspecified") {
            if let CliShorthandValue::SimpleValue(b) = v {
                return Ok(Entity::Unspecified(is_text(b, "true")));
            }
        } else if is_text(k, "identifier") {
            if let CliShorthandValue::Struct(f) = v {
                if f.len() == 2 {
                    if let (CliShorthandValue::SimpleValue(x), CliShorthandValue::SimpleValue(y)) = (&f[0].1, &f[1].1) {
                        if is_text(&f[0].0, "entityType") && is_text(&f[1].0, "entityId") {
                            return Ok(Entity::Identifier { entity_type: x.clone(), entity_id: y.clone() });
                        }
                        if is_text(&f[0].0, "entityId") && is_text(&f[1].0, "entityType") {
                            return Ok(Entity::Identifier { entity_type: y.clone(), entity_id: x.clone() });
                        }
                    }
                }
                return Err(PolicyFilterInputError::ShorthandContentError(
                    String::from_str("unrecognized field or value for Entity identifier"),
                ));
            }
        }
        let mut m = String::from_str("unrecognized type for Entity reference: ");
        m.append(k.as_str());
        Err(PolicyFilterInputError::ShorthandContentError(m))
    }
}

impl PolicyTypeInput {
    /// Reads a policy kind: `STATIC` or `TEMPLATE_LINKED`, quoted or not.
    pub fn try_from(value: CliShorthandValue) -> (r: Result<PolicyTypeInput, PolicyFilterInputError>)
        ensures
            r is Err ==> r->Err_0 is ShorthandContentError,
            value is SimpleValue ==> (value->SimpleValue_0@ == "STATIC"@ <==> r == Ok::<PolicyTypeInput, PolicyFilterInputError>(PolicyTypeInput::Static))
                && (value->SimpleValue_0@ == "TEMPLATE_LINKED"@ <==> r == Ok::<PolicyTypeInput, PolicyFilterInputError>(PolicyTypeInput::TemplateLinked)),
            value is Struct ==> r is Err,
    {
        proof {
            reveal_strlit("STATIC");
            reveal_strlit("TEMPLATE_LINKED");
            assert("STATIC"@.len() != "TEMPLATE_LINKED"@.len());
        }
        match value.to_string() {
            Some(t) => {
                if is_text(&t, "STATIC") {
                    return Ok(PolicyTypeInput::Static);
                }
                if is_text(&t, "TEMPLATE_LINKED") {
                    return Ok(PolicyTypeInput::TemplateLinked);
                }
            },
            None => {},
        }
        Err(PolicyFilterInputError::ShorthandContentError(String::from_str("Invalid value for Policy type")))
    }
}

/// Reads a text value, quoted or not.
pub fn text_from_value(value: CliShorthandValue) -> (r: Result<String, PolicyFilterInputError>)
    ensures
        r is Ok <==> !(value is Struct),
        value is SimpleValue ==> r is Ok && r->Ok_0@ == value->SimpleValue_0@,
        r is Err ==> r->Err_0 is ShorthandContentError,
{
    match value.to_string() {
        Some(t) => Ok(t),
        None => Err(PolicyFilterInputError::ShorthandContentError(String::from_str("not a string"))),
    }
}

/// One of the four properties a filter has.
pub open spec fn known_field(n: Seq<char>) -> bool {
    n == "principal"@ || n == "resource"@ || n == "policyType"@ || n == "policyTemplateId"@
}

/// Some property of the list has name `n`.
pub open spec fn names_field(items: Seq<(String, CliShorthandValue)>, n: Seq<char>) -> bool {
    exists|i: int| 0 <= i < items.len() && #[trigger] items[i].0@ == n
}

/// ASCII whitespace trimmed from both ends of shorthand input.
pub open spec fn lead(s: Seq<char>, p: int) -> int
    decreases s.len() - p,
{
    if 0 <= p < s.len() && crate::shorthand::is_trimmed_space(s[p]) {
        lead(s, p + 1)
    } else {
        p
    }
}

/// End of the text once trailing ASCII whitespace down to `lo` is dropped.
pub open spec fn trail(s: Seq<char>, q: int, lo: int) -> int
    decreases q - lo,
{
    if lo < q <= s.len() && crate::shorthand::is_trimmed_space(s[q - 1]) {
        trail(s, q - 1, lo)
    } else {
        q
    }
}

/// The text without its leading and trailing ASCII whitespace.
pub open spec fn trimmed(s: Seq<char>) -> Seq<char> {
    s.subrange(lead(s, 0), trail(s, s.len() as int, lead(s, 0)))
}

proof fn lemma_lead_bounds(s: Seq<char>, p: int)
    requires
        0 <= p <= s.len(),
    ensures
        p <= lead(s, p) <= s.len(),
    decreases s.len() - p,
{
    if p < s.len() && crate::shorthand::is_trimmed_space(s[p]) {
        lemma_lead_bounds(s, p + 1);
    }
}

proof fn lemma_trail_bounds(s: Seq<char>, q: int, lo: int)
    requires
        0 <= lo <= q <= s.len(),
    ensures
        lo <= trail(s, q, lo) <= q,
    decreases q - lo,
{
    if lo < q && crate::shorthand::is_trimmed_space(s[q - 1]) {
        lemma_trail_bounds(s, q - 1, lo);
    }
}

fn is_trimmed_char(c: char) -> (r: bool)
    ensures
        r == crate::shorthand::is_trimmed_space(c),
{
    c == ' ' || c == '\t' || c == '\n' || c == '\r' || c == '\x0C'
}

/// The text without its leading and trailing ASCII whitespace.
fn trim_ascii(s: &str) -> (r: &str)
    ensures
        r@ == trimmed(s@),
{
    let n = s.unicode_len();
    let mut a: usize = 0;
    proof {
        lemma_lead_bounds(s@, 0);
    }
    while a < n && is_trimmed_char(s.get_char(a))
        invariant
            n == s@.len(),
            a <= n,
            lead(s@, a as int) == lead(s@, 0),
        decreases n - a,
    {
        a = a + 1;
    }
    let mut b: usize = n;
    proof {
        lemma_trail_bounds(s@, n as int, a as int);
    }
    while b > a && is_trimmed_char(s.get_char(b - 1))
        invariant
            n == s@.len(),
            a <= b <= n,
            a == lead(s@, 0),
            trail(s@, b as int, a as int) == trail(s@, n as int, a as int),
        decreases b - a,
    {
        b = b - 1;
    }
    s.substring_char(a, b)
}

/// The filter fields read from shorthand or JSON input, before validation.
#[derive(Debug)]
pub struct PolicyStoreFilterInput {
    pub principal: Option<Entity>,
    pub resource: Option<Entity>,
    pub policy_type: Option<PolicyTypeInput>,
    pub policy_template_id: Option<String>,
}

impl PolicyStoreFilterInput {
    /// Reads filter fields from shorthand: blank input sets none; otherwise
    /// each of `principal`, `resource`, `policyType` and `policyTemplateId`
    /// may be given, and any other property is refused.
    pub fn from_str(s: &str) -> (r: Result<PolicyStoreFilterInput, PolicyFilterInputError>)
        ensures
            trimmed(s@).len() == 0 ==> r is Ok && r->Ok_0.principal is None && r->Ok_0.resource is None
                && r->Ok_0.policy_type is None && r->Ok_0.policy_template_id is None,
            trimmed(s@).len() > 0 && !property_ok(trimmed(s@), 0) ==> r is Err && r->Err_0 is ShorthandParseError,
            r is Err ==> r->Err_0 is ShorthandParseError || r->Err_0 is ShorthandContentError,
            r is Ok && trimmed(s@).len() > 0 ==> property_ok(trimmed(s@), 0),
    {
        let t = trim_ascii(s);
        if t.unicode_len() == 0 {
            return Ok(PolicyStoreFilterInput { principal: None, resource: None, policy_type: None, policy_template_id: None });
        }
        let parsed = match from_cli_string(t) {
            Ok(p) => p,
            Err(e) => {
                return Err(PolicyFilterInputError::ShorthandParseError(e.to_string()));
            },
        };
        PolicyStoreFilterInput::from_properties(parsed)
    }

    /// Reads filter fields from parsed shorthand properties: each of
    /// `principal`, `resource`, `policyType` and `policyTemplateId` sets its
    /// field (a later one wins), and any other property is refused.
    pub fn from_properties(parsed: Vec<(String, CliShorthandValue)>) -> (r: Result<PolicyStoreFilterInput, PolicyFilterInputError>)
        ensures
            (exists|i: int| 0 <= i < parsed@.len() && !known_field(#[trigger] parsed@[i].0@)) ==> r is Err,
            r is Err ==> r->Err_0 is ShorthandContentError,
            r is Ok ==> (r->Ok_0.principal is Some <==> names_field(parsed@, "principal"@))
                && (r->Ok_0.resource is Some <==> names_field(parsed@, "resource"@))
                && (r->Ok_0.policy_type is Some <==> names_field(parsed@, "policyType"@))
                && (r->Ok_0.policy_template_id is Some <==> names_field(parsed@, "policyTemplateId"@)),
    {
        let ghost all = parsed@;
        let mut principal: Option<Entity> = None;
        let mut resource: Option<Entity> = None;
        let mut policy_type: Option<PolicyTypeInput> = None;
        let mut policy_template_id: Option<String> = None;
        let mut rest = parsed;
        let ghost mut n: int = 0;
        while rest.len() > 0
            invariant
                all == parsed@,
                0 <= n <= all.len(),
                rest@ == all.subrange(n, all.len() as int),
                forall|j: int| 0 <= j < n ==> known_field(#[trigger] all[j].0@),
                principal is Some <==> names_field(all.subrange(0, n), "principal"@),
                resource is Some <==> names_field(all.subrange(0, n), "resource"@),
                policy_type is Some <==> names_field(all.subrange(0, n), "policyType"@),
                policy_template_id is Some <==> names_field(all.subrange(0, n), "policyTemplateId"@),
            decreases rest@.len(),
        {
            let (k, v) = rest.remove(0);
            proof {
                reveal_strlit("principal");
                reveal_strlit("resource");
                reveal_strlit("policyType");
                reveal_strlit("policyTemplateId");
                assert("principal"@.len() != "resource"@.len());
                assert("principal"@.len() != "policyType"@.len());
                assert("principal"@.len() != "policyTemplateId"@.len());
                assert("resource"@.len() != "policyType"@.len());
                assert("resource"@.len() != "policyTemplateId"@.len());
                assert("policyType"@.len() != "policyTemplateId"@.len());
                assert(all[n] == (k, v));
                let pre = all.subrange(0, n);
                let post = all.subrange(0, n + 1);
                assert forall|f: Seq<char>| names_field(post, f) <==> (names_field(pre, f) || f == k@) by {
                    if names_field(post, f) {
                        let q = choose|q: int| 0 <= q < post.len() && #[trigger] post[q].0@ == f;
                        if q < n {
                            assert(pre[q] == post[q]);
                        }
                    }
                    if names_field(pre, f) {
                        let q = choose|q: int| 0 <= q < pre.len() && #[trigger] pre[q].0@ == f;
                        assert(pre[q] == post[q]);
                    }
                    if f == k@ {
                        assert(post[n] == all[n]);
                    }
                }
            }
            if is_text(&k, "principal") {
                match Entity::try_from(v) {
                    Ok(e) => { principal = Some(e); },
                    Err(e) => { return Err(e); },
                }
            } else if is_text(&k, "resource") {
                match Entity::try_from(v) {
                    Ok(e) => { resource = Some(e); },
                    Err(e) => { return Err(e); },
                }
            } else if is_text(&k, "policyType") {
                match PolicyTypeInput::try_from(v) {
                    Ok(e) => { policy_type = Some(e); },
                    Err(e) => { return Err(e); },
                }
            } else if is_text(&k, "policyTemplateId") {
                match text_from_value(v) {
                    Ok(e) => { policy_template_id = Some(e); },
                    Err(e) => { return Err(e); },
                }
            } else {
                let mut m = String::from_str("unrecognized field for policy filter: ");
                m.append(k.as_str());
                proof {
                    assert(!known_field(all[n].0@));
                }
                return Err(PolicyFilterInputError::ShorthandContentError(m));
            }
            proof {
                n = n + 1;
            }
        }
        proof {
            assert(all.subrange(0, all.len() as int) =~= all);
        }
        Ok(PolicyStoreFilterInput { principal, resource, policy_type, policy_template_id })
    }
}

/// A policy filter: which policies a listing of the store returns. At least
/// one field is set.
#[derive(Debug, Clone, PartialEq, Eq, Hash)]
pub struct PolicyStoreFilter {
    pub principal: Option<Entity>,
    pub resource: Option<Entity>,
    pub policy_type: Option<PolicyTypeInput>,
    pub policy_template_id: Option<String>,
}

impl PolicyStoreFilter {
    /// Refuses a filter that restricts nothing.
    pub fn validate(self) -> (r: Result<PolicyStoreFilter, PolicyFilterInputError>)
        ensures
            (self.principal is None && self.resource is None && self.policy_type is None
                && self.policy_template_id is None) <==> r is Err,
            r is Err ==> r->Err_0 is EmptyFilter,
            r is Ok ==> r->Ok_0 == self,
    {
        if self.policy_template_id.is_none() && self.principal.is_none() && self.resource.is_none()
            && self.policy_type.is_none() {
            Err(PolicyFilterInputError::EmptyFilter)
        } else {
            Ok(self)
        }
    }

    /// A filter with the fields read from filter input.
    pub fn from_input(value: PolicyStoreFilterInput) -> (r: PolicyStoreFilter)
        ensures
            r.principal == value.principal && r.resource == value.resource && r.policy_type == value.policy_type
                && r.policy_template_id == value.policy_template_id,
    {
        PolicyStoreFilter {
            principal: value.principal,
            resource: value.resource,
            policy_type: value.policy_type,
            policy_template_id: value.policy_template_id,
        }
    }

    /// Reads a filter from shorthand; blank input is refused as an empty filter.
    pub fn from_cli_str(s: &str) -> (r: Result<PolicyStoreFilter, PolicyFilterInputError>)
        ensures
            trimmed(s@).len() == 0 ==> r is Err && r->Err_0 is EmptyFilter,
            trimmed(s@).len() > 0 && !property_ok(trimmed(s@), 0) ==> r is Err && r->Err_0 is ShorthandParseError,
            r is Ok ==> !(r->Ok_0.principal is None && r->Ok_0.resource is None && r->Ok_0.policy_type is None
                && r->Ok_0.policy_template_id is None),
    {
        match PolicyStoreFilterInput::from_str(s) {
            Err(e) => Err(e),
            Ok(input) => PolicyStoreFilter::from_input(input).validate(),
        }
    }
}

} // verus!
