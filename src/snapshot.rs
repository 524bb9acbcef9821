//! Assembling policy sets from translated templates and policies, and
//! publishing them.
use vstd::prelude::*;
use vstd::string::StringExecFns;
use std::sync::Arc;
use crate::cedar::{
    add_policy_to, add_template_to, bound_slot_names, engine_policy_ids, engine_templates, link_template, new_policy_set,
    schema_parses,
};
use crate::errors::{ExceptionClass, PolicyException, SchemaException, TemplateException};
use crate::ids::{PolicyId, TemplateId};
use crate::sources::{PolicySourceException, SchemaSourceException, TemplateSourceException};
use crate::translator::{TranslatedPolicy, TranslatedSchema, TranslatedTemplate};

verus! {

/// Why a policy set could not be assembled.
#[derive(Debug)]
pub enum PolicySetError {
    /// A static policy was refused; holds its id.
    StaticPolicy(String),
    /// A template-linked policy could not be linked; holds its id and its
    /// template's id.
    TemplateLinkedPolicy(String, String),
    /// A template was refused; holds its id.
    Template(String),
}

impl PolicySetError {
    /// The text shown for this error.
    pub open spec fn text(&self) -> Seq<char> {
        match self {
            PolicySetError::StaticPolicy(p) => "Fail to add the static policy to the policy set, policy id: "@ + p@,
            PolicySetError::TemplateLinkedPolicy(p, t) => "Fail to link the template linked policy to the policy set, policy id: "@
                + p@ + ", template id: "@ + t@,
            PolicySetError::Template(t) => "Fail to add the template to the policy set, template id: "@ + t@,
        }
    }

    /// The error as text.
    pub fn to_string(&self) -> (r: String)
        ensures
            r@ == self.text(),
    {
        match self {
            PolicySetError::StaticPolicy(p) => {
                let mut s = String::from_str("Fail to add the static policy to the policy set, policy id: ");
                s.append(p.as_str());
                s
            },
            PolicySetError::TemplateLinkedPolicy(p, t) => {
                let mut s = String::from_str("Fail to link the template linked policy to the policy set, policy id: ");
                s.append(p.as_str());
                s.append(", template id: ");
                s.append(t.as_str());
                s
            },
            PolicySetError::Template(t) => {
                let mut s = String::from_str("Fail to add the template to the policy set, template id: ");
                s.append(t.as_str());
                s
            },
        }
    }
}

/// The templates of a list, by the id each was parsed with, to the names of
/// their slots; a later template wins over an earlier one with the same id.
pub open spec fn template_map(ts: Seq<(TemplateId, TranslatedTemplate)>) -> Map<Seq<char>, Set<Seq<char>>>
    decreases ts.len(),
{
    if ts.len() == 0 {
        Map::empty()
    } else {
        template_map(ts.drop_last()).insert(ts.last().1.0.id_view(), ts.last().1.0.slots_view())
    }
}

/// Template `j` is added: no template before it has its id.
pub open spec fn template_accepted(ts: Seq<(TemplateId, TranslatedTemplate)>, j: int) -> bool {
    !template_map(ts.subrange(0, j)).contains_key(ts[j].1.0.id_view())
}

/// Every template of the list is added.
pub open spec fn all_templates_accepted(ts: Seq<(TemplateId, TranslatedTemplate)>) -> bool {
    forall|j: int| 0 <= j < ts.len() ==> #[trigger] template_accepted(ts, j)
}

/// The id under which a translated policy enters a policy set.
pub open spec fn added_id(p: TranslatedPolicy) -> Seq<char> {
    match p {
        TranslatedPolicy::Static(e) => e.id_view(),
        TranslatedPolicy::TemplateLinked(pid, _, _) => pid@,
    }
}

/// The ids of the policies of a list.
pub open spec fn policy_ids(ps: Seq<(PolicyId, TranslatedPolicy)>) -> Set<Seq<char>>
    decreases ps.len(),
{
    if ps.len() == 0 {
        Set::empty()
    } else {
        policy_ids(ps.drop_last()).insert(added_id(ps.last().1))
    }
}

/// Policy `i` fits the build: its id is used by no policy before it and by no
/// template, and if it is linked, its template is in the list and it binds
/// exactly the slots that template declares.
pub open spec fn policy_fits(
    ts: Seq<(TemplateId, TranslatedTemplate)>,
    ps: Seq<(PolicyId, TranslatedPolicy)>,
    i: int,
) -> bool {
    let id = added_id(ps[i].1);
    !policy_ids(ps.subrange(0, i)).contains(id) && !template_map(ts).contains_key(id) && match ps[i].1 {
        TranslatedPolicy::Static(_) => true,
        TranslatedPolicy::TemplateLinked(_, tid, b) => template_map(ts).contains_key(tid@) && template_map(ts)[tid@]
            == bound_slot_names(b.principal is Some, b.resource is Some),
    }
}

/// What holds of policy `i` once it has been added: a static policy's id was
/// used by no policy before it; a linked policy fits.
pub open spec fn policy_added(
    ts: Seq<(TemplateId, TranslatedTemplate)>,
    ps: Seq<(PolicyId, TranslatedPolicy)>,
    i: int,
) -> bool {
    match ps[i].1 {
        TranslatedPolicy::Static(e) => !policy_ids(ps.subrange(0, i)).contains(e.id_view()),
        TranslatedPolicy::TemplateLinked(..) => policy_fits(ts, ps, i),
    }
}

/// The error names the item that was refused: the first template whose id
/// was taken, or, once every template was added, the first policy that did
/// not fit.
pub open spec fn refused(
    e: PolicySetError,
    ts: Seq<(TemplateId, TranslatedTemplate)>,
    ps: Seq<(PolicyId, TranslatedPolicy)>,
) -> bool {
    match e {
        PolicySetError::Template(t) => exists|j: int|
            0 <= j < ts.len() && !#[trigger] template_accepted(ts, j) && ts[j].1.0.id_view() == t@ && forall|k: int|
                0 <= k < j ==> template_accepted(ts, k),
        PolicySetError::StaticPolicy(p) => all_templates_accepted(ts) && exists|i: int|
            0 <= i < ps.len() && ps[i].1 is Static && added_id(ps[i].1) == p@ && !#[trigger] policy_fits(ts, ps, i)
                && forall|k: int| 0 <= k < i ==> policy_added(ts, ps, k),
        PolicySetError::TemplateLinkedPolicy(p, t) => all_templates_accepted(ts) && exists|i: int|
            0 <= i < ps.len() && ps[i].1 is TemplateLinked && ps[i].1->TemplateLinked_0@ == p@
                && ps[i].1->TemplateLinked_1@ == t@ && !#[trigger] policy_fits(ts, ps, i) && forall|k: int|
                0 <= k < i ==> policy_added(ts, ps, k),
    }
}

/// What a build of `ts` and `ps` gives: success when every template and
/// policy fits; on success, a set holding exactly the templates and policies
/// of the lists; on failure, an error naming the refused item.
pub open spec fn built_from(
    r: Result<cedar_policy::PolicySet, PolicySetError>,
    ts: Seq<(TemplateId, TranslatedTemplate)>,
    ps: Seq<(PolicyId, TranslatedPolicy)>,
) -> bool {
    &&& all_templates_accepted(ts) && (forall|i: int| 0 <= i < ps.len() ==> #[trigger] policy_fits(ts, ps, i))
        ==> r is Ok
    &&& r is Ok ==> all_templates_accepted(ts) && (forall|i: int|
        0 <= i < ps.len() ==> #[trigger] policy_added(ts, ps, i)) && engine_policy_ids(r->Ok_0) == policy_ids(ps)
        && engine_templates(r->Ok_0) == template_map(ts)
    &&& r is Err ==> refused(r->Err_0, ts, ps)
}

/// Builds a new policy set: every template first, then every static policy
/// and every template-linked policy, linked against the templates of this
/// same build. The first refusal fails the whole build and names the item.
pub fn build_policy_set(
    templates: Vec<(TemplateId, TranslatedTemplate)>,
    policies: Vec<(PolicyId, TranslatedPolicy)>,
) -> (r: Result<cedar_policy::PolicySet, PolicySetError>)
    ensures
        built_from(r, templates@, policies@),
{
    let ghost ts = templates@;
    let ghost ps = policies@;
    let mut policy_set = new_policy_set();
    let mut rest = templates;
    let ghost mut n: int = 0;
    while rest.len() > 0
        invariant
            ts == templates@,
            0 <= n <= ts.len(),
            rest@ == ts.subrange(n, ts.len() as int),
            engine_policy_ids(policy_set) == Set::<Seq<char>>::empty(),
            engine_templates(policy_set) == template_map(ts.subrange(0, n)),
            forall|k: int| 0 <= k < n ==> #[trigger] template_accepted(ts, k),
        decreases rest@.len(),
    {
        let (key, template) = rest.remove(0);
        proof {
            assert(ts[n] == (key, template));
            let after = ts.subrange(0, n + 1);
            assert(after.drop_last() =~= ts.subrange(0, n));
            assert(after.last() == ts[n]);
        }
        let id = template.0.id().clone();
        if !add_template_to(&mut policy_set, template.0) {
            proof {
                assert(!template_accepted(ts, n));
                assert(ts[n].1.0.id_view() == id@);
            }
            return Err(PolicySetError::Template(id));
        }
        proof {
            n = n + 1;
        }
    }
    proof {
        assert(ts.subrange(0, ts.len() as int) =~= ts);
    }
    let mut pending = policies;
    let ghost mut m: int = 0;
    while pending.len() > 0
        invariant
            ts == templates@,
            ps == policies@,
            0 <= m <= ps.len(),
            pending@ == ps.subrange(m, ps.len() as int),
            all_templates_accepted(ts),
            engine_templates(policy_set) == template_map(ts),
            engine_policy_ids(policy_set) == policy_ids(ps.subrange(0, m)),
            forall|k: int| 0 <= k < m ==> #[trigger] policy_added(ts, ps, k),
        decreases pending@.len(),
    {
        let (key, policy) = pending.remove(0);
        proof {
            assert(ps[m] == (key, policy));
            let after = ps.subrange(0, m + 1);
            assert(after.drop_last() =~= ps.subrange(0, m));
            assert(after.last() == ps[m]);
        }
        match policy {
            TranslatedPolicy::Static(p) => {
                let id = p.id().clone();
                if !add_policy_to(&mut policy_set, p) {
                    proof {
                        assert(added_id(ps[m].1) == id@);
                        assert(!policy_fits(ts, ps, m));
                    }
                    return Err(PolicySetError::StaticPolicy(id));
                }
            },
            TranslatedPolicy::TemplateLinked(policy_id, template_id, bindings) => {
                if !link_template(&mut policy_set, &template_id.0, &policy_id.0, bindings.principal, bindings.resource) {
                    proof {
                        assert(!policy_fits(ts, ps, m));
                    }
                    return Err(PolicySetError::TemplateLinkedPolicy(policy_id.0, template_id.0));
                }
            },
        }
        proof {
            m = m + 1;
        }
    }
    proof {
        assert(ps.subrange(0, ps.len() as int) =~= ps);
    }
    Ok(policy_set)
}

/// Makes a newly built value the published one; a failed build leaves the
/// published value as it was and hands its error back.
pub fn publish<T, E>(published: &mut Arc<T>, built: Result<T, E>) -> (r: Result<(), E>)
    ensures
        built is Ok ==> r is Ok && **final(published) == built->Ok_0,
        built is Err ==> r == Err::<(), E>(built->Err_0) && *final(published) == *old(published),
{
    match built {
        Ok(value) => {
            *published = Arc::new(value);
            Ok(())
        },
        Err(e) => Err(e),
    }
}

/// Why a policy set provider could not produce a policy set.
#[derive(Debug)]
pub enum ProviderError {
    Configuration(String),
    PolicySet(PolicySetError),
    PolicySourceException(PolicySourceException),
    TemplateSourceException(TemplateSourceException),
}

/// The template source failed only because the store holds no templates.
pub open spec fn templates_absent(e: TemplateSourceException) -> bool {
    e is TemplateSource && e->TemplateSource_0.kind() == ExceptionClass::ResourceNotFound
}

/// The policy source failed only because the store holds no policies.
pub open spec fn policies_absent(e: PolicySourceException) -> bool {
    e is PolicySource && e->PolicySource_0.kind() == ExceptionClass::ResourceNotFound
}

/// `built_from`, for a provider's result.
pub open spec fn provider_built_from(
    r: Result<cedar_policy::PolicySet, ProviderError>,
    ts: Seq<(TemplateId, TranslatedTemplate)>,
    ps: Seq<(PolicyId, TranslatedPolicy)>,
) -> bool {
    &&& all_templates_accepted(ts) && (forall|i: int| 0 <= i < ps.len() ==> #[trigger] policy_fits(ts, ps, i))
        ==> r is Ok
    &&& r is Ok ==> all_templates_accepted(ts) && (forall|i: int|
        0 <= i < ps.len() ==> #[trigger] policy_added(ts, ps, i)) && engine_policy_ids(r->Ok_0) == policy_ids(ps)
        && engine_templates(r->Ok_0) == template_map(ts)
    &&& r is Err ==> r->Err_0 is PolicySet && refused(r->Err_0->PolicySet_0, ts, ps)
}

/// One refresh of a policy set from the outcomes of the template and policy
/// fetches: a failed fetch fails the refresh (templates first), otherwise the
/// set is built from both.
pub fn refresh_policy_set(
    templates: Result<Vec<(TemplateId, TranslatedTemplate)>, TemplateSourceException>,
    policies: Result<Vec<(PolicyId, TranslatedPolicy)>, PolicySourceException>,
) -> (r: Result<cedar_policy::PolicySet, ProviderError>)
    ensures
        templates is Err ==> r == Err::<cedar_policy::PolicySet, ProviderError>(
            ProviderError::TemplateSourceException(templates->Err_0),
        ),
        templates is Ok && policies is Err ==> r == Err::<cedar_policy::PolicySet, ProviderError>(
            ProviderError::PolicySourceException(policies->Err_0),
        ),
        templates is Ok && policies is Ok ==> provider_built_from(r, templates->Ok_0@, policies->Ok_0@),
{
    let templates = match templates {
        Err(e) => { return Err(ProviderError::TemplateSourceException(e)); },
        Ok(t) => t,
    };
    let policies = match policies {
        Err(e) => { return Err(ProviderError::PolicySourceException(e)); },
        Ok(p) => p,
    };
    match build_policy_set(templates, policies) {
        Ok(set) => Ok(set),
        Err(e) => Err(ProviderError::PolicySet(e)),
    }
}

/// The templates a first build uses: the fetched ones, or none when the
/// store holds none.
pub open spec fn usable_templates(
    t: Result<Vec<(TemplateId, TranslatedTemplate)>, TemplateSourceException>,
) -> Seq<(TemplateId, TranslatedTemplate)> {
    match t {
        Ok(v) => v@,
        Err(_) => Seq::empty(),
    }
}

/// The policies a first build uses: the fetched ones, or none when the store
/// holds none.
pub open spec fn usable_policies(
    p: Result<Vec<(PolicyId, TranslatedPolicy)>, PolicySourceException>,
) -> Seq<(PolicyId, TranslatedPolicy)> {
    match p {
        Ok(v) => v@,
        Err(_) => Seq::empty(),
    }
}

/// The first build of a policy set: as a refresh, except that a store with no
/// templates, or with no policies, counts as holding none of them.
pub fn initial_policy_set(
    templates: Result<Vec<(TemplateId, TranslatedTemplate)>, TemplateSourceException>,
    policies: Result<Vec<(PolicyId, TranslatedPolicy)>, PolicySourceException>,
) -> (r: Result<cedar_policy::PolicySet, ProviderError>)
    ensures
        templates is Err && !templates_absent(templates->Err_0) ==> r == Err::<cedar_policy::PolicySet, ProviderError>(
            ProviderError::TemplateSourceException(templates->Err_0),
        ),
        (templates is Ok || templates_absent(templates->Err_0)) && policies is Err && !policies_absent(policies->Err_0)
            ==> r == Err::<cedar_policy::PolicySet, ProviderError>(
            ProviderError::PolicySourceException(policies->Err_0),
        ),
        (templates is Ok || templates_absent(templates->Err_0)) && (policies is Ok || policies_absent(
            policies->Err_0,
        )) ==> provider_built_from(r, usable_templates(templates), usable_policies(policies)),
{
    let ghost t0 = templates;
    let ghost p0 = policies;
    let templates = match templates {
        Err(TemplateSourceException::TemplateSource(TemplateException::ResourceNotFound(_))) => Ok(Vec::new()),
        other => other,
    };
    let policies = match policies {
        Err(PolicySourceException::PolicySource(PolicyException::ResourceNotFound(_))) => Ok(Vec::new()),
        other => other,
    };
    proof {
        if templates is Ok {
            assert(templates->Ok_0@ =~= usable_templates(t0));
        }
        if policies is Ok {
            assert(policies->Ok_0@ =~= usable_policies(p0));
        }
    }
    refresh_policy_set(templates, policies)
}

/// What the entity provider takes from a schema read: a missing schema means
/// no entities, any other failed read fails, and a schema read is parsed.
pub fn schema_for_entities(read: Result<String, SchemaException>) -> (r: Result<Option<TranslatedSchema>, SchemaSourceException>)
    ensures
        read is Err && read->Err_0.kind() == ExceptionClass::ResourceNotFound ==> r is Ok && r->Ok_0 is None,
        read is Err && read->Err_0.kind() != ExceptionClass::ResourceNotFound ==> r == Err::<Option<TranslatedSchema>, SchemaSourceException>(
            SchemaSourceException::SchemaSource(read->Err_0),
        ),
        read is Ok ==> (r is Ok <==> schema_parses(read->Ok_0@)) && (r is Ok ==> r->Ok_0 is Some)
            && (r is Err ==> r->Err_0 is TranslatorException),
{
    match read {
        Err(SchemaException::ResourceNotFound(_)) => Ok(None),
        Err(e) => Err(SchemaSourceException::SchemaSource(e)),
        Ok(text) => match TranslatedSchema::try_from(&text) {
            Ok(s) => Ok(Some(s)),
            Err(e) => Err(SchemaSourceException::TranslatorException(e)),
        },
    }
}

} // verus!
