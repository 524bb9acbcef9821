//! The policy, template and schema sources: what their refreshes produce from
//! the cache and the full items read, and how they fail.
use vstd::prelude::*;
use vstd::string::StringExecFns;
use crate::cache::{lemma_len_of, stored, Cached, DiffCache};
use crate::errors::{PolicyException, SchemaException, TemplateException};
use crate::ids::{PolicyId, TemplateId};
use crate::keyed::{keys_unique, lemma_map_of_at, lemma_map_of_contains, map_of};
use crate::translator::{
    translated_from, translates, translation_error, PolicyDefinition, PolicyDefinitionDetail, TemplateRecord, TranslatedPolicy,
    TranslatedSchema, TranslatedTemplate, TranslatorException,
};
use crate::cedar::{schema_parses, template_parses, template_slot_names};

verus! {

/// What a full read of one policy returns.
#[derive(Debug, Clone, PartialEq)]
pub struct PolicyRecord {
    pub policy_id: String,
    pub definition: Option<PolicyDefinitionDetail>,
}

/// The policy cache: the last full read of each policy.
pub type GetPolicyOutputCache = DiffCache<PolicyRecord>;

/// The template cache: the last full read of each template.
pub type PolicyTemplateCache = DiffCache<TemplateRecord>;

/// The record carries a definition that translates.
pub open spec fn policy_record_translates(r: PolicyRecord) -> bool {
    r.definition is Some && translates(r.definition->Some_0)
}

/// Why fetching policies failed.
#[derive(Debug)]
pub enum PolicySourceException {
    PolicyIdNotFound(),
    PolicyDefinitionNotFound(),
    PolicySource(PolicyException),
    TranslatorException(TranslatorException),
}

impl PolicySourceException {
    /// The exception as text.
    pub fn to_string(&self) -> (r: String)
        ensures
            self is PolicySource ==> r@ == "Data source error "@ + self->PolicySource_0.text(),
            self is TranslatorException ==> r@ == "Translation exception "@ + self->TranslatorException_0.text(),
            self is PolicyIdNotFound ==> r@ == "Policy id is not found."@,
            self is PolicyDefinitionNotFound ==> r@ == "Policy definition is not found."@,
    {
        match self {
            PolicySourceException::PolicyIdNotFound() => String::from_str("Policy id is not found."),
            PolicySourceException::PolicyDefinitionNotFound() => String::from_str("Policy definition is not found."),
            PolicySourceException::PolicySource(e) => {
                let mut s = String::from_str("Data source error ");
                let t = e.to_string();
                s.append(t.as_str());
                s
            },
            PolicySourceException::TranslatorException(e) => {
                let mut s = String::from_str("Translation exception ");
                let t = e.to_string();
                s.append(t.as_str());
                s
            },
        }
    }
}

impl From<PolicyException> for PolicySourceException {
    fn from(error: PolicyException) -> (r: PolicySourceException)
        ensures
            r == PolicySourceException::PolicySource(error),
    {
        PolicySourceException::PolicySource(error)
    }
}

impl vstd::std_specs::convert::FromSpecImpl<PolicyException> for PolicySourceException {
    open spec fn obeys_from_spec() -> bool {
        true
    }

    open spec fn from_spec(v: PolicyException) -> PolicySourceException {
        PolicySourceException::PolicySource(v)
    }
}

impl From<TranslatorException> for PolicySourceException {
    fn from(error: TranslatorException) -> (r: PolicySourceException)
        ensures
            r == PolicySourceException::TranslatorException(error),
    {
        PolicySourceException::TranslatorException(error)
    }
}

impl vstd::std_specs::convert::FromSpecImpl<TranslatorException> for PolicySourceException {
    open spec fn obeys_from_spec() -> bool {
        true
    }

    open spec fn from_spec(v: TranslatorException) -> PolicySourceException {
        PolicySourceException::TranslatorException(v)
    }
}

/// Why fetching templates failed.
#[derive(Debug)]
pub enum TemplateSourceException {
    TemplateSource(TemplateException),
    TranslatorException(TranslatorException),
}

impl TemplateSourceException {
    /// The exception as text.
    pub fn to_string(&self) -> (r: String)
        ensures
            self is TemplateSource ==> r@ == "Data source error"@,
            self is TranslatorException ==> r@ == "Translation exception"@,
    {
        match self {
            TemplateSourceException::TemplateSource(_) => String::from_str("Data source error"),
            TemplateSourceException::TranslatorException(_) => String::from_str("Translation exception"),
        }
    }
}

impl From<TemplateException> for TemplateSourceException {
    fn from(error: TemplateException) -> (r: TemplateSourceException)
        ensures
            r == TemplateSourceException::TemplateSource(error),
    {
        TemplateSourceException::TemplateSource(error)
    }
}

impl vstd::std_specs::convert::FromSpecImpl<TemplateException> for TemplateSourceException {
    open spec fn obeys_from_spec() -> bool {
        true
    }

    open spec fn from_spec(v: TemplateException) -> TemplateSourceException {
        TemplateSourceException::TemplateSource(v)
    }
}

impl From<TranslatorException> for TemplateSourceException {
    fn from(error: TranslatorException) -> (r: TemplateSourceException)
        ensures
            r == TemplateSourceException::TranslatorException(error),
    {
        TemplateSourceException::TranslatorException(error)
    }
}

impl vstd::std_specs::convert::FromSpecImpl<TranslatorException> for TemplateSourceException {
    open spec fn obeys_from_spec() -> bool {
        true
    }

    open spec fn from_spec(v: TranslatorException) -> TemplateSourceException {
        TemplateSourceException::TranslatorException(v)
    }
}

/// Why fetching the schema failed.
#[derive(Debug)]
pub enum SchemaSourceException {
    SchemaSource(SchemaException),
    TranslatorException(TranslatorException),
}

impl SchemaSourceException {
    /// The exception as text.
    pub fn to_string(&self) -> (r: String)
        ensures
            self is SchemaSource ==> r@ == "Data source error: "@ + self->SchemaSource_0.text(),
            self is TranslatorException ==> r@ == "Translation exception: "@ + self->TranslatorException_0.text(),
    {
        match self {
            SchemaSourceException::SchemaSource(e) => {
                let mut s = String::from_str("Data source error: ");
                let t = e.to_string();
                s.append(t.as_str());
                s
            },
            SchemaSourceException::TranslatorException(e) => {
                let mut s = String::from_str("Translation exception: ");
                let t = e.to_string();
                s.append(t.as_str());
                s
            },
        }
    }
}

impl From<SchemaException> for SchemaSourceException {
    fn from(error: SchemaException) -> (r: SchemaSourceException)
        ensures
            r == SchemaSourceException::SchemaSource(error),
    {
        SchemaSourceException::SchemaSource(error)
    }
}

impl vstd::std_specs::convert::FromSpecImpl<SchemaException> for SchemaSourceException {
    open spec fn obeys_from_spec() -> bool {
        true
    }

    open spec fn from_spec(v: SchemaException) -> SchemaSourceException {
        SchemaSourceException::SchemaSource(v)
    }
}

impl From<TranslatorException> for SchemaSourceException {
    fn from(error: TranslatorException) -> (r: SchemaSourceException)
        ensures
            r == SchemaSourceException::TranslatorException(error),
    {
        SchemaSourceException::TranslatorException(error)
    }
}

impl vstd::std_specs::convert::FromSpecImpl<TranslatorException> for SchemaSourceException {
    open spec fn obeys_from_spec() -> bool {
        true
    }

    open spec fn from_spec(v: TranslatorException) -> SchemaSourceException {
        SchemaSourceException::TranslatorException(v)
    }
}

/// What translating every entry of cache map `m` gives: success exactly when
/// every record translates; on success, one translation per cached id, each
/// matching its record; on failure, the error of a record that has no
/// definition or does not translate.
pub open spec fn policies_translated(
    r: Result<Vec<(PolicyId, TranslatedPolicy)>, PolicySourceException>,
    m: Map<Seq<char>, Cached<PolicyRecord>>,
) -> bool {
    &&& r.is_ok() == (forall|k: Seq<char>| #[trigger] m.contains_key(k) ==> policy_record_translates(m[k].item))
    &&& r.is_ok() ==> r->Ok_0@.len() == m.len() && (forall|k: Seq<char>|
        m.contains_key(k) <==> exists|i: int| 0 <= i < r->Ok_0@.len() && #[trigger] r->Ok_0@[i].0@ == k) && (forall|i: int|
        0 <= i < r->Ok_0@.len() ==> m.contains_key(#[trigger] r->Ok_0@[i].0@) && translated_from(
            r->Ok_0@[i].1,
            m[r->Ok_0@[i].0@].item.policy_id@,
            m[r->Ok_0@[i].0@].item.definition->Some_0,
        ))
    &&& r.is_err() ==> (r->Err_0 is PolicyDefinitionNotFound && exists|k: Seq<char>|
        #[trigger] m.contains_key(k) && m[k].item.definition is None) || (r->Err_0 is TranslatorException
        && exists|k: Seq<char>|
        #[trigger] m.contains_key(k) && m[k].item.definition is Some && !translates(m[k].item.definition->Some_0)
            && r->Err_0->TranslatorException_0.text() == translation_error(
            m[k].item.policy_id@,
            m[k].item.definition->Some_0,
        ))
}

/// What translating every entry of template cache map `m` gives: success
/// exactly when every statement parses; on success, one template per cached
/// id, each with its record's id and slots; on failure, `ParseTemplate` with
/// the id of a record whose statement does not parse.
pub open spec fn templates_translated(
    r: Result<Vec<(TemplateId, TranslatedTemplate)>, TemplateSourceException>,
    m: Map<Seq<char>, Cached<TemplateRecord>>,
) -> bool {
    &&& r.is_ok() == (forall|k: Seq<char>| #[trigger] m.contains_key(k) ==> template_parses(m[k].item.statement@))
    &&& r.is_ok() ==> r->Ok_0@.len() == m.len() && (forall|k: Seq<char>|
        m.contains_key(k) <==> exists|i: int| 0 <= i < r->Ok_0@.len() && #[trigger] r->Ok_0@[i].0@ == k) && (forall|i: int|
        0 <= i < r->Ok_0@.len() ==> m.contains_key(#[trigger] r->Ok_0@[i].0@) && r->Ok_0@[i].1.0.id_view()
            == m[r->Ok_0@[i].0@].item.policy_template_id@ && r->Ok_0@[i].1.0.slots_view() == template_slot_names(
            m[r->Ok_0@[i].0@].item.statement@,
        ))
    &&& r.is_err() ==> r->Err_0 is TranslatorException && r->Err_0->TranslatorException_0 is ParseTemplate && exists|k: Seq<char>|
        #[trigger] m.contains_key(k) && !template_parses(m[k].item.statement@)
            && r->Err_0->TranslatorException_0->ParseTemplate_0@ == m[k].item.policy_template_id@
}

/// Translates every cached policy, keyed by its cache identifier; the first
/// entry that has no definition or does not translate fails the whole call.
pub fn translate_policies(cache: &DiffCache<PolicyRecord>) -> (r: Result<Vec<(PolicyId, TranslatedPolicy)>, PolicySourceException>)
    requires
        cache.wf(),
    ensures
        policies_translated(r, cache@),
{
    let entries = cache.entries();
    let ghost es = entries@;
    proof {
        lemma_len_of(es);
    }
    let mut out: Vec<(PolicyId, TranslatedPolicy)> = Vec::new();
    let mut i: usize = 0;
    while i < entries.len()
        invariant
            es == entries@,
            keys_unique(es),
            map_of(es) == cache@,
            i <= es.len(),
            out@.len() == i,
            forall|j: int| 0 <= j < i ==> #[trigger] out@[j].0@ == es[j].0@,
            forall|j: int| 0 <= j < i ==> policy_record_translates(#[trigger] es[j].1.item),
            forall|j: int| 0 <= j < i ==> translated_from(#[trigger] out@[j].1, es[j].1.item.policy_id@, es[j].1.item.definition->Some_0),
        decreases es.len() - i,
    {
        let record = &entries[i].1.item;
        let definition = match &record.definition {
            None => {
                proof {
                    assert(!policy_record_translates(es[i as int].1.item));
                    lemma_map_of_at(es, i as int);
                    assert(cache@.contains_key(es[i as int].0@));
                }
                return Err(PolicySourceException::PolicyDefinitionNotFound());
            },
            Some(d) => d.clone(),
        };
        match TranslatedPolicy::try_from(PolicyDefinition { policy_id: record.policy_id.clone(), detail: definition }) {
            Err(e) => {
                proof {
                    lemma_map_of_at(es, i as int);
                    assert(cache@.contains_key(es[i as int].0@));
                }
                return Err(PolicySourceException::TranslatorException(e));
            },
            Ok(p) => {
                let ghost before = out@;
                out.push((PolicyId(entries[i].0.clone()), p));
                proof {
                    assert forall|j: int| 0 <= j < i implies out@[j] == before[j] by {}
                    assert(out@[i as int].0@ == es[i as int].0@);
                    assert forall|j: int| 0 <= j < i + 1 implies #[trigger] out@[j].0@ == es[j].0@ by {
                        if j < i {
                            assert(out@[j] == before[j]);
                        }
                    }
                }
            },
        }
        i = i + 1;
    }
    proof {
        assert forall|j: int| 0 <= j < out@.len() implies cache@.contains_key(#[trigger] out@[j].0@) && translated_from(
            out@[j].1,
            cache@[out@[j].0@].item.policy_id@,
            cache@[out@[j].0@].item.definition->Some_0,
        ) by {
            lemma_map_of_at(es, j);
        }
        assert forall|k: Seq<char>| #[trigger] cache@.contains_key(k) implies policy_record_translates(cache@[k].item) by {
            lemma_map_of_contains(es, k);
            let j = choose|j: int| 0 <= j < es.len() && #[trigger] es[j].0@ == k;
            lemma_map_of_at(es, j);
        }
        assert forall|k: Seq<char>| cache@.contains_key(k) <==> exists|i: int| 0 <= i < out@.len() && #[trigger] out@[i].0@ == k by {
            lemma_map_of_contains(es, k);
            if cache@.contains_key(k) {
                let j = choose|j: int| 0 <= j < es.len() && #[trigger] es[j].0@ == k;
                assert(out@[j].0@ == k);
            }
            if exists|i: int| 0 <= i < out@.len() && #[trigger] out@[i].0@ == k {
                let j = choose|j: int| 0 <= j < out@.len() && #[trigger] out@[j].0@ == k;
                assert(es[j].0@ == k);
            }
        }
    }
    Ok(out)
}

/// Translates every cached template, keyed by its cache identifier; the first
/// one that does not parse fails the whole call.
pub fn translate_templates(cache: &DiffCache<TemplateRecord>) -> (r: Result<Vec<(TemplateId, TranslatedTemplate)>, TemplateSourceException>)
    requires
        cache.wf(),
    ensures
        templates_translated(r, cache@),
{
    let entries = cache.entries();
    let ghost es = entries@;
    proof {
        lemma_len_of(es);
    }
    let mut out: Vec<(TemplateId, TranslatedTemplate)> = Vec::new();
    let mut i: usize = 0;
    while i < entries.len()
        invariant
            es == entries@,
            keys_unique(es),
            map_of(es) == cache@,
            i <= es.len(),
            out@.len() == i,
            forall|j: int| 0 <= j < i ==> #[trigger] out@[j].0@ == es[j].0@,
            forall|j: int| 0 <= j < i ==> template_parses(#[trigger] es[j].1.item.statement@),
            forall|j: int| 0 <= j < i ==> (#[trigger] out@[j]).1.0.id_view() == es[j].1.item.policy_template_id@
                && out@[j].1.0.slots_view() == template_slot_names(es[j].1.item.statement@),
        decreases es.len() - i,
    {
        match TranslatedTemplate::try_from(&entries[i].1.item) {
            Err(e) => {
                proof {
                    lemma_map_of_at(es, i as int);
                    assert(cache@.contains_key(es[i as int].0@));
                }
                return Err(TemplateSourceException::TranslatorException(e));
            },
            Ok(t) => {
                let ghost before = out@;
                out.push((TemplateId(entries[i].0.clone()), t));
                proof {
                    assert forall|j: int| 0 <= j < i implies out@[j] == before[j] by {}
                    assert(out@[i as int].0@ == es[i as int].0@);
                    assert forall|j: int| 0 <= j < i + 1 implies #[trigger] out@[j].0@ == es[j].0@ by {
                        if j < i {
                            assert(out@[j] == before[j]);
                        }
                    }
                }
            },
        }
        i = i + 1;
    }
    proof {
        assert forall|j: int| 0 <= j < out@.len() implies cache@.contains_key(#[trigger] out@[j].0@) && out@[j].1.0.id_view()
            == cache@[out@[j].0@].item.policy_template_id@ && out@[j].1.0.slots_view() == template_slot_names(
            cache@[out@[j].0@].item.statement@,
        ) by {
            lemma_map_of_at(es, j);
        }
        assert forall|k: Seq<char>| #[trigger] cache@.contains_key(k) implies template_parses(cache@[k].item.statement@) by {
            lemma_map_of_contains(es, k);
            let j = choose|j: int| 0 <= j < es.len() && #[trigger] es[j].0@ == k;
            lemma_map_of_at(es, j);
        }
        assert forall|k: Seq<char>| cache@.contains_key(k) <==> exists|i: int| 0 <= i < out@.len() && #[trigger] out@[i].0@ == k by {
            lemma_map_of_contains(es, k);
            if cache@.contains_key(k) {
                let j = choose|j: int| 0 <= j < es.len() && #[trigger] es[j].0@ == k;
                assert(out@[j].0@ == k);
            }
            if exists|i: int| 0 <= i < out@.len() && #[trigger] out@[i].0@ == k {
                let j = choose|j: int| 0 <= j < out@.len() && #[trigger] out@[j].0@ == k;
                assert(es[j].0@ == k);
            }
        }
    }
    Ok(out)
}

/// Ends a policy fetch: stores the full items read (see
/// `DiffCache::store_reads`), then translates the whole cache. A failed read
/// or a failed translation fails the fetch; no partial mapping is returned.
pub fn finish_policy_fetch(
    cache: &mut DiffCache<PolicyRecord>,
    reads: Vec<(String, Result<Cached<PolicyRecord>, PolicyException>)>,
) -> (r: Result<Vec<(PolicyId, TranslatedPolicy)>, PolicySourceException>)
    requires
        old(cache).wf(),
    ensures
        final(cache).wf(),
        (exists|i: int| 0 <= i < reads@.len() && (#[trigger] reads@[i]).1.is_err()) ==> r.is_err()
            && r->Err_0 is PolicySource && exists|i: int|
            0 <= i < reads@.len() && reads@[i].1 == Err::<Cached<PolicyRecord>, PolicyException>(r->Err_0->PolicySource_0)
                && (forall|j: int| 0 <= j < i ==> (#[trigger] reads@[j]).1.is_ok())
                && final(cache)@ == stored(old(cache)@, reads@.subrange(0, i)),
        (forall|i: int| 0 <= i < reads@.len() ==> (#[trigger] reads@[i]).1.is_ok()) ==> final(cache)@
            == stored(old(cache)@, reads@) && policies_translated(r, final(cache)@),
{
    match cache.store_reads(reads) {
        Err(e) => Err(PolicySourceException::PolicySource(e)),
        Ok(()) => translate_policies(cache),
    }
}

/// Ends a template fetch: stores the full items read, then translates the
/// whole cache. A failed read or a failed translation fails the fetch.
pub fn finish_template_fetch(
    cache: &mut DiffCache<TemplateRecord>,
    reads: Vec<(String, Result<Cached<TemplateRecord>, TemplateException>)>,
) -> (r: Result<Vec<(TemplateId, TranslatedTemplate)>, TemplateSourceException>)
    requires
        old(cache).wf(),
    ensures
        final(cache).wf(),
        (exists|i: int| 0 <= i < reads@.len() && (#[trigger] reads@[i]).1.is_err()) ==> r.is_err()
            && r->Err_0 is TemplateSource && exists|i: int|
            0 <= i < reads@.len() && reads@[i].1 == Err::<Cached<TemplateRecord>, TemplateException>(
                r->Err_0->TemplateSource_0,
            ) && (forall|j: int| 0 <= j < i ==> (#[trigger] reads@[j]).1.is_ok())
                && final(cache)@ == stored(old(cache)@, reads@.subrange(0, i)),
        (forall|i: int| 0 <= i < reads@.len() ==> (#[trigger] reads@[i]).1.is_ok()) ==> final(cache)@
            == stored(old(cache)@, reads@) && templates_translated(r, final(cache)@),
{
    match cache.store_reads(reads) {
        Err(e) => Err(TemplateSourceException::TemplateSource(e)),
        Ok(()) => translate_templates(cache),
    }
}

/// Ends a schema fetch: a failed read fails it, otherwise the schema text is
/// parsed.
pub fn finish_schema_fetch(read: Result<String, SchemaException>) -> (r: Result<TranslatedSchema, SchemaSourceException>)
    ensures
        read.is_err() ==> r == Err::<TranslatedSchema, SchemaSourceException>(SchemaSourceException::SchemaSource(read->Err_0)),
        read.is_ok() ==> r.is_ok() == schema_parses(read->Ok_0@),
        read.is_ok() && r.is_err() ==> r->Err_0 is TranslatorException,
{
    match read {
        Err(e) => Err(SchemaSourceException::SchemaSource(e)),
        Ok(text) => match TranslatedSchema::try_from(&text) {
            Ok(s) => Ok(s),
            Err(e) => Err(SchemaSourceException::TranslatorException(e)),
        },
    }
}

} // verus!
