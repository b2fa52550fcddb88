//! The query parameters of listing requests: which filters a request carries, under
//! which names, in which order and as which text.

use vstd::prelude::*;
use crate::json::entries_view;
use crate::text::{chars_of, dec, dec_chars, push_all, string_of};
use crate::types::common::{id_text, LettaId};
use crate::types::models::{provider_category_name, ListEmbeddingModelsParams, ListModelsParams};
use crate::types::provider::{provider_type_name, ListProvidersParams};
use crate::types::runs::{job_status_name, JobStatus};
use crate::types::tags::ListTagsParams;

verus! {

/// The decimal text of an integer (`Display` of a signed integer).
pub open spec fn int_text(n: int) -> Seq<char> {
    if n < 0 {
        seq!['-'] + dec((-n) as nat)
    } else {
        dec(n as nat)
    }
}

/// The decimal text of an `i32`.
pub fn i32_text(n: i32) -> (r: String)
    ensures
        r@ == int_text(n as int),
{
    let mut v: Vec<char> = Vec::new();
    if n < 0 {
        v.push('-');
        let m: i64 = -(n as i64);
        let d = dec_chars(m as u64);
        push_all(&mut v, &d);
    } else {
        let d = dec_chars(n as u64);
        push_all(&mut v, &d);
    }
    string_of(&v)
}

/// The decimal text of a `u32`.
pub fn u32_text(n: u32) -> (r: String)
    ensures
        r@ == dec(n as nat),
{
    let d = dec_chars(n as u64);
    string_of(&d)
}

/// One pair when the value is present, none otherwise.
pub open spec fn opt_pair(key: Seq<char>, value: Option<Seq<char>>) -> Seq<(Seq<char>, Seq<char>)> {
    match value {
        Some(v) => seq![(key, v)],
        None => Seq::empty(),
    }
}

pub open spec fn opt_text(o: Option<String>) -> Option<Seq<char>> {
    match o {
        Some(s) => Some(s@),
        None => None,
    }
}

pub open spec fn opt_int_text(o: Option<i32>) -> Option<Seq<char>> {
    match o {
        Some(n) => Some(int_text(n as int)),
        None => None,
    }
}

/// One `provider_category` pair per category, in order.
pub open spec fn category_pairs(cs: Seq<crate::types::models::ProviderCategory>) -> Seq<(Seq<char>, Seq<char>)>
    decreases cs.len(),
{
    if cs.len() == 0 {
        Seq::empty()
    } else {
        seq![("provider_category"@, provider_category_name(cs[0]))] + category_pairs(cs.drop_first())
    }
}

fn push_pair(q: &mut Vec<(String, String)>, key: &str, value: String)
    ensures
        entries_view(final(q)@) == entries_view(old(q)@).push((key@, value@)),
{
    let ghost before = entries_view(q@);
    q.push((String::from_str(key), value));
    assert(entries_view(q@) =~= before.push((key@, value@)));
}

fn push_categories(q: &mut Vec<(String, String)>, cs: &Vec<crate::types::models::ProviderCategory>)
    ensures
        entries_view(final(q)@) == entries_view(old(q)@) + category_pairs(cs@),
{
    let ghost start = entries_view(q@);
    let mut i: usize = 0;
    assert(cs@.skip(0) == cs@);
    while i < cs.len()
        invariant
            i <= cs@.len(),
            start + category_pairs(cs@) == entries_view(q@) + category_pairs(cs@.skip(i as int)),
        decreases cs@.len() - i,
    {
        assert(cs@.skip(i as int).drop_first() == cs@.skip(i + 1));
        let ghost before = entries_view(q@);
        push_pair(q, "provider_category", String::from_str(cs[i].as_str()));
        assert(before + category_pairs(cs@.skip(i as int)) =~= entries_view(q@) + category_pairs(cs@.skip(i + 1)));
        i = i + 1;
    }
    assert(category_pairs(cs@.skip(i as int)) =~= Seq::<(Seq<char>, Seq<char>)>::empty());
    assert(entries_view(q@) + category_pairs(cs@.skip(i as int)) =~= entries_view(q@));
}

/// The `provider_category` pairs of an optional list of categories.
pub open spec fn opt_category_pairs(o: Option<Vec<crate::types::models::ProviderCategory>>) -> Seq<(Seq<char>, Seq<char>)> {
    match o {
        Some(cs) => category_pairs(cs@),
        None => Seq::empty(),
    }
}

/// The query of a model listing: each provider category, then the provider name and type.
pub open spec fn spec_models_query(p: Option<ListModelsParams>) -> Seq<(Seq<char>, Seq<char>)> {
    match p {
        Some(p) => opt_category_pairs(p.provider_category) + opt_pair("provider_name"@, opt_text(p.provider_name))
            + opt_pair("provider_type"@, opt_text(p.provider_type)),
        None => Seq::empty(),
    }
}

/// The query of a model listing.
pub fn models_query(params: Option<ListModelsParams>) -> (r: Vec<(String, String)>)
    ensures
        entries_view(r@) == spec_models_query(params),
{
    let mut q: Vec<(String, String)> = Vec::new();
    let ghost pv = params;
    match params {
        Some(p) => {
            if let Some(cs) = &p.provider_category {
                push_categories(&mut q, cs);
            }
            assert(entries_view(q@) =~= opt_category_pairs(p.provider_category));
            if let Some(n) = p.provider_name {
                push_pair(&mut q, "provider_name", n);
            }
            if let Some(t) = p.provider_type {
                push_pair(&mut q, "provider_type", t);
            }
        },
        None => {},
    }
    assert(entries_view(q@) =~= spec_models_query(pv));
    q
}

/// The query of an embedding model listing: each provider category.
pub open spec fn spec_embedding_models_query(p: Option<ListEmbeddingModelsParams>) -> Seq<(Seq<char>, Seq<char>)> {
    match p {
        Some(p) => opt_category_pairs(p.provider_category),
        None => Seq::empty(),
    }
}

/// The query of an embedding model listing.
pub fn embedding_models_query(params: Option<ListEmbeddingModelsParams>) -> (r: Vec<(String, String)>)
    ensures
        entries_view(r@) == spec_embedding_models_query(params),
{
    let mut q: Vec<(String, String)> = Vec::new();
    if let Some(p) = &params {
        if let Some(cs) = &p.provider_category {
            push_categories(&mut q, cs);
        }
    }
    assert(entries_view(q@) =~= spec_embedding_models_query(params));
    q
}

/// The query of a provider listing: category, type, cursor and limit, when set.
pub open spec fn spec_providers_query(p: Option<ListProvidersParams>) -> Seq<(Seq<char>, Seq<char>)> {
    match p {
        Some(p) => opt_pair(
            "provider_category"@,
            match p.provider_category {
                Some(c) => Some(provider_category_name(c)),
                None => None,
            },
        ) + opt_pair(
            "provider_type"@,
            match p.provider_type {
                Some(t) => Some(provider_type_name(t)),
                None => None,
            },
        ) + opt_pair("after"@, opt_text(p.after)) + opt_pair("limit"@, opt_int_text(p.limit)),
        None => Seq::empty(),
    }
}

/// The query of a provider listing.
pub fn providers_query(params: Option<ListProvidersParams>) -> (r: Vec<(String, String)>)
    ensures
        entries_view(r@) == spec_providers_query(params),
{
    let mut q: Vec<(String, String)> = Vec::new();
    let ghost pv = params;
    if let Some(p) = params {
        if let Some(c) = &p.provider_category {
            push_pair(&mut q, "provider_category", String::from_str(c.as_str()));
        }
        if let Some(t) = &p.provider_type {
            push_pair(&mut q, "provider_type", String::from_str(t.as_str()));
        }
        if let Some(a) = p.after {
            push_pair(&mut q, "after", a);
        }
        if let Some(l) = p.limit {
            push_pair(&mut q, "limit", i32_text(l));
        }
    }
    assert(entries_view(q@) =~= spec_providers_query(pv));
    q
}

/// The query of a tag listing: cursor, limit and search text (as `queryText`), when set.
pub open spec fn spec_tags_query(p: Option<ListTagsParams>) -> Seq<(Seq<char>, Seq<char>)> {
    match p {
        Some(p) => opt_pair("after"@, opt_text(p.after)) + opt_pair("limit"@, opt_int_text(p.limit))
            + opt_pair("queryText"@, opt_text(p.query_text)),
        None => Seq::empty(),
    }
}

/// The query of a tag listing.
pub fn tags_query(params: Option<ListTagsParams>) -> (r: Vec<(String, String)>)
    ensures
        entries_view(r@) == spec_tags_query(params),
{
    let mut q: Vec<(String, String)> = Vec::new();
    let ghost pv = params;
    if let Some(p) = params {
        if let Some(a) = p.after {
            push_pair(&mut q, "after", a);
        }
        if let Some(l) = p.limit {
            push_pair(&mut q, "limit", i32_text(l));
        }
        if let Some(t) = p.query_text {
            push_pair(&mut q, "queryText", t);
        }
    }
    assert(entries_view(q@) =~= spec_tags_query(pv));
    q
}

/// The query of a template listing: offset, limit, name and project, when set.
pub open spec fn spec_templates_query(
    offset: Option<String>,
    limit: Option<String>,
    name: Option<String>,
    project_id: Option<String>,
) -> Seq<(Seq<char>, Seq<char>)> {
    opt_pair("offset"@, opt_text(offset)) + opt_pair("limit"@, opt_text(limit)) + opt_pair("name"@, opt_text(name))
        + opt_pair("project_id"@, opt_text(project_id))
}

/// The query of a template listing.
pub fn templates_query(
    offset: Option<String>,
    limit: Option<String>,
    name: Option<String>,
    project_id: Option<String>,
) -> (r: Vec<(String, String)>)
    ensures
        entries_view(r@) == spec_templates_query(offset, limit, name, project_id),
{
    let mut q: Vec<(String, String)> = Vec::new();
    let ghost (o0, l0, n0, p0) = (offset, limit, name, project_id);
    if let Some(o) = offset {
        push_pair(&mut q, "offset", o);
    }
    if let Some(l) = limit {
        push_pair(&mut q, "limit", l);
    }
    if let Some(n) = name {
        push_pair(&mut q, "name", n);
    }
    if let Some(p) = project_id {
        push_pair(&mut q, "project_id", p);
    }
    assert(entries_view(q@) =~= opt_pair("offset"@, opt_text(o0)) + opt_pair("limit"@, opt_text(l0))
        + opt_pair("name"@, opt_text(n0)) + opt_pair("project_id"@, opt_text(p0)));
    q
}

/// The query of a project listing: name, offset and limit, when set.
pub open spec fn spec_projects_query(name: Option<String>, offset: Option<String>, limit: Option<String>) -> Seq<
    (Seq<char>, Seq<char>),
> {
    opt_pair("name"@, opt_text(name)) + opt_pair("offset"@, opt_text(offset)) + opt_pair("limit"@, opt_text(limit))
}

/// The query of a project listing.
pub fn projects_query(name: Option<String>, offset: Option<String>, limit: Option<String>) -> (r: Vec<(String, String)>)
    ensures
        entries_view(r@) == spec_projects_query(name, offset, limit),
{
    let mut q: Vec<(String, String)> = Vec::new();
    let ghost (n0, o0, l0) = (name, offset, limit);
    if let Some(n) = name {
        push_pair(&mut q, "name", n);
    }
    if let Some(o) = offset {
        push_pair(&mut q, "offset", o);
    }
    if let Some(l) = limit {
        push_pair(&mut q, "limit", l);
    }
    assert(entries_view(q@) =~= opt_pair("name"@, opt_text(n0)) + opt_pair("offset"@, opt_text(o0))
        + opt_pair("limit"@, opt_text(l0)));
    q
}

/// The text of a job status in a query: its name as a JSON string, quotes included.
pub open spec fn job_status_query_text(s: JobStatus) -> Seq<char> {
    seq!['"'] + job_status_name(s) + seq!['"']
}

fn job_status_text(s: JobStatus) -> (r: String)
    ensures
        r@ == job_status_query_text(s),
{
    let mut v: Vec<char> = Vec::new();
    v.push('"');
    push_all(&mut v, &chars_of(s.as_str()));
    v.push('"');
    string_of(&v)
}

/// The query of a job listing: status, limit and source, when set.
pub open spec fn spec_jobs_query(status: Option<JobStatus>, limit: Option<i32>, source_id: Option<LettaId>) -> Seq<
    (Seq<char>, Seq<char>),
> {
    spec_active_jobs_query(status, limit) + opt_pair(
        "source_id"@,
        match source_id {
            Some(id) => Some(id_text(id@)),
            None => None,
        },
    )
}

/// The query of a job listing.
pub fn jobs_query(status: Option<JobStatus>, limit: Option<i32>, source_id: Option<&LettaId>) -> (r: Vec<(String, String)>)
    ensures
        entries_view(r@) == spec_jobs_query(
            status,
            limit,
            match source_id {
                Some(id) => Some(*id),
                None => None,
            },
        ),
{
    let mut q = active_jobs_query(status, limit);
    if let Some(id) = source_id {
        push_pair(&mut q, "source_id", id.to_string());
    }
    let ghost e = opt_pair(
        "status"@,
        match status {
            Some(s) => Some(job_status_query_text(s)),
            None => None,
        },
    ) + opt_pair("limit"@, opt_int_text(limit)) + opt_pair(
        "source_id"@,
        match source_id {
            Some(id) => Some(id_text(id@)),
            None => None,
        },
    );
    assert(entries_view(q@) =~= e);
    q
}

/// The query of an active job listing: status and limit, when set.
pub open spec fn spec_active_jobs_query(status: Option<JobStatus>, limit: Option<i32>) -> Seq<(Seq<char>, Seq<char>)> {
    opt_pair(
        "status"@,
        match status {
            Some(s) => Some(job_status_query_text(s)),
            None => None,
        },
    ) + opt_pair("limit"@, opt_int_text(limit))
}

/// The query of an active job listing.
pub fn active_jobs_query(status: Option<JobStatus>, limit: Option<i32>) -> (r: Vec<(String, String)>)
    ensures
        entries_view(r@) == spec_active_jobs_query(status, limit),
{
    let mut q: Vec<(String, String)> = Vec::new();
    if let Some(s) = status {
        push_pair(&mut q, "status", job_status_text(s));
    }
    if let Some(l) = limit {
        push_pair(&mut q, "limit", i32_text(l));
    }
    let ghost e = opt_pair(
        "status"@,
        match status {
            Some(s) => Some(job_status_query_text(s)),
            None => None,
        },
    ) + opt_pair("limit"@, opt_int_text(limit));
    assert(entries_view(q@) =~= e);
    q
}

/// The texts of identifiers joined by commas.
pub open spec fn joined_ids(ids: Seq<LettaId>) -> Seq<char>
    decreases ids.len(),
{
    if ids.len() == 0 {
        Seq::empty()
    } else if ids.len() == 1 {
        id_text(ids[0]@)
    } else {
        joined_ids(ids.drop_last()) + seq![','] + id_text(ids.last()@)
    }
}

/// The query of a run listing: the agents' identifiers, joined by commas.
pub fn runs_query(agent_ids: &[LettaId]) -> (r: Vec<(String, String)>)
    ensures
        entries_view(r@) == seq![("agent_ids"@, joined_ids(agent_ids@))],
{
    let mut v: Vec<char> = Vec::new();
    let mut i: usize = 0;
    while i < agent_ids.len()
        invariant
            i <= agent_ids@.len(),
            v@ == joined_ids(agent_ids@.take(i as int)),
        decreases agent_ids@.len() - i,
    {
        if i > 0 {
            v.push(',');
        }
        push_all(&mut v, &chars_of(agent_ids[i].as_str().as_str()));
        proof {
            let t = agent_ids@.take(i + 1);
            assert(t.drop_last() == agent_ids@.take(i as int));
            assert(t.last() == agent_ids@[i as int]);
            if i == 0 {
                assert(t.len() == 1);
            }
        }
        i = i + 1;
    }
    assert(agent_ids@.take(agent_ids@.len() as int) == agent_ids@);
    let mut q: Vec<(String, String)> = Vec::new();
    push_pair(&mut q, "agent_ids", string_of(&v));
    assert(entries_view(q@) =~= seq![("agent_ids"@, joined_ids(agent_ids@))]);
    q
}

/// Law: every parameter set in a provider listing appears in its query under its name
/// (`provider_category`, `provider_type`, `after`, `limit`), and a cursor or limit that
/// is not set does not.
pub proof fn law_providers_query_carries_parameters(p: ListProvidersParams)
    ensures
        p.after matches Some(a) ==> spec_providers_query(Some(p)).contains(("after"@, a@)),
        p.limit matches Some(l) ==> spec_providers_query(Some(p)).contains(("limit"@, int_text(l as int))),
        p.provider_category matches Some(c) ==> spec_providers_query(Some(p)).contains(
            ("provider_category"@, provider_category_name(c)),
        ),
        p.provider_type matches Some(t) ==> spec_providers_query(Some(p)).contains(
            ("provider_type"@, provider_type_name(t)),
        ),
        p.after is None ==> forall|i: int|
            0 <= i < spec_providers_query(Some(p)).len() ==> #[trigger] spec_providers_query(Some(p))[i].0 != "after"@,
        p.limit is None ==> forall|i: int|
            0 <= i < spec_providers_query(Some(p)).len() ==> #[trigger] spec_providers_query(Some(p))[i].0 != "limit"@,
{
    reveal_strlit("after");
    reveal_strlit("limit");
    reveal_strlit("provider_category");
    reveal_strlit("provider_type");
    let c = opt_pair(
        "provider_category"@,
        match p.provider_category {
            Some(c) => Some(provider_category_name(c)),
            None => None,
        },
    );
    let t = opt_pair(
        "provider_type"@,
        match p.provider_type {
            Some(t) => Some(provider_type_name(t)),
            None => None,
        },
    );
    let a = opt_pair("after"@, opt_text(p.after));
    let l = opt_pair("limit"@, opt_int_text(p.limit));
    let q = spec_providers_query(Some(p));
    assert(q == c + t + a + l);
    if p.after is Some {
        assert(q[(c.len() + t.len()) as int] == a[0]);
    }
    if p.limit is Some {
        assert(q[(c.len() + t.len() + a.len()) as int] == l[0]);
    }
    if p.provider_category is Some {
        assert(q[0] == c[0]);
    }
    if p.provider_type is Some {
        assert(q[c.len() as int] == t[0]);
    }
    assert("after"@[0] != "limit"@[0]);
    assert("after"@.len() != "provider_type"@.len());
    assert("after"@.len() != "provider_category"@.len());
    assert("limit"@.len() != "provider_type"@.len());
    assert("limit"@.len() != "provider_category"@.len());
}

proof fn lemma_category_pairs(cs: Seq<crate::types::models::ProviderCategory>)
    ensures
        category_pairs(cs).len() == cs.len(),
        forall|i: int| 0 <= i < cs.len() ==> #[trigger] category_pairs(cs)[i] == ("provider_category"@, provider_category_name(cs[i])),
    decreases cs.len(),
{
    if cs.len() > 0 {
        lemma_category_pairs(cs.drop_first());
        assert forall|i: int| 0 <= i < cs.len() implies #[trigger] category_pairs(cs)[i] == ("provider_category"@, provider_category_name(cs[i])) by {
            if i > 0 {
                assert(cs.drop_first()[i - 1] == cs[i]);
            }
        }
    }
}

/// Law: every parameter set in a model listing appears in its query: one
/// `provider_category` pair per category, in order, first, then `provider_name` and
/// `provider_type`.
pub proof fn law_models_query_carries_parameters(p: ListModelsParams)
    ensures
        p.provider_category matches Some(cs) ==> forall|i: int| 0 <= i < cs@.len() ==>
            #[trigger] spec_models_query(Some(p))[i] == ("provider_category"@, provider_category_name(cs@[i])),
        p.provider_name matches Some(n) ==> spec_models_query(Some(p)).contains(("provider_name"@, n@)),
        p.provider_type matches Some(t) ==> spec_models_query(Some(p)).contains(("provider_type"@, t@)),
        spec_models_query(Some(p)).len() == opt_category_pairs(p.provider_category).len()
            + (if p.provider_name is Some { 1int } else { 0int }) + (if p.provider_type is Some { 1int } else { 0int }),
{
    let c = opt_category_pairs(p.provider_category);
    let n = opt_pair("provider_name"@, opt_text(p.provider_name));
    let t = opt_pair("provider_type"@, opt_text(p.provider_type));
    let q = spec_models_query(Some(p));
    assert(q == c + n + t);
    if let Some(cs) = p.provider_category {
        lemma_category_pairs(cs@);
        assert forall|i: int| 0 <= i < cs@.len() implies #[trigger] q[i] == ("provider_category"@, provider_category_name(cs@[i])) by {
            assert(q[i] == c[i]);
        }
    }
    if p.provider_name is Some {
        assert(q[c.len() as int] == n[0]);
    }
    if p.provider_type is Some {
        assert(q[(c.len() + n.len()) as int] == t[0]);
    }
}

/// Law: every category of an embedding model listing appears in its query, in order,
/// and nothing else does.
pub proof fn law_embedding_models_query_carries_categories(p: ListEmbeddingModelsParams)
    ensures
        p.provider_category matches Some(cs) ==> (spec_embedding_models_query(Some(p)).len() == cs@.len()
            && forall|i: int| 0 <= i < cs@.len() ==>
            #[trigger] spec_embedding_models_query(Some(p))[i] == ("provider_category"@, provider_category_name(cs@[i]))),
        p.provider_category is None ==> spec_embedding_models_query(Some(p)).len() == 0,
{
    if let Some(cs) = p.provider_category {
        lemma_category_pairs(cs@);
    }
}

/// Law: every parameter set in a tag listing appears in its query under its name
/// (`after`, `limit`, `queryText`), and a cursor that is not set does not.
pub proof fn law_tags_query_carries_parameters(p: ListTagsParams)
    ensures
        p.after matches Some(a) ==> spec_tags_query(Some(p)).contains(("after"@, a@)),
        p.limit matches Some(l) ==> spec_tags_query(Some(p)).contains(("limit"@, int_text(l as int))),
        p.query_text matches Some(t) ==> spec_tags_query(Some(p)).contains(("queryText"@, t@)),
        p.after is None ==> forall|i: int|
            0 <= i < spec_tags_query(Some(p)).len() ==> #[trigger] spec_tags_query(Some(p))[i].0 != "after"@,
{
    reveal_strlit("after");
    reveal_strlit("limit");
    reveal_strlit("queryText");
    let a = opt_pair("after"@, opt_text(p.after));
    let l = opt_pair("limit"@, opt_int_text(p.limit));
    let t = opt_pair("queryText"@, opt_text(p.query_text));
    let q = spec_tags_query(Some(p));
    assert(q == a + l + t);
    if p.after is Some {
        assert(q[0] == a[0]);
    }
    if p.limit is Some {
        assert(q[a.len() as int] == l[0]);
    }
    if p.query_text is Some {
        assert(q[(a.len() + l.len()) as int] == t[0]);
    }
    assert("after"@[0] != "limit"@[0]);
    assert("after"@.len() != "queryText"@.len());
}

proof fn lemma_pair_in(x: Seq<(Seq<char>, Seq<char>)>, k: Seq<char>, v: Seq<char>, y: Seq<(Seq<char>, Seq<char>)>)
    ensures
        (x + opt_pair(k, Some(v)) + y).contains((k, v)),
{
    assert((x + opt_pair(k, Some(v)) + y)[x.len() as int] == (k, v));
}

/// Law: every parameter set in a template listing appears in its query under its name
/// (`offset`, `limit`, `name`, `project_id`), and only set parameters do.
pub proof fn law_templates_query_carries_parameters(
    offset: Option<String>,
    limit: Option<String>,
    name: Option<String>,
    project_id: Option<String>,
)
    ensures
        offset matches Some(o) ==> spec_templates_query(offset, limit, name, project_id).contains(("offset"@, o@)),
        limit matches Some(l) ==> spec_templates_query(offset, limit, name, project_id).contains(("limit"@, l@)),
        name matches Some(n) ==> spec_templates_query(offset, limit, name, project_id).contains(("name"@, n@)),
        project_id matches Some(p) ==> spec_templates_query(offset, limit, name, project_id).contains(
            ("project_id"@, p@),
        ),
        spec_templates_query(offset, limit, name, project_id).len() == (if offset is Some { 1int } else { 0int })
            + (if limit is Some { 1int } else { 0int }) + (if name is Some { 1int } else { 0int })
            + (if project_id is Some { 1int } else { 0int }),
{
    let o = opt_pair("offset"@, opt_text(offset));
    let l = opt_pair("limit"@, opt_text(limit));
    let n = opt_pair("name"@, opt_text(name));
    let p = opt_pair("project_id"@, opt_text(project_id));
    if let Some(v) = offset {
        lemma_pair_in(Seq::empty(), "offset"@, v@, l + n + p);
        assert(Seq::<(Seq<char>, Seq<char>)>::empty() + o + (l + n + p) =~= o + l + n + p);
    }
    if let Some(v) = limit {
        lemma_pair_in(o, "limit"@, v@, n + p);
        assert(o + l + (n + p) =~= o + l + n + p);
    }
    if let Some(v) = name {
        lemma_pair_in(o + l, "name"@, v@, p);
    }
    if let Some(v) = project_id {
        lemma_pair_in(o + l + n, "project_id"@, v@, Seq::empty());
        assert(o + l + n + p + Seq::<(Seq<char>, Seq<char>)>::empty() =~= o + l + n + p);
    }
}

/// Law: every parameter set in a project listing appears in its query under its name
/// (`name`, `offset`, `limit`), and only set parameters do.
pub proof fn law_projects_query_carries_parameters(name: Option<String>, offset: Option<String>, limit: Option<String>)
    ensures
        name matches Some(n) ==> spec_projects_query(name, offset, limit).contains(("name"@, n@)),
        offset matches Some(o) ==> spec_projects_query(name, offset, limit).contains(("offset"@, o@)),
        limit matches Some(l) ==> spec_projects_query(name, offset, limit).contains(("limit"@, l@)),
        spec_projects_query(name, offset, limit).len() == (if name is Some { 1int } else { 0int })
            + (if offset is Some { 1int } else { 0int }) + (if limit is Some { 1int } else { 0int }),
{
    let n = opt_pair("name"@, opt_text(name));
    let o = opt_pair("offset"@, opt_text(offset));
    let l = opt_pair("limit"@, opt_text(limit));
    if let Some(v) = name {
        lemma_pair_in(Seq::empty(), "name"@, v@, o + l);
        assert(Seq::<(Seq<char>, Seq<char>)>::empty() + n + (o + l) =~= n + o + l);
    }
    if let Some(v) = offset {
        lemma_pair_in(n, "offset"@, v@, l);
    }
    if let Some(v) = limit {
        lemma_pair_in(n + o, "limit"@, v@, Seq::empty());
        assert(n + o + l + Seq::<(Seq<char>, Seq<char>)>::empty() =~= n + o + l);
    }
}

/// Law: every parameter set in a job listing appears in its query under its name:
/// the status as its quoted name, the limit as decimal text and the source as its
/// identifier's text; the active job listing's query is that of a job listing without
/// a source.
pub proof fn law_jobs_query_carries_parameters(status: Option<JobStatus>, limit: Option<i32>, source_id: Option<LettaId>)
    ensures
        status matches Some(s) ==> spec_jobs_query(status, limit, source_id).contains(
            ("status"@, seq!['"'] + job_status_name(s) + seq!['"']),
        ),
        limit matches Some(l) ==> spec_jobs_query(status, limit, source_id).contains(("limit"@, int_text(l as int))),
        source_id matches Some(id) ==> spec_jobs_query(status, limit, source_id).contains(("source_id"@, id_text(id@))),
        spec_jobs_query(status, limit, source_id).len() == (if status is Some { 1int } else { 0int })
            + (if limit is Some { 1int } else { 0int }) + (if source_id is Some { 1int } else { 0int }),
        spec_active_jobs_query(status, limit) == spec_jobs_query(status, limit, None),
{
    let st = opt_pair(
        "status"@,
        match status {
            Some(s) => Some(job_status_query_text(s)),
            None => None,
        },
    );
    let l = opt_pair("limit"@, opt_int_text(limit));
    let so = opt_pair(
        "source_id"@,
        match source_id {
            Some(id) => Some(id_text(id@)),
            None => None,
        },
    );
    if let Some(s) = status {
        lemma_pair_in(Seq::empty(), "status"@, job_status_query_text(s), l + so);
        assert(Seq::<(Seq<char>, Seq<char>)>::empty() + st + (l + so) =~= st + l + so);
    }
    if let Some(v) = limit {
        lemma_pair_in(st, "limit"@, int_text(v as int), so);
    }
    if let Some(id) = source_id {
        lemma_pair_in(st + l, "source_id"@, id_text(id@), Seq::empty());
        assert(st + l + so + Seq::<(Seq<char>, Seq<char>)>::empty() =~= st + l + so);
    }
    assert(spec_jobs_query(status, limit, None) =~= spec_active_jobs_query(status, limit));
}

} // verus!
