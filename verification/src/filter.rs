//! The rule filter and the event pattern built from it.
//!
//! A `BatchRuleDetails` value selects which Batch job state-change events a
//! rule matches: optional lists of job statuses, job names and job queues.
//! The event pattern is a JSON object with the fixed `detail-type` and
//! `source` clauses; a `detail` object is appended only when at least one
//! filter field is present, and it holds exactly the present fields under
//! their wire names (`status`, `jobName`, `jobQueue`).

use crate::jsonfmt::{
    joined, lemma_joined_part_occurs, lemma_joined_push, lemma_occurs_at_extend,
    lemma_occurs_at_prefix, lemma_occurs_at_shift, occurs, occurs_at, push_string_array,
    string_array,
};
use vstd::prelude::*;
use vstd::string::StringExecFns;

verus! {

/// A subset of the `detail` field of an AWS Batch event: the fields a rule
/// may filter on. An absent field places no constraint on the event.
pub struct BatchRuleDetails {
    /// Job statuses to match, under the wire name `status`.
    pub statuses: Option<Vec<String>>,
    /// Job names to match, under the wire name `jobName`.
    pub job_names: Option<Vec<String>>,
    /// Job queue ARNs to match, under the wire name `jobQueue`.
    pub job_queues: Option<Vec<String>>,
}

/// The mathematical content of a filter: each field as an optional sequence
/// of character sequences.
pub struct BatchRuleDetailsView {
    /// The `statuses` field.
    pub statuses: Option<Seq<Seq<char>>>,
    /// The `job_names` field.
    pub job_names: Option<Seq<Seq<char>>>,
    /// The `job_queues` field.
    pub job_queues: Option<Seq<Seq<char>>>,
}

impl View for BatchRuleDetails {
    type V = BatchRuleDetailsView;

    open spec fn view(&self) -> BatchRuleDetailsView {
        BatchRuleDetailsView {
            statuses: self.statuses.deep_view(),
            job_names: self.job_names.deep_view(),
            job_queues: self.job_queues.deep_view(),
        }
    }
}

impl Default for BatchRuleDetails {
    /// The all-absent filter, which constrains nothing.
    fn default() -> (r: Self)
        ensures
            is_empty_filter(r@),
    {
        BatchRuleDetails { statuses: None, job_names: None, job_queues: None }
    }
}

/// Whether every filter field is absent.
pub open spec fn is_empty_filter(v: BatchRuleDetailsView) -> bool {
    v.statuses is None && v.job_names is None && v.job_queues is None
}

/// The key of the `status` entry, as it appears in the detail object.
pub open spec fn status_key() -> Seq<char> {
    "\"status\":"@
}

/// The key of the `jobName` entry, as it appears in the detail object.
pub open spec fn job_name_key() -> Seq<char> {
    "\"jobName\":"@
}

/// The key of the `jobQueue` entry, as it appears in the detail object.
pub open spec fn job_queue_key() -> Seq<char> {
    "\"jobQueue\":"@
}

/// The rendered entries a field contributes to the detail object: one entry
/// (its key followed by the array of its values) when present, none when
/// absent.
pub open spec fn opt_entry(key: Seq<char>, vals: Option<Seq<Seq<char>>>) -> Seq<Seq<char>> {
    match vals {
        Some(vs) => seq![key + string_array(vs)],
        None => Seq::empty(),
    }
}

/// The entries of the detail object, in declaration order.
pub open spec fn detail_parts(v: BatchRuleDetailsView) -> Seq<Seq<char>> {
    opt_entry(status_key(), v.statuses) + opt_entry(job_name_key(), v.job_names) + opt_entry(
        job_queue_key(),
        v.job_queues,
    )
}

/// The detail object: the present entries, comma-separated, in braces.
pub open spec fn detail_json(v: BatchRuleDetailsView) -> Seq<char> {
    seq!['{'] + joined(detail_parts(v), seq![',']) + seq!['}']
}

/// The two fixed clauses every pattern carries: the event's detail type and
/// its source.
pub open spec fn pattern_base() -> Seq<char> {
    "\"detail-type\":[\"Batch Job State Change\"],\"source\":[\"aws.batch\"]"@
}

/// The key that introduces the detail object in the pattern.
pub open spec fn detail_key() -> Seq<char> {
    "\"detail\":"@
}

/// The full event pattern for a filter: the fixed clauses alone when the
/// filter is all-absent, otherwise the fixed clauses followed by the detail
/// object.
pub open spec fn event_pattern(v: BatchRuleDetailsView) -> Seq<char> {
    if is_empty_filter(v) {
        seq!['{'] + pattern_base() + seq!['}']
    } else {
        seq!['{'] + pattern_base() + seq![','] + detail_key() + detail_json(v) + seq!['}']
    }
}

/// With every filter field absent, the event pattern is exactly the two
/// fixed clauses in braces, and no `detail` key occurs anywhere in it.
pub proof fn lemma_empty_filter_no_detail(v: BatchRuleDetailsView)
    requires
        is_empty_filter(v),
    ensures
        event_pattern(v) == seq!['{'] + pattern_base() + seq!['}'],
        !occurs(event_pattern(v), detail_key()),
{
    reveal_strlit("\"detail-type\":[\"Batch Job State Change\"],\"source\":[\"aws.batch\"]");
    reveal_strlit("\"detail\":");
    let p = event_pattern(v);
    let k = detail_key();
    assert forall|i: int| !occurs_at(p, k, i) by {
        if occurs_at(p, k, i) {
            assert(p.subrange(i, i + 9)[1] == p[i + 1]);
            assert(p.subrange(i, i + 9)[7] == p[i + 7]);
            assert(p[i + 1] == 'd');
            assert(p[i + 7] == '"');
            assert(false);
        }
    }
}

/// An entry whose key differs from `key2` at position `d` is not keyed by
/// `key2`.
proof fn lemma_entry_not_keyed(key1: Seq<char>, key2: Seq<char>, vs: Seq<Seq<char>>, d: int)
    requires
        0 <= d < key1.len(),
        d < key2.len(),
        key1[d] != key2[d],
    ensures
        !((key1 + string_array(vs)).len() >= key2.len() && (key1 + string_array(vs)).subrange(
            0,
            key2.len() as int,
        ) == key2),
{
    let e = key1 + string_array(vs);
    if e.len() >= key2.len() && e.subrange(0, key2.len() as int) == key2 {
        assert(e.subrange(0, key2.len() as int)[d] == e[d]);
        assert(e[d] == key1[d]);
    }
}

/// No entry of the detail object of `v` is keyed by `key`.
pub open spec fn no_entry_keyed(v: BatchRuleDetailsView, key: Seq<char>) -> bool {
    forall|j: int|
        0 <= j < detail_parts(v).len() ==> !((#[trigger] detail_parts(v)[j]).len() >= key.len()
            && detail_parts(v)[j].subrange(0, key.len() as int) == key)
}

/// The key of an entry of the detail object occurs in the rendered object.
proof fn lemma_entry_key_occurs(v: BatchRuleDetailsView, key: Seq<char>, vs: Seq<Seq<char>>)
    requires
        detail_parts(v).contains(key + string_array(vs)),
    ensures
        occurs(detail_json(v), key),
{
    let parts = detail_parts(v);
    let entry = key + string_array(vs);
    let j = choose|j: int| 0 <= j < parts.len() && parts[j] == entry;
    let i0 = lemma_joined_part_occurs(parts, seq![','], j);
    assert(entry.subrange(0, key.len() as int) =~= key);
    lemma_occurs_at_prefix(joined(parts, seq![',']), entry, key, i0);
    lemma_occurs_at_shift(seq!['{'], joined(parts, seq![',']), key, i0);
    lemma_occurs_at_extend(seq!['{'] + joined(parts, seq![',']), seq!['}'], key, 1 + i0);
    assert(occurs_at(detail_json(v), key, 1 + i0));
}

/// With at least one filter field present, the event pattern carries a
/// detail object holding one entry per present field, under its wire name
/// and with exactly the given values; a field that is absent keys no entry.
pub proof fn lemma_detail_object_entries(v: BatchRuleDetailsView)
    requires
        !is_empty_filter(v),
    ensures
        event_pattern(v) == seq!['{'] + pattern_base() + seq![','] + detail_key() + detail_json(v)
            + seq!['}'],
        v.statuses matches Some(vs) ==> detail_parts(v).contains(status_key() + string_array(vs))
            && occurs(detail_json(v), status_key()),
        v.job_names matches Some(vs) ==> detail_parts(v).contains(
            job_name_key() + string_array(vs),
        ) && occurs(detail_json(v), job_name_key()),
        v.job_queues matches Some(vs) ==> detail_parts(v).contains(
            job_queue_key() + string_array(vs),
        ) && occurs(detail_json(v), job_queue_key()),
        v.statuses is None ==> no_entry_keyed(v, status_key()),
        v.job_names is None ==> no_entry_keyed(v, job_name_key()),
        v.job_queues is None ==> no_entry_keyed(v, job_queue_key()),
{
    reveal_strlit("\"status\":");
    reveal_strlit("\"jobName\":");
    reveal_strlit("\"jobQueue\":");
    let parts = detail_parts(v);
    let a = opt_entry(status_key(), v.statuses);
    let b = opt_entry(job_name_key(), v.job_names);
    let c = opt_entry(job_queue_key(), v.job_queues);
    if v.statuses is Some {
        let vs = v.statuses->0;
        assert(parts[0] == status_key() + string_array(vs));
        assert(parts.contains(status_key() + string_array(vs)));
        lemma_entry_key_occurs(v, status_key(), vs);
    }
    if v.job_names is Some {
        let vs = v.job_names->0;
        let j = a.len() as int;
        assert(parts[j] == job_name_key() + string_array(vs));
        assert(parts.contains(job_name_key() + string_array(vs)));
        lemma_entry_key_occurs(v, job_name_key(), vs);
    }
    if v.job_queues is Some {
        let vs = v.job_queues->0;
        let j = a.len() + b.len();
        assert(parts[j as int] == job_queue_key() + string_array(vs));
        assert(parts.contains(job_queue_key() + string_array(vs)));
        lemma_entry_key_occurs(v, job_queue_key(), vs);
    }
    if v.statuses is None {
        assert forall|j: int|
            0 <= j < parts.len() implies !((#[trigger] parts[j]).len() >= status_key().len()
            && parts[j].subrange(0, status_key().len() as int) == status_key()) by {
            if j < b.len() {
                lemma_entry_not_keyed(job_name_key(), status_key(), v.job_names->0, 1);
            } else {
                lemma_entry_not_keyed(job_queue_key(), status_key(), v.job_queues->0, 1);
            }
        }
    }
    if v.job_names is None {
        assert forall|j: int|
            0 <= j < parts.len() implies !((#[trigger] parts[j]).len() >= job_name_key().len()
            && parts[j].subrange(0, job_name_key().len() as int) == job_name_key()) by {
            if j < a.len() {
                lemma_entry_not_keyed(status_key(), job_name_key(), v.statuses->0, 1);
            } else {
                lemma_entry_not_keyed(job_queue_key(), job_name_key(), v.job_queues->0, 4);
            }
        }
    }
    if v.job_queues is None {
        assert forall|j: int|
            0 <= j < parts.len() implies !((#[trigger] parts[j]).len() >= job_queue_key().len()
            && parts[j].subrange(0, job_queue_key().len() as int) == job_queue_key()) by {
            if j < a.len() {
                lemma_entry_not_keyed(status_key(), job_queue_key(), v.statuses->0, 1);
            } else {
                lemma_entry_not_keyed(job_name_key(), job_queue_key(), v.job_names->0, 4);
            }
        }
    }
}

/// Builds the detail object of a filter.
pub fn build_detail_json(f: &BatchRuleDetails) -> (r: String)
    ensures
        r@ == detail_json(f@),
{
    let mut out = String::new();
    out.append("{");
    let ghost mut parts: Seq<Seq<char>> = Seq::empty();
    proof {
        reveal_strlit("{");
        assert(out@ =~= seq!['{'] + joined(parts, seq![',']));
    }
    let mut first: bool = true;
    if let Some(vals) = &f.statuses {
        out.append("\"status\":");
        push_string_array(&mut out, vals);
        proof {
            let entry = status_key() + string_array(vals.deep_view());
            lemma_joined_push(parts, seq![','], entry);
            assert(out@ =~= seq!['{'] + joined(parts.push(entry), seq![',']));
            parts = parts.push(entry);
        }
        first = false;
    }
    if let Some(vals) = &f.job_names {
        if !first {
            out.append(",");
            proof {
                reveal_strlit(",");
            }
        }
        out.append("\"jobName\":");
        push_string_array(&mut out, vals);
        proof {
            let entry = job_name_key() + string_array(vals.deep_view());
            lemma_joined_push(parts, seq![','], entry);
            assert(out@ =~= seq!['{'] + joined(parts.push(entry), seq![',']));
            parts = parts.push(entry);
        }
        first = false;
    }
    if let Some(vals) = &f.job_queues {
        if !first {
            out.append(",");
            proof {
                reveal_strlit(",");
            }
        }
        out.append("\"jobQueue\":");
        push_string_array(&mut out, vals);
        proof {
            let entry = job_queue_key() + string_array(vals.deep_view());
            lemma_joined_push(parts, seq![','], entry);
            assert(out@ =~= seq!['{'] + joined(parts.push(entry), seq![',']));
            parts = parts.push(entry);
        }
        first = false;
    }
    out.append("}");
    proof {
        reveal_strlit("}");
        assert(parts =~= detail_parts(f@));
        assert(out@ =~= detail_json(f@));
    }
    out
}

/// Builds the full event pattern for a filter.
pub fn build_event_pattern(f: &BatchRuleDetails) -> (r: String)
    ensures
        r@ == event_pattern(f@),
{
    let mut out = String::new();
    out.append("{");
    out.append("\"detail-type\":[\"Batch Job State Change\"],\"source\":[\"aws.batch\"]");
    if f.statuses.is_some() || f.job_names.is_some() || f.job_queues.is_some() {
        out.append(",");
        out.append("\"detail\":");
        let detail = build_detail_json(f);
        out.append(detail.as_str());
    }
    out.append("}");
    proof {
        reveal_strlit("{");
        reveal_strlit("}");
        reveal_strlit(",");
        assert(out@ =~= event_pattern(f@));
    }
    out
}

} // verus!
