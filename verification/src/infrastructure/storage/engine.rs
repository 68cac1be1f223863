//! What the embedded engine does with the records it has scanned: filter,
//! score, rank, list and collect projects.
//!
//! Reading the records from disk, and computing a similarity from two
//! vectors, is left to the caller; everything between is decided here.

use crate::domain::errors::{error_of, DomainError, ErrorKind, ErrorView};
use crate::domain::models::{
    record_matches, score_key, score_order_key, summary_of, ContextEmbedding, ContextRecord,
    ContextSummary, FiltersView, QueryFilters, RecordView, SummaryView,
};
use crate::ranking::{
    apart, descending, lemma_ranked, lemma_ranked_apart, lemma_ranked_map, rank_of, ranked,
    reversed, top_ranked, Ranked,
};
use crate::text::{
    decimal, decimal_string, lemma_text_before_irreflexive, lemma_text_before_total,
    lemma_text_before_transitive, precedes, same_text, text_before, texts,
};
use vstd::prelude::*;

verus! {

/// Name of the tree that holds the records.
pub const CONTEXTS_TREE: &'static str = "contexts";

/// Size of the engine's page cache, in bytes.
pub const CACHE_CAPACITY: u64 = 64 * 1024 * 1024;

/// The steps of the engine that can fail.
#[derive(Debug, Clone, Copy, PartialEq, Eq, Structural)]
pub enum EngineStep {
    /// Creating the data directory.
    CreateDirectory,
    /// Opening the database.
    Open,
    /// Opening the tree of records.
    OpenTree,
    /// Turning a record into bytes.
    Serialize,
    /// Turning bytes into a record.
    Deserialize,
    /// Reading a record during a scan.
    Read,
    /// Writing a record.
    Persist,
    /// Flushing the tree of records.
    FlushTree,
    /// Flushing the database.
    FlushDatabase,
}

/// The words that introduce the failure of each step.
pub open spec fn step_prefix(step: EngineStep) -> Seq<char> {
    match step {
        EngineStep::CreateDirectory => "failed to create data directory "@,
        EngineStep::Open => "failed to open sled db: "@,
        EngineStep::OpenTree => "failed to open contexts tree: "@,
        EngineStep::Serialize => "serialization error: "@,
        EngineStep::Deserialize => "deserialization error: "@,
        EngineStep::Read => "failed to read context record: "@,
        EngineStep::Persist => "failed to persist context: "@,
        EngineStep::FlushTree => "failed to flush contexts: "@,
        EngineStep::FlushDatabase => "failed to flush db: "@,
    }
}

/// The storage error for a step of the engine that failed.
pub fn engine_failure(step: EngineStep, detail: &str) -> (e: DomainError)
    ensures
        e@ == error_of(ErrorKind::Storage, step_prefix(step) + detail@),
{
    let prefix: &str = match step {
        EngineStep::CreateDirectory => "failed to create data directory ",
        EngineStep::Open => "failed to open sled db: ",
        EngineStep::OpenTree => "failed to open contexts tree: ",
        EngineStep::Serialize => "serialization error: ",
        EngineStep::Deserialize => "deserialization error: ",
        EngineStep::Read => "failed to read context record: ",
        EngineStep::Persist => "failed to persist context: ",
        EngineStep::FlushTree => "failed to flush contexts: ",
        EngineStep::FlushDatabase => "failed to flush db: ",
    };
    DomainError::storage(crate::text::join(prefix, detail).as_str())
}

impl Ranked for (ContextRecord, u32) {
    open spec fn rank(&self) -> int {
        score_key(self.1)
    }

    fn outranks(&self, other: &Self) -> (r: bool) {
        score_order_key(self.1) > score_order_key(other.1)
    }
}

impl Ranked for ContextSummary {
    open spec fn rank(&self) -> int {
        self.created_at.order_key()
    }

    fn outranks(&self, other: &Self) -> (r: bool) {
        self.created_at.is_after(&other.created_at)
    }
}

/// The records that pass the filters, in the order given.
pub open spec fn matching(records: Seq<ContextRecord>, filters: FiltersView) -> Seq<
    ContextRecord,
>
    decreases records.len(),
{
    if records.len() == 0 {
        Seq::empty()
    } else if record_matches(records.last()@, filters) {
        matching(records.drop_last(), filters).push(records.last())
    } else {
        matching(records.drop_last(), filters)
    }
}

/// Every record of [`matching`] is one of those given and passes the
/// filters, and no more are kept than were given.
pub proof fn lemma_matching(records: Seq<ContextRecord>, filters: FiltersView)
    ensures
        matching(records, filters).len() <= records.len(),
        forall|i: int|
            0 <= i < matching(records, filters).len() ==> record_matches(
                (#[trigger] matching(records, filters)[i])@,
                filters,
            ) && records.contains(matching(records, filters)[i]),
        forall|j: int|
            0 <= j < records.len() && record_matches(records[j]@, filters) ==> matching(
                records,
                filters,
            ).contains(#[trigger] records[j]),
    decreases records.len(),
{
    if records.len() > 0 {
        let init = records.drop_last();
        lemma_matching(init, filters);
        let kept = matching(records, filters);
        let before = matching(init, filters);
        assert forall|i: int| 0 <= i < kept.len() implies record_matches(
            (#[trigger] kept[i])@,
            filters,
        ) && records.contains(kept[i]) by {
            if i < before.len() {
                assert(kept[i] == before[i]);
                let k = choose|k: int| 0 <= k < init.len() && init[k] == before[i];
                assert(records[k] == kept[i]);
            } else {
                assert(records[records.len() - 1] == kept[i]);
            }
        }
        assert forall|j: int|
            0 <= j < records.len() && record_matches(records[j]@, filters) implies kept.contains(
            #[trigger] records[j],
        ) by {
            if j < init.len() {
                assert(init[j] == records[j]);
                let k = choose|k: int| 0 <= k < before.len() && before[k] == init[j];
                assert(kept[k] == records[j]);
            } else {
                assert(kept[kept.len() - 1] == records[j]);
            }
        }
    }
}

/// Keeps the records that pass the filters, in the order given.
pub fn select_matching(records: Vec<ContextRecord>, filters: &QueryFilters) -> (out: Vec<
    ContextRecord,
>)
    ensures
        out@ == matching(records@, filters@),
{
    let ghost all = records@;
    let mut rest = reversed(records);
    let mut out: Vec<ContextRecord> = Vec::new();
    proof {
        assert(all.subrange(0, 0) =~= Seq::<ContextRecord>::empty());
    }
    while rest.len() > 0
        invariant
            rest@.len() <= all.len(),
            forall|k: int| 0 <= k < rest@.len() ==> rest@[k] == all[all.len() - 1 - k],
            out@ == matching(all.subrange(0, all.len() - rest@.len()), filters@),
        decreases rest.len(),
    {
        let ghost done = all.len() - rest@.len();
        let record = rest.pop().unwrap();
        proof {
            let next = all.subrange(0, done + 1);
            assert(next.drop_last() =~= all.subrange(0, done));
            assert(next.last() == record);
        }
        if record.matches_filters(filters) {
            out.push(record);
        }
    }
    proof {
        assert(all.subrange(0, all.len() as int) =~= all);
    }
    out
}

/// The error for a stored vector whose length is not the query's.
pub open spec fn dimension_mismatch(query: nat, candidate: nat) -> ErrorView {
    error_of(
        ErrorKind::Embedding,
        "embedding dimension mismatch: query "@ + decimal(query) + " vs candidate "@ + decimal(
            candidate,
        ),
    )
}

/// Compares the lengths of two vectors. Vectors of one length pass, and
/// only those; the others give the mismatch error.
pub fn check_dimensions(query: usize, candidate: usize) -> (r: Result<(), DomainError>)
    ensures
        query == candidate ==> r is Ok,
        query != candidate ==> r is Err && r->Err_0@ == dimension_mismatch(
            query as nat,
            candidate as nat,
        ),
{
    if query != candidate {
        let mut msg = "embedding dimension mismatch: query ".to_owned();
        msg.append(decimal_string(query).as_str());
        msg.append(" vs candidate ");
        msg.append(decimal_string(candidate).as_str());
        return Err(DomainError::embedding(msg.as_str()));
    }
    Ok(())
}

/// A component is zero: its bit pattern is that of `+0` or of `-0`.
pub open spec fn is_zero_component(bits: u32) -> bool {
    bits == 0 || bits == 0x8000_0000
}

/// A vector is the zero vector when every component is zero.
pub open spec fn zero_vector(v: Seq<u32>) -> bool {
    forall|i: int| 0 <= i < v.len() ==> is_zero_component(#[trigger] v[i])
}

/// The error for a similarity that involves the zero vector.
pub open spec fn zero_vector_error() -> ErrorView {
    error_of(ErrorKind::Embedding, "cannot compute cosine similarity with zero vector"@)
}

/// Why no similarity of two vectors can be computed, if none can: they
/// differ in length, or one of them is the zero vector.
pub open spec fn pair_rejection(query: Seq<u32>, candidate: Seq<u32>) -> Option<ErrorView> {
    if query.len() != candidate.len() {
        Some(dimension_mismatch(query.len(), candidate.len()))
    } else if zero_vector(query) || zero_vector(candidate) {
        Some(zero_vector_error())
    } else {
        None
    }
}

/// No similarity is computed for vectors of different lengths nor against
/// a zero vector, and what says so is always an embedding error.
pub proof fn lemma_pair_rejection(query: Seq<u32>, candidate: Seq<u32>)
    ensures
        query.len() != candidate.len() ==> pair_rejection(query, candidate) is Some,
        zero_vector(query) || zero_vector(candidate) ==> pair_rejection(query, candidate) is Some,
        pair_rejection(query, candidate) is Some ==> pair_rejection(query, candidate)->0.kind
            == ErrorKind::Embedding,
{
}

/// Tells whether a vector is the zero vector.
pub fn is_zero_vector(v: &Vec<u32>) -> (r: bool)
    ensures
        r == zero_vector(v@),
{
    let mut i: usize = 0;
    while i < v.len()
        invariant
            i <= v.len(),
            forall|k: int| 0 <= k < i ==> is_zero_component(#[trigger] v@[k]),
        decreases v.len() - i,
    {
        if v[i] != 0 && v[i] != 0x8000_0000 {
            return false;
        }
        i += 1;
    }
    true
}

/// Checks that a similarity of two vectors can be computed. Vectors of one
/// length of which neither is the zero vector pass, and only those.
pub fn check_pair(query: &Vec<u32>, candidate: &Vec<u32>) -> (r: Result<(), DomainError>)
    ensures
        match pair_rejection(query@, candidate@) {
            Some(e) => r is Err && r->Err_0@ == e,
            None => r is Ok,
        },
{
    match check_dimensions(query.len(), candidate.len()) {
        Err(e) => {
            return Err(e);
        },
        Ok(_) => {},
    }
    if is_zero_vector(query) || is_zero_vector(candidate) {
        return Err(DomainError::embedding("cannot compute cosine similarity with zero vector"));
    }
    Ok(())
}

/// `scored` pairs each candidate, in order, with a score that the
/// similarity measure gave for it against the query.
pub open spec fn scored_by<F: Fn(&Vec<u32>, &Vec<u32>) -> Result<u32, DomainError>>(
    candidates: Seq<ContextRecord>,
    query: Vec<u32>,
    similarity: F,
    scored: Seq<(ContextRecord, u32)>,
) -> bool {
    &&& scored.len() == candidates.len()
    &&& forall|i: int|
        0 <= i < candidates.len() ==> {
            &&& (#[trigger] scored[i]).0 == candidates[i]
            &&& pair_rejection(query@, candidates[i].embedding.vector@) is None
            &&& similarity.ensures(
                (&query, &candidates[i].embedding.vector),
                Ok::<u32, DomainError>(scored[i].1),
            )
        }
}

/// Scoring stopped at candidate `i` with the error `e`: no similarity can
/// be computed for its vector, or the similarity measure failed on it.
pub open spec fn failed_at<F: Fn(&Vec<u32>, &Vec<u32>) -> Result<u32, DomainError>>(
    candidates: Seq<ContextRecord>,
    query: Vec<u32>,
    similarity: F,
    i: int,
    e: DomainError,
) -> bool {
    &&& 0 <= i < candidates.len()
    &&& forall|k: int|
        0 <= k < i ==> pair_rejection(query@, (#[trigger] candidates[k]).embedding.vector@)
            is None
    &&& match pair_rejection(query@, candidates[i].embedding.vector@) {
        Some(rejection) => e@ == rejection,
        None => similarity.ensures(
            (&query, &candidates[i].embedding.vector),
            Err::<u32, DomainError>(e),
        ),
    }
}

/// The similarity measure can be called on every pair of vectors for which
/// a similarity can be computed.
pub open spec fn measures_all<F: Fn(&Vec<u32>, &Vec<u32>) -> Result<u32, DomainError>>(
    similarity: F,
) -> bool {
    forall|q: &Vec<u32>, c: &Vec<u32>|
        pair_rejection(q@, c@) is None ==> #[trigger] similarity.requires((q, c))
}

/// Scores the candidates in order. The first candidate for whose vector no
/// similarity can be computed, or on which the similarity measure fails,
/// ends the scoring with that error.
pub fn score_candidates<F: Fn(&Vec<u32>, &Vec<u32>) -> Result<u32, DomainError>>(
    candidates: Vec<ContextRecord>,
    embedding: &ContextEmbedding,
    similarity: &F,
) -> (r: Result<Vec<(ContextRecord, u32)>, DomainError>)
    requires
        measures_all(*similarity),
    ensures
        match r {
            Ok(scored) => scored_by(candidates@, embedding.vector, *similarity, scored@),
            Err(e) => exists|i: int| #[trigger]
                failed_at(candidates@, embedding.vector, *similarity, i, e),
        },
{
    let ghost all = candidates@;
    let mut rest = reversed(candidates);
    let mut scored: Vec<(ContextRecord, u32)> = Vec::new();
    while rest.len() > 0
        invariant
            measures_all(*similarity),
            all == candidates@,
            rest@.len() <= all.len(),
            forall|k: int| 0 <= k < rest@.len() ==> rest@[k] == all[all.len() - 1 - k],
            scored_by(
                all.subrange(0, all.len() - rest@.len()),
                embedding.vector,
                *similarity,
                scored@,
            ),
        decreases rest.len(),
    {
        let ghost done = all.len() - rest@.len();
        let ghost before = scored@;
        let record = rest.pop().unwrap();
        proof {
            assert(record == all[done]);
            assert forall|k: int| 0 <= k < done implies pair_rejection(
                embedding.vector@,
                (#[trigger] all[k]).embedding.vector@,
            ) is None by {
                assert(all.subrange(0, done)[k] == all[k]);
                assert(before[k].0 == all[k]);
            }
        }
        match check_pair(&embedding.vector, &record.embedding.vector) {
            Err(e) => {
                assert(failed_at(all, embedding.vector, *similarity, done, e));
                return Err(e);
            },
            Ok(_) => {},
        }
        match similarity(&embedding.vector, &record.embedding.vector) {
            Err(e) => {
                assert(failed_at(all, embedding.vector, *similarity, done, e));
                return Err(e);
            },
            Ok(score) => {
                scored.push((record, score));
                proof {
                    let next = all.subrange(0, done + 1);
                    assert forall|i: int| 0 <= i < next.len() implies {
                        &&& (#[trigger] scored@[i]).0 == next[i]
                        &&& pair_rejection(embedding.vector@, next[i].embedding.vector@) is None
                        &&& similarity.ensures(
                            (&embedding.vector, &next[i].embedding.vector),
                            Ok::<u32, DomainError>(scored@[i].1),
                        )
                    } by {
                        if i < done {
                            assert(scored@[i] == before[i]);
                            assert(next[i] == all.subrange(0, done)[i]);
                        }
                    }
                }
            },
        }
    }
    proof {
        assert(all.subrange(0, all.len() as int) =~= all);
    }
    Ok(scored)
}

/// Ranks scored records: the best `limit`, best first, equal scores in the
/// order given.
pub fn rank_scored(scored: Vec<(ContextRecord, u32)>, limit: usize) -> (out: Vec<
    (ContextRecord, u32),
>)
    ensures
        out@ == ranked(scored@, rank_of::<(ContextRecord, u32)>(), limit as nat),
        out@.len() <= limit,
        descending(out@, rank_of::<(ContextRecord, u32)>()),
        forall|i: int| 0 <= i < out@.len() ==> scored@.contains(#[trigger] out@[i]),
{
    proof {
        lemma_ranked(scored@, rank_of::<(ContextRecord, u32)>(), limit as nat);
    }
    top_ranked(scored, limit)
}

/// The similarity search of the embedded engine over the records it holds:
/// the records that pass the filters are scored against the query, ranked
/// by descending score and cut to `limit`.
///
/// The result never holds more than `limit` entries, is sorted by
/// descending score, and holds only records that pass the filters. It is
/// the ranking of the matching records under the scores that the
/// similarity measure gave. An error comes from the first matching record
/// that cannot be scored: an embedding error where its vector has another
/// length than the query or one of the two is the zero vector, else the
/// error of the similarity measure.
pub fn search_records<F: Fn(&Vec<u32>, &Vec<u32>) -> Result<u32, DomainError>>(
    records: Vec<ContextRecord>,
    embedding: &ContextEmbedding,
    limit: usize,
    filters: &QueryFilters,
    similarity: &F,
) -> (r: Result<Vec<(ContextRecord, u32)>, DomainError>)
    requires
        measures_all(*similarity),
    ensures
        match r {
            Ok(out) => {
                &&& out@.len() <= limit
                &&& descending(out@, rank_of::<(ContextRecord, u32)>())
                &&& forall|i: int|
                    0 <= i < out@.len() ==> record_matches((#[trigger] out@[i]).0@, filters@)
                        && records@.contains(out@[i].0)
                &&& exists|scored: Seq<(ContextRecord, u32)>|
                    {
                        &&& scored_by(
                            matching(records@, filters@),
                            embedding.vector,
                            *similarity,
                            scored,
                        )
                        &&& out@ == #[trigger] ranked(
                            scored,
                            rank_of::<(ContextRecord, u32)>(),
                            limit as nat,
                        )
                    }
            },
            Err(e) => exists|i: int| #[trigger]
                failed_at(matching(records@, filters@), embedding.vector, *similarity, i, e),
        },
{
    let ghost given = records@;
    let candidates = select_matching(records, filters);
    let ghost kept = candidates@;
    match score_candidates(candidates, embedding, similarity) {
        Err(e) => Err(e),
        Ok(scored) => {
            let ghost pairs = scored@;
            let out = rank_scored(scored, limit);
            proof {
                lemma_matching(given, filters@);
                assert forall|i: int| 0 <= i < out@.len() implies record_matches(
                    (#[trigger] out@[i]).0@,
                    filters@,
                ) && given.contains(out@[i].0) by {
                    assert(pairs.contains(out@[i]));
                    let k = choose|k: int| 0 <= k < pairs.len() && pairs[k] == out@[i];
                    assert(pairs[k].0 == kept[k]);
                }
            }
            Ok(out)
        },
    }
}

/// The records of one project, or all records where no project is named,
/// in the order given.
pub open spec fn in_project(records: Seq<RecordView>, project: Option<Seq<char>>) -> Seq<
    RecordView,
>
    decreases records.len(),
{
    if records.len() == 0 {
        Seq::empty()
    } else if project is Some && records.last().project != project->0 {
        in_project(records.drop_last(), project)
    } else {
        in_project(records.drop_last(), project).push(records.last())
    }
}

/// The key by which listings are ordered: the creation time.
pub open spec fn by_creation() -> spec_fn(SummaryView) -> int {
    |s: SummaryView| s.created_at.order_key()
}

/// The listing of the most recent summaries: those of the records of the
/// project, latest first, equal times in scan order, cut to `limit`.
pub open spec fn recent_of(records: Seq<RecordView>, project: Option<Seq<char>>, limit: nat)
    -> Seq<SummaryView> {
    ranked(
        in_project(records, project).map_values(|r: RecordView| summary_of(r)),
        by_creation(),
        limit,
    )
}

/// What a listing promises: never more than `limit` entries, latest first,
/// and with a project named only summaries of that project, each the
/// summary of a record given.
pub proof fn lemma_recent_of(records: Seq<RecordView>, project: Option<Seq<char>>, limit: nat)
    ensures
        recent_of(records, project, limit).len() <= limit,
        recent_of(records, project, limit).len() <= records.len(),
        descending(recent_of(records, project, limit), by_creation()),
        forall|i: int|
            0 <= i < recent_of(records, project, limit).len() ==> {
                &&& project is Some ==> (#[trigger] recent_of(records, project, limit)[i]).project
                    == project->0
                &&& exists|j: int|
                    0 <= j < records.len() && recent_of(records, project, limit)[i] == summary_of(
                        records[j],
                    )
            },
{
    let kept = in_project(records, project);
    let summaries = kept.map_values(|r: RecordView| summary_of(r));
    lemma_in_project(records, project);
    lemma_ranked(summaries, by_creation(), limit);
    let out = recent_of(records, project, limit);
    assert forall|i: int| 0 <= i < out.len() implies {
        &&& project is Some ==> (#[trigger] out[i]).project == project->0
        &&& exists|j: int| 0 <= j < records.len() && out[i] == summary_of(records[j])
    } by {
        assert(summaries.contains(out[i]));
        let k = choose|k: int| 0 <= k < summaries.len() && summaries[k] == out[i];
        assert(summaries[k] == summary_of(kept[k]));
        assert(records.contains(kept[k]));
        let j = choose|j: int| 0 <= j < records.len() && records[j] == kept[k];
        assert(out[i] == summary_of(records[j]));
    }
}

proof fn lemma_in_project(records: Seq<RecordView>, project: Option<Seq<char>>)
    ensures
        in_project(records, project).len() <= records.len(),
        forall|i: int|
            0 <= i < in_project(records, project).len() ==> records.contains(
                #[trigger] in_project(records, project)[i],
            ) && (project is Some ==> in_project(records, project)[i].project == project->0),
    decreases records.len(),
{
    if records.len() > 0 {
        let init = records.drop_last();
        lemma_in_project(init, project);
        let before = in_project(init, project);
        let kept = in_project(records, project);
        assert forall|i: int| 0 <= i < kept.len() implies records.contains(#[trigger] kept[i]) && (
        project is Some ==> kept[i].project == project->0) by {
            if i < before.len() {
                assert(kept[i] == before[i]);
                let k = choose|k: int| 0 <= k < init.len() && init[k] == before[i];
                assert(records[k] == kept[i]);
            } else {
                assert(records[records.len() - 1] == kept[i]);
            }
        }
    }
}

/// Lists the most recent summaries of the scanned records, of one project
/// or of all.
pub fn recent_summaries(records: &Vec<ContextRecord>, project: Option<&str>, limit: usize) -> (out:
    Vec<ContextSummary>)
    ensures
        out.deep_view() == recent_of(
            records.deep_view(),
            match project {
                Some(p) => Some(p@),
                None => None,
            },
            limit as nat,
        ),
        out@.len() <= limit,
        descending(out.deep_view(), by_creation()),
        forall|i: int|
            0 <= i < out@.len() ==> {
                &&& project is Some ==> (#[trigger] out@[i])@.project == project->0@
                &&& exists|j: int| 0 <= j < records@.len() && out@[i]@ == summary_of(records@[j]@)
            },
{
    let ghost wanted: Option<Seq<char>> = match project {
        Some(p) => Some(p@),
        None => None,
    };
    let ghost views = records.deep_view();
    let mut items: Vec<ContextSummary> = Vec::new();
    let mut i: usize = 0;
    proof {
        assert(views.subrange(0, 0) =~= Seq::<RecordView>::empty());
        assert(items.deep_view() =~= in_project(views.subrange(0, 0), wanted).map_values(
            |r: RecordView| summary_of(r),
        ));
    }
    while i < records.len()
        invariant
            i <= records.len(),
            views == records.deep_view(),
            wanted == match project {
                Some(p) => Some(p@),
                None => None,
            },
            items.deep_view() == in_project(views.subrange(0, i as int), wanted).map_values(
                |r: RecordView| summary_of(r),
            ),
        decreases records.len() - i,
    {
        let record = &records[i];
        let wanted_here = match project {
            Some(p) => same_text(record.project.as_str(), p),
            None => true,
        };
        proof {
            let next = views.subrange(0, i + 1);
            assert(next.drop_last() =~= views.subrange(0, i as int));
            assert(next.last() == record@);
        }
        let ghost before = items.deep_view();
        if wanted_here {
            let summary = record.as_summary();
            items.push(summary);
            assert(items.deep_view() =~= before.push(summary_of(record@)));
            assert(in_project(views.subrange(0, i + 1), wanted).map_values(
                |r: RecordView| summary_of(r),
            ) =~= before.push(summary_of(record@)));
        }
        i += 1;
    }
    let ghost summaries = items@;
    let out = top_ranked(items, limit);
    proof {
        assert(views.subrange(0, records.len() as int) =~= views);
        let f = |s: ContextSummary| s@;
        assert(items.deep_view() =~= summaries.map_values(f));
        assert forall|s: ContextSummary| by_creation()(f(s)) == #[trigger] rank_of::<
            ContextSummary,
        >()(s) by {}
        lemma_ranked_map(summaries, f, rank_of::<ContextSummary>(), by_creation(), limit as nat);
        assert(out.deep_view() =~= out@.map_values(f));
        lemma_ranked(summaries, rank_of::<ContextSummary>(), limit as nat);
        lemma_recent_of(views, wanted, limit as nat);
        assert forall|i: int| 0 <= i < out@.len() implies {
            &&& project is Some ==> (#[trigger] out@[i])@.project == project->0@
            &&& exists|j: int| 0 <= j < records@.len() && out@[i]@ == summary_of(records@[j]@)
        } by {
            let listed = recent_of(views, wanted, limit as nat);
            assert(listed[i] == out@[i]@);
            let j = choose|j: int| 0 <= j < views.len() && listed[i] == summary_of(views[j]);
            assert(views[j] == records@[j]@);
        }
    }
    out
}

/// The list is in strictly ascending order of `str`.
pub open spec fn strictly_ascending(names: Seq<Seq<char>>) -> bool {
    forall|i: int, j: int| 0 <= i < j < names.len() ==> text_before(names[i], names[j])
}

/// The projects of the records, in scan order and with repetitions.
pub open spec fn projects_of(records: Seq<RecordView>) -> Seq<Seq<char>> {
    records.map_values(|r: RecordView| r.project)
}

/// A list in strictly ascending order holds nothing twice.
pub proof fn lemma_ascending_distinct(names: Seq<Seq<char>>)
    requires
        strictly_ascending(names),
    ensures
        forall|i: int, j: int| 0 <= i < j < names.len() ==> names[i] != names[j],
{
    assert forall|i: int, j: int| 0 <= i < j < names.len() implies names[i] != names[j] by {
        lemma_text_before_irreflexive(names[i]);
    }
}

/// Collects the projects of the scanned records: each project once, in
/// ascending order of `str`, and nothing else.
pub fn distinct_projects(records: &Vec<ContextRecord>) -> (out: Vec<String>)
    ensures
        strictly_ascending(texts(out@)),
        forall|name: Seq<char>|
            texts(out@).contains(name) <==> projects_of(records.deep_view()).contains(name),
        forall|i: int, j: int| 0 <= i < j < out@.len() ==> out@[i]@ != out@[j]@,
{
    let mut out: Vec<String> = Vec::new();
    let mut i: usize = 0;
    let ghost all = projects_of(records.deep_view());
    while i < records.len()
        invariant
            i <= records.len(),
            all == projects_of(records.deep_view()),
            strictly_ascending(texts(out@)),
            forall|name: Seq<char>|
                texts(out@).contains(name) <==> all.subrange(0, i as int).contains(name),
        decreases records.len() - i,
    {
        let project = &records[i].project;
        let ghost name = project@;
        let ghost before = texts(out@);
        assert(all[i as int] == name);
        let mut p: usize = 0;
        while p < out.len() && precedes(out[p].as_str(), project.as_str())
            invariant
                p <= out@.len(),
                before == texts(out@),
                name == project@,
                forall|k: int| 0 <= k < p ==> text_before(#[trigger] before[k], name),
            decreases out@.len() - p,
        {
            assert(before[p as int] == out@[p as int]@);
            p += 1;
        }
        let present = p < out.len() && same_text(out[p].as_str(), project.as_str());
        proof {
            if p < out.len() {
                assert(before[p as int] == out@[p as int]@);
            }
        }
        if !present {
            out.insert(p, project.clone());
            proof {
                let after = texts(out@);
                assert(after =~= before.insert(p as int, name));
                assert forall|a: int, b: int| 0 <= a < b < after.len() implies text_before(
                    after[a],
                    after[b],
                ) by {
                    if b < p {
                        assert(after[a] == before[a] && after[b] == before[b]);
                    } else if b == p {
                        assert(after[a] == before[a]);
                    } else if a == p {
                        assert(after[b] == before[b - 1]);
                        lemma_text_before_total(before[p as int], name);
                        if b - 1 > p {
                            lemma_text_before_transitive(name, before[p as int], before[b - 1]);
                        }
                    } else if a < p {
                        assert(after[a] == before[a] && after[b] == before[b - 1]);
                    } else {
                        assert(after[a] == before[a - 1] && after[b] == before[b - 1]);
                    }
                }
                assert forall|t: Seq<char>| after.contains(t) <==> all.subrange(
                    0,
                    i + 1,
                ).contains(t) by {
                    let next = all.subrange(0, i + 1);
                    let prev = all.subrange(0, i as int);
                    if after.contains(t) {
                        let k = choose|k: int| 0 <= k < after.len() && after[k] == t;
                        if k == p {
                            assert(next[i as int] == t);
                        } else {
                            let k0 = if k < p {
                                k
                            } else {
                                k - 1
                            };
                            assert(before[k0] == t);
                            assert(before.contains(t));
                            assert(prev.contains(t));
                            let m = choose|m: int| 0 <= m < prev.len() && prev[m] == t;
                            assert(next[m] == t);
                        }
                    }
                    if next.contains(t) {
                        let m = choose|m: int| 0 <= m < next.len() && next[m] == t;
                        if m == i {
                            assert(after[p as int] == t);
                        } else {
                            assert(prev[m] == t);
                            assert(prev.contains(t));
                            assert(before.contains(t));
                            let k = choose|k: int| 0 <= k < before.len() && before[k] == t;
                            let k1 = if k < p {
                                k
                            } else {
                                k + 1
                            };
                            assert(after[k1] == t);
                        }
                    }
                }
            }
        } else {
            proof {
                assert forall|t: Seq<char>| before.contains(t) <==> all.subrange(
                    0,
                    i + 1,
                ).contains(t) by {
                    let next = all.subrange(0, i + 1);
                    let prev = all.subrange(0, i as int);
                    if before.contains(t) {
                        assert(prev.contains(t));
                        let m = choose|m: int| 0 <= m < prev.len() && prev[m] == t;
                        assert(next[m] == t);
                    }
                    if next.contains(t) {
                        let m = choose|m: int| 0 <= m < next.len() && next[m] == t;
                        if m == i {
                            assert(before[p as int] == t);
                        } else {
                            assert(prev[m] == t);
                            assert(prev.contains(t));
                        }
                    }
                }
            }
        }
        i += 1;
    }
    proof {
        assert(all.subrange(0, records.len() as int) =~= all);
        lemma_ascending_distinct(texts(out@));
        assert forall|a: int, b: int| 0 <= a < b < out@.len() implies out@[a]@ != out@[b]@ by {
            assert(texts(out@)[a] == out@[a]@ && texts(out@)[b] == out@[b]@);
        }
    }
    out
}

/// The identifier of a record.
pub open spec fn record_id() -> spec_fn(ContextRecord) -> u128 {
    |r: ContextRecord| r.id
}

/// The identifier of the record of a hit.
pub open spec fn hit_id() -> spec_fn((ContextRecord, u32)) -> u128 {
    |h: (ContextRecord, u32)| h.0.id
}

/// The identifier of a record, read off its model.
pub open spec fn stored_id() -> spec_fn(RecordView) -> u128 {
    |r: RecordView| r.id
}

/// The identifier of a summary.
pub open spec fn summary_id() -> spec_fn(SummaryView) -> u128 {
    |s: SummaryView| s.id
}

proof fn lemma_matching_apart(records: Seq<ContextRecord>, filters: FiltersView)
    requires
        apart(records, record_id()),
    ensures
        apart(matching(records, filters), record_id()),
    decreases records.len(),
{
    if records.len() > 0 {
        let init = records.drop_last();
        assert(apart(init, record_id())) by {
            assert forall|i: int, j: int| 0 <= i < j < init.len() implies record_id()(
                #[trigger] init[i],
            ) != record_id()(#[trigger] init[j]) by {
                assert(init[i] == records[i] && init[j] == records[j]);
            }
        }
        lemma_matching_apart(init, filters);
        lemma_matching(init, filters);
        let before = matching(init, filters);
        let kept = matching(records, filters);
        assert forall|i: int, j: int| 0 <= i < j < kept.len() implies record_id()(
            #[trigger] kept[i],
        ) != record_id()(#[trigger] kept[j]) by {
            if j < before.len() {
                assert(kept[i] == before[i] && kept[j] == before[j]);
            } else {
                assert(kept[i] == before[i]);
                assert(init.contains(before[i]));
                let k = choose|k: int| 0 <= k < init.len() && init[k] == before[i];
                assert(records[k] == before[i]);
                assert(kept[j] == records[records.len() - 1]);
            }
        }
    }
}

/// How many hits a search yields, and that they are of different records:
/// with `scored` the matching records in order, each with a score, the
/// ranking holds `limit` hits, or one for each matching record if those
/// are fewer; and where no two of the records share an identifier, no two
/// of the hits do.
pub proof fn lemma_search_hits(
    records: Seq<ContextRecord>,
    filters: FiltersView,
    scored: Seq<(ContextRecord, u32)>,
    limit: nat,
)
    requires
        scored.len() == matching(records, filters).len(),
        forall|i: int|
            0 <= i < scored.len() ==> (#[trigger] scored[i]).0 == matching(records, filters)[i],
    ensures
        ranked(scored, rank_of::<(ContextRecord, u32)>(), limit).len() == if limit < matching(
            records,
            filters,
        ).len() {
            limit
        } else {
            matching(records, filters).len()
        },
        apart(records, record_id()) ==> apart(
            ranked(scored, rank_of::<(ContextRecord, u32)>(), limit),
            hit_id(),
        ),
{
    lemma_ranked(scored, rank_of::<(ContextRecord, u32)>(), limit);
    if apart(records, record_id()) {
        lemma_matching_apart(records, filters);
        let kept = matching(records, filters);
        assert forall|i: int, j: int| 0 <= i < j < scored.len() implies hit_id()(
            #[trigger] scored[i],
        ) != hit_id()(#[trigger] scored[j]) by {
            assert(record_id()(kept[i]) != record_id()(kept[j]));
        }
        lemma_ranked_apart(scored, rank_of::<(ContextRecord, u32)>(), hit_id(), limit);
    }
}

proof fn lemma_in_project_apart(records: Seq<RecordView>, project: Option<Seq<char>>)
    requires
        apart(records, stored_id()),
    ensures
        apart(in_project(records, project), stored_id()),
    decreases records.len(),
{
    if records.len() > 0 {
        let init = records.drop_last();
        assert(apart(init, stored_id())) by {
            assert forall|i: int, j: int| 0 <= i < j < init.len() implies stored_id()(
                #[trigger] init[i],
            ) != stored_id()(#[trigger] init[j]) by {
                assert(init[i] == records[i] && init[j] == records[j]);
            }
        }
        lemma_in_project_apart(init, project);
        lemma_in_project(init, project);
        let before = in_project(init, project);
        let kept = in_project(records, project);
        assert forall|i: int, j: int| 0 <= i < j < kept.len() implies stored_id()(
            #[trigger] kept[i],
        ) != stored_id()(#[trigger] kept[j]) by {
            if j < before.len() {
                assert(kept[i] == before[i] && kept[j] == before[j]);
            } else {
                assert(kept[i] == before[i]);
                assert(init.contains(before[i]));
                let k = choose|k: int| 0 <= k < init.len() && init[k] == before[i];
                assert(records[k] == before[i]);
                assert(kept[j] == records[records.len() - 1]);
            }
        }
    }
}

/// How many summaries a listing holds, and that they are of different
/// records: `limit`, or one for each record of the project if those are
/// fewer; and where no two of the records share an identifier, no two of
/// the summaries do.
pub proof fn lemma_recent_count(records: Seq<RecordView>, project: Option<Seq<char>>, limit: nat)
    ensures
        recent_of(records, project, limit).len() == if limit < in_project(records, project).len() {
            limit
        } else {
            in_project(records, project).len()
        },
        apart(records, stored_id()) ==> apart(recent_of(records, project, limit), summary_id()),
{
    let kept = in_project(records, project);
    let summaries = kept.map_values(|r: RecordView| summary_of(r));
    lemma_ranked(summaries, by_creation(), limit);
    if apart(records, stored_id()) {
        lemma_in_project_apart(records, project);
        assert forall|i: int, j: int| 0 <= i < j < summaries.len() implies summary_id()(
            #[trigger] summaries[i],
        ) != summary_id()(#[trigger] summaries[j]) by {
            assert(stored_id()(kept[i]) != stored_id()(kept[j]));
        }
        lemma_ranked_apart(summaries, by_creation(), summary_id(), limit);
    }
}

} // verus!
