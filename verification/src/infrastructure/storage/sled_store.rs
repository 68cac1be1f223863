//! The embedded engine as a store: what each storage call makes of what the
//! tree on disk gave. Opening, reading and writing the tree is the caller's
//! business.

use crate::domain::errors::{error_of, DomainError, ErrorKind, ErrorView};
use crate::domain::models::{
    record_matches, summary_of, ContextEmbedding, ContextRecord, ContextSummary, FiltersView,
    QueryFilters,
};
use crate::infrastructure::storage::engine::{
    by_creation, distinct_projects, engine_failure, failed_at, hit_id, in_project,
    lemma_recent_count, lemma_search_hits, matching, measures_all, projects_of, recent_of,
    recent_summaries, record_id, score_candidates, scored_by, search_records, select_matching,
    step_prefix, stored_id, strictly_ascending, summary_id, EngineStep,
};
use crate::ranking::{apart, descending, rank_of, ranked};
use crate::text::texts;
use vstd::prelude::*;

verus! {

/// A step of the engine that failed, with the engine's words for it.
#[derive(Debug)]
pub struct StepFailure {
    /// The step that failed.
    pub step: EngineStep,
    /// What the engine said.
    pub detail: String,
}

impl StepFailure {
    /// The storage error that reports the failure.
    pub open spec fn error(&self) -> ErrorView {
        error_of(ErrorKind::Storage, step_prefix(self.step) + self.detail@)
    }

    /// The storage error that reports the failure.
    pub fn to_error(&self) -> (e: DomainError)
        ensures
            e@ == self.error(),
    {
        engine_failure(self.step, self.detail.as_str())
    }
}

/// What a scan of the tree read: the records in key order, up to the end
/// of the tree or to the first entry that could not be read or decoded.
#[derive(Debug)]
pub struct Scan {
    /// The records read, in key order.
    pub records: Vec<ContextRecord>,
    /// The failure that ended the scan, if one did.
    pub failure: Option<StepFailure>,
}

/// `count`, or `limit` where that is less.
pub open spec fn capped(count: nat, limit: nat) -> nat {
    if limit < count {
        limit
    } else {
        count
    }
}

/// What a search makes of a scan. A result is owed only by a scan that
/// reached the end of the tree: it holds `limit` entries, or one for each
/// record that passes the filters if those are fewer, best first, each a
/// record of the scan that passes the filters, and is the ranking of all
/// such records under the scores that the similarity measure gave. Where
/// no two records of the scan share an identifier, no two entries do. An
/// error is that of the first matching record that could not be scored or,
/// where all that were read could be, the failure that ended the scan.
pub open spec fn search_outcome<F: Fn(&Vec<u32>, &Vec<u32>) -> Result<u32, DomainError>>(
    scan: Scan,
    query: Vec<u32>,
    limit: nat,
    filters: FiltersView,
    similarity: F,
    r: Result<Vec<(ContextRecord, u32)>, DomainError>,
) -> bool {
    match r {
        Ok(out) => {
            &&& scan.failure is None
            &&& out@.len() <= limit
            &&& out@.len() == capped(matching(scan.records@, filters).len(), limit)
            &&& descending(out@, rank_of::<(ContextRecord, u32)>())
            &&& forall|i: int|
                0 <= i < out@.len() ==> record_matches((#[trigger] out@[i]).0@, filters)
                    && scan.records@.contains(out@[i].0)
            &&& apart(scan.records@, record_id()) ==> apart(out@, hit_id())
            &&& exists|scored: Seq<(ContextRecord, u32)>|
                {
                    &&& scored_by(matching(scan.records@, filters), query, similarity, scored)
                    &&& out@ == #[trigger] ranked(
                        scored,
                        rank_of::<(ContextRecord, u32)>(),
                        limit,
                    )
                }
        },
        Err(e) => {
            ||| exists|i: int| #[trigger]
                failed_at(matching(scan.records@, filters), query, similarity, i, e)
            ||| {
                &&& scan.failure is Some
                &&& e@ == scan.failure->0.error()
                &&& exists|scored: Seq<(ContextRecord, u32)>| #[trigger]
                    scored_by(matching(scan.records@, filters), query, similarity, scored)
            }
        },
    }
}

/// The embedded store: one tree of records under a data directory.
#[derive(Debug)]
pub struct SledVectorStore {
    data_dir: String,
}

impl SledVectorStore {
    /// The directory that holds the database.
    pub closed spec fn data_dir(&self) -> Seq<char> {
        self.data_dir@
    }

    /// The directory that holds the database.
    pub fn directory(&self) -> (dir: &str)
        ensures
            dir@ == self.data_dir(),
    {
        self.data_dir.as_str()
    }

    /// The store over the database under `data_dir`, given how creating the
    /// directory and opening the database and its tree went.
    pub fn open(data_dir: &str, opened: Result<(), StepFailure>) -> (r: Result<Self, DomainError>)
        ensures
            match opened {
                Ok(_) => r matches Ok(store) && store.data_dir() == data_dir@,
                Err(failure) => r matches Err(e) && e@ == failure.error(),
            },
    {
        match opened {
            Ok(_) => Ok(SledVectorStore { data_dir: data_dir.to_owned() }),
            Err(failure) => Err(failure.to_error()),
        }
    }

    /// Saving a record: done, or refused with the step that failed.
    pub fn persist(&self, written: Result<(), StepFailure>) -> (r: Result<(), DomainError>)
        ensures
            match written {
                Ok(_) => r is Ok,
                Err(failure) => r matches Err(e) && e@ == failure.error(),
            },
    {
        match written {
            Ok(_) => Ok(()),
            Err(failure) => Err(failure.to_error()),
        }
    }

    /// The similarity search over what a scan read.
    pub fn search<F: Fn(&Vec<u32>, &Vec<u32>) -> Result<u32, DomainError>>(
        &self,
        scan: Scan,
        embedding: &ContextEmbedding,
        limit: usize,
        filters: &QueryFilters,
        similarity: &F,
    ) -> (r: Result<Vec<(ContextRecord, u32)>, DomainError>)
        requires
            measures_all(*similarity),
        ensures
            search_outcome(scan, embedding.vector, limit as nat, filters@, *similarity, r),
    {
        let Scan { records, failure } = scan;
        match failure {
            None => {
                let found = search_records(records, embedding, limit, filters, similarity);
                proof {
                    if found is Ok {
                        let out = found->Ok_0;
                        let scored = choose|scored: Seq<(ContextRecord, u32)>|
                            {
                                &&& scored_by(
                                    matching(scan.records@, filters@),
                                    embedding.vector,
                                    *similarity,
                                    scored,
                                )
                                &&& out@ == #[trigger] ranked(
                                    scored,
                                    rank_of::<(ContextRecord, u32)>(),
                                    limit as nat,
                                )
                            };
                        lemma_search_hits(scan.records@, filters@, scored, limit as nat);
                    }
                }
                found
            },
            Some(failure) => {
                let candidates = select_matching(records, filters);
                match score_candidates(candidates, embedding, similarity) {
                    Err(e) => Err(e),
                    Ok(scored) => {
                        assert(scored_by(
                            matching(scan.records@, filters@),
                            embedding.vector,
                            *similarity,
                            scored@,
                        ));
                        Err(failure.to_error())
                    },
                }
            },
        }
    }

    /// The listing of the most recent summaries over what a scan read: of
    /// one project or of all, latest first, `limit` of them or one for each
    /// record of the project if those are fewer. Where no two records of
    /// the scan share an identifier, no two summaries do.
    pub fn recent(&self, scan: Scan, project: Option<&str>, limit: usize) -> (r: Result<
        Vec<ContextSummary>,
        DomainError,
    >)
        ensures
            match scan.failure {
                Some(failure) => r matches Err(e) && e@ == failure.error(),
                None => r matches Ok(out) && {
                    &&& out.deep_view() == recent_of(
                        scan.records.deep_view(),
                        match project {
                            Some(p) => Some(p@),
                            None => None,
                        },
                        limit as nat,
                    )
                    &&& out@.len() <= limit
                    &&& out@.len() == capped(
                        in_project(
                            scan.records.deep_view(),
                            match project {
                                Some(p) => Some(p@),
                                None => None,
                            },
                        ).len(),
                        limit as nat,
                    )
                    &&& apart(scan.records.deep_view(), stored_id()) ==> apart(
                        out.deep_view(),
                        summary_id(),
                    )
                    &&& descending(out.deep_view(), by_creation())
                    &&& forall|i: int|
                        0 <= i < out@.len() ==> {
                            &&& project is Some ==> (#[trigger] out@[i])@.project == project->0@
                            &&& exists|j: int|
                                0 <= j < scan.records@.len() && out@[i]@ == summary_of(
                                    scan.records@[j]@,
                                )
                        }
                },
            },
    {
        match &scan.failure {
            Some(failure) => Err(failure.to_error()),
            None => {
                let out = recent_summaries(&scan.records, project, limit);
                proof {
                    lemma_recent_count(
                        scan.records.deep_view(),
                        match project {
                            Some(p) => Some(p@),
                            None => None,
                        },
                        limit as nat,
                    );
                    assert(out.deep_view().len() == out@.len());
                }
                Ok(out)
            },
        }
    }

    /// The projects of the records that a scan read: each once, in
    /// ascending order of `str`, and nothing else; none where the scan
    /// read no record.
    pub fn projects(&self, scan: Scan) -> (r: Result<Vec<String>, DomainError>)
        ensures
            match scan.failure {
                Some(failure) => r matches Err(e) && e@ == failure.error(),
                None => r matches Ok(out) && {
                    &&& strictly_ascending(texts(out@))
                    &&& forall|name: Seq<char>|
                        texts(out@).contains(name) <==> projects_of(
                            scan.records.deep_view(),
                        ).contains(name)
                    &&& forall|i: int, j: int| 0 <= i < j < out@.len() ==> out@[i]@ != out@[j]@
                    &&& scan.records@.len() == 0 ==> out@.len() == 0
                },
            },
    {
        match &scan.failure {
            Some(failure) => Err(failure.to_error()),
            None => {
                let out = distinct_projects(&scan.records);
                proof {
                    if scan.records@.len() == 0 && out@.len() > 0 {
                        assert(texts(out@)[0] == out@[0]@);
                        assert(texts(out@).contains(out@[0]@));
                        assert(projects_of(scan.records.deep_view()).len() == 0);
                    }
                }
                Ok(out)
            },
        }
    }

    /// The health probe: the database flushed, or the storage error that
    /// says why it could not be.
    pub fn ping(&self, flushed: Result<(), String>) -> (r: Result<(), DomainError>)
        ensures
            match flushed {
                Ok(_) => r is Ok,
                Err(detail) => r matches Err(e) && e@ == error_of(
                    ErrorKind::Storage,
                    step_prefix(EngineStep::FlushDatabase) + detail@,
                ),
            },
    {
        match flushed {
            Ok(_) => Ok(()),
            Err(detail) => Err(engine_failure(EngineStep::FlushDatabase, detail.as_str())),
        }
    }
}

} // verus!
