//! The asynchronous export manager: a job table whose entries move through
//! `Queued`, `Running` and the terminal `Succeeded`/`Failed` states, never
//! backwards, and expire together with their result link.
//!
//! Submission only records the job and hands back its identifier; running
//! the snapshot against the record store happens out-of-band, and its
//! outcome is recorded on the job rather than surfaced to the submitter.
//! Polling reads one record and is a pure function of the table, so
//! repeated polls of a terminal job answer the same result.

use vstd::prelude::*;
use crate::error::CoreError;
use crate::input::DataTableInput;
use crate::model::AdminRecord;
use crate::query::{preds_view, Predicate};
use crate::rows::{spec_filter, spec_in_order};
use crate::input::SortDirection;

verus! {

/// Lifecycle state of an export job.
#[derive(Debug, Clone, Copy, PartialEq, Eq)]
pub enum ExportStatus {
    /// Recorded, not started.
    Queued,
    /// Being materialised.
    Running,
    /// Finished; the result reference is retrievable until expiry.
    Succeeded,
    /// Finished without a result; the reason is recorded on the job.
    Failed,
}

/// Position of a status in the lifecycle; transitions never decrease it.
pub open spec fn spec_rank(s: ExportStatus) -> int {
    match s {
        ExportStatus::Queued => 0,
        ExportStatus::Running => 1,
        ExportStatus::Succeeded => 2,
        ExportStatus::Failed => 2,
    }
}

/// A terminal job never changes again.
pub open spec fn spec_terminal(s: ExportStatus) -> bool {
    s is Succeeded || s is Failed
}

/// One export job: the snapshot it runs, its state, and its expiry.
#[derive(Debug)]
pub struct ExportJob {
    /// Identifier handed to the submitter.
    pub id: u64,
    /// Registry name of the contract the snapshot belongs to.
    pub scope_key: String,
    /// The generic input captured at submission.
    pub input: DataTableInput,
    /// Lifecycle state.
    pub status: ExportStatus,
    /// Storage reference of the artifact, once succeeded.
    pub result_ref: Option<String>,
    /// Why the job failed, once failed.
    pub fail_reason: Option<String>,
    /// Submission time, seconds since the Unix epoch.
    pub created_at: i64,
    /// When the job record and its artifact stop being retrievable.
    pub expires_at: i64,
}

/// Index of the job with `id`, if any.
pub open spec fn spec_find_job(jobs: Seq<ExportJob>, id: u64) -> Option<int>
    decreases jobs.len(),
{
    if jobs.len() == 0 {
        None
    } else if jobs[0].id == id {
        Some(0)
    } else {
        match spec_find_job(jobs.drop_first(), id) {
            Some(i) => Some(i + 1),
            None => None,
        }
    }
}

/// The job table. Identifiers are assigned from a private counter, so each
/// submission gets a fresh one.
#[derive(Debug)]
pub struct AsyncExportManager {
    jobs: Vec<ExportJob>,
    next_id: u64,
}

impl View for AsyncExportManager {
    type V = Seq<ExportJob>;

    closed spec fn view(&self) -> Seq<ExportJob> {
        self.jobs@
    }
}

impl AsyncExportManager {
    /// The identifier the next submission will get.
    pub closed spec fn spec_next_id(self) -> u64 {
        self.next_id
    }

    /// Identifiers are unique and below the counter.
    pub open spec fn wf(self) -> bool {
        &&& forall|i: int, j: int| 0 <= i < j < self@.len() ==> self@[i].id != self@[j].id
        &&& forall|i: int| 0 <= i < self@.len() ==> (#[trigger] self@[i].id) < self.spec_next_id()
    }

    /// An empty job table.
    pub fn new() -> (r: AsyncExportManager)
        ensures
            r@ =~= Seq::<ExportJob>::empty(),
            r.wf(),
            r.spec_next_id() == 0,
    {
        AsyncExportManager { jobs: Vec::new(), next_id: 0 }
    }

    /// The identifier the next submission will get.
    pub fn next_id(&self) -> (r: u64)
        ensures
            r == self.spec_next_id(),
    {
        self.next_id
    }

    /// Number of jobs, terminal ones included.
    pub fn len(&self) -> (r: usize)
        ensures
            r == self@.len(),
    {
        self.jobs.len()
    }

    fn find(&self, id: u64) -> (r: Option<usize>)
        ensures
            match r {
                Some(i) => spec_find_job(self@, id) == Some(i as int) && i < self@.len()
                    && self@[i as int].id == id,
                None => spec_find_job(self@, id) is None,
            },
    {
        let n = self.jobs.len();
        proof {
            assert(self.jobs@.subrange(0, n as int) =~= self.jobs@);
        }
        let mut i: usize = 0;
        while i < n
            invariant
                0 <= i <= n,
                n == self.jobs@.len(),
                match spec_find_job(self.jobs@.subrange(i as int, n as int), id) {
                    Some(k) => spec_find_job(self.jobs@, id) == Some(k + i),
                    None => spec_find_job(self.jobs@, id) is None,
                },
            decreases n - i,
        {
            proof {
                let cur = self.jobs@.subrange(i as int, n as int);
                assert(cur.drop_first() =~= self.jobs@.subrange(i as int + 1, n as int));
                assert(cur[0] == self.jobs@[i as int]);
            }
            if self.jobs[i].id == id {
                return Some(i);
            }
            i = i + 1;
        }
        proof {
            assert(self.jobs@.subrange(n as int, n as int) =~= Seq::<ExportJob>::empty());
        }
        None
    }

    /// Records a queued job for a captured snapshot and returns its fresh
    /// identifier. Submission never blocks on execution.
    pub fn submit(
        &mut self,
        scope_key: String,
        input: DataTableInput,
        now: i64,
        link_ttl_secs: i64,
    ) -> (id: u64)
        requires
            old(self).wf(),
            old(self).spec_next_id() < u64::MAX,
            0 <= now,
            0 <= link_ttl_secs,
            now + link_ttl_secs <= i64::MAX,
        ensures
            final(self).wf(),
            id == old(self).spec_next_id(),
            final(self).spec_next_id() == old(self).spec_next_id() + 1,
            final(self)@ == old(self)@.push(
                ExportJob {
                    id,
                    scope_key,
                    input,
                    status: ExportStatus::Queued,
                    result_ref: None,
                    fail_reason: None,
                    created_at: now,
                    expires_at: (now + link_ttl_secs) as i64,
                },
            ),
    {
        let id = self.next_id;
        self.next_id = self.next_id + 1;
        let expires_at = now + link_ttl_secs;
        self.jobs.push(
            ExportJob {
                id,
                scope_key,
                input,
                status: ExportStatus::Queued,
                result_ref: None,
                fail_reason: None,
                created_at: now,
                expires_at,
            },
        );
        id
    }

    /// Reads a job's state and, when it succeeded, its result reference.
    ///
    /// An unknown or expired job answers `NotFound`. Polling mutates
    /// nothing, so repeated polls of a terminal job answer the same.
    pub fn poll(&self, id: u64, now: i64) -> (r: Result<(ExportStatus, Option<String>), CoreError>)
        ensures
            match spec_find_job(self@, id) {
                None => r == Err::<(ExportStatus, Option<String>), CoreError>(CoreError::NotFound),
                Some(i) => {
                    if now > self@[i].expires_at {
                        r == Err::<(ExportStatus, Option<String>), CoreError>(CoreError::NotFound)
                    } else {
                        r matches Ok(out) && out.0 == self@[i].status && (match self@[i].result_ref {
                            Some(s) => out.1 matches Some(o) && o@ == s@,
                            None => out.1 is None,
                        })
                    }
                },
            },
    {
        let i = match self.find(id) {
            Some(i) => i,
            None => {
                return Err(CoreError::NotFound);
            },
        };
        if now > self.jobs[i].expires_at {
            return Err(CoreError::NotFound);
        }
        let result_ref = match &self.jobs[i].result_ref {
            Some(s) => Some(s.clone()),
            None => None,
        };
        Ok((self.jobs[i].status, result_ref))
    }

    /// Moves a queued job to `Running`. Any other state answers `Conflict`
    /// and changes nothing: a terminal job never changes again.
    pub fn mark_running(&mut self, id: u64) -> (r: Result<(), CoreError>)
        requires
            old(self).wf(),
        ensures
            final(self).wf(),
            final(self).spec_next_id() == old(self).spec_next_id(),
            match spec_find_job(old(self)@, id) {
                None => r == Err::<(), CoreError>(CoreError::NotFound) && final(self)@ == old(
                    self,
                )@,
                Some(i) => {
                    if old(self)@[i].status is Queued {
                        r == Ok::<(), CoreError>(()) && final(self)@ == old(self)@.update(
                            i,
                            ExportJob { status: ExportStatus::Running, ..old(self)@[i] },
                        )
                    } else {
                        r == Err::<(), CoreError>(CoreError::Conflict) && final(self)@ == old(
                            self,
                        )@
                    }
                },
            },
            rank_monotone(old(self)@, final(self)@),
    {
        let i = match self.find(id) {
            Some(i) => i,
            None => {
                return Err(CoreError::NotFound);
            },
        };
        if !matches!(self.jobs[i].status, ExportStatus::Queued) {
            return Err(CoreError::Conflict);
        }
        self.jobs[i].status = ExportStatus::Running;
        proof {
            assert(self@ =~= old(self)@.update(
                i as int,
                ExportJob { status: ExportStatus::Running, ..old(self)@[i as int] },
            ));
        }
        Ok(())
    }

    /// Completes a running job with its artifact reference. Any other
    /// state answers `Conflict` and changes nothing.
    pub fn complete(&mut self, id: u64, result_ref: String) -> (r: Result<(), CoreError>)
        requires
            old(self).wf(),
        ensures
            final(self).wf(),
            final(self).spec_next_id() == old(self).spec_next_id(),
            match spec_find_job(old(self)@, id) {
                None => r == Err::<(), CoreError>(CoreError::NotFound) && final(self)@ == old(
                    self,
                )@,
                Some(i) => {
                    if old(self)@[i].status is Running {
                        r == Ok::<(), CoreError>(()) && final(self)@ == old(self)@.update(
                            i,
                            ExportJob {
                                status: ExportStatus::Succeeded,
                                result_ref: Some(result_ref),
                                ..old(self)@[i]
                            },
                        )
                    } else {
                        r == Err::<(), CoreError>(CoreError::Conflict) && final(self)@ == old(
                            self,
                        )@
                    }
                },
            },
            rank_monotone(old(self)@, final(self)@),
    {
        let i = match self.find(id) {
            Some(i) => i,
            None => {
                return Err(CoreError::NotFound);
            },
        };
        if !matches!(self.jobs[i].status, ExportStatus::Running) {
            return Err(CoreError::Conflict);
        }
        self.jobs[i].status = ExportStatus::Succeeded;
        self.jobs[i].result_ref = Some(result_ref);
        proof {
            assert(self@ =~= old(self)@.update(
                i as int,
                ExportJob {
                    status: ExportStatus::Succeeded,
                    result_ref: Some(result_ref),
                    ..old(self)@[i as int]
                },
            ));
        }
        Ok(())
    }

    /// Fails a queued or running job, recording the reason. A terminal job
    /// answers `Conflict` and changes nothing.
    pub fn fail(&mut self, id: u64, reason: String) -> (r: Result<(), CoreError>)
        requires
            old(self).wf(),
        ensures
            final(self).wf(),
            final(self).spec_next_id() == old(self).spec_next_id(),
            match spec_find_job(old(self)@, id) {
                None => r == Err::<(), CoreError>(CoreError::NotFound) && final(self)@ == old(
                    self,
                )@,
                Some(i) => {
                    if old(self)@[i].status is Queued || old(self)@[i].status is Running {
                        r == Ok::<(), CoreError>(()) && final(self)@ == old(self)@.update(
                            i,
                            ExportJob {
                                status: ExportStatus::Failed,
                                fail_reason: Some(reason),
                                ..old(self)@[i]
                            },
                        )
                    } else {
                        r == Err::<(), CoreError>(CoreError::Conflict) && final(self)@ == old(
                            self,
                        )@
                    }
                },
            },
            rank_monotone(old(self)@, final(self)@),
    {
        let i = match self.find(id) {
            Some(i) => i,
            None => {
                return Err(CoreError::NotFound);
            },
        };
        let terminal = matches!(self.jobs[i].status, ExportStatus::Succeeded)
            || matches!(self.jobs[i].status, ExportStatus::Failed);
        if terminal {
            return Err(CoreError::Conflict);
        }
        self.jobs[i].status = ExportStatus::Failed;
        self.jobs[i].fail_reason = Some(reason);
        proof {
            assert(self@ =~= old(self)@.update(
                i as int,
                ExportJob {
                    status: ExportStatus::Failed,
                    fail_reason: Some(reason),
                    ..old(self)@[i as int]
                },
            ));
        }
        Ok(())
    }
}

/// Law: every manager operation moves every job's status monotonically
/// along `Queued`, `Running`, terminal — never backwards, and a terminal
/// job keeps its state, result and reason.
pub open spec fn rank_monotone(before: Seq<ExportJob>, after: Seq<ExportJob>) -> bool {
    &&& after.len() >= before.len()
    &&& forall|i: int|
        0 <= i < before.len() ==> spec_rank(#[trigger] after[i].status) >= spec_rank(
            before[i].status,
        )
    &&& forall|i: int|
        0 <= i < before.len() && spec_terminal(#[trigger] before[i].status) ==> after[i]
            == before[i]
}

/// Materialises an export: the full filtered row set, reordered when a
/// sort is given, without pagination. Both export paths (the job manager
/// and the direct email delivery) build their file from this set.
pub fn export_rows(
    rows: Vec<AdminRecord>,
    preds: &Vec<Predicate>,
    sort: &Option<(String, SortDirection)>,
    search_cols: &Vec<String>,
) -> (r: Vec<AdminRecord>)
    ensures
        ({
            let flt = spec_filter(rows@, preds_view(preds@), search_cols@);
            match sort {
                None => r@ == flt,
                Some(fd) => r@.to_multiset() == flt.to_multiset() && r@.len() == flt.len() && (
                forall|i: int, j: int|
                    0 <= i <= j < r@.len() ==> spec_in_order(
                        fd.0@,
                        fd.1,
                        #[trigger] r@[i],
                        #[trigger] r@[j],
                    )),
            }
        }),
{
    let filtered = crate::rows::filter_rows(rows, preds, search_cols);
    match sort {
        None => filtered,
        Some((f, d)) => {
            proof {
                broadcast use vstd::seq_lib::group_to_multiset_ensures;

            }
            crate::rows::sort_rows(filtered, f.as_str(), *d)
        },
    }
}

} // verus!
