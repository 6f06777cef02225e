//! Running a synchronisation plan against a platform, as a state machine:
//! the application asks the platform what each request names (whether it
//! can write, a search, adding a batch, removing) and hands the answer back;
//! the run decides the next request and, at the end, the report.
use vstd::prelude::*;
use crate::song::{SongInfo, SongView, songs_view};
use crate::text::to_owned_string;
use super::engine::{SyncEngine, batch_len, best_candidate, first_with_identity};
use super::matcher::match_one;
use super::model::{SyncError, SyncFailure, SyncOptions, SyncPlan, SyncPolicy, SyncReport};

verus! {

/// What the run waits for.
#[derive(Debug, Clone, Copy, PartialEq, Eq, Structural)]
pub enum Pending {
    /// Whether the platform can write the target collection.
    CheckWrite,
    /// The candidates of a search for the addition at this position.
    Search(usize),
    /// How many of a batch of songs were added.
    Add,
    /// How many songs were removed.
    Remove,
    /// Nothing: the run is over.
    Done,
}

/// The next request of a run.
#[derive(Debug)]
pub enum SyncRequest {
    CheckWrite,
    /// Search the platform for the addition at this position of the plan.
    Search(usize),
    /// Add these songs to the target collection.
    Add(Vec<SongInfo>),
    /// Remove the plan's removals from the target collection.
    Remove,
    /// The run is over.
    Finished(Result<SyncReport, SyncError>),
}

/// Title, artist and reason of a failure.
pub open spec fn failure_view(f: SyncFailure) -> (Seq<char>, Seq<char>, Seq<char>) {
    (f.song@, f.artist@, f.reason@)
}

/// The failures as values.
pub open spec fn failure_views(s: Seq<SyncFailure>) -> Seq<(Seq<char>, Seq<char>, Seq<char>)> {
    s.map_values(|f: SyncFailure| failure_view(f))
}

/// The failure of a song the platform has no match for.
pub open spec fn not_found_view(s: SongView) -> (Seq<char>, Seq<char>, Seq<char>) {
    (s.name, s.singer, "目标音源找不到可匹配歌曲"@)
}

/// The candidate that stands for `src` among the search results `cands`
/// (see [`best_candidate`]).
pub open spec fn best_of(src: SongView, cands: Seq<SongInfo>, o: SyncOptions) -> Option<SongView> {
    match match_one(src, songs_view(cands), Set::empty(), o.match_duration_tolerance_ms as int, o.fuzzy_threshold as int) {
        Some(m) => match first_with_identity(songs_view(cands), cands[m.0]@) {
            Some(j) => Some(cands[j]@),
            None => None,
        },
        None => None,
    }
}

/// Songs added per request: the batch size, at least 1.
pub open spec fn batch_of(o: SyncOptions) -> int {
    if o.batch_size == 0 { 1 } else { o.batch_size as int }
}

/// The addition at `i` is the last of its batch.
pub open spec fn ends_batch(i: int, len: int, o: SyncOptions) -> bool {
    (i + 1) % batch_of(o) == 0 || i + 1 == len
}

/// Removals are made: the caller allows them, the policy mirrors and there
/// is something to remove.
pub open spec fn removes(plan: SyncPlan, o: SyncOptions, allow: bool) -> bool {
    allow && o.policy == SyncPolicy::Mirror && plan.removals@.len() > 0
}

/// What is waited for once the additions from `next` on remain: the next
/// search, else the removals, else nothing.
pub open spec fn pending_from(next: int, plan: SyncPlan, o: SyncOptions, allow: bool) -> Pending {
    if next < plan.additions@.len() {
        Pending::Search(next as usize)
    } else if removes(plan, o, allow) {
        Pending::Remove
    } else {
        Pending::Done
    }
}

/// `rep` reports a run of `plan` that added `added` songs, removed
/// `removed`, and failed on `failures`.
pub open spec fn report_of(rep: SyncReport, plan: SyncPlan, added: int, removed: int, failures: Seq<(Seq<char>, Seq<char>, Seq<char>)>) -> bool {
    &&& rep.source == plan.source.source
    &&& rep.target == plan.target.source
    &&& rep.collection_name@ == plan.target.name@
    &&& rep.added == added
    &&& rep.removed == removed
    &&& rep.already_present == if plan.matches@.len() >= plan.additions@.len() {
        plan.matches@.len() - plan.additions@.len()
    } else {
        0
    }
    &&& rep.unmatched == failures.len()
    &&& failure_views(rep.failed@) == failures
}

/// The state of a run.
pub struct SyncRun {
    pending: Pending,
    next: usize,
    resolved: Vec<SongInfo>,
    added: usize,
    failed: Vec<SyncFailure>,
}

impl SyncRun {
    /// What the run waits for.
    pub closed spec fn pending(&self) -> Pending {
        self.pending
    }

    /// Number of additions searched for.
    pub closed spec fn searched(&self) -> int {
        self.next as int
    }

    /// The songs found for the current batch, not yet added.
    pub closed spec fn found(&self) -> Seq<SongView> {
        songs_view(self.resolved@)
    }

    /// Number of songs added so far.
    pub closed spec fn added_so_far(&self) -> int {
        self.added as int
    }

    /// The failures so far.
    pub closed spec fn failures(&self) -> Seq<(Seq<char>, Seq<char>, Seq<char>)> {
        failure_views(self.failed@)
    }

    /// A new run; it first asks whether the platform can write.
    pub fn start() -> (r: (SyncRun, SyncRequest))
        ensures
            r.0.pending() == Pending::CheckWrite,
            r.0.searched() == 0,
            r.0.found().len() == 0,
            r.0.added_so_far() == 0,
            r.0.failures().len() == 0,
            r.1 is CheckWrite,
    {
        let run = SyncRun { pending: Pending::CheckWrite, next: 0, resolved: Vec::new(), added: 0, failed: Vec::new() };
        proof {
            assert(songs_view(run.resolved@) =~= Seq::<SongView>::empty());
            assert(failure_views(run.failed@) =~= Seq::empty());
        }
        (run, SyncRequest::CheckWrite)
    }

    /// Ends the run with its report.
    fn finish(&mut self, plan: &SyncPlan, removed: usize) -> (r: SyncRequest)
        ensures
            final(self).pending() == Pending::Done,
            final(self).searched() == old(self).searched(),
            final(self).found() == old(self).found(),
            final(self).added_so_far() == old(self).added_so_far(),
            r matches SyncRequest::Finished(Ok(rep)) && report_of(rep, *plan, old(self).added_so_far(), removed as int, old(self).failures()),
    {
        let mut failed: Vec<SyncFailure> = Vec::new();
        std::mem::swap(&mut failed, &mut self.failed);
        self.pending = Pending::Done;
        let rep = SyncReport::from_run(plan, self.added, removed, failed);
        SyncRequest::Finished(Ok(rep))
    }

    /// Goes on with the additions from the current position.
    fn advance(&mut self, plan: &SyncPlan, options: &SyncOptions, allow_removals: bool) -> (r: SyncRequest)
        requires
            old(self).searched() <= plan.additions@.len(),
        ensures
            final(self).pending() == pending_from(old(self).searched(), *plan, *options, allow_removals),
            final(self).searched() == old(self).searched(),
            final(self).found() == old(self).found(),
            final(self).added_so_far() == old(self).added_so_far(),
            final(self).pending() != Pending::Done ==> final(self).failures() == old(self).failures(),
            match final(self).pending() {
                Pending::Search(i) => r matches SyncRequest::Search(j) && j == i,
                Pending::Remove => r is Remove,
                _ => r matches SyncRequest::Finished(Ok(rep)) && report_of(rep, *plan, old(self).added_so_far(), 0, old(self).failures()),
            },
    {
        if self.next < plan.additions.len() {
            self.pending = Pending::Search(self.next);
            SyncRequest::Search(self.next)
        } else if SyncEngine::removal_allowed(plan, options, allow_removals) {
            self.pending = Pending::Remove;
            SyncRequest::Remove
        } else {
            self.finish(plan, 0)
        }
    }

    /// Ends the run with an error.
    fn fail(&mut self, e: SyncError) -> (r: SyncRequest)
        ensures
            final(self).pending() == Pending::Done,
            final(self).searched() == old(self).searched(),
            final(self).found() == old(self).found(),
            final(self).added_so_far() == old(self).added_so_far(),
            final(self).failures() == old(self).failures(),
            r matches SyncRequest::Finished(Err(x)) && x == e,
    {
        self.pending = Pending::Done;
        SyncRequest::Finished(Err(e))
    }

    /// The platform said whether it can write the target collection
    /// (`provider_name` names it): if not, the run fails with
    /// `WriteUnsupported`; else the searches begin.
    pub fn on_write_support(
        &mut self,
        plan: &SyncPlan,
        options: &SyncOptions,
        allow_removals: bool,
        supported: bool,
        provider_name: &str,
    ) -> (r: SyncRequest)
        requires
            old(self).pending() == Pending::CheckWrite,
            old(self).searched() == 0,
        ensures
            final(self).searched() == 0,
            final(self).found() == old(self).found(),
            final(self).added_so_far() == old(self).added_so_far(),
            !supported ==> final(self).pending() == Pending::Done && (r matches SyncRequest::Finished(Err(e)) && e matches SyncError::WriteUnsupported(n) && n@ == provider_name@),
            supported ==> final(self).pending() == pending_from(0, *plan, *options, allow_removals),
            supported ==> match final(self).pending() {
                Pending::Search(i) => r matches SyncRequest::Search(j) && j == i,
                Pending::Remove => r is Remove,
                _ => r matches SyncRequest::Finished(Ok(rep)) && report_of(rep, *plan, old(self).added_so_far(), 0, old(self).failures()),
            },
    {
        if !supported {
            return self.fail(SyncError::WriteUnsupported(to_owned_string(provider_name)));
        }
        self.advance(plan, options, allow_removals)
    }

    /// The search for the pending addition gave `found`: an error ends the
    /// run; else the candidate that stands for the song joins the batch, or
    /// the song fails as not found. At the end of a batch the songs found
    /// are added (when there are any); otherwise the next search follows.
    pub fn on_candidates(
        &mut self,
        plan: &SyncPlan,
        options: &SyncOptions,
        allow_removals: bool,
        found: Result<Vec<SongInfo>, SyncError>,
    ) -> (r: SyncRequest)
        requires
            old(self).pending() matches Pending::Search(i) && i == old(self).searched() && i < plan.additions@.len(),
        ensures
            ({
                let i = old(self).searched();
                let src = plan.additions@[i]@;
                match found {
                    Err(e) => final(self).pending() == Pending::Done && (r matches SyncRequest::Finished(Err(x)) && x == e),
                    Ok(cands) => {
                        let best = best_of(src, cands@, *options);
                        let batch = match best {
                            Some(b) => old(self).found().push(b),
                            None => old(self).found(),
                        };
                        let failures = match best {
                            Some(_) => old(self).failures(),
                            None => old(self).failures().push(not_found_view(src)),
                        };
                        &&& final(self).searched() == i + 1
                        &&& final(self).added_so_far() == old(self).added_so_far()
                        &&& if !ends_batch(i, plan.additions@.len() as int, *options) {
                            &&& final(self).pending() == Pending::Search((i + 1) as usize)
                            &&& final(self).found() == batch
                            &&& final(self).failures() == failures
                            &&& r matches SyncRequest::Search(j) && j == i + 1
                        } else if batch.len() > 0 {
                            &&& final(self).pending() == Pending::Add
                            &&& final(self).found().len() == 0
                            &&& final(self).failures() == failures
                            &&& r matches SyncRequest::Add(songs) && songs_view(songs@) == batch
                        } else {
                            &&& final(self).found().len() == 0
                            &&& final(self).pending() == pending_from(i + 1, *plan, *options, allow_removals)
                            &&& match final(self).pending() {
                                Pending::Search(k) => r matches SyncRequest::Search(j) && j == k && final(self).failures() == failures,
                                Pending::Remove => r is Remove && final(self).failures() == failures,
                                _ => r matches SyncRequest::Finished(Ok(rep)) && report_of(rep, *plan, old(self).added_so_far(), 0, failures),
                            }
                        }
                    },
                }
            }),
    {
        let i = self.next;
        let len = plan.additions.len();
        let cands = match found {
            Err(e) => {
                return self.fail(e);
            },
            Ok(c) => c,
        };
        let song = &plan.additions[i];
        match best_candidate(song, cands.as_slice(), options) {
            Some(best) => {
                let ghost before = self.resolved@;
                self.resolved.push(best.clone());
                proof {
                    assert(songs_view(self.resolved@) =~= songs_view(before).push(best@));
                }
            },
            None => {
                let ghost before = self.failed@;
                self.failed.push(SyncFailure::not_found(song));
                proof {
                    reveal_strlit("目标音源找不到可匹配歌曲");
                    assert(failure_views(self.failed@) =~= failure_views(before).push(not_found_view(song@)));
                }
            },
        }
        self.next = i + 1;
        let batch = batch_len(options);
        if (i + 1) % batch != 0 && i + 1 != len {
            self.pending = Pending::Search(i + 1);
            return SyncRequest::Search(i + 1);
        }
        if self.resolved.len() > 0 {
            let mut songs: Vec<SongInfo> = Vec::new();
            std::mem::swap(&mut songs, &mut self.resolved);
            self.pending = Pending::Add;
            proof {
                assert(songs_view(self.resolved@) =~= Seq::<SongView>::empty());
            }
            return SyncRequest::Add(songs);
        }
        self.advance(plan, options, allow_removals)
    }

    /// The batch was added (`n` songs by the platform's count), or adding
    /// failed, which ends the run; then the next search or the removals.
    pub fn on_added(&mut self, plan: &SyncPlan, options: &SyncOptions, allow_removals: bool, result: Result<usize, SyncError>) -> (r: SyncRequest)
        requires
            old(self).pending() == Pending::Add,
            old(self).searched() <= plan.additions@.len(),
            result matches Ok(n) ==> old(self).added_so_far() + n <= usize::MAX,
        ensures
            match result {
                Err(e) => final(self).pending() == Pending::Done && (r matches SyncRequest::Finished(Err(x)) && x == e),
                Ok(n) => {
                    &&& final(self).added_so_far() == old(self).added_so_far() + n
                    &&& final(self).searched() == old(self).searched()
                    &&& final(self).pending() == pending_from(old(self).searched(), *plan, *options, allow_removals)
                    &&& match final(self).pending() {
                        Pending::Search(i) => r matches SyncRequest::Search(j) && j == i,
                        Pending::Remove => r is Remove,
                        _ => r matches SyncRequest::Finished(Ok(rep)) && report_of(rep, *plan, old(self).added_so_far() + n, 0, old(self).failures()),
                    }
                },
            },
    {
        match result {
            Err(e) => self.fail(e),
            Ok(n) => {
                self.added = self.added + n;
                self.advance(plan, options, allow_removals)
            },
        }
    }

    /// The removals were made (`n` by the platform's count), which ends the
    /// run with its report, or failed.
    pub fn on_removed(&mut self, plan: &SyncPlan, result: Result<usize, SyncError>) -> (r: SyncRequest)
        requires
            old(self).pending() == Pending::Remove,
        ensures
            final(self).pending() == Pending::Done,
            match result {
                Err(e) => r matches SyncRequest::Finished(Err(x)) && x == e,
                Ok(n) => r matches SyncRequest::Finished(Ok(rep)) && report_of(rep, *plan, old(self).added_so_far(), n as int, old(self).failures()),
            },
    {
        match result {
            Err(e) => self.fail(e),
            Ok(n) => self.finish(plan, n),
        }
    }
}

} // verus!
