use vstd::prelude::*;

verus! {

/// How many bookmarks in a row that already existed end a sync: by then the
/// list is taken to have caught up with the source.
pub const STOP_AFTER_EXISTING: i32 = 5;

/// The progress of one sync as plain values: bookmarks created so far, and how
/// many already-existing bookmarks were met since the last creation.
pub type ProgressView = (int, int);

/// The progress after one more bookmark was upserted: a creation counts and
/// resets the run of existing ones; an existing bookmark lengthens that run.
pub open spec fn progress_step(p: ProgressView, created: bool) -> ProgressView {
    if created {
        (p.0 + 1, 0)
    } else {
        (p.0, p.1 + 1)
    }
}

/// The progress after upserting bookmarks with these outcomes (`true`: created), in order.
pub open spec fn progress_after(outcomes: Seq<bool>) -> ProgressView
    decreases outcomes.len(),
{
    if outcomes.len() == 0 {
        (0, 0)
    } else {
        progress_step(progress_after(outcomes.drop_last()), outcomes.last())
    }
}

/// Whether a sync in this state is over.
pub open spec fn progress_is_done(p: ProgressView) -> bool {
    p.1 >= STOP_AFTER_EXISTING
}

/// The counters that a sync keeps while it upserts bookmarks into a list.
pub struct SyncProgress {
    created_count: i32,
    consecutive_existing: i32,
}

impl View for SyncProgress {
    type V = ProgressView;

    closed spec fn view(&self) -> ProgressView {
        (self.created_count as int, self.consecutive_existing as int)
    }
}

impl SyncProgress {
    /// Both counters are within their ranges.
    pub closed spec fn wf(&self) -> bool {
        &&& 0 <= self.created_count
        &&& 0 <= self.consecutive_existing <= STOP_AFTER_EXISTING
    }

    /// A sync that has not upserted anything yet.
    pub fn new() -> (p: SyncProgress)
        ensures
            p.wf(),
            p@ == (0int, 0int),
    {
        SyncProgress { created_count: 0, consecutive_existing: 0 }
    }

    /// Records the outcome of one upsert (`created`: the bookmark was new) and
    /// says whether the sync should stop now.
    pub fn record(&mut self, created: bool) -> (stop: bool)
        requires
            old(self).wf(),
            !progress_is_done(old(self)@),
            created ==> old(self)@.0 < i32::MAX,
        ensures
            final(self).wf(),
            final(self)@ == progress_step(old(self)@, created),
            stop == progress_is_done(final(self)@),
            created ==> final(self)@ == (old(self)@.0 + 1, 0int),
            !created ==> final(self)@ == (old(self)@.0, old(self)@.1 + 1),
            stop <==> final(self)@.1 >= 5,
    {
        if created {
            self.consecutive_existing = 0;
            self.created_count = self.created_count + 1;
        } else {
            self.consecutive_existing = self.consecutive_existing + 1;
        }
        self.consecutive_existing >= STOP_AFTER_EXISTING
    }

    /// How many bookmarks this sync created; what the sync reports at its end.
    pub fn created_count(&self) -> (n: i32)
        ensures
            n == self@.0,
    {
        self.created_count
    }
}

/// The bookmarks created in a run of outcomes.
pub open spec fn created_in(outcomes: Seq<bool>) -> nat {
    outcomes.filter(|c: bool| c).len()
}

/// After any run of upserts, the created count is the number of bookmarks that
/// were created, and the run of existing ones is exactly the outcomes after the
/// last creation (all of them when nothing was created).
pub proof fn lemma_progress_counts(outcomes: Seq<bool>)
    ensures
        progress_after(outcomes).0 == created_in(outcomes),
        0 <= progress_after(outcomes).1 <= outcomes.len(),
        forall|i: int|
            outcomes.len() - progress_after(outcomes).1 <= i < outcomes.len() ==> !outcomes[i],
        progress_after(outcomes).1 < outcomes.len() ==> outcomes[outcomes.len()
            - progress_after(outcomes).1 - 1],
    decreases outcomes.len(),
{
    if outcomes.len() > 0 {
        let init = outcomes.drop_last();
        lemma_progress_counts(init);
        assert(outcomes == init.push(outcomes.last()));
        init.lemma_filter_push(outcomes.last(), |c: bool| c);
    } else {
        assert(outcomes.filter(|c: bool| c) =~= Seq::<bool>::empty());
    }
}

/// A sync stops exactly when the last five bookmarks it upserted all existed already.
pub proof fn lemma_stops_after_five_existing(outcomes: Seq<bool>)
    ensures
        progress_is_done(progress_after(outcomes)) <==> (outcomes.len() >= 5 && forall|i: int|
            outcomes.len() - 5 <= i < outcomes.len() ==> !outcomes[i]),
{
    lemma_progress_counts(outcomes);
    let k = progress_after(outcomes).1;
    if outcomes.len() >= STOP_AFTER_EXISTING && (forall|i: int|
        outcomes.len() - STOP_AFTER_EXISTING <= i < outcomes.len() ==> !outcomes[i]) {
        if k < STOP_AFTER_EXISTING {
            assert(outcomes[outcomes.len() - k - 1]);
        }
    }
}

} // verus!
