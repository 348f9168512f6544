//! The transaction log: a snapshot of the catalog tree and the events since.
use vstd::prelude::*;
use crate::cluster::{Cluster, ClusterModel, EventModel, LogEvent};
use crate::config::EllaConfig;

verus! {

/// The tree that results from applying `events` in order to `m`.
pub open spec fn replay(m: ClusterModel, events: Seq<EventModel>) -> ClusterModel
    decreases events.len(),
{
    if events.len() == 0 {
        m
    } else {
        replay(m, events.drop_last()).apply(events.last())
    }
}

/// Replaying keeps the tree well formed.
pub proof fn lemma_replay_wf(m: ClusterModel, events: Seq<EventModel>)
    requires
        m.wf(),
    ensures
        replay(m, events).wf(),
    decreases events.len(),
{
    if events.len() > 0 {
        lemma_replay_wf(m, events.drop_last());
        crate::cluster::lemma_apply_wf(replay(m, events.drop_last()), events.last());
    }
}

/// Replaying a log in two parts, the first folded into a snapshot, gives the
/// tree that replaying it whole gives: a snapshot taken at any point, followed
/// by the events appended after that point, reconstructs the same catalog.
pub proof fn lemma_snapshot_round_trip(m: ClusterModel, before: Seq<EventModel>, after: Seq<EventModel>)
    ensures
        replay(replay(m, before), after) == replay(m, before + after),
    decreases after.len(),
{
    if after.len() == 0 {
        assert(before + after =~= before);
    } else {
        lemma_snapshot_round_trip(m, before, after.drop_last());
        assert((before + after).drop_last() =~= before + after.drop_last());
        assert((before + after).last() == after.last());
    }
}

/// Replaying the same log twice gives the same tree, and folding a whole log
/// into a snapshot leaves nothing to replay.
pub proof fn lemma_replay_compacted(m: ClusterModel, events: Seq<EventModel>)
    ensures
        replay(replay(m, events), Seq::empty()) == replay(m, events),
{
}

/// The durable record of the catalog: a snapshot, the events appended since,
/// and the configuration the datastore was created with.
pub struct TransactionLog {
    snapshot: Cluster,
    tail: Vec<LogEvent>,
    config: EllaConfig,
}

impl TransactionLog {
    pub closed spec fn snapshot_model(&self) -> ClusterModel {
        self.snapshot.model()
    }

    pub closed spec fn tail_model(&self) -> Seq<EventModel> {
        self.tail@.map_values(|e: LogEvent| e@)
    }

    pub closed spec fn config_spec(&self) -> EllaConfig {
        self.config
    }

    /// The catalog tree that the log records.
    pub open spec fn state(&self) -> ClusterModel {
        replay(self.snapshot_model(), self.tail_model())
    }

    pub open spec fn wf(&self) -> bool {
        self.snapshot_model().wf()
    }

    /// Every log's snapshot is a well-formed tree.
    #[verifier::type_invariant]
    closed spec fn snapshot_wf(&self) -> bool {
        self.snapshot.model().wf()
    }

    /// A new log with an empty catalog.
    pub fn new(config: EllaConfig) -> (r: TransactionLog)
        ensures
            r.wf(),
            r.snapshot_model() == ClusterModel::empty(),
            r.tail_model() == Seq::<EventModel>::empty(),
            r.config_spec() == config,
    {
        let r = TransactionLog { snapshot: Cluster::new(), tail: Vec::new(), config };
        assert(r.tail_model() =~= Seq::empty());
        r
    }

    pub fn config(&self) -> (r: &EllaConfig)
        ensures
            *r == self.config_spec(),
    {
        &self.config
    }

    /// The number of events since the snapshot.
    pub fn tail_len(&self) -> (r: usize)
        ensures
            r == self.tail_model().len(),
    {
        self.tail.len()
    }

    /// Records one event at the end of the log and returns its position in the tail.
    pub fn append(&mut self, event: LogEvent) -> (pos: usize)
        ensures
            final(self).wf(),
            pos == old(self).tail_model().len(),
            final(self).snapshot_model() == old(self).snapshot_model(),
            final(self).tail_model() == old(self).tail_model().push(event@),
            final(self).state() == old(self).state().apply(event@),
            final(self).config_spec() == old(self).config_spec(),
    {
        proof {
            use_type_invariant(&*self);
        }
        let pos = self.tail.len();
        let ghost old_tail = self.tail_model();
        let mut tail: Vec<LogEvent> = Vec::new();
        core::mem::swap(&mut self.tail, &mut tail);
        tail.push(event);
        self.tail = tail;
        assert(self.tail_model() =~= old_tail.push(event@));
        assert(self.tail_model().drop_last() =~= old_tail);
        pos
    }

    /// A copy of the snapshot.
    pub fn load_snapshot(&self) -> (r: Cluster)
        ensures
            r.model() == self.snapshot_model(),
            !r.is_closed_spec(),
    {
        self.snapshot.duplicate()
    }

    /// The catalog tree: the snapshot with the tail replayed onto it in order.
    pub fn restore(&self) -> (r: Cluster)
        ensures
            self.wf(),
            r.model() == self.state(),
            r.wf(),
            !r.is_closed_spec(),
    {
        proof {
            use_type_invariant(self);
        }
        let r = self.replay_prefix(self.tail.len());
        assert(self.tail_model().take(self.tail@.len() as int) =~= self.tail_model());
        r
    }

    fn replay_prefix(&self, n: usize) -> (r: Cluster)
        requires
            n <= self.tail_model().len(),
        ensures
            r.model() == replay(self.snapshot_model(), self.tail_model().take(n as int)),
            r.wf(),
            !r.is_closed_spec(),
    {
        proof {
            use_type_invariant(self);
        }
        let mut c = self.snapshot.duplicate();
        let mut i: usize = 0;
        assert(self.tail_model().take(0) =~= Seq::empty());
        while i < n
            invariant
                i <= n,
                n <= self.tail@.len(),
                self.wf(),
                c.model() == replay(self.snapshot_model(), self.tail_model().take(i as int)),
                c.wf(),
                !c.is_closed_spec(),
            decreases n - i,
        {
            c.apply(&self.tail[i]);
            assert(self.tail_model().take(i as int + 1).drop_last() =~= self.tail_model().take(i as int));
            i += 1;
        }
        proof {
            lemma_replay_wf(self.snapshot_model(), self.tail_model().take(n as int));
        }
        c
    }

    /// Folds the first `upto` events of the tail into the snapshot. Events
    /// appended after that point stay in the tail, so the recorded tree is
    /// unchanged.
    pub fn compact(&mut self, upto: usize)
        requires
            upto <= old(self).tail_model().len(),
        ensures
            final(self).wf(),
            final(self).state() == old(self).state(),
            final(self).snapshot_model() == replay(old(self).snapshot_model(), old(self).tail_model().take(upto as int)),
            final(self).tail_model() == old(self).tail_model().skip(upto as int),
            final(self).config_spec() == old(self).config_spec(),
    {
        proof {
            use_type_invariant(&*self);
        }
        let ghost old_tail = self.tail_model();
        let ghost old_snap = self.snapshot_model();
        let snapshot = self.replay_prefix(upto);
        let mut rest: Vec<LogEvent> = Vec::new();
        let mut i: usize = upto;
        while i < self.tail.len()
            invariant
                upto <= i <= self.tail@.len(),
                rest@.len() == i - upto,
                forall|j: int| 0 <= j < i - upto ==> (#[trigger] rest@[j])@ == self.tail@[j + upto]@,
            decreases self.tail@.len() - i,
        {
            rest.push(self.tail[i].duplicate());
            i += 1;
        }
        self.snapshot = snapshot;
        self.tail = rest;
        assert(self.tail_model() =~= old_tail.skip(upto as int));
        proof {
            lemma_snapshot_round_trip(old_snap, old_tail.take(upto as int), old_tail.skip(upto as int));
            assert(old_tail.take(upto as int) + old_tail.skip(upto as int) =~= old_tail);
        }
    }

    /// Folds the whole tail into the snapshot.
    pub fn create_snapshot(&mut self)
        ensures
            final(self).wf(),
            final(self).state() == old(self).state(),
            final(self).snapshot_model() == old(self).state(),
            final(self).tail_model() == Seq::<EventModel>::empty(),
            final(self).config_spec() == old(self).config_spec(),
    {
        proof {
            use_type_invariant(&*self);
        }
        let n = self.tail.len();
        let ghost old_tail = self.tail_model();
        assert(old_tail.take(n as int) =~= old_tail);
        self.compact(n);
        assert(self.tail_model() =~= Seq::<EventModel>::empty());
    }
}

} // verus!
