use vstd::prelude::*;

use crate::pump::ReadOutcome;

verus! {

/// What the program driving a session must do next.
#[derive(Debug, PartialEq, Eq)]
pub enum Action {
    /// Start copying from the primary upstream (index 0) to the client.
    StartReturnPump,
    /// Start reading this shadow upstream into a sink that drops every byte.
    StartDiscardPump(usize),
    /// Issue the next read from the client.
    ReadClient,
    /// Write `chunk` to each upstream in `targets`, and report each outcome.
    Broadcast { chunk: Vec<u8>, targets: Vec<usize> },
    /// Shut the write side of this upstream: no more client bytes follow.
    ShutdownWrite(usize),
    /// Close this upstream's socket.
    CloseUpstream(usize),
    /// Close the client's socket.
    CloseClient,
}

/// The phases of a session.
#[derive(Debug, Clone, Copy, PartialEq, Eq, Structural)]
pub enum Phase {
    /// The upstreams are being dialed.
    Dialing,
    /// Client bytes are broadcast and the primary's answer is relayed back.
    Active,
    /// The client stopped sending; the primary's answer is still relayed.
    Draining,
    /// Every socket of the session is closed.
    Closed,
}

/// Per-upstream actions that take an upstream's index.
#[derive(Debug, Clone, Copy, PartialEq, Eq, Structural)]
enum PerUpstream {
    Discard,
    Shutdown,
    Close,
}

spec fn per_upstream(kind: PerUpstream, i: usize) -> Action {
    match kind {
        PerUpstream::Discard => Action::StartDiscardPump(i),
        PerUpstream::Shutdown => Action::ShutdownWrite(i),
        PerUpstream::Close => Action::CloseUpstream(i),
    }
}

/// One `StartDiscardPump` for each index, in order.
pub open spec fn discard_pumps(ids: Seq<usize>) -> Seq<Action> {
    ids.map_values(|i: usize| Action::StartDiscardPump(i))
}

/// One `ShutdownWrite` for each index, in order.
pub open spec fn shutdowns(ids: Seq<usize>) -> Seq<Action> {
    ids.map_values(|i: usize| Action::ShutdownWrite(i))
}

/// One `CloseUpstream` for each index, in order.
pub open spec fn closes(ids: Seq<usize>) -> Seq<Action> {
    ids.map_values(|i: usize| Action::CloseUpstream(i))
}

/// The indices `i` with `lo <= i < hi` at which `flags` is set, ascending.
pub open spec fn flagged(flags: Seq<bool>, lo: int, hi: int) -> Seq<usize>
    decreases hi - lo,
{
    if hi <= lo {
        Seq::empty()
    } else {
        flagged(flags, lo, hi - 1) + if flags[hi - 1] {
            seq![(hi - 1) as usize]
        } else {
            Seq::empty()
        }
    }
}

/// Every index at which `flags` is set, ascending.
pub open spec fn all_flagged(flags: Seq<bool>) -> Seq<usize> {
    flagged(flags, 0, flags.len() as int)
}

/// True when no entry of `flags` is set.
pub open spec fn none_set(flags: Seq<bool>) -> bool {
    forall|i: int| 0 <= i < flags.len() ==> !flags[i]
}

/// `d` is a prefix of `s`: the chunks of `d` are the first chunks of `s`.
pub open spec fn is_prefix_of(d: Seq<Seq<u8>>, s: Seq<Seq<u8>>) -> bool {
    &&& d.len() <= s.len()
    &&& forall|j: int| 0 <= j < d.len() ==> d[j] == s[j]
}

fn make_action(kind: PerUpstream, i: usize) -> (r: Action)
    ensures
        r == per_upstream(kind, i),
{
    match kind {
        PerUpstream::Discard => Action::StartDiscardPump(i),
        PerUpstream::Shutdown => Action::ShutdownWrite(i),
        PerUpstream::Close => Action::CloseUpstream(i),
    }
}

fn push_each(actions: &mut Vec<Action>, kind: PerUpstream, ids: &Vec<usize>)
    ensures
        final(actions)@ == old(actions)@ + ids@.map_values(|i: usize| per_upstream(kind, i)),
{
    let ghost start = actions@;
    let mut j: usize = 0;
    while j < ids.len()
        invariant
            j <= ids@.len(),
            actions@ == start + ids@.take(j as int).map_values(|i: usize| per_upstream(kind, i)),
        decreases ids@.len() - j,
    {
        let a = make_action(kind, ids[j]);
        actions.push(a);
        assert(ids@.take(j + 1).map_values(|i: usize| per_upstream(kind, i)) =~= ids@.take(
            j as int,
        ).map_values(|i: usize| per_upstream(kind, i)).push(per_upstream(kind, ids@[j as int])));
        j = j + 1;
    }
    assert(ids@.take(j as int) =~= ids@);
}

/// The indices from `lo` on at which `flags` is set, ascending.
fn flagged_indices(flags: &Vec<bool>, lo: usize) -> (r: Vec<usize>)
    ensures
        r@ == flagged(flags@, lo as int, flags@.len() as int),
{
    let mut r: Vec<usize> = Vec::new();
    let mut i: usize = lo;
    while i < flags.len()
        invariant
            lo <= i,
            i <= flags@.len() || i == lo,
            r@ == flagged(flags@, lo as int, i as int),
        decreases flags@.len() - i,
    {
        if flags[i] {
            r.push(i);
        }
        i = i + 1;
    }
    r
}

fn any_set(flags: &Vec<bool>) -> (r: bool)
    ensures
        r == !none_set(flags@),
{
    let mut i: usize = 0;
    while i < flags.len()
        invariant
            i <= flags@.len(),
            forall|k: int| 0 <= k < i ==> !flags@[k],
        decreases flags@.len() - i,
    {
        if flags[i] {
            return true;
        }
        i = i + 1;
    }
    false
}

fn all_false(n: usize) -> (r: Vec<bool>)
    ensures
        r@.len() == n,
        none_set(r@),
{
    let mut r: Vec<bool> = Vec::new();
    let mut i: usize = 0;
    while i < n
        invariant
            i <= n,
            r@.len() == i,
            none_set(r@),
        decreases n - i,
    {
        r.push(false);
        i = i + 1;
    }
    r
}

fn copy_flags(v: &Vec<bool>) -> (r: Vec<bool>)
    ensures
        r@ == v@,
{
    let mut r: Vec<bool> = Vec::new();
    let mut i: usize = 0;
    while i < v.len()
        invariant
            i <= v@.len(),
            r@ == v@.take(i as int),
        decreases v@.len() - i,
    {
        r.push(v[i]);
        assert(v@.take(i + 1) =~= v@.take(i as int).push(v@[i as int]));
        i = i + 1;
    }
    assert(v@.take(i as int) =~= v@);
    r
}

/// One client connection's fan-out session.
///
/// Upstream 0 is the primary: its answer goes back to the client. The others
/// are shadows: they get every client byte, and what they answer is dropped.
/// The session owns the sockets; each method takes one event and returns,
/// in order, the actions that the driving program performs.
///
/// As ghost state the session records every chunk read from the client and,
/// for each upstream, every chunk that was written to it.
pub struct Session {
    phase: Phase,
    count: usize,
    open: Vec<bool>,
    live: Vec<bool>,
    pending: Vec<bool>,
    sent: Ghost<Seq<Seq<u8>>>,
    delivered: Ghost<Seq<Seq<Seq<u8>>>>,
}

impl Session {
    /// The session's phase.
    pub closed spec fn stage(&self) -> Phase {
        self.phase
    }

    /// The number of configured upstreams.
    pub closed spec fn upstreams(&self) -> nat {
        self.count as nat
    }

    /// For each upstream, whether the session holds an open socket to it.
    pub closed spec fn open_set(&self) -> Seq<bool> {
        self.open@
    }

    /// For each upstream, whether client bytes are still written to it.
    pub closed spec fn live_set(&self) -> Seq<bool> {
        self.live@
    }

    /// For each upstream, whether a write of the latest chunk is outstanding.
    pub closed spec fn pending_set(&self) -> Seq<bool> {
        self.pending@
    }

    /// Every chunk read from the client, in the order it was read.
    pub closed spec fn sent(&self) -> Seq<Seq<u8>> {
        self.sent@
    }

    /// For each upstream, every chunk written to it, in order.
    pub closed spec fn delivered(&self) -> Seq<Seq<Seq<u8>>> {
        self.delivered@
    }

    /// The session's invariant.
    pub closed spec fn wf(&self) -> bool {
        let n = self.count as int;
        &&& self.open@.len() == n
        &&& self.live@.len() == n
        &&& self.pending@.len() == n
        &&& self.delivered@.len() == n
        &&& forall|i: int| 0 <= i < n && #[trigger] self.live@[i] ==> self.open@[i]
        &&& forall|i: int| 0 <= i < n && #[trigger] self.pending@[i] ==> self.live@[i]
        &&& forall|i: int| 0 <= i < n ==> is_prefix_of(#[trigger] self.delivered@[i], self.sent@)
        &&& forall|i: int|
            0 <= i < n && #[trigger] self.live@[i] ==> self.delivered@[i].len() + (if self.pending@[i] {
                1int
            } else {
                0int
            }) == self.sent@.len()
        &&& self.phase != Phase::Active ==> none_set(self.pending@)
        &&& match self.phase {
            Phase::Dialing => none_set(self.open@) && none_set(self.live@) && self.sent@.len() == 0,
            Phase::Active => n > 0 && self.open@[0],
            Phase::Draining => n > 0 && self.open@[0] && none_set(self.live@),
            Phase::Closed => none_set(self.open@) && none_set(self.live@),
        }
    }

    /// A session that has not dialed yet, for `count` upstreams.
    pub fn new(count: usize) -> (r: Session)
        ensures
            r.wf(),
            r.stage() == Phase::Dialing,
            r.upstreams() == count,
            r.sent() == Seq::<Seq<u8>>::empty(),
    {
        let open = all_false(count);
        let live = all_false(count);
        let pending = all_false(count);
        let ghost delivered = Seq::new(count as nat, |i: int| Seq::<Seq<u8>>::empty());
        Session {
            phase: Phase::Dialing,
            count,
            open,
            live,
            pending,
            sent: Ghost(Seq::empty()),
            delivered: Ghost(delivered),
        }
    }

    /// Takes the outcome of dialing: `connected[i]` tells whether upstream
    /// `i` answered.
    ///
    /// With the primary connected the session becomes active with exactly the
    /// upstreams that answered: it starts the return pump, one discard pump
    /// per connected shadow, and the first client read. With the primary
    /// unreachable there is nothing to relay: the session closes every socket
    /// it got and the client's, having read nothing. A report that comes
    /// after dialing, or does not cover every upstream, is ignored.
    pub fn on_dialed(&mut self, connected: &Vec<bool>) -> (r: Vec<Action>)
        requires
            old(self).wf(),
        ensures
            final(self).wf(),
            final(self).upstreams() == old(self).upstreams(),
            old(self).stage() != Phase::Dialing || connected@.len() != old(self).upstreams()
                ==> r@.len() == 0 && *final(self) == *old(self),
            old(self).stage() == Phase::Dialing && connected@.len() == old(self).upstreams() ==> {
                &&& final(self).sent().len() == 0
                &&& none_set(final(self).pending_set())
                &&& if connected@.len() > 0 && connected@[0] {
                    &&& final(self).stage() == Phase::Active
                    &&& final(self).open_set() == connected@
                    &&& final(self).live_set() == connected@
                    &&& r@ == seq![Action::StartReturnPump] + discard_pumps(
                        flagged(connected@, 1, connected@.len() as int),
                    ) + seq![Action::ReadClient]
                } else {
                    &&& final(self).stage() == Phase::Closed
                    &&& none_set(final(self).open_set())
                    &&& none_set(final(self).live_set())
                    &&& r@ == closes(all_flagged(connected@)) + seq![Action::CloseClient]
                }
            },
    {
        let mut actions: Vec<Action> = Vec::new();
        if self.phase != Phase::Dialing || connected.len() != self.count {
            return actions;
        }
        if self.count > 0 && connected[0] {
            actions.push(Action::StartReturnPump);
            let shadows = flagged_indices(connected, 1);
            push_each(&mut actions, PerUpstream::Discard, &shadows);
            assert(shadows@.map_values(|i: usize| per_upstream(PerUpstream::Discard, i))
                =~= discard_pumps(shadows@));
            actions.push(Action::ReadClient);
            self.open = copy_flags(connected);
            self.live = copy_flags(connected);
            self.phase = Phase::Active;
        } else {
            let ids = flagged_indices(connected, 0);
            push_each(&mut actions, PerUpstream::Close, &ids);
            assert(ids@.map_values(|i: usize| per_upstream(PerUpstream::Close, i)) =~= closes(
                ids@,
            ));
            actions.push(Action::CloseClient);
            self.phase = Phase::Closed;
        }
        actions
    }

    /// True when the session waits for a client read: it is active and no
    /// write of the latest chunk is outstanding.
    pub open spec fn awaits_client(&self) -> bool {
        self.stage() == Phase::Active && none_set(self.pending_set())
    }

    /// Takes the outcome of a client read.
    ///
    /// A chunk goes, unchanged and whole, to every upstream still in the
    /// broadcast set, and the next read waits until each of those writes has
    /// been reported; with no upstream left the next read follows at once. An
    /// interrupted read is retried. End of stream or a read error stops the
    /// broadcast: every upstream in the set has its write side shut, and the
    /// primary's answer is still relayed. A read that comes while the session
    /// is not waiting for one is ignored.
    pub fn on_client_read(&mut self, outcome: ReadOutcome) -> (r: Vec<Action>)
        requires
            old(self).wf(),
        ensures
            final(self).wf(),
            final(self).upstreams() == old(self).upstreams(),
            final(self).open_set() == old(self).open_set(),
            final(self).delivered() == old(self).delivered(),
            !old(self).awaits_client() ==> r@.len() == 0 && *final(self) == *old(self),
            old(self).awaits_client() && outcome is Interrupted ==> r@ == seq![Action::ReadClient]
                && *final(self) == *old(self),
            old(self).awaits_client() && outcome.ends_stream() ==> {
                &&& final(self).stage() == Phase::Draining
                &&& none_set(final(self).live_set())
                &&& final(self).sent() == old(self).sent()
                &&& r@ == shutdowns(all_flagged(old(self).live_set()))
            },
            old(self).awaits_client() ==> match outcome {
                ReadOutcome::Data(b) => b@.len() > 0 ==> {
                    let targets = all_flagged(old(self).live_set());
                    &&& final(self).stage() == Phase::Active
                    &&& final(self).live_set() == old(self).live_set()
                    &&& final(self).pending_set() == old(self).live_set()
                    &&& final(self).sent() == old(self).sent().push(b@)
                    &&& targets.len() == 0 ==> r@ == seq![Action::ReadClient]
                    &&& targets.len() > 0 ==> r@.len() == 1 && (r@[0] matches Action::Broadcast {
                        chunk,
                        targets: t,
                    } && chunk == b && t@ == targets)
                },
                _ => true,
            },
    {
        let mut actions: Vec<Action> = Vec::new();
        if self.phase != Phase::Active || any_set(&self.pending) {
            return actions;
        }
        match outcome {
            ReadOutcome::Interrupted => {
                actions.push(Action::ReadClient);
            },
            ReadOutcome::Failed => {
                self.stop_broadcast(&mut actions);
            },
            ReadOutcome::Data(b) => {
                if b.len() == 0 {
                    self.stop_broadcast(&mut actions);
                } else {
                    let targets = flagged_indices(&self.live, 0);
                    self.pending = copy_flags(&self.live);
                    self.sent = Ghost(self.sent@.push(b@));
                    if targets.len() == 0 {
                        actions.push(Action::ReadClient);
                    } else {
                        actions.push(Action::Broadcast { chunk: b, targets });
                    }
                }
            },
        }
        actions
    }

    /// Takes the report of one broadcast write to upstream `upstream`.
    ///
    /// A write that went through records the chunk as delivered there. A
    /// write that failed takes the upstream out of the broadcast set for the
    /// rest of the session; a shadow's socket is closed at once, which also
    /// ends its discard pump, while the primary's stays open for the return
    /// pump. Once no write of the chunk is outstanding the next client read
    /// is issued. A report that no outstanding write matches is ignored.
    pub fn on_write_done(&mut self, upstream: usize, ok: bool) -> (r: Vec<Action>)
        requires
            old(self).wf(),
        ensures
            final(self).wf(),
            final(self).upstreams() == old(self).upstreams(),
            !(old(self).stage() == Phase::Active && upstream < old(self).upstreams()
                && old(self).pending_set()[upstream as int]) ==> r@.len() == 0 && *final(self)
                == *old(self),
            old(self).stage() == Phase::Active && upstream < old(self).upstreams()
                && old(self).pending_set()[upstream as int] ==> {
                let u = upstream as int;
                let pending = old(self).pending_set().update(u, false);
                &&& final(self).stage() == Phase::Active
                &&& final(self).sent() == old(self).sent()
                &&& final(self).pending_set() == pending
                &&& ok ==> {
                    &&& final(self).live_set() == old(self).live_set()
                    &&& final(self).open_set() == old(self).open_set()
                    &&& final(self).delivered() == old(self).delivered().update(
                        u,
                        old(self).delivered()[u].push(old(self).sent().last()),
                    )
                }
                &&& !ok ==> {
                    &&& final(self).live_set() == old(self).live_set().update(u, false)
                    &&& final(self).open_set() == if upstream == 0 {
                        old(self).open_set()
                    } else {
                        old(self).open_set().update(u, false)
                    }
                    &&& final(self).delivered() == old(self).delivered()
                }
                &&& r@ == (if !ok && upstream != 0 {
                    seq![Action::CloseUpstream(upstream)]
                } else {
                    Seq::empty()
                }) + (if none_set(pending) {
                    seq![Action::ReadClient]
                } else {
                    Seq::empty()
                })
            },
    {
        let mut actions: Vec<Action> = Vec::new();
        if self.phase != Phase::Active || upstream >= self.count || !self.pending[upstream] {
            return actions;
        }
        let ghost u = upstream as int;
        self.pending.set(upstream, false);
        if ok {
            let ghost d = self.delivered@[u].push(self.sent@.last());
            assert(is_prefix_of(d, self.sent@));
            self.delivered = Ghost(self.delivered@.update(u, d));
        } else {
            self.live.set(upstream, false);
            if upstream != 0 {
                self.open.set(upstream, false);
                actions.push(Action::CloseUpstream(upstream));
            }
        }
        if !any_set(&self.pending) {
            actions.push(Action::ReadClient);
        }
        actions
    }

    /// Takes the end of the return pump: the primary closed its side or
    /// failed. The session closes: every upstream socket it still holds, then
    /// the client's. Outstanding writes are abandoned. In any other phase the
    /// report is ignored.
    pub fn on_primary_closed(&mut self) -> (r: Vec<Action>)
        requires
            old(self).wf(),
        ensures
            final(self).wf(),
            final(self).upstreams() == old(self).upstreams(),
            !(old(self).stage() == Phase::Active || old(self).stage() == Phase::Draining) ==> r@.len()
                == 0 && *final(self) == *old(self),
            old(self).stage() == Phase::Active || old(self).stage() == Phase::Draining ==> {
                &&& final(self).stage() == Phase::Closed
                &&& none_set(final(self).open_set())
                &&& none_set(final(self).live_set())
                &&& none_set(final(self).pending_set())
                &&& final(self).sent() == old(self).sent()
                &&& final(self).delivered() == old(self).delivered()
                &&& r@ == closes(all_flagged(old(self).open_set())) + seq![Action::CloseClient]
            },
    {
        let mut actions: Vec<Action> = Vec::new();
        if self.phase != Phase::Active && self.phase != Phase::Draining {
            return actions;
        }
        let ids = flagged_indices(&self.open, 0);
        push_each(&mut actions, PerUpstream::Close, &ids);
        assert(ids@.map_values(|i: usize| per_upstream(PerUpstream::Close, i)) =~= closes(ids@));
        actions.push(Action::CloseClient);
        self.open = all_false(self.count);
        self.live = all_false(self.count);
        self.pending = all_false(self.count);
        self.phase = Phase::Closed;
        actions
    }

    /// Broadcast completeness: an upstream still in the broadcast set with no
    /// write outstanding has received every chunk read from the client,
    /// unchanged and in the order the client sent them.
    pub proof fn lemma_broadcast_complete(&self, i: int)
        requires
            self.wf(),
            0 <= i < self.upstreams(),
            self.live_set()[i],
            !self.pending_set()[i],
        ensures
            self.delivered()[i] == self.sent(),
    {
        assert(self.live@[i]);
        assert(is_prefix_of(self.delivered@[i], self.sent@));
        assert(self.delivered@[i] =~= self.sent@);
    }

    /// Send order: whatever happened to it, each upstream has received the
    /// client's first chunks, in the order they were read, and nothing else.
    pub proof fn lemma_delivered_in_order(&self, i: int)
        requires
            self.wf(),
            0 <= i < self.upstreams(),
        ensures
            self.delivered()[i].len() <= self.sent().len(),
            self.delivered()[i] == self.sent().take(self.delivered()[i].len() as int),
    {
        assert(is_prefix_of(self.delivered@[i], self.sent@));
        assert(self.delivered@[i] =~= self.sent@.take(self.delivered@[i].len() as int));
    }

    /// Clean shutdown: once the client has stopped sending, no upstream gets
    /// another write; once the session is closed, it holds no upstream socket.
    pub proof fn lemma_shutdown_releases(&self)
        requires
            self.wf(),
        ensures
            self.stage() == Phase::Draining || self.stage() == Phase::Closed ==> none_set(
                self.live_set(),
            ) && none_set(self.pending_set()),
            self.stage() == Phase::Closed ==> none_set(self.open_set()),
    {
    }

    fn stop_broadcast(&mut self, actions: &mut Vec<Action>)
        requires
            old(self).wf(),
            old(self).awaits_client(),
        ensures
            final(self).wf(),
            final(self).stage() == Phase::Draining,
            final(self).upstreams() == old(self).upstreams(),
            final(self).open_set() == old(self).open_set(),
            final(self).delivered() == old(self).delivered(),
            final(self).sent() == old(self).sent(),
            none_set(final(self).live_set()),
            final(actions)@ == old(actions)@ + shutdowns(all_flagged(old(self).live_set())),
    {
        let ids = flagged_indices(&self.live, 0);
        push_each(actions, PerUpstream::Shutdown, &ids);
        assert(ids@.map_values(|i: usize| per_upstream(PerUpstream::Shutdown, i)) =~= shutdowns(
            ids@,
        ));
        self.live = all_false(self.count);
        self.phase = Phase::Draining;
    }

    /// The session's phase.
    pub fn phase(&self) -> (r: Phase)
        ensures
            r == self.stage(),
    {
        self.phase
    }

    /// The number of configured upstreams.
    pub fn upstream_count(&self) -> (r: usize)
        ensures
            r == self.upstreams(),
    {
        self.count
    }

    /// Whether the session waits for a client read: true exactly when it is
    /// active and no write of the latest chunk is outstanding.
    pub fn wants_client_read(&self) -> (r: bool)
        requires
            self.wf(),
        ensures
            r == self.awaits_client(),
    {
        self.phase == Phase::Active && !any_set(&self.pending)
    }

    /// Whether client bytes are still written to upstream `i`.
    pub fn is_live(&self, i: usize) -> (r: bool)
        requires
            self.wf(),
        ensures
            r == (i < self.upstreams() && self.live_set()[i as int]),
    {
        i < self.count && self.live[i]
    }

    /// Whether the session still holds an open socket to upstream `i`.
    pub fn is_open(&self, i: usize) -> (r: bool)
        requires
            self.wf(),
        ensures
            r == (i < self.upstreams() && self.open_set()[i as int]),
    {
        i < self.count && self.open[i]
    }
}

} // verus!
