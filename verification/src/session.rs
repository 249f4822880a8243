//! The sessions that a server knows, and the life of one of them.

use crate::protocol::{ApplicationServerManifest, SessionID};
use crate::random::RandomNumbers;
use std::collections::{HashMap, HashSet};
use vstd::prelude::*;
use vstd::std_specs::iter::IteratorSpec;

verus! {

broadcast use vstd::std_specs::hash::group_hash_axioms;

/// Where a session is in its life.
#[derive(Debug, Clone, Copy, PartialEq, Eq, Structural)]
pub enum RtunState {
    NotEstablished,
    Established,
    Closed,
    Suspended,
}

/// What a server keeps about a client, with `S` for a connection to the application server.
#[derive(Debug)]
pub struct ClientInfo<S> {
    pub session_id: SessionID,
    pub state: RtunState,
    pub application_stream: Option<S>,
    pub manifest: Option<ApplicationServerManifest>,
}

/// One stream, if there is one, is a clone of the other.
pub open spec fn stream_cloned<S: Clone>(from: Option<S>, to: Option<S>) -> bool {
    match (from, to) {
        (Some(a), Some(b)) => cloned(a, b),
        (None, None) => true,
        _ => false,
    }
}

impl<S: Clone> Clone for ClientInfo<S> {
    fn clone(&self) -> (res: Self)
        ensures
            res.session_id == self.session_id,
            res.state == self.state,
            res.manifest == self.manifest,
            stream_cloned(self.application_stream, res.application_stream),
    {
        let manifest: Option<ApplicationServerManifest> = match &self.manifest {
            Some(manifest) => Some(manifest.clone()),
            None => None,
        };
        ClientInfo {
            session_id: self.session_id,
            state: self.state,
            application_stream: self.application_stream.clone(),
            manifest,
        }
    }
}

impl<S> ClientInfo<S> {
    /// A session with no application server yet.
    pub open spec fn fresh(session_id: SessionID, state: RtunState) -> Self {
        ClientInfo { session_id, state, application_stream: None, manifest: None }
    }

    /// The session is the one asked for, and its connection was lost.
    pub open spec fn resumable(self, session_id: SessionID) -> bool {
        self.session_id == session_id && self.state == RtunState::Suspended
    }

    /// The same session in another state.
    pub open spec fn in_state(self, state: RtunState) -> Self {
        ClientInfo { state, ..self }
    }

    /// A session with no application server yet.
    pub fn new(session_id: SessionID, state: RtunState) -> (res: Self)
        ensures
            res == Self::fresh(session_id, state),
    {
        ClientInfo { session_id, state, application_stream: None, manifest: None }
    }

    /// Whether the session can be resumed under `session_id`.
    pub fn check_resumable(&self, session_id: &SessionID) -> (res: bool)
        ensures
            res == self.resumable(*session_id),
    {
        self.session_id == *session_id && self.state == RtunState::Suspended
    }

    /// Marks the connection of an established session as lost.
    pub fn suspend(&mut self)
        requires
            old(self).state == RtunState::Established,
        ensures
            *final(self) == old(self).in_state(RtunState::Suspended),
    {
        self.state = RtunState::Suspended;
    }

    /// Takes up a suspended session again.
    pub fn resume(&mut self)
        requires
            old(self).state == RtunState::Suspended,
        ensures
            *final(self) == old(self).in_state(RtunState::Established),
    {
        self.state = RtunState::Established;
    }

    /// Ends the session, and hands out the connection to the application server, if there is one,
    /// for the caller to shut down in both directions.
    pub fn close(&mut self) -> (stream: Option<&S>)
        ensures
            *final(self) == old(self).in_state(RtunState::Closed),
            match old(self).application_stream {
                Some(s) => stream matches Some(r) && *r == s,
                None => stream is None,
            },
    {
        self.state = RtunState::Closed;
        self.application_stream.as_ref()
    }
}

/// The sessions of a server by their numbers.
pub type SessionStore<S> = HashMap<SessionID, ClientInfo<S>>;

/// Whether `candidate` can name a new session.
pub fn accept_session_id(session_ids: &HashSet<SessionID>, candidate: SessionID) -> (res: Option<
    SessionID,
>)
    ensures
        res == if session_ids@.contains(candidate) {
            None
        } else {
            Some(candidate)
        },
{
    if session_ids.contains(&candidate) {
        None
    } else {
        Some(candidate)
    }
}

/// All of `numbers` name sessions already.
pub open spec fn all_taken(session_ids: Set<SessionID>, numbers: Seq<u64>) -> bool {
    forall|i: int| 0 <= i < numbers.len() ==> session_ids.contains(#[trigger] numbers[i])
}

/// `res` comes of drawing numbers until one is free, when a source that had given `before` has
/// given `after` at the end: it is the last number drawn, and all those drawn before it are taken.
/// It is `None` when as many numbers as can be counted were drawn and all of them are taken.
pub open spec fn drawn_until_free(
    session_ids: Set<SessionID>,
    before: Seq<u64>,
    after: Seq<u64>,
    res: Option<SessionID>,
) -> bool {
    let drawn = after.skip(before.len() as int);
    &&& before.is_prefix_of(after)
    &&& match res {
        Some(id) => {
            &&& drawn.len() > 0
            &&& drawn.last() == id
            &&& !session_ids.contains(id)
            &&& all_taken(session_ids, drawn.drop_last())
        },
        None => drawn.len() == u64::MAX && all_taken(session_ids, drawn),
    }
}

/// Who draws on after draws that gave no free number gets the first free number of all the draws
/// together.
pub proof fn law_drawing_on(
    session_ids: Set<SessionID>,
    before: Seq<u64>,
    between: Seq<u64>,
    after: Seq<u64>,
    id: SessionID,
)
    requires
        drawn_until_free(session_ids, before, between, None),
        drawn_until_free(session_ids, between, after, Some(id)),
    ensures
        drawn_until_free(session_ids, before, after, Some(id)),
{
    let first = between.skip(before.len() as int);
    let second = after.skip(between.len() as int);
    let drawn = after.skip(before.len() as int);
    assert(drawn =~= first + second);
    assert(drawn.drop_last() =~= first + second.drop_last());
}

/// Draws numbers until one is not in `session_ids`.
///
/// `None` means that `u64::MAX` draws gave no such number: the caller draws on by calling again.
pub fn new_session_id(session_ids: &HashSet<SessionID>, numbers: &mut RandomNumbers) -> (res:
    Option<SessionID>)
    ensures
        drawn_until_free(session_ids@, old(numbers)@, final(numbers)@, res),
{
    let mut draws: u64 = 0;
    while draws < u64::MAX
        invariant
            old(numbers)@.is_prefix_of(numbers@),
            numbers@.len() == old(numbers)@.len() + draws,
            all_taken(session_ids@, numbers@.skip(old(numbers)@.len() as int)),
        decreases u64::MAX - draws,
    {
        let ghost taken = numbers@.skip(old(numbers)@.len() as int);
        let candidate: u64 = numbers.next_u64();
        assert(numbers@.skip(old(numbers)@.len() as int) =~= taken.push(candidate));
        if let Some(id) = accept_session_id(session_ids, candidate) {
            assert(taken.push(candidate).drop_last() =~= taken);
            return Some(id);
        }
        draws = draws + 1;
    }
    None
}

/// The numbers of all sessions in `store`.
pub fn session_ids<S>(store: &SessionStore<S>) -> (ids: HashSet<SessionID>)
    ensures
        ids@ == store@.dom(),
{
    let mut ids: HashSet<SessionID> = HashSet::new();
    for id in keys: store.keys()
        invariant
            keys.seq().unref().to_set() == store@.dom(),
            ids@.subset_of(store@.dom()),
            forall|i: int| 0 <= i < keys.index() ==> ids@.contains(*#[trigger] keys.seq()[i]),
    {
        proof {
            assert(keys.seq().unref()[keys.index() as int] == *id);
            assert(keys.seq().unref().to_set().contains(*id));
        }
        ids.insert(*id);
    }
    assert(ids@ =~= store@.dom()) by {
        let listed = vstd::std_specs::hash::spec_keys_iter(store).remaining();
        assert forall|id: SessionID| store@.dom().contains(id) implies ids@.contains(id) by {
            assert(listed.unref().contains(id));
        }
    }
    ids
}

/// A new session `id` is added, established.
pub open spec fn opens<S>(
    before: Map<SessionID, ClientInfo<S>>,
    after: Map<SessionID, ClientInfo<S>>,
    id: SessionID,
) -> bool {
    &&& !before.contains_key(id)
    &&& after == before.insert(id, ClientInfo::fresh(id, RtunState::Established))
}

/// The established session `id` loses its connection.
pub open spec fn suspends<S>(
    before: Map<SessionID, ClientInfo<S>>,
    after: Map<SessionID, ClientInfo<S>>,
    id: SessionID,
) -> bool {
    &&& before.contains_key(id)
    &&& before[id].state == RtunState::Established
    &&& after == before.insert(id, before[id].in_state(RtunState::Suspended))
}

/// The suspended session `id` is taken up again.
pub open spec fn resumes<S>(
    before: Map<SessionID, ClientInfo<S>>,
    after: Map<SessionID, ClientInfo<S>>,
    id: SessionID,
) -> bool {
    &&& before.contains_key(id)
    &&& before[id].resumable(id)
    &&& after == before.insert(id, before[id].in_state(RtunState::Established))
}

/// The session `id` ends.
pub open spec fn closes<S>(
    before: Map<SessionID, ClientInfo<S>>,
    after: Map<SessionID, ClientInfo<S>>,
    id: SessionID,
) -> bool {
    &&& before.contains_key(id)
    &&& after == before.insert(id, before[id].in_state(RtunState::Closed))
}

/// The session `id`, which had no manifest, gets one.
pub open spec fn registers<S>(
    before: Map<SessionID, ClientInfo<S>>,
    after: Map<SessionID, ClientInfo<S>>,
    id: SessionID,
    manifest: ApplicationServerManifest,
) -> bool {
    &&& before.contains_key(id)
    &&& before[id].manifest is None
    &&& after == before.insert(id, ClientInfo { manifest: Some(manifest), ..before[id] })
}

/// The session `id`, which was not connected to its application server, gets connected.
pub open spec fn connects<S>(
    before: Map<SessionID, ClientInfo<S>>,
    after: Map<SessionID, ClientInfo<S>>,
    id: SessionID,
    stream: S,
) -> bool {
    &&& before.contains_key(id)
    &&& before[id].application_stream is None
    &&& after == before.insert(id, ClientInfo { application_stream: Some(stream), ..before[id] })
}

/// One of the things that can happen to the session `id`.
pub open spec fn session_step<S>(
    before: Map<SessionID, ClientInfo<S>>,
    after: Map<SessionID, ClientInfo<S>>,
    id: SessionID,
) -> bool {
    ||| opens(before, after, id)
    ||| suspends(before, after, id)
    ||| resumes(before, after, id)
    ||| closes(before, after, id)
    ||| exists|manifest: ApplicationServerManifest| #[trigger]
        registers(before, after, id, manifest)
    ||| exists|stream: S| #[trigger] connects(before, after, id, stream)
}

/// One of the things that can happen to the sessions of a server, or nothing.
pub open spec fn store_step<S>(
    before: Map<SessionID, ClientInfo<S>>,
    after: Map<SessionID, ClientInfo<S>>,
) -> bool {
    ||| after == before
    ||| exists|id: SessionID| #[trigger] session_step(before, after, id)
}

/// Every session is filed under its own number and has been established.
pub open spec fn store_wf<S>(store: Map<SessionID, ClientInfo<S>>) -> bool {
    forall|id: SessionID| #[trigger]
        store.contains_key(id) ==> {
            &&& store[id].session_id == id
            &&& store[id].state != RtunState::NotEstablished
        }
}

/// How a session may have changed: its state only along the arrows of its life, its manifest and
/// its application server only from absent to present.
pub open spec fn progressed<S>(before: ClientInfo<S>, after: ClientInfo<S>) -> bool {
    &&& after.session_id == before.session_id
    &&& before.manifest is Some ==> after.manifest == before.manifest
    &&& before.application_stream is Some ==> after.application_stream == before.application_stream
    &&& before.state == RtunState::Closed ==> after.state == RtunState::Closed
    &&& before.state == RtunState::NotEstablished ==> after.state == RtunState::NotEstablished
        || after.state == RtunState::Closed
}

/// The stores that a server goes through, each made from the one before it by one step.
pub open spec fn store_run<S>(trace: Seq<Map<SessionID, ClientInfo<S>>>) -> bool {
    forall|i: int| 0 <= i < trace.len() - 1 ==> store_step(#[trigger] trace[i], trace[i + 1])
}

/// A new session has the number and the state that it is given, and neither a manifest nor an
/// application server. A session put into another state has that state, and is otherwise the same.
/// Exactly the suspended session that goes by the number asked for can be resumed.
pub proof fn law_session_states<S>(info: ClientInfo<S>, id: SessionID, state: RtunState)
    ensures
        ({
            let fresh = ClientInfo::<S>::fresh(id, state);
            &&& fresh.session_id == id
            &&& fresh.state == state
            &&& fresh.manifest is None
            &&& fresh.application_stream is None
        }),
        info.in_state(state).state == state,
        info.in_state(state).session_id == info.session_id,
        info.in_state(state).manifest == info.manifest,
        info.in_state(state).application_stream == info.application_stream,
        info.resumable(id) <==> info.session_id == id && info.state == RtunState::Suspended,
{
}

/// A copy of a session has a stream exactly when the session has one, and then it is a clone of
/// that stream.
pub proof fn law_stream_copies<S: Clone>(from: Option<S>, to: Option<S>)
    ensures
        stream_cloned(from, to) <==> (from is Some <==> to is Some) && (from is Some ==> cloned(
            from->0,
            to->0,
        )),
{
}

/// A number for a new session is the last one drawn: no session has it, and a session has each one
/// that was drawn before it. Draws are given up only after `u64::MAX` of them, all taken. The draws
/// made before stay on record.
pub proof fn law_first_free_draw(
    session_ids: Set<SessionID>,
    before: Seq<u64>,
    after: Seq<u64>,
    id: SessionID,
)
    ensures
        drawn_until_free(session_ids, before, after, Some(id)) <==> {
            &&& before.len() < after.len()
            &&& forall|i: int| 0 <= i < before.len() ==> #[trigger] after[i] == before[i]
            &&& forall|i: int|
                before.len() <= i < after.len() - 1 ==> session_ids.contains(#[trigger] after[i])
            &&& !session_ids.contains(id)
            &&& after[after.len() - 1] == id
        },
        drawn_until_free(session_ids, before, after, None) <==> {
            &&& after.len() == before.len() + u64::MAX
            &&& forall|i: int| 0 <= i < before.len() ==> #[trigger] after[i] == before[i]
            &&& forall|i: int|
                before.len() <= i < after.len() ==> session_ids.contains(#[trigger] after[i])
        },
{
    let drawn = after.skip(before.len() as int);
    if before.len() <= after.len() {
        assert forall|i: int| before.len() <= i < after.len() implies #[trigger] after[i] == drawn[i
            - before.len()] by {}
        if drawn.len() > 0 {
            assert forall|i: int| before.len() <= i < after.len() - 1 implies #[trigger] after[i]
                == drawn.drop_last()[i - before.len()] by {}
        }
    }
}

/// Opening adds a session that was not there: it goes by its own number, is established, and has
/// neither a manifest nor an application server; all other sessions stay as they were.
pub proof fn law_opening<S>(
    before: Map<SessionID, ClientInfo<S>>,
    after: Map<SessionID, ClientInfo<S>>,
    id: SessionID,
)
    requires
        opens(before, after, id),
    ensures
        !before.contains_key(id),
        after.contains_key(id),
        after[id].session_id == id,
        after[id].state == RtunState::Established,
        after[id].manifest is None,
        after[id].application_stream is None,
        forall|other: SessionID|
            other != id ==> {
                &&& #[trigger] after.contains_key(other) <==> before.contains_key(other)
                &&& before.contains_key(other) ==> after[other] == before[other]
            },
{
}

/// Suspending takes an established session and changes its state to suspended, and nothing else.
pub proof fn law_suspending<S>(
    before: Map<SessionID, ClientInfo<S>>,
    after: Map<SessionID, ClientInfo<S>>,
    id: SessionID,
)
    requires
        suspends(before, after, id),
    ensures
        before.contains_key(id),
        before[id].state == RtunState::Established,
        after.contains_key(id),
        after[id].state == RtunState::Suspended,
        after[id].session_id == before[id].session_id,
        after[id].manifest == before[id].manifest,
        after[id].application_stream == before[id].application_stream,
        forall|other: SessionID|
            other != id ==> {
                &&& #[trigger] after.contains_key(other) <==> before.contains_key(other)
                &&& before.contains_key(other) ==> after[other] == before[other]
            },
{
}

/// Resuming takes a suspended session that goes by the number asked for, changes its state to
/// established, and changes nothing else.
pub proof fn law_resuming<S>(
    before: Map<SessionID, ClientInfo<S>>,
    after: Map<SessionID, ClientInfo<S>>,
    id: SessionID,
)
    requires
        resumes(before, after, id),
    ensures
        before.contains_key(id),
        before[id].session_id == id,
        before[id].state == RtunState::Suspended,
        after.contains_key(id),
        after[id].state == RtunState::Established,
        after[id].session_id == id,
        after[id].manifest == before[id].manifest,
        after[id].application_stream == before[id].application_stream,
        forall|other: SessionID|
            other != id ==> {
                &&& #[trigger] after.contains_key(other) <==> before.contains_key(other)
                &&& before.contains_key(other) ==> after[other] == before[other]
            },
{
}

/// Closing takes a session in any state and changes its state to closed, and nothing else.
pub proof fn law_closing<S>(
    before: Map<SessionID, ClientInfo<S>>,
    after: Map<SessionID, ClientInfo<S>>,
    id: SessionID,
)
    requires
        closes(before, after, id),
    ensures
        before.contains_key(id),
        after.contains_key(id),
        after[id].state == RtunState::Closed,
        after[id].session_id == before[id].session_id,
        after[id].manifest == before[id].manifest,
        after[id].application_stream == before[id].application_stream,
        forall|other: SessionID|
            other != id ==> {
                &&& #[trigger] after.contains_key(other) <==> before.contains_key(other)
                &&& before.contains_key(other) ==> after[other] == before[other]
            },
{
}

/// Registering gives a session that had no manifest the one that came, and changes nothing else.
pub proof fn law_registering<S>(
    before: Map<SessionID, ClientInfo<S>>,
    after: Map<SessionID, ClientInfo<S>>,
    id: SessionID,
    manifest: ApplicationServerManifest,
)
    requires
        registers(before, after, id, manifest),
    ensures
        before.contains_key(id),
        before[id].manifest is None,
        after.contains_key(id),
        after[id].manifest == Some(manifest),
        after[id].session_id == before[id].session_id,
        after[id].state == before[id].state,
        after[id].application_stream == before[id].application_stream,
        forall|other: SessionID|
            other != id ==> {
                &&& #[trigger] after.contains_key(other) <==> before.contains_key(other)
                &&& before.contains_key(other) ==> after[other] == before[other]
            },
{
}

/// Connecting gives a session that was not connected the stream that was made, and changes nothing
/// else.
pub proof fn law_connecting<S>(
    before: Map<SessionID, ClientInfo<S>>,
    after: Map<SessionID, ClientInfo<S>>,
    id: SessionID,
    stream: S,
)
    requires
        connects(before, after, id, stream),
    ensures
        before.contains_key(id),
        before[id].application_stream is None,
        after.contains_key(id),
        after[id].application_stream == Some(stream),
        after[id].session_id == before[id].session_id,
        after[id].state == before[id].state,
        after[id].manifest == before[id].manifest,
        forall|other: SessionID|
            other != id ==> {
                &&& #[trigger] after.contains_key(other) <==> before.contains_key(other)
                &&& before.contains_key(other) ==> after[other] == before[other]
            },
{
}

/// Whatever happens to a session is a step of the server, and so is nothing.
pub proof fn law_changes_are_steps<S>(
    before: Map<SessionID, ClientInfo<S>>,
    after: Map<SessionID, ClientInfo<S>>,
    id: SessionID,
    manifest: ApplicationServerManifest,
    stream: S,
)
    ensures
        store_step(before, before),
        opens(before, after, id) ==> store_step(before, after),
        suspends(before, after, id) ==> store_step(before, after),
        resumes(before, after, id) ==> store_step(before, after),
        closes(before, after, id) ==> store_step(before, after),
        registers(before, after, id, manifest) ==> store_step(before, after),
        connects(before, after, id, stream) ==> store_step(before, after),
{
    if {
        ||| opens(before, after, id)
        ||| suspends(before, after, id)
        ||| resumes(before, after, id)
        ||| closes(before, after, id)
        ||| registers(before, after, id, manifest)
        ||| connects(before, after, id, stream)
    } {
        assert(session_step(before, after, id));
    }
}

/// Whatever happens, sessions stay filed under their own numbers and established sessions never
/// go back to before.
pub proof fn law_step_keeps_store_wf<S>(
    before: Map<SessionID, ClientInfo<S>>,
    after: Map<SessionID, ClientInfo<S>>,
)
    requires
        store_wf(before),
        store_step(before, after),
    ensures
        store_wf(after),
{
}

/// Whatever happens, no session disappears, and each one progresses.
pub proof fn law_step_progresses<S>(
    before: Map<SessionID, ClientInfo<S>>,
    after: Map<SessionID, ClientInfo<S>>,
    id: SessionID,
)
    requires
        store_step(before, after),
        before.contains_key(id),
    ensures
        after.contains_key(id),
        progressed(before[id], after[id]),
{
}

/// Whatever happens concerns one session at most.
pub proof fn law_step_touches_one_session<S>(
    before: Map<SessionID, ClientInfo<S>>,
    after: Map<SessionID, ClientInfo<S>>,
)
    requires
        store_step(before, after),
    ensures
        exists|id: SessionID| #[trigger] after.remove(id) == before.remove(id),
{
    if after == before {
        assert(after.remove(0) == before.remove(0));
    } else {
        let changed = choose|id: SessionID| #[trigger] session_step(before, after, id);
        assert(after.remove(changed) =~= before.remove(changed));
    }
}

/// In every run of a server, a session that is there stays there and only progresses: a closed
/// session stays closed, and a manifest or an application server is never exchanged for another.
pub proof fn law_run_progresses<S>(
    trace: Seq<Map<SessionID, ClientInfo<S>>>,
    from: int,
    to: int,
    id: SessionID,
)
    requires
        store_run(trace),
        0 <= from <= to < trace.len(),
        trace[from].contains_key(id),
    ensures
        trace[to].contains_key(id),
        progressed(trace[from][id], trace[to][id]),
        trace[to][id].session_id == trace[from][id].session_id,
        trace[from][id].state == RtunState::Closed ==> trace[to][id].state == RtunState::Closed,
        trace[from][id].manifest is Some ==> trace[to][id].manifest == trace[from][id].manifest,
        trace[from][id].application_stream is Some ==> trace[to][id].application_stream
            == trace[from][id].application_stream,
    decreases to - from,
{
    if from < to {
        law_run_progresses(trace, from, to - 1, id);
        law_step_progresses(trace[to - 1], trace[to], id);
    }
}

/// In every run of a server that starts without sessions, sessions are filed under their own
/// numbers and none is found before its establishment.
pub proof fn law_run_keeps_store_wf<S>(trace: Seq<Map<SessionID, ClientInfo<S>>>, at: int)
    requires
        store_run(trace),
        0 <= at < trace.len(),
        trace[0] == Map::<SessionID, ClientInfo<S>>::empty(),
    ensures
        store_wf(trace[at]),
    decreases at,
{
    if at > 0 {
        law_run_keeps_store_wf(trace, at - 1);
        law_step_keeps_store_wf(trace[at - 1], trace[at]);
    }
}

/// Resuming undoes suspending.
pub proof fn law_resume_undoes_suspend<S>(
    before: Map<SessionID, ClientInfo<S>>,
    suspended: Map<SessionID, ClientInfo<S>>,
    after: Map<SessionID, ClientInfo<S>>,
    id: SessionID,
)
    requires
        suspends(before, suspended, id),
        resumes(suspended, after, id),
    ensures
        after == before,
{
    assert(after =~= before);
}

/// A session that is not suspended is neither opened nor resumed: nobody takes over a session
/// that still has its connection, and nobody revives one that has ended.
pub proof fn law_no_takeover<S>(
    before: Map<SessionID, ClientInfo<S>>,
    after: Map<SessionID, ClientInfo<S>>,
    id: SessionID,
)
    requires
        before.contains_key(id),
        before[id].state != RtunState::Suspended,
    ensures
        !resumes(before, after, id),
        !opens(before, after, id),
{
}

/// In every run of a server, a new session gets a number that no session had before, not even one
/// that has ended.
pub proof fn law_ids_are_not_reused<S>(
    trace: Seq<Map<SessionID, ClientInfo<S>>>,
    earlier: int,
    at: int,
    id: SessionID,
)
    requires
        store_run(trace),
        0 <= earlier <= at < trace.len() - 1,
        opens(trace[at], trace[at + 1], id),
    ensures
        !trace[earlier].contains_key(id),
{
    if trace[earlier].contains_key(id) {
        law_run_progresses(trace, earlier, at, id);
    }
}

} // verus!
