//! The decision core of the event loop: which stream or pending fetch to
//! poll next, how the tracked players change, and what is reported.
//!
//! The loop itself (polling streams and futures) is outside work; it asks
//! [`PlayerLoop::begin`] for the first step of a poll, performs each step,
//! hands the outcome back to the matching method, and stops at
//! [`Step::Finish`], whose value is the poll's result.
use vstd::prelude::*;

verus! {

/// The outcome of polling a stream or a future.
#[derive(Debug, Clone, Copy, PartialEq, Eq)]
pub enum PollOutcome<T> {
    /// Not ready yet.
    Pending,
    /// Ready with a value.
    Ready(T),
}

/// A player as the loop tracks it: its D-Bus bus name, by which players are
/// told apart, and a handle to it.
#[derive(Debug, Clone)]
pub struct PlayerEntry<H> {
    pub name: String,
    pub handle: H,
}

/// A player appearing on or leaving the bus.
#[derive(Debug, Clone)]
pub enum PlayerEvent<H> {
    Connected(PlayerEntry<H>),
    Disconnected(PlayerEntry<H>),
}

/// What the event loop reports.
#[derive(Debug, Clone)]
pub enum MprisEvent<H, Y, A> {
    /// A player appeared; its handle.
    Added(H),
    /// A player left; its bus name.
    Removed(String),
    /// A tracked property changed.
    PropertyChaned(A),
    /// The playback position of a player changed.
    PositionChanged(Y),
}

/// The report of a player event: a connection reports the player, a
/// disconnection its bus name.
pub open spec fn reported<H, Y, A>(event: PlayerEvent<H>) -> MprisEvent<H, Y, A> {
    match event {
        PlayerEvent::Connected(p) => MprisEvent::Added(p.handle),
        PlayerEvent::Disconnected(p) => MprisEvent::Removed(p.name),
    }
}

impl<H, Y, A> From<PlayerEvent<H>> for MprisEvent<H, Y, A> {
    /// The report of a player event.
    fn from(event: PlayerEvent<H>) -> (r: Self) {
        match event {
            PlayerEvent::Connected(p) => MprisEvent::Added(p.handle),
            PlayerEvent::Disconnected(p) => MprisEvent::Removed(p.name),
        }
    }
}

impl<H, Y, A> vstd::std_specs::convert::FromSpecImpl<PlayerEvent<H>> for MprisEvent<H, Y, A> {
    open spec fn obeys_from_spec() -> bool {
        true
    }

    open spec fn from_spec(event: PlayerEvent<H>) -> Self {
        reported(event)
    }
}

impl<H: Clone, Y, A> MprisEvent<H, Y, A> {
    /// The report of a borrowed player event: a connection reports a clone
    /// of the player's handle, a disconnection its bus name.
    pub fn from_player_event_ref(event: &PlayerEvent<H>) -> (r: Self)
        ensures
            reports(*event, r),
    {
        match event {
            PlayerEvent::Connected(p) => MprisEvent::Added(p.handle.clone()),
            PlayerEvent::Disconnected(p) => MprisEvent::Removed(p.name.clone()),
        }
    }
}

impl<H, Y: Clone, A> MprisEvent<H, Y, A> {
    /// The report of a borrowed change of playback position: a clone of it.
    pub fn from_position_ref(position: &Y) -> (r: Self)
        ensures
            r matches MprisEvent::PositionChanged(y) && cloned(*position, y),
    {
        MprisEvent::PositionChanged(position.clone())
    }
}

/// Keeps the players whose bus name differs from `name`.
pub open spec fn named_otherwise<H>(name: Seq<char>) -> spec_fn(PlayerEntry<H>) -> bool {
    |p: PlayerEntry<H>| p.name@ != name
}

/// The tracked players after a player event: a connected player is added
/// at the end; a disconnected one is dropped, with every other player of
/// the same bus name, and the rest keep their order.
pub open spec fn players_after<H>(players: Seq<PlayerEntry<H>>, event: PlayerEvent<H>) -> Seq<
    PlayerEntry<H>,
> {
    match event {
        PlayerEvent::Connected(p) => players.push(p),
        PlayerEvent::Disconnected(p) => players.filter(named_otherwise(p.name@)),
    }
}

/// Settles a polled fetch: a fetched value replaces `slot`.
///
/// Pending stays pending, a failed fetch gives `Ready(None)` and a
/// successful one `Ready(Some(()))`.
pub fn handle_pending<T, E>(polled: PollOutcome<Result<T, E>>, slot: &mut T) -> (r: PollOutcome<
    Option<()>,
>)
    ensures
        match polled {
            PollOutcome::Pending => r == PollOutcome::<Option<()>>::Pending && *final(slot)
                == *old(slot),
            PollOutcome::Ready(Err(_)) => r == PollOutcome::Ready(None::<()>) && *final(slot)
                == *old(slot),
            PollOutcome::Ready(Ok(v)) => r == PollOutcome::Ready(Some(())) && *final(slot) == v,
        },
{
    match polled {
        PollOutcome::Pending => PollOutcome::Pending,
        PollOutcome::Ready(Err(_)) => PollOutcome::Ready(None),
        PollOutcome::Ready(Ok(v)) => {
            *slot = v;
            PollOutcome::Ready(Some(()))
        },
    }
}

fn drop_player<H>(players: &mut Vec<PlayerEntry<H>>, name: &String)
    ensures
        final(players)@ == old(players)@.filter(named_otherwise(name@)),
{
    let ghost orig = players@;
    let mut rest: Vec<PlayerEntry<H>> = Vec::new();
    std::mem::swap(players, &mut rest);
    let ghost mut i: int = 0;
    while rest.len() > 0
        invariant
            0 <= i <= orig.len(),
            rest@ == orig.subrange(i, orig.len() as int),
            players@ == orig.take(i).filter(named_otherwise(name@)),
        decreases rest.len(),
    {
        let p = rest.remove(0);
        proof {
            assert(orig.take(i + 1).drop_last() =~= orig.take(i));
            assert(orig.take(i + 1).last() == p);
        }
        if !(p.name == *name) {
            players.push(p);
        }
        proof {
            reveal(Seq::filter);
            i = i + 1;
            assert(rest@ =~= orig.subrange(i, orig.len() as int));
        }
    }
    assert(orig.take(i) =~= orig);
}

/// What the loop does next within one poll.
#[derive(Debug)]
pub enum Step<H, Y, A> {
    /// Poll the pending fetch of position streams and settle it with
    /// [`handle_pending`].
    PollPositionFetch,
    /// Poll the pending fetch of property streams and settle it with
    /// [`handle_pending`].
    PollPropertyFetch,
    /// Poll the stream of player events.
    PollPlayers,
    /// Start fetching the position streams of the tracked players, poll the
    /// fetch once and settle it; the event is reported afterwards.
    StartPositionFetch(MprisEvent<H, Y, A>),
    /// Start fetching the property streams of the tracked players, poll the
    /// fetch once and settle it; the event is reported afterwards.
    StartPropertyFetch(MprisEvent<H, Y, A>),
    /// Poll the merged position streams.
    PollPositions,
    /// Poll the merged property streams.
    PollProperties,
    /// End the poll with this result.
    Finish(PollOutcome<Option<MprisEvent<H, Y, A>>>),
}

/// The decision state of the event loop: the tracked players, whether
/// positions are tracked, and which fetches of streams are under way.
pub struct PlayerLoop<H> {
    players: Vec<PlayerEntry<H>>,
    track_position: bool,
    position_fetch_pending: bool,
    property_fetch_pending: bool,
}

/// The abstract state of a [`PlayerLoop`].
pub struct PlayerLoopView<H> {
    pub players: Seq<PlayerEntry<H>>,
    pub track_position: bool,
    pub position_fetch_pending: bool,
    pub property_fetch_pending: bool,
}

impl<H> View for PlayerLoop<H> {
    type V = PlayerLoopView<H>;

    closed spec fn view(&self) -> PlayerLoopView<H> {
        PlayerLoopView {
            players: self.players@,
            track_position: self.track_position,
            position_fetch_pending: self.position_fetch_pending,
            property_fetch_pending: self.property_fetch_pending,
        }
    }
}

/// `event` reports the player event `from`: a connection reports a clone
/// of the player's handle, a disconnection the player's bus name.
pub open spec fn reports<H: Clone, Y, A>(from: PlayerEvent<H>, event: MprisEvent<H, Y, A>) -> bool {
    match from {
        PlayerEvent::Connected(p) => event matches MprisEvent::Added(h) && cloned(p.handle, h),
        PlayerEvent::Disconnected(p) => event == MprisEvent::<H, Y, A>::Removed(p.name),
    }
}

/// The first step of a poll: settle a pending fetch of position streams,
/// then one of property streams, then poll the players.
pub open spec fn first_step<H, Y, A>(s: PlayerLoopView<H>) -> Step<H, Y, A> {
    if s.position_fetch_pending {
        Step::PollPositionFetch
    } else if s.property_fetch_pending {
        Step::PollPropertyFetch
    } else {
        Step::PollPlayers
    }
}

/// State and step after the pending fetch of position streams was settled:
/// not ready ends the poll as pending, a failure ends the loop, a success
/// clears the fetch and goes on.
pub open spec fn after_position_fetch<H, Y, A>(
    s: PlayerLoopView<H>,
    settled: PollOutcome<Option<()>>,
) -> (PlayerLoopView<H>, Step<H, Y, A>) {
    match settled {
        PollOutcome::Pending => (s, Step::Finish(PollOutcome::Pending)),
        PollOutcome::Ready(None) => (s, Step::Finish(PollOutcome::Ready(None))),
        PollOutcome::Ready(Some(_)) => (
            PlayerLoopView { position_fetch_pending: false, ..s },
            if s.property_fetch_pending {
                Step::PollPropertyFetch
            } else {
                Step::PollPlayers
            },
        ),
    }
}

/// State and step after the pending fetch of property streams was settled.
pub open spec fn after_property_fetch<H, Y, A>(
    s: PlayerLoopView<H>,
    settled: PollOutcome<Option<()>>,
) -> (PlayerLoopView<H>, Step<H, Y, A>) {
    match settled {
        PollOutcome::Pending => (s, Step::Finish(PollOutcome::Pending)),
        PollOutcome::Ready(None) => (s, Step::Finish(PollOutcome::Ready(None))),
        PollOutcome::Ready(Some(_)) => (
            PlayerLoopView { property_fetch_pending: false, ..s },
            Step::PollPlayers,
        ),
    }
}

/// The state after the stream of player events was polled: an event
/// updates the tracked players and starts a fetch of position streams
/// (where positions are tracked) or else of property streams.
pub open spec fn state_after_players<H>(
    s: PlayerLoopView<H>,
    polled: PollOutcome<Option<PlayerEvent<H>>>,
) -> PlayerLoopView<H> {
    match polled {
        PollOutcome::Ready(Some(event)) => {
            let players = players_after(s.players, event);
            if s.track_position {
                PlayerLoopView { players, position_fetch_pending: true, ..s }
            } else {
                PlayerLoopView { players, property_fetch_pending: true, ..s }
            }
        },
        _ => s,
    }
}

/// The step after the stream of player events was polled: nothing ready
/// goes on to the position streams where positions are tracked and to the
/// property streams otherwise, the end of the stream ends the loop, and an
/// event starts a refresh of the streams that then reports it.
pub open spec fn step_after_players<H: Clone, Y, A>(
    s: PlayerLoopView<H>,
    polled: PollOutcome<Option<PlayerEvent<H>>>,
    step: Step<H, Y, A>,
) -> bool {
    match polled {
        PollOutcome::Pending => step == if s.track_position {
            Step::<H, Y, A>::PollPositions
        } else {
            Step::<H, Y, A>::PollProperties
        },
        PollOutcome::Ready(None) => step == Step::<H, Y, A>::Finish(PollOutcome::Ready(None)),
        PollOutcome::Ready(Some(from)) => if s.track_position {
            step matches Step::StartPositionFetch(e) && reports(from, e)
        } else {
            step matches Step::StartPropertyFetch(e) && reports(from, e)
        },
    }
}

/// State and step after a fetch of position streams started for a player
/// event was polled once: a failure ends the loop, a success clears the
/// fetch, and either way (but failure) a fetch of property streams starts.
pub open spec fn after_position_refresh<H, Y, A>(
    s: PlayerLoopView<H>,
    settled: PollOutcome<Option<()>>,
    event: MprisEvent<H, Y, A>,
) -> (PlayerLoopView<H>, Step<H, Y, A>) {
    match settled {
        PollOutcome::Ready(None) => (s, Step::Finish(PollOutcome::Ready(None))),
        PollOutcome::Ready(Some(_)) => (
            PlayerLoopView { position_fetch_pending: false, property_fetch_pending: true, ..s },
            Step::StartPropertyFetch(event),
        ),
        PollOutcome::Pending => (
            PlayerLoopView { property_fetch_pending: true, ..s },
            Step::StartPropertyFetch(event),
        ),
    }
}

/// State and step after a fetch of property streams started for a player
/// event was polled once: a failure ends the loop; otherwise the event is
/// reported, and a success clears the fetch.
pub open spec fn after_property_refresh<H, Y, A>(
    s: PlayerLoopView<H>,
    settled: PollOutcome<Option<()>>,
    event: MprisEvent<H, Y, A>,
) -> (PlayerLoopView<H>, Step<H, Y, A>) {
    match settled {
        PollOutcome::Ready(None) => (s, Step::Finish(PollOutcome::Ready(None))),
        PollOutcome::Ready(Some(_)) => (
            PlayerLoopView { property_fetch_pending: false, ..s },
            Step::Finish(PollOutcome::Ready(Some(event))),
        ),
        PollOutcome::Pending => (s, Step::Finish(PollOutcome::Ready(Some(event)))),
    }
}

/// The step after the merged position streams were polled: a position is
/// reported; where none is ready, or the streams are exhausted, the
/// property streams are polled next.
pub open spec fn after_positions<H, Y, A>(polled: PollOutcome<Option<Y>>) -> Step<H, Y, A> {
    match polled {
        PollOutcome::Ready(Some(y)) => Step::Finish(
            PollOutcome::Ready(Some(MprisEvent::PositionChanged(y))),
        ),
        _ => Step::PollProperties,
    }
}

/// The step after the merged property streams were polled: a change is
/// reported; where none is ready, or the streams are exhausted, the poll
/// ends as pending and the loop goes on.
pub open spec fn after_properties<H, Y, A>(polled: PollOutcome<Option<A>>) -> Step<H, Y, A> {
    match polled {
        PollOutcome::Ready(Some(a)) => Step::Finish(
            PollOutcome::Ready(Some(MprisEvent::PropertyChaned(a))),
        ),
        _ => Step::Finish(PollOutcome::Pending),
    }
}

/// How many more steps a poll takes at most from `step`: each step hands
/// on to one of lower rank, and [`Step::Finish`] alone has rank 0.
pub open spec fn step_rank<H, Y, A>(step: Step<H, Y, A>) -> nat {
    match step {
        Step::PollPositionFetch => 5,
        Step::PollPropertyFetch => 4,
        Step::PollPlayers => 3,
        Step::StartPositionFetch(_) => 2,
        Step::PollPositions => 2,
        Step::StartPropertyFetch(_) => 1,
        Step::PollProperties => 1,
        Step::Finish(_) => 0,
    }
}

/// What building a loop does next, once the property streams of the
/// players were fetched (which comes first).
#[derive(Debug)]
pub enum Setup<P, Q, E> {
    /// Fetch the position streams of the players; the fetched property
    /// streams are carried along.
    FetchPositions(P),
    /// The streams the loop starts with: the property streams and, where
    /// positions are tracked, the position streams; or the first failure.
    Done(Result<(P, Option<Q>), E>),
}

/// The setup step after the property streams were fetched: a failure ends
/// the setup with it; otherwise the position streams are fetched where
/// positions are tracked, and the setup is done where they are not.
pub open spec fn after_property_setup<P, Q, E>(track_position: bool, fetched: Result<P, E>) -> Setup<
    P,
    Q,
    E,
> {
    match fetched {
        Err(e) => Setup::Done(Err(e)),
        Ok(p) => if track_position {
            Setup::FetchPositions(p)
        } else {
            Setup::Done(Ok((p, None)))
        },
    }
}

/// The setup step after the position streams were fetched: done, with both
/// sets of streams or with the failure.
pub open spec fn after_position_setup<P, Q, E>(properties: P, fetched: Result<Q, E>) -> Setup<
    P,
    Q,
    E,
> {
    match fetched {
        Err(e) => Setup::Done(Err(e)),
        Ok(q) => Setup::Done(Ok((properties, Some(q)))),
    }
}

impl<H: Clone> PlayerLoop<H> {
    /// A loop over the given players, with no fetch under way.
    pub fn new(players: Vec<PlayerEntry<H>>, track_position: bool) -> (r: Self)
        ensures
            r@ == (PlayerLoopView {
                players: players@,
                track_position,
                position_fetch_pending: false,
                property_fetch_pending: false,
            }),
    {
        PlayerLoop {
            players,
            track_position,
            position_fetch_pending: false,
            property_fetch_pending: false,
        }
    }

    /// The tracked players, in the order they were added.
    pub fn players(&self) -> (r: &Vec<PlayerEntry<H>>)
        ensures
            r@ == self@.players,
    {
        &self.players
    }

    /// Whether playback positions are tracked.
    pub fn track_position(&self) -> (r: bool)
        ensures
            r == self@.track_position,
    {
        self.track_position
    }

    /// Goes on building the loop with the fetched property streams.
    pub fn after_property_setup<P, Q, E>(&self, fetched: Result<P, E>) -> (r: Setup<P, Q, E>)
        ensures
            r == after_property_setup::<P, Q, E>(self@.track_position, fetched),
    {
        match fetched {
            Err(e) => Setup::Done(Err(e)),
            Ok(p) => if self.track_position {
                Setup::FetchPositions(p)
            } else {
                Setup::Done(Ok((p, None)))
            },
        }
    }

    /// Finishes building the loop with the fetched position streams and the
    /// property streams that [`Setup::FetchPositions`] carried.
    pub fn after_position_setup<P, Q, E>(&self, properties: P, fetched: Result<Q, E>) -> (r: Setup<
        P,
        Q,
        E,
    >)
        ensures
            r == after_position_setup(properties, fetched),
    {
        match fetched {
            Err(e) => Setup::Done(Err(e)),
            Ok(q) => Setup::Done(Ok((properties, Some(q)))),
        }
    }

    /// The first step of a poll.
    pub fn begin<Y, A>(&self) -> (r: Step<H, Y, A>)
        ensures
            r == first_step::<H, Y, A>(self@),
            step_rank(r) <= step_rank(Step::<H, Y, A>::PollPositionFetch),
    {
        if self.position_fetch_pending {
            Step::PollPositionFetch
        } else if self.property_fetch_pending {
            Step::PollPropertyFetch
        } else {
            Step::PollPlayers
        }
    }

    /// Goes on after [`Step::PollPositionFetch`] with the settled fetch.
    pub fn after_position_fetch<Y, A>(&mut self, settled: PollOutcome<Option<()>>) -> (r: Step<
        H,
        Y,
        A,
    >)
        ensures
            (final(self)@, r) == after_position_fetch::<H, Y, A>(old(self)@, settled),
            step_rank(r) < step_rank(Step::<H, Y, A>::PollPositionFetch),
    {
        match settled {
            PollOutcome::Pending => Step::Finish(PollOutcome::Pending),
            PollOutcome::Ready(None) => Step::Finish(PollOutcome::Ready(None)),
            PollOutcome::Ready(Some(_)) => {
                self.position_fetch_pending = false;
                if self.property_fetch_pending {
                    Step::PollPropertyFetch
                } else {
                    Step::PollPlayers
                }
            },
        }
    }

    /// Goes on after [`Step::PollPropertyFetch`] with the settled fetch.
    pub fn after_property_fetch<Y, A>(&mut self, settled: PollOutcome<Option<()>>) -> (r: Step<
        H,
        Y,
        A,
    >)
        ensures
            (final(self)@, r) == after_property_fetch::<H, Y, A>(old(self)@, settled),
            step_rank(r) < step_rank(Step::<H, Y, A>::PollPropertyFetch),
    {
        match settled {
            PollOutcome::Pending => Step::Finish(PollOutcome::Pending),
            PollOutcome::Ready(None) => Step::Finish(PollOutcome::Ready(None)),
            PollOutcome::Ready(Some(_)) => {
                self.property_fetch_pending = false;
                Step::PollPlayers
            },
        }
    }

    /// Goes on after [`Step::PollPlayers`] with what the stream of player
    /// events gave.
    pub fn after_players<Y, A>(&mut self, polled: PollOutcome<Option<PlayerEvent<H>>>) -> (r: Step<
        H,
        Y,
        A,
    >)
        ensures
            final(self)@ == state_after_players(old(self)@, polled),
            step_after_players(old(self)@, polled, r),
            step_rank(r) < step_rank(Step::<H, Y, A>::PollPlayers),
    {
        match polled {
            PollOutcome::Pending => if self.track_position {
                Step::PollPositions
            } else {
                Step::PollProperties
            },
            PollOutcome::Ready(None) => Step::Finish(PollOutcome::Ready(None)),
            PollOutcome::Ready(Some(from)) => {
                let event = MprisEvent::from_player_event_ref(&from);
                match from {
                    PlayerEvent::Connected(p) => self.players.push(p),
                    PlayerEvent::Disconnected(p) => drop_player(&mut self.players, &p.name),
                }
                if self.track_position {
                    self.position_fetch_pending = true;
                    Step::StartPositionFetch(event)
                } else {
                    self.property_fetch_pending = true;
                    Step::StartPropertyFetch(event)
                }
            },
        }
    }

    /// Goes on after [`Step::StartPositionFetch`] with the settled fetch
    /// and the event that step carried.
    pub fn after_position_refresh<Y, A>(
        &mut self,
        settled: PollOutcome<Option<()>>,
        event: MprisEvent<H, Y, A>,
    ) -> (r: Step<H, Y, A>)
        ensures
            (final(self)@, r) == after_position_refresh(old(self)@, settled, event),
            step_rank(r) < step_rank(Step::StartPositionFetch(event)),
    {
        match settled {
            PollOutcome::Ready(None) => Step::Finish(PollOutcome::Ready(None)),
            PollOutcome::Ready(Some(_)) => {
                self.position_fetch_pending = false;
                self.property_fetch_pending = true;
                Step::StartPropertyFetch(event)
            },
            PollOutcome::Pending => {
                self.property_fetch_pending = true;
                Step::StartPropertyFetch(event)
            },
        }
    }

    /// Goes on after [`Step::StartPropertyFetch`] with the settled fetch
    /// and the event that step carried.
    pub fn after_property_refresh<Y, A>(
        &mut self,
        settled: PollOutcome<Option<()>>,
        event: MprisEvent<H, Y, A>,
    ) -> (r: Step<H, Y, A>)
        ensures
            (final(self)@, r) == after_property_refresh(old(self)@, settled, event),
            step_rank(r) < step_rank(Step::StartPropertyFetch(event)),
    {
        match settled {
            PollOutcome::Ready(None) => Step::Finish(PollOutcome::Ready(None)),
            PollOutcome::Ready(Some(_)) => {
                self.property_fetch_pending = false;
                Step::Finish(PollOutcome::Ready(Some(event)))
            },
            PollOutcome::Pending => Step::Finish(PollOutcome::Ready(Some(event))),
        }
    }

    /// Goes on after [`Step::PollPositions`] with what the merged position
    /// streams gave.
    pub fn after_positions<Y, A>(&self, polled: PollOutcome<Option<Y>>) -> (r: Step<H, Y, A>)
        ensures
            r == after_positions::<H, Y, A>(polled),
            step_rank(r) < step_rank(Step::<H, Y, A>::PollPositions),
    {
        match polled {
            PollOutcome::Ready(Some(y)) => Step::Finish(
                PollOutcome::Ready(Some(MprisEvent::PositionChanged(y))),
            ),
            _ => Step::PollProperties,
        }
    }

    /// Ends the poll after [`Step::PollProperties`] with what the merged
    /// property streams gave.
    pub fn after_properties<Y, A>(&self, polled: PollOutcome<Option<A>>) -> (r: Step<H, Y, A>)
        ensures
            r == after_properties::<H, Y, A>(polled),
            step_rank(r) < step_rank(Step::<H, Y, A>::PollProperties),
    {
        match polled {
            PollOutcome::Ready(Some(a)) => Step::Finish(
                PollOutcome::Ready(Some(MprisEvent::PropertyChaned(a))),
            ),
            _ => Step::Finish(PollOutcome::Pending),
        }
    }
}

/// Every subscription in `results` succeeded.
pub open spec fn all_ok<S, E>(results: Seq<Result<S, E>>) -> bool {
    forall|i: int| 0 <= i < results.len() ==> #[trigger] results[i] is Ok
}

/// The streams of successful subscriptions, in order.
pub open spec fn ok_values<S, E>(results: Seq<Result<S, E>>) -> Seq<S> {
    results.map_values(|r: Result<S, E>| r->Ok_0)
}

/// The streams kept of the subscriptions of several properties: those of
/// each property whose subscriptions all succeeded, property after property.
pub open spec fn kept_streams<S, E>(per_property: Seq<Vec<Result<S, E>>>) -> Seq<S>
    decreases per_property.len(),
{
    if per_property.len() == 0 {
        Seq::empty()
    } else {
        let last = per_property.last()@;
        kept_streams(per_property.drop_last()) + if all_ok(last) {
            ok_values(last)
        } else {
            Seq::empty()
        }
    }
}

/// The outcome of gathering subscriptions in order: the streams of all of
/// them where each succeeded, else the first failure.
pub open spec fn collected<S, E>(results: Seq<Result<S, E>>) -> Result<Seq<S>, E>
    decreases results.len(),
{
    if results.len() == 0 {
        Ok(Seq::empty())
    } else {
        match results[0] {
            Err(e) => Err(e),
            Ok(s) => match collected(results.drop_first()) {
                Ok(rest) => Ok(seq![s] + rest),
                Err(e) => Err(e),
            },
        }
    }
}

/// `streams` put in front of a gathering outcome.
pub open spec fn prepended<S, E>(streams: Seq<S>, outcome: Result<Seq<S>, E>) -> Result<
    Seq<S>,
    E,
> {
    match outcome {
        Ok(rest) => Ok(streams + rest),
        Err(e) => Err(e),
    }
}

/// The abstract value of a gathering outcome.
pub open spec fn outcome_view<S, E>(r: Result<Vec<S>, E>) -> Result<Seq<S>, E> {
    match r {
        Ok(v) => Ok(v@),
        Err(e) => Err(e),
    }
}

/// A gathering succeeds exactly where every subscription did, and then
/// yields their streams in order.
pub proof fn lemma_collected_ok<S, E>(results: Seq<Result<S, E>>)
    ensures
        collected(results) is Ok <==> all_ok(results),
        all_ok(results) ==> collected(results) == Ok::<Seq<S>, E>(ok_values(results)),
    decreases results.len(),
{
    if results.len() > 0 {
        let rest = results.drop_first();
        lemma_collected_ok(rest);
        if all_ok(results) {
            assert forall|i: int| 0 <= i < rest.len() implies #[trigger] rest[i] is Ok by {
                assert(results[i + 1] is Ok);
            }
            assert(ok_values(results) =~= seq![results[0]->Ok_0] + ok_values(rest));
        } else {
            let k = choose|k: int| 0 <= k < results.len() && !(#[trigger] results[k] is Ok);
            if k > 0 {
                assert(!(rest[k - 1] is Ok));
            }
        }
    } else {
        assert(ok_values(results) =~= Seq::<S>::empty());
    }
}

/// Gathers the streams of several subscriptions: all of them where every
/// subscription succeeded, else the first failure.
pub fn collect_streams<S, E>(results: Vec<Result<S, E>>) -> (r: Result<Vec<S>, E>)
    ensures
        outcome_view(r) == collected(results@),
{
    let ghost orig = results@;
    let mut rest = results;
    let mut streams: Vec<S> = Vec::new();
    assert(Seq::<S>::empty() + collected(orig)->Ok_0 =~= collected(orig)->Ok_0);
    while rest.len() > 0
        invariant
            orig == results@,
            collected(orig) == prepended(streams@, collected(rest@)),
        decreases rest.len(),
    {
        let ghost before = rest@;
        let ghost old_streams = streams@;
        let first = rest.remove(0);
        proof {
            assert(rest@ =~= before.drop_first());
        }
        match first {
            Ok(s) => {
                streams.push(s);
                proof {
                    if collected(rest@) is Ok {
                        let tail = collected(rest@)->Ok_0;
                        assert(old_streams + (seq![s] + tail) =~= streams@ + tail);
                    }
                }
            },
            Err(e) => {
                return Err(e);
            },
        }
    }
    assert(streams@ + Seq::<S>::empty() =~= streams@);
    Ok(streams)
}

/// Gathers the streams of the tracked properties: for each property the
/// streams of all its subscriptions, where every one succeeded; a property
/// with a failed subscription contributes nothing. Never fails.
pub fn merge_property_streams<S, E>(per_property: Vec<Vec<Result<S, E>>>) -> (r: Vec<S>)
    ensures
        r@ == kept_streams(per_property@),
{
    let ghost orig = per_property@;
    let mut rest = per_property;
    let mut merged: Vec<S> = Vec::new();
    let ghost mut i: int = 0;
    while rest.len() > 0
        invariant
            0 <= i <= orig.len(),
            rest@ == orig.subrange(i, orig.len() as int),
            merged@ == kept_streams(orig.take(i)),
        decreases rest.len(),
    {
        let subscriptions = rest.remove(0);
        let ghost subs = subscriptions@;
        proof {
            assert(orig.take(i + 1).drop_last() =~= orig.take(i));
            assert(orig.take(i + 1).last()@ == subs);
        }
        proof {
            lemma_collected_ok(subs);
        }
        match collect_streams(subscriptions) {
            Ok(mut streams) => {
                merged.append(&mut streams);
            },
            Err(_) => {},
        }
        proof {
            i = i + 1;
            assert(rest@ =~= orig.subrange(i, orig.len() as int));
            assert(merged@ =~= kept_streams(orig.take(i)));
        }
    }
    assert(orig.take(i) =~= orig);
    merged
}

/// After a player disconnects, no tracked player has its bus name, every
/// tracked player of another name is still tracked, and none is added.
pub proof fn lemma_disconnected_player_untracked<H>(players: Seq<PlayerEntry<H>>, p: PlayerEntry<H>)
    ensures
        ({
            let after = players_after(players, PlayerEvent::Disconnected(p));
            &&& forall|i: int| 0 <= i < after.len() ==> #[trigger] after[i].name@ != p.name@
            &&& forall|i: int|
                0 <= i < players.len() && players[i].name@ != p.name@ ==> after.contains(
                    #[trigger] players[i],
                )
            &&& forall|q: PlayerEntry<H>| after.contains(q) ==> players.contains(q)
        }),
{
    let pred = named_otherwise::<H>(p.name@);
    let after = players.filter(pred);
    broadcast use vstd::seq_lib::group_filter_ensures, Seq::lemma_filter_contains_rev;

    assert forall|i: int| 0 <= i < after.len() implies #[trigger] after[i].name@ != p.name@ by {
        assert(pred(after[i]));
    }
    assert forall|i: int| 0 <= i < players.len() && players[i].name@ != p.name@ implies after.contains(
        #[trigger] players[i],
    ) by {
        assert(pred(players[i]));
    }
}

/// After a player connects it is tracked, as the last of the tracked
/// players, and the players tracked before are kept in order.
pub proof fn lemma_connected_player_tracked<H>(players: Seq<PlayerEntry<H>>, p: PlayerEntry<H>)
    ensures
        ({
            let after = players_after(players, PlayerEvent::Connected(p));
            &&& after.len() == players.len() + 1
            &&& after.last() == p
            &&& after.take(players.len() as int) == players
        }),
{
    assert(players.push(p).take(players.len() as int) =~= players);
}

/// A disconnection of a player whose bus name is not tracked changes
/// nothing.
pub proof fn lemma_disconnect_untracked_is_noop<H>(players: Seq<PlayerEntry<H>>, p: PlayerEntry<H>)
    requires
        forall|i: int| 0 <= i < players.len() ==> #[trigger] players[i].name@ != p.name@,
    ensures
        players_after(players, PlayerEvent::Disconnected(p)) == players,
    decreases players.len(),
{
    reveal(Seq::filter);
    if players.len() > 0 {
        lemma_disconnect_untracked_is_noop(players.drop_last(), p);
        assert(players.drop_last().push(players.last()) =~= players);
    }
}

/// A player that connects and then disconnects leaves the tracked players
/// as they were, where no tracked player had its bus name.
pub proof fn lemma_connect_then_disconnect<H>(
    players: Seq<PlayerEntry<H>>,
    p: PlayerEntry<H>,
    q: PlayerEntry<H>,
)
    requires
        q.name@ == p.name@,
        forall|i: int| 0 <= i < players.len() ==> #[trigger] players[i].name@ != p.name@,
    ensures
        players_after(
            players_after(players, PlayerEvent::Connected(p)),
            PlayerEvent::Disconnected(q),
        ) == players,
{
    reveal(Seq::filter);
    let pushed = players.push(p);
    assert(pushed.drop_last() =~= players);
    lemma_disconnect_untracked_is_noop(players, q);
}

/// A step that has nothing to do with positions: it neither polls nor
/// fetches position streams, and reports no position.
pub open spec fn position_free<H, Y, A>(step: Step<H, Y, A>) -> bool {
    match step {
        Step::PollPositionFetch => false,
        Step::StartPositionFetch(_) => false,
        Step::PollPositions => false,
        Step::StartPropertyFetch(e) => !(e is PositionChanged),
        Step::Finish(PollOutcome::Ready(Some(e))) => !(e is PositionChanged),
        _ => true,
    }
}

/// Positions are untracked and no fetch of position streams is under way,
/// as in every loop built with positions untracked.
pub open spec fn positions_untracked<H>(s: PlayerLoopView<H>) -> bool {
    !s.track_position && !s.position_fetch_pending
}

/// A loop built with positions untracked never fetches, polls or reports
/// positions: its setup fetches no position streams, and every step it can
/// reach from such a state keeps positions untracked and is position-free.
pub proof fn lemma_untracked_positions_never_reported<H: Clone, Y, A, P, Q, E>(
    s: PlayerLoopView<H>,
    settled: PollOutcome<Option<()>>,
    polled_players: PollOutcome<Option<PlayerEvent<H>>>,
    polled_properties: PollOutcome<Option<A>>,
    event: MprisEvent<H, Y, A>,
    step: Step<H, Y, A>,
    fetched: Result<P, E>,
)
    requires
        positions_untracked(s),
        step_after_players(s, polled_players, step),
        !(event is PositionChanged),
    ensures
        !(after_property_setup::<P, Q, E>(false, fetched) is FetchPositions),
        position_free(first_step::<H, Y, A>(s)),
        positions_untracked(after_property_fetch::<H, Y, A>(s, settled).0),
        position_free(after_property_fetch::<H, Y, A>(s, settled).1),
        positions_untracked(state_after_players(s, polled_players)),
        position_free(step),
        positions_untracked(after_property_refresh(s, settled, event).0),
        position_free(after_property_refresh(s, settled, event).1),
        position_free(after_properties::<H, Y, A>(polled_properties)),
{
}

/// What a poll gives while no fetch is under way and no player event is
/// ready: a ready position where positions are tracked, else a ready
/// property change, else pending.
pub open spec fn idle_poll_result<H, Y, A>(
    track_position: bool,
    polled_positions: PollOutcome<Option<Y>>,
    polled_properties: PollOutcome<Option<A>>,
) -> PollOutcome<Option<MprisEvent<H, Y, A>>> {
    match (track_position, polled_positions, polled_properties) {
        (true, PollOutcome::Ready(Some(y)), _) => PollOutcome::Ready(
            Some(MprisEvent::PositionChanged(y)),
        ),
        (_, _, PollOutcome::Ready(Some(a))) => PollOutcome::Ready(
            Some(MprisEvent::PropertyChaned(a)),
        ),
        _ => PollOutcome::Pending,
    }
}

/// While no fetch is under way and no player event is ready, a poll goes
/// from the players to the positions (where tracked) and to the properties,
/// and ends with [`idle_poll_result`]: it reports what is ready and
/// otherwise keeps waiting; it never ends the loop.
pub proof fn lemma_idle_poll<H: Clone, Y, A>(
    s: PlayerLoopView<H>,
    players_step: Step<H, Y, A>,
    polled_positions: PollOutcome<Option<Y>>,
    polled_properties: PollOutcome<Option<A>>,
)
    requires
        !s.position_fetch_pending,
        !s.property_fetch_pending,
        step_after_players(s, PollOutcome::Pending, players_step),
    ensures
        first_step::<H, Y, A>(s) == Step::<H, Y, A>::PollPlayers,
        state_after_players(s, PollOutcome::Pending) == s,
        ({
            let last = if players_step is PollPositions && after_positions::<H, Y, A>(
                polled_positions,
            ) is Finish {
                after_positions::<H, Y, A>(polled_positions)
            } else {
                after_properties::<H, Y, A>(polled_properties)
            };
            &&& s.track_position ==> players_step is PollPositions
            &&& !s.track_position ==> players_step is PollProperties
            &&& last == Step::Finish(idle_poll_result::<H, Y, A>(
                s.track_position,
                polled_positions,
                polled_properties,
            ))
            &&& !(last matches Step::Finish(PollOutcome::Ready(None)))
        }),
{
}

/// Every poll reaches [`Step::Finish`]: its first step has rank at most 5,
/// every step hands on to one of lower rank, and only `Finish` has rank 0;
/// so a poll ends within five steps after the first.
pub proof fn lemma_poll_reaches_finish<H: Clone, Y, A>(
    s: PlayerLoopView<H>,
    settled: PollOutcome<Option<()>>,
    polled_players: PollOutcome<Option<PlayerEvent<H>>>,
    players_step: Step<H, Y, A>,
    polled_positions: PollOutcome<Option<Y>>,
    polled_properties: PollOutcome<Option<A>>,
    event: MprisEvent<H, Y, A>,
    step: Step<H, Y, A>,
)
    requires
        step_after_players(s, polled_players, players_step),
    ensures
        step_rank(first_step::<H, Y, A>(s)) <= 5,
        step_rank(after_position_fetch::<H, Y, A>(s, settled).1) < step_rank(
            Step::<H, Y, A>::PollPositionFetch,
        ),
        step_rank(after_property_fetch::<H, Y, A>(s, settled).1) < step_rank(
            Step::<H, Y, A>::PollPropertyFetch,
        ),
        step_rank(players_step) < step_rank(Step::<H, Y, A>::PollPlayers),
        step_rank(after_position_refresh(s, settled, event).1) < step_rank(
            Step::StartPositionFetch(event),
        ),
        step_rank(after_property_refresh(s, settled, event).1) < step_rank(
            Step::StartPropertyFetch(event),
        ),
        step_rank(after_positions::<H, Y, A>(polled_positions)) < step_rank(
            Step::<H, Y, A>::PollPositions,
        ),
        step_rank(after_properties::<H, Y, A>(polled_properties)) < step_rank(
            Step::<H, Y, A>::PollProperties,
        ),
        step_rank(step) == 0 <==> step is Finish,
{
}

/// A poll first settles a fetch of position streams that is under way,
/// then one of property streams, and polls the players only when no fetch
/// is under way.
pub proof fn lemma_first_step_settles_fetches<H, Y, A>(s: PlayerLoopView<H>)
    ensures
        s.position_fetch_pending ==> first_step::<H, Y, A>(s) == Step::<H, Y, A>::PollPositionFetch,
        !s.position_fetch_pending && s.property_fetch_pending ==> first_step::<H, Y, A>(s)
            == Step::<H, Y, A>::PollPropertyFetch,
        !s.position_fetch_pending && !s.property_fetch_pending ==> first_step::<H, Y, A>(s)
            == Step::<H, Y, A>::PollPlayers,
{
}

/// A fetch of position streams that settled successfully is no longer under
/// way; nothing else of the state changes, and the poll goes on to the
/// property fetch if one is under way, else to the players; so the next poll
/// does not settle that fetch again.
pub proof fn lemma_settled_position_fetch_cleared<H, Y, A>(s: PlayerLoopView<H>, x: ())
    ensures
        ({
            let (t, step) = after_position_fetch::<H, Y, A>(s, PollOutcome::Ready(Some(x)));
            &&& !t.position_fetch_pending
            &&& t.players == s.players
            &&& t.track_position == s.track_position
            &&& t.property_fetch_pending == s.property_fetch_pending
            &&& step == if s.property_fetch_pending {
                Step::<H, Y, A>::PollPropertyFetch
            } else {
                Step::<H, Y, A>::PollPlayers
            }
            &&& !s.property_fetch_pending ==> first_step::<H, Y, A>(t) == Step::<H, Y, A>::PollPlayers
        }),
{
}

/// A fetch of property streams that settled successfully is no longer under
/// way, and the poll goes on to the players.
pub proof fn lemma_settled_property_fetch_cleared<H, Y, A>(s: PlayerLoopView<H>, x: ())
    ensures
        ({
            let (t, step) = after_property_fetch::<H, Y, A>(s, PollOutcome::Ready(Some(x)));
            &&& !t.property_fetch_pending
            &&& t.players == s.players
            &&& t.track_position == s.track_position
            &&& t.position_fetch_pending == s.position_fetch_pending
            &&& step == Step::<H, Y, A>::PollPlayers
        }),
{
}

/// A property all of whose subscriptions succeeded contributes every one of
/// its streams, in order, after those of the earlier properties; a property
/// with a failed subscription contributes none.
pub proof fn lemma_kept_streams_push<S, E>(
    per_property: Seq<Vec<Result<S, E>>>,
    subscriptions: Vec<Result<S, E>>,
)
    ensures
        ({
            let before = kept_streams(per_property);
            let after = kept_streams(per_property.push(subscriptions));
            let subs = subscriptions@;
            &&& (forall|i: int| 0 <= i < subs.len() ==> #[trigger] subs[i] is Ok) ==> {
                &&& after.len() == before.len() + subs.len()
                &&& forall|i: int| 0 <= i < before.len() ==> #[trigger] after[i] == before[i]
                &&& forall|i: int|
                    0 <= i < subs.len() ==> #[trigger] after[before.len() + i] == subs[i]->Ok_0
            }
            &&& (exists|i: int| 0 <= i < subs.len() && #[trigger] subs[i] is Err) ==> after
                == before
        }),
{
    let subs = subscriptions@;
    let pushed = per_property.push(subscriptions);
    assert(pushed.drop_last() =~= per_property);
    if exists|i: int| 0 <= i < subs.len() && #[trigger] subs[i] is Err {
        let k = choose|i: int| 0 <= i < subs.len() && #[trigger] subs[i] is Err;
        assert(!all_ok(subs));
        assert(kept_streams(pushed) =~= kept_streams(per_property));
    }
}

/// Merging the subscriptions of a single property whose subscriptions all
/// succeeded gives exactly their streams, one per player, in order.
pub proof fn lemma_kept_streams_single<S, E>(subscriptions: Vec<Result<S, E>>)
    requires
        forall|i: int| 0 <= i < subscriptions@.len() ==> #[trigger] subscriptions@[i] is Ok,
    ensures
        kept_streams(seq![subscriptions]).len() == subscriptions@.len(),
        forall|i: int|
            0 <= i < subscriptions@.len() ==> #[trigger] kept_streams(seq![subscriptions])[i]
                == subscriptions@[i]->Ok_0,
{
    lemma_kept_streams_push(Seq::<Vec<Result<S, E>>>::empty(), subscriptions);
    assert(Seq::<Vec<Result<S, E>>>::empty().push(subscriptions) =~= seq![subscriptions]);
    assert(kept_streams(Seq::<Vec<Result<S, E>>>::empty()) =~= Seq::<S>::empty());
}

} // verus!
