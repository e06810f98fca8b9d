use vstd::prelude::*;
use crate::diff::{DiffEmitter, TrackKey};
use crate::media::{
    is_repeat_mode_name, repeat_mode_of, AutoRepeatMode, SeekPosition, TrackControls,
    MAX_SEEK_MS, TICKS_PER_MS, ms_to_ticks,
};
use crate::registry::{Category, ListenerRegistry};

verus! {

/// Delay before the state is read again after a play/pause toggle.
pub const PLAY_PAUSE_SETTLE_MS: u64 = 100;

/// Delay before the state is read again after any other transport command.
pub const COMMAND_SETTLE_MS: u64 = 200;

/// Lifecycle of one connection's bridge.
#[derive(Debug, Clone, Copy, PartialEq, Eq, Structural)]
pub enum Phase {
    Uninitialized,
    Active,
    Disposed,
}

/// A transport call on the provider's current session.
#[derive(Debug, Clone, Copy, PartialEq, Eq, Structural)]
pub enum Transport {
    TogglePlayPause,
    SkipNext,
    SkipPrevious,
    ToggleShuffle,
    SetRepeatMode(AutoRepeatMode),
    /// Target position in the provider's 100 ns units.
    SeekTo(i64),
}

/// What a delayed refresh reads again.
#[derive(Debug, Clone, Copy, PartialEq, Eq, Structural)]
pub enum Refresh {
    /// Track, controls and timeline.
    Full,
    /// The timeline alone.
    Timeline,
}

/// An inbound command from a viewer.
#[derive(Debug, Clone, Copy, PartialEq, Eq, Structural)]
pub enum Command {
    GetMediaDetails,
    TogglePlayPause,
    NextTrack,
    PreviousTrack,
    ToggleShuffle,
    SetRepeatMode(AutoRepeatMode),
    Seek(SeekPosition),
}

/// A malformed command payload.
#[derive(Debug, Clone, Copy, PartialEq, Eq, Structural)]
pub enum CommandError {
    /// The repeat mode is not one of "none", "track" and "list".
    InvalidRepeatMode,
    /// The seek position does not fit the provider's time unit.
    SeekOutOfRange,
}

/// Work the bridge asks its host to do, in order.
#[derive(Debug, Clone, Copy, PartialEq, Eq, Structural)]
pub enum Action {
    /// Unregister this token of this category with the provider; failures are ignored.
    Release(Category, i64),
    /// Register a provider callback for the category and report the token back.
    Register(Category),
    /// Read a snapshot of the (data) category and offer it to the bridge.
    Read(Category),
    /// Issue a transport call against the freshly resolved current session.
    Transport(Transport),
    /// When the transport call just before it succeeded: wait `delay_ms`, then refresh.
    Schedule(u64, Refresh),
    /// Send the snapshot just offered to the connection.
    Emit(Category),
}

/// Something that happens to a connection's bridge.
#[derive(Debug, Clone)]
pub enum Event {
    Connect,
    Push(Category),
    Registered(Category, i64),
    TrackRead(TrackKey),
    ControlsRead(TrackControls),
    TimelineRead,
    Command(Command),
    RepeatModeText(String),
    Refresh(Refresh),
    Disconnect,
}

/// Reads of all three data categories.
pub open spec fn full_reads() -> Seq<Action> {
    seq![
        Action::Read(Category::Track),
        Action::Read(Category::Controls),
        Action::Read(Category::Timeline),
    ]
}

/// Registration of all four listener categories.
pub open spec fn full_registration() -> Seq<Action> {
    seq![
        Action::Register(Category::Track),
        Action::Register(Category::Controls),
        Action::Register(Category::Timeline),
        Action::Register(Category::Identity),
    ]
}

/// One release per held token.
pub open spec fn releases(held: Seq<(Category, i64)>) -> Seq<Action> {
    held.map_values(|e: (Category, i64)| Action::Release(e.0, e.1))
}

/// Whether no action in `acts` sends anything to the connection.
pub open spec fn silent(acts: Seq<Action>) -> bool {
    forall|i: int| 0 <= i < acts.len() ==> !(#[trigger] acts[i] is Emit)
}

/// The actions a valid command leads to on an active bridge.
pub open spec fn command_actions(cmd: Command) -> Seq<Action> {
    match cmd {
        Command::GetMediaDetails => seq![Action::Read(Category::Track)],
        Command::TogglePlayPause => seq![
            Action::Transport(Transport::TogglePlayPause),
            Action::Schedule(PLAY_PAUSE_SETTLE_MS, Refresh::Full),
        ],
        Command::NextTrack => seq![
            Action::Transport(Transport::SkipNext),
            Action::Schedule(COMMAND_SETTLE_MS, Refresh::Full),
        ],
        Command::PreviousTrack => seq![
            Action::Transport(Transport::SkipPrevious),
            Action::Schedule(COMMAND_SETTLE_MS, Refresh::Full),
        ],
        Command::ToggleShuffle => seq![
            Action::Transport(Transport::ToggleShuffle),
            Action::Schedule(COMMAND_SETTLE_MS, Refresh::Full),
        ],
        Command::SetRepeatMode(m) => seq![
            Action::Transport(Transport::SetRepeatMode(m)),
            Action::Schedule(COMMAND_SETTLE_MS, Refresh::Full),
        ],
        Command::Seek(p) => seq![
            Action::Transport(Transport::SeekTo((p.position * TICKS_PER_MS) as i64)),
            Action::Schedule(COMMAND_SETTLE_MS, Refresh::Timeline),
        ],
    }
}

/// Whether a command's payload is well formed.
pub open spec fn command_valid(cmd: Command) -> bool {
    match cmd {
        Command::Seek(p) => p.position <= MAX_SEEK_MS,
        _ => true,
    }
}

/// One connection's bridge between the provider and a viewer.
#[derive(Debug)]
pub struct SessionBridge {
    pub phase: Phase,
    pub registry: ListenerRegistry,
    pub diff: DiffEmitter,
}

impl SessionBridge {
    /// Only an active bridge holds provider registrations.
    pub open spec fn wf(&self) -> bool {
        self.phase != Phase::Active ==> self.registry.is_empty()
    }

    pub open spec fn connect_spec(self) -> (SessionBridge, Seq<Action>) {
        if self.phase == Phase::Uninitialized {
            (
                SessionBridge {
                    phase: Phase::Active,
                    diff: DiffEmitter { last_track: None, last_controls: None },
                    ..self
                },
                full_reads() + full_registration(),
            )
        } else {
            (self, Seq::empty())
        }
    }

    pub open spec fn push_spec(self, c: Category) -> (SessionBridge, Seq<Action>) {
        if self.phase != Phase::Active {
            (self, Seq::empty())
        } else if c == Category::Identity {
            (
                SessionBridge {
                    registry: ListenerRegistry::empty(),
                    diff: DiffEmitter { last_track: None, last_controls: None },
                    ..self
                },
                releases(self.registry.held()) + full_registration() + full_reads(),
            )
        } else {
            (self, seq![Action::Read(c)])
        }
    }

    pub open spec fn registered_spec(self, c: Category, token: i64) -> (SessionBridge, Seq<Action>) {
        if self.phase != Phase::Active {
            (self, seq![Action::Release(c, token)])
        } else {
            (
                SessionBridge { registry: self.registry.with(c, Some(token)), ..self },
                match self.registry.token(c) {
                    Some(prior) => seq![Action::Release(c, prior)],
                    None => Seq::empty(),
                },
            )
        }
    }

    pub open spec fn offer_track_spec(self, k: TrackKey) -> (SessionBridge, bool) {
        if self.phase == Phase::Active {
            (SessionBridge { diff: self.diff.after_track(k), ..self }, self.diff.track_is_news(k))
        } else {
            (self, false)
        }
    }

    pub open spec fn offer_controls_spec(self, c: TrackControls) -> (SessionBridge, bool) {
        if self.phase == Phase::Active && self.diff.controls_is_news(c) {
            (SessionBridge { diff: DiffEmitter { last_controls: Some(c), ..self.diff }, ..self }, true)
        } else {
            (self, false)
        }
    }

    pub open spec fn command_spec(self, cmd: Command) -> (SessionBridge, Seq<Action>) {
        if self.phase != Phase::Active || !command_valid(cmd) {
            (self, Seq::empty())
        } else if cmd == Command::GetMediaDetails {
            (
                SessionBridge { diff: DiffEmitter { last_track: None, ..self.diff }, ..self },
                command_actions(cmd),
            )
        } else {
            (self, command_actions(cmd))
        }
    }

    pub open spec fn repeat_text_spec(self, s: Seq<char>) -> (SessionBridge, Seq<Action>) {
        if is_repeat_mode_name(s) {
            self.command_spec(Command::SetRepeatMode(repeat_mode_of(s)))
        } else {
            (self, Seq::empty())
        }
    }

    pub open spec fn refresh_spec(self, scope: Refresh) -> Seq<Action> {
        if self.phase != Phase::Active {
            Seq::empty()
        } else {
            match scope {
                Refresh::Full => full_reads(),
                Refresh::Timeline => seq![Action::Read(Category::Timeline)],
            }
        }
    }

    pub open spec fn disconnect_spec(self) -> (SessionBridge, Seq<Action>) {
        (
            SessionBridge { phase: Phase::Disposed, registry: ListenerRegistry::empty(), ..self },
            releases(self.registry.held()),
        )
    }

    /// The bridge's response to one event: its next state and the actions it asks for.
    pub open spec fn step(self, e: Event) -> (SessionBridge, Seq<Action>) {
        match e {
            Event::Connect => self.connect_spec(),
            Event::Push(c) => self.push_spec(c),
            Event::Registered(c, t) => self.registered_spec(c, t),
            Event::TrackRead(k) => {
                let (b, sent) = self.offer_track_spec(k);
                (b, if sent { seq![Action::Emit(Category::Track)] } else { Seq::empty() })
            },
            Event::ControlsRead(c) => {
                let (b, sent) = self.offer_controls_spec(c);
                (b, if sent { seq![Action::Emit(Category::Controls)] } else { Seq::empty() })
            },
            Event::TimelineRead => (
                self,
                if self.phase == Phase::Active {
                    seq![Action::Emit(Category::Timeline)]
                } else {
                    Seq::empty()
                },
            ),
            Event::Command(cmd) => self.command_spec(cmd),
            Event::RepeatModeText(s) => self.repeat_text_spec(s@),
            Event::Refresh(scope) => (self, self.refresh_spec(scope)),
            Event::Disconnect => self.disconnect_spec(),
        }
    }

    /// The bridge after a sequence of events, and every action asked for on the way.
    pub open spec fn run(self, events: Seq<Event>) -> (SessionBridge, Seq<Action>)
        decreases events.len(),
    {
        if events.len() == 0 {
            (self, Seq::empty())
        } else {
            let (b, acts) = self.step(events[0]);
            let (b2, rest) = b.run(events.drop_first());
            (b2, acts + rest)
        }
    }
}

/// Appends one release per held token.
fn push_releases(held: &Vec<(Category, i64)>, out: &mut Vec<Action>)
    ensures
        final(out)@ == old(out)@ + releases(held@),
{
    let ghost start = out@;
    let mut i: usize = 0;
    while i < held.len()
        invariant
            i <= held@.len(),
            out@ == start + releases(held@.subrange(0, i as int)),
        decreases held@.len() - i,
    {
        let (c, t) = held[i];
        out.push(Action::Release(c, t));
        proof {
            assert(releases(held@.subrange(0, i + 1)) =~= releases(held@.subrange(0, i as int)).push(
                Action::Release(c, t),
            ));
        }
        i = i + 1;
    }
    assert(held@.subrange(0, i as int) =~= held@);
}

/// Appends reads of the three data categories.
fn push_full_reads(out: &mut Vec<Action>)
    ensures
        final(out)@ == old(out)@ + full_reads(),
{
    out.push(Action::Read(Category::Track));
    out.push(Action::Read(Category::Controls));
    out.push(Action::Read(Category::Timeline));
    assert(final(out)@ =~= old(out)@ + full_reads());
}

/// Appends registrations of the four listener categories.
fn push_full_registration(out: &mut Vec<Action>)
    ensures
        final(out)@ == old(out)@ + full_registration(),
{
    out.push(Action::Register(Category::Track));
    out.push(Action::Register(Category::Controls));
    out.push(Action::Register(Category::Timeline));
    out.push(Action::Register(Category::Identity));
    assert(final(out)@ =~= old(out)@ + full_registration());
}

/// A transport call followed by a delayed refresh.
fn transport_then_refresh(t: Transport, delay_ms: u64, scope: Refresh) -> (r: Vec<Action>)
    ensures
        r@ == seq![Action::Transport(t), Action::Schedule(delay_ms, scope)],
{
    let mut out: Vec<Action> = Vec::new();
    out.push(Action::Transport(t));
    out.push(Action::Schedule(delay_ms, scope));
    assert(out@ =~= seq![Action::Transport(t), Action::Schedule(delay_ms, scope)]);
    out
}

impl SessionBridge {
    /// A bridge for a connection that has not been set up yet.
    pub fn new() -> (r: SessionBridge)
        ensures
            r.phase == Phase::Uninitialized,
            r.registry.is_empty(),
            r.diff.is_fresh(),
            r.wf(),
    {
        SessionBridge {
            phase: Phase::Uninitialized,
            registry: ListenerRegistry::new(),
            diff: DiffEmitter::new(),
        }
    }

    /// The bridge's lifecycle phase.
    pub fn phase(&self) -> (r: Phase)
        ensures
            r == self.phase,
    {
        self.phase
    }

    /// The token held for category `c`.
    pub fn token(&self, c: Category) -> (r: Option<i64>)
        ensures
            r == self.registry.token(c),
    {
        self.registry.get(c)
    }

    /// Sets up a new connection: a full snapshot is read and sent whatever was
    /// sent before, and all four listener categories are registered. Only the
    /// first call does anything.
    pub fn connect(&mut self) -> (r: Vec<Action>)
        requires
            old(self).wf(),
        ensures
            (*final(self), r@) == old(self).connect_spec(),
            final(self).wf(),
    {
        let mut out: Vec<Action> = Vec::new();
        if self.phase == Phase::Uninitialized {
            self.phase = Phase::Active;
            self.diff.reset();
            push_full_reads(&mut out);
            push_full_registration(&mut out);
            assert(out@ =~= full_reads() + full_registration());
        }
        out
    }

    /// A provider notification for category `c`. A data category is read
    /// again; a change of session tears every registration down, registers
    /// all four again and reads a full snapshot past the diff filter. A bridge
    /// that is not active ignores it.
    pub fn push(&mut self, c: Category) -> (r: Vec<Action>)
        requires
            old(self).wf(),
        ensures
            (*final(self), r@) == old(self).push_spec(c),
            final(self).wf(),
    {
        let mut out: Vec<Action> = Vec::new();
        if self.phase != Phase::Active {
            return out;
        }
        match c {
            Category::Identity => {
                let held = self.registry.teardown();
                push_releases(&held, &mut out);
                push_full_registration(&mut out);
                push_full_reads(&mut out);
                self.diff.reset();
                assert(out@ =~= releases(held@) + full_registration() + full_reads());
            },
            _ => {
                out.push(Action::Read(c));
                assert(out@ =~= seq![Action::Read(c)]);
            },
        }
        out
    }

    /// The provider accepted a registration for `c` and returned `token`. An
    /// active bridge keeps it and releases the token it replaces; any other
    /// bridge releases it at once, so that nothing outlives the connection.
    pub fn registered(&mut self, c: Category, token: i64) -> (r: Vec<Action>)
        requires
            old(self).wf(),
        ensures
            (*final(self), r@) == old(self).registered_spec(c, token),
            final(self).wf(),
    {
        let mut out: Vec<Action> = Vec::new();
        if self.phase != Phase::Active {
            out.push(Action::Release(c, token));
            assert(out@ =~= seq![Action::Release(c, token)]);
            return out;
        }
        if let Some(prior) = self.registry.register(c, token) {
            out.push(Action::Release(c, prior));
            assert(out@ =~= seq![Action::Release(c, prior)]);
        } else {
            assert(out@ =~= Seq::<Action>::empty());
        }
        out
    }

    /// Offers a freshly read track snapshot by its key; `true` means send it.
    pub fn offer_track(&mut self, k: &TrackKey) -> (r: bool)
        requires
            old(self).wf(),
        ensures
            (*final(self), r) == old(self).offer_track_spec(*k),
            final(self).wf(),
    {
        if self.phase != Phase::Active {
            return false;
        }
        self.diff.offer_track(k)
    }

    /// Offers a freshly read controls snapshot; `true` means send it.
    pub fn offer_controls(&mut self, c: &TrackControls) -> (r: bool)
        requires
            old(self).wf(),
        ensures
            (*final(self), r) == old(self).offer_controls_spec(*c),
            final(self).wf(),
    {
        if self.phase != Phase::Active {
            return false;
        }
        self.diff.offer_controls(c)
    }

    /// Offers a freshly read timeline; it is sent whenever the bridge is active.
    pub fn offer_timeline(&self) -> (r: bool)
        ensures
            r == (self.phase == Phase::Active),
    {
        self.phase == Phase::Active
    }

    /// Routes a viewer command. A malformed payload is refused and changes
    /// nothing; a bridge that is not active asks for nothing.
    pub fn command(&mut self, cmd: Command) -> (r: Result<Vec<Action>, CommandError>)
        requires
            old(self).wf(),
        ensures
            r is Err <==> !command_valid(cmd),
            r is Err ==> r->Err_0 == CommandError::SeekOutOfRange && *final(self) == *old(self),
            r is Ok ==> (*final(self), r->Ok_0@) == old(self).command_spec(cmd),
            final(self).wf(),
    {
        let seek_ticks: i64 = match cmd {
            Command::Seek(p) => match ms_to_ticks(p.position) {
                Some(t) => t,
                None => {
                    return Err(CommandError::SeekOutOfRange);
                },
            },
            _ => 0,
        };
        if self.phase != Phase::Active {
            return Ok(Vec::new());
        }
        let out = match cmd {
            Command::GetMediaDetails => {
                self.diff.last_track = None;
                let mut v: Vec<Action> = Vec::new();
                v.push(Action::Read(Category::Track));
                assert(v@ =~= seq![Action::Read(Category::Track)]);
                v
            },
            Command::TogglePlayPause => transport_then_refresh(
                Transport::TogglePlayPause,
                PLAY_PAUSE_SETTLE_MS,
                Refresh::Full,
            ),
            Command::NextTrack => transport_then_refresh(
                Transport::SkipNext,
                COMMAND_SETTLE_MS,
                Refresh::Full,
            ),
            Command::PreviousTrack => transport_then_refresh(
                Transport::SkipPrevious,
                COMMAND_SETTLE_MS,
                Refresh::Full,
            ),
            Command::ToggleShuffle => transport_then_refresh(
                Transport::ToggleShuffle,
                COMMAND_SETTLE_MS,
                Refresh::Full,
            ),
            Command::SetRepeatMode(m) => transport_then_refresh(
                Transport::SetRepeatMode(m),
                COMMAND_SETTLE_MS,
                Refresh::Full,
            ),
            Command::Seek(_) => transport_then_refresh(
                Transport::SeekTo(seek_ticks),
                COMMAND_SETTLE_MS,
                Refresh::Timeline,
            ),
        };
        Ok(out)
    }

    /// Routes a `set_repeat_mode` message by its text. Text that names no
    /// repeat mode is refused: no provider call, no emission, no change.
    pub fn set_repeat_mode(&mut self, mode: &str) -> (r: Result<Vec<Action>, CommandError>)
        requires
            old(self).wf(),
        ensures
            r is Err <==> !is_repeat_mode_name(mode@),
            r is Err ==> r->Err_0 == CommandError::InvalidRepeatMode && *final(self) == *old(self),
            r is Ok ==> (*final(self), r->Ok_0@) == old(self).repeat_text_spec(mode@),
            final(self).wf(),
    {
        match AutoRepeatMode::from_str(mode) {
            Ok(m) => self.command(Command::SetRepeatMode(m)),
            Err(_) => Err(CommandError::InvalidRepeatMode),
        }
    }

    /// A delayed refresh came due: an active bridge reads again what it covers.
    pub fn refresh(&self, scope: Refresh) -> (r: Vec<Action>)
        ensures
            r@ == self.refresh_spec(scope),
    {
        let mut out: Vec<Action> = Vec::new();
        if self.phase == Phase::Active {
            match scope {
                Refresh::Full => push_full_reads(&mut out),
                Refresh::Timeline => out.push(Action::Read(Category::Timeline)),
            }
        }
        assert(out@ =~= self.refresh_spec(scope));
        out
    }

    /// The connection went away: every held token is released, and the
    /// bridge is disposed for good. Calling it again releases nothing.
    pub fn disconnect(&mut self) -> (r: Vec<Action>)
        requires
            old(self).wf(),
        ensures
            (*final(self), r@) == old(self).disconnect_spec(),
            final(self).wf(),
    {
        let held = self.registry.teardown();
        let mut out: Vec<Action> = Vec::new();
        push_releases(&held, &mut out);
        self.phase = Phase::Disposed;
        assert(out@ =~= releases(held@));
        out
    }
}

/// Releases never send anything to the connection.
proof fn lemma_releases_silent(held: Seq<(Category, i64)>)
    ensures
        silent(releases(held)),
        releases(held).len() == held.len(),
{
    assert forall|i: int| 0 <= i < releases(held).len() implies !(#[trigger] releases(
        held,
    )[i] is Emit) by {
        assert(releases(held)[i] == Action::Release(held[i].0, held[i].1));
    }
}

/// A disposed bridge stays disposed and sends nothing, whatever events reach
/// it: provider pushes, late registrations, snapshots read in flight,
/// commands, refreshes or further disconnects.
pub proof fn lemma_disposed_stays_silent(b: SessionBridge, events: Seq<Event>)
    requires
        b.phase == Phase::Disposed,
    ensures
        b.run(events).0.phase == Phase::Disposed,
        silent(b.run(events).1),
    decreases events.len(),
{
    if events.len() > 0 {
        let (b1, acts) = b.step(events[0]);
        lemma_releases_silent(b.registry.held());
        assert(b1.phase == Phase::Disposed);
        assert(silent(acts));
        lemma_disposed_stays_silent(b1, events.drop_first());
        let rest = b1.run(events.drop_first()).1;
        assert forall|i: int| 0 <= i < (acts + rest).len() implies !(#[trigger] (acts
            + rest)[i] is Emit) by {
            if i < acts.len() {
                assert((acts + rest)[i] == acts[i]);
            } else {
                assert((acts + rest)[i] == rest[i - acts.len()]);
            }
        }
    }
}

/// Whatever happened before, once a connection disconnects no event that
/// follows, in any order, leads to a message being sent to it.
pub proof fn lemma_no_emission_after_disconnect(
    b: SessionBridge,
    before: Seq<Event>,
    after: Seq<Event>,
)
    ensures
        b.run(before).0.step(Event::Disconnect).0.phase == Phase::Disposed,
        silent(b.run(before).0.step(Event::Disconnect).0.run(after).1),
{
    let d = b.run(before).0.step(Event::Disconnect).0;
    lemma_disposed_stays_silent(d, after);
}

/// A change of session on an active bridge releases every token held before
/// (each exactly once), then registers all four categories once, then reads
/// one full snapshot; the diff memory is cleared, so that snapshot is sent
/// whatever was sent for the previous session.
pub proof fn lemma_session_change_rebuilds(b: SessionBridge)
    requires
        b.phase == Phase::Active,
    ensures
        b.step(Event::Push(Category::Identity)).1 == releases(b.registry.held())
            + full_registration() + full_reads(),
        releases(b.registry.held()).len() == b.registry.held().len(),
        forall|i: int|
            0 <= i < b.registry.held().len() ==> releases(b.registry.held())[i] == Action::Release(
                (#[trigger] b.registry.held()[i]).0,
                b.registry.held()[i].1,
            ),
        b.step(Event::Push(Category::Identity)).0.phase == Phase::Active,
        b.step(Event::Push(Category::Identity)).0.registry.is_empty(),
        b.step(Event::Push(Category::Identity)).0.diff.is_fresh(),
        forall|k: TrackKey| #[trigger]
            b.step(Event::Push(Category::Identity)).0.offer_track_spec(k).1,
        forall|c: TrackControls| #[trigger]
            b.step(Event::Push(Category::Identity)).0.offer_controls_spec(c).1,
{
    lemma_releases_silent(b.registry.held());
}

/// The three snapshot emissions of a full snapshot.
pub open spec fn full_emissions() -> Seq<Action> {
    seq![
        Action::Emit(Category::Track),
        Action::Emit(Category::Controls),
        Action::Emit(Category::Timeline),
    ]
}

/// The read results of a full snapshot, in the order they are asked for.
pub open spec fn snapshot_events(k: TrackKey, c: TrackControls) -> Seq<Event> {
    seq![Event::TrackRead(k), Event::ControlsRead(c), Event::TimelineRead]
}

/// On an active bridge whose diff memory is cleared (as connecting and a
/// change of session leave it), the three snapshots of a full read, whatever
/// their values, are each sent exactly once, and nothing else is asked for:
/// no transport call, no registration.
pub proof fn lemma_full_snapshot_sent_once(b: SessionBridge, k: TrackKey, c: TrackControls)
    requires
        b.phase == Phase::Active,
        b.diff.is_fresh(),
    ensures
        b.run(snapshot_events(k, c)).1 == full_emissions(),
        b.run(snapshot_events(k, c)).0.phase == Phase::Active,
        b.run(snapshot_events(k, c)).0.registry == b.registry,
{
    let events = snapshot_events(k, c);
    let e1 = events.drop_first();
    let e2 = e1.drop_first();
    let e3 = e2.drop_first();
    assert(events[0] == Event::TrackRead(k));
    assert(e1[0] == Event::ControlsRead(c));
    assert(e2[0] == Event::TimelineRead);
    assert(e3.len() == 0);
    let (b1, a1) = b.step(events[0]);
    let (b2, a2) = b1.step(e1[0]);
    let (b3, a3) = b2.step(e2[0]);
    assert(a1 == seq![Action::Emit(Category::Track)]);
    assert(a2 == seq![Action::Emit(Category::Controls)]);
    assert(a3 == seq![Action::Emit(Category::Timeline)]);
    assert(b3.run(e3) == (b3, Seq::<Action>::empty()));
    assert(b2.run(e2) == (b3, a3 + Seq::<Action>::empty()));
    assert(b1.run(e1) == (b3, a2 + (a3 + Seq::<Action>::empty())));
    assert(b.run(events) == (b3, a1 + (a2 + (a3 + Seq::<Action>::empty()))));
    assert(a1 + (a2 + (a3 + Seq::<Action>::empty())) =~= full_emissions());
}

/// The actions of one event followed by a run of others.
proof fn lemma_run_cons(b: SessionBridge, e: Event, rest: Seq<Event>)
    ensures
        b.run(seq![e] + rest).1 == b.step(e).1 + b.step(e).0.run(rest).1,
        b.run(seq![e] + rest).0 == b.step(e).0.run(rest).0,
{
    let events = seq![e] + rest;
    assert(events[0] == e);
    assert(events.drop_first() =~= rest);
}

/// Connecting reads one snapshot of each data category, before any listener
/// is registered; offered back, each of the three is sent exactly once.
pub proof fn lemma_connect_sends_full_snapshot(b: SessionBridge, k: TrackKey, c: TrackControls)
    requires
        b.phase == Phase::Uninitialized,
    ensures
        b.step(Event::Connect).1 == full_reads() + full_registration(),
        b.run(seq![Event::Connect] + snapshot_events(k, c)).1 == full_reads()
            + full_registration() + full_emissions(),
{
    lemma_run_cons(b, Event::Connect, snapshot_events(k, c));
    lemma_full_snapshot_sent_once(b.step(Event::Connect).0, k, c);
}

/// After a change of session, the full snapshot read against the new session
/// is sent in full, each category exactly once, after the teardown and the
/// re-registration, whatever was sent for the previous session.
pub proof fn lemma_session_change_resends_full_snapshot(
    b: SessionBridge,
    k: TrackKey,
    c: TrackControls,
)
    requires
        b.phase == Phase::Active,
    ensures
        b.run(seq![Event::Push(Category::Identity)] + snapshot_events(k, c)).1 == releases(
            b.registry.held(),
        ) + full_registration() + full_reads() + full_emissions(),
{
    lemma_run_cons(b, Event::Push(Category::Identity), snapshot_events(k, c));
    lemma_full_snapshot_sent_once(b.step(Event::Push(Category::Identity)).0, k, c);
}

/// A repeat-mode text that names no mode asks for nothing (no provider call,
/// no emission) and leaves the bridge as it was, so the command that follows
/// is handled exactly as if it had come first.
pub proof fn lemma_invalid_repeat_mode_is_inert(b: SessionBridge, s: String, next: Command)
    requires
        !is_repeat_mode_name(s@),
    ensures
        b.step(Event::RepeatModeText(s)) == (b, Seq::<Action>::empty()),
        b.run(seq![Event::RepeatModeText(s), Event::Command(next)]) == b.step(
            Event::Command(next),
        ),
{
    let events = seq![Event::RepeatModeText(s), Event::Command(next)];
    let e1 = events.drop_first();
    let e2 = e1.drop_first();
    assert(events[0] == Event::RepeatModeText(s));
    assert(e1[0] == Event::Command(next));
    assert(e2.len() == 0);
    let (b2, a2) = b.step(Event::Command(next));
    assert(b2.run(e2) == (b2, Seq::<Action>::empty()));
    assert(b.run(e1) == (b2, a2 + Seq::<Action>::empty()));
    assert(a2 + Seq::<Action>::empty() =~= a2);
    assert(b.run(events) == (b2, Seq::<Action>::empty() + a2));
    assert(Seq::<Action>::empty() + a2 =~= a2);
}

/// A seek on an active bridge issues exactly one transport call, at the
/// position in the provider's unit, sends nothing at once and schedules a
/// timeline refresh after the settle delay.
pub proof fn lemma_seek_defers_emission(b: SessionBridge, p: SeekPosition)
    requires
        b.phase == Phase::Active,
        p.position <= MAX_SEEK_MS,
    ensures
        b.step(Event::Command(Command::Seek(p))).1 == seq![
            Action::Transport(Transport::SeekTo((p.position * TICKS_PER_MS) as i64)),
            Action::Schedule(COMMAND_SETTLE_MS, Refresh::Timeline),
        ],
        silent(b.step(Event::Command(Command::Seek(p))).1),
        b.step(Event::Command(Command::Seek(p))).0.refresh_spec(Refresh::Timeline) == seq![
            Action::Read(Category::Timeline),
        ],
{
}

} // verus!
