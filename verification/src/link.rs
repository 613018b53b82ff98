//! Finding the two peripherals and bringing a lost one back.
//!
//! Both are written as state machines: the caller carries out the step it is
//! handed, which is a scan, a connect or a wait, and reports what came of it.

use crate::schema::{PeripheralKind, DOOR_SERVICE_UUID, ENGINE_SERVICE_UUID};
use crate::session::{PeripheralSession, SessionView, Sessions, SessionsView};
use vstd::prelude::*;

verus! {

/// The longest pause between two looks at the scan results, in seconds.
pub const MAX_BACKOFF_SECS: u64 = 30;

/// By how much the pause grows from one look to the next, in seconds.
pub const BACKOFF_STEP_SECS: u64 = 3;

/// How often a connect is tried before a reconnect gives up.
pub const MAX_CONNECT_ATTEMPTS: u8 = 10;

/// The pause after a failed connect, in seconds.
pub const RETRY_DELAY_SECS: u64 = 1;

/// The pause that follows a pause of `wait` seconds: longer by a step until
/// the cap is reached, and the same from then on.
pub open spec fn next_backoff(wait: u64) -> u64 {
    if wait < MAX_BACKOFF_SECS {
        (wait + BACKOFF_STEP_SECS) as u64
    } else {
        wait
    }
}

/// The pause before the `n`-th look at the scan results, counted from one.
pub open spec fn backoff_after(n: nat) -> u64
    decreases n,
{
    if n == 0 {
        0
    } else {
        next_backoff(backoff_after((n - 1) as nat))
    }
}

/// The kind of peripheral that a list of services stands for, given which
/// kinds were found already: the first service that is the mark of a kind
/// still wanted decides.
pub open spec fn classify(services: Seq<u128>, found_starter: bool, found_door_controller: bool)
    -> Option<PeripheralKind>
    decreases services.len(),
{
    if services.len() == 0 {
        None
    } else if services[0] == ENGINE_SERVICE_UUID && !found_starter {
        Some(PeripheralKind::Starter)
    } else if services[0] == DOOR_SERVICE_UUID && !found_door_controller {
        Some(PeripheralKind::DoorController)
    } else {
        classify(services.drop_first(), found_starter, found_door_controller)
    }
}

/// What came of looking at one peripheral.
#[derive(Debug, Clone, Copy, PartialEq, Eq, Structural)]
pub enum Observation {
    /// It offers no service of a kind that is still wanted.
    Unmatched,
    /// It now fills the slot of its kind.
    Bound(PeripheralKind),
    /// It is of a wanted kind, but the slot was filled already: it is turned
    /// away and the kind counts as found.
    SlotTaken(PeripheralKind),
}

/// Progress of the search for the two peripherals.
#[derive(Debug, Clone, Copy, PartialEq, Eq)]
pub struct Discovery {
    found_starter: bool,
    found_door_controller: bool,
    wait_secs: u64,
}

/// The mathematical value of a [`Discovery`].
pub struct DiscoveryView {
    pub found_starter: bool,
    pub found_door_controller: bool,
    pub wait_secs: u64,
}

impl DiscoveryView {
    /// Whether a peripheral of kind `kind` was found.
    pub open spec fn found(self, kind: PeripheralKind) -> bool {
        match kind {
            PeripheralKind::Starter => self.found_starter,
            PeripheralKind::DoorController => self.found_door_controller,
        }
    }

    /// Whether both kinds were found, so that the scan can stop.
    pub open spec fn complete(self) -> bool {
        self.found_starter && self.found_door_controller
    }

    /// This progress with `kind` found.
    pub open spec fn with_found(self, kind: PeripheralKind) -> DiscoveryView {
        match kind {
            PeripheralKind::Starter => DiscoveryView { found_starter: true, ..self },
            PeripheralKind::DoorController => DiscoveryView { found_door_controller: true, ..self },
        }
    }

    /// Progress and slots after a look at the peripheral `session` that
    /// offers `services`, and what came of the look.
    pub open spec fn observe(self, slots: SessionsView, session: SessionView, services: Seq<u128>)
        -> (DiscoveryView, SessionsView, Observation) {
        match classify(services, self.found_starter, self.found_door_controller) {
            None => (self, slots, Observation::Unmatched),
            Some(kind) => if slots.slot(kind) is None {
                (self.with_found(kind), slots.with_slot(kind, Some(session)), Observation::Bound(kind))
            } else {
                (self.with_found(kind), slots, Observation::SlotTaken(kind))
            },
        }
    }
}

impl View for Discovery {
    type V = DiscoveryView;

    closed spec fn view(&self) -> DiscoveryView {
        DiscoveryView {
            found_starter: self.found_starter,
            found_door_controller: self.found_door_controller,
            wait_secs: self.wait_secs,
        }
    }
}

impl Discovery {
    #[verifier::type_invariant]
    spec fn bounded(&self) -> bool {
        self.wait_secs <= MAX_BACKOFF_SECS && self.wait_secs % BACKOFF_STEP_SECS == 0
    }

    /// A search that has found nothing and has not paused yet.
    pub fn new() -> (discovery: Discovery)
        ensures
            discovery@ == (DiscoveryView {
                found_starter: false,
                found_door_controller: false,
                wait_secs: 0,
            }),
    {
        Discovery { found_starter: false, found_door_controller: false, wait_secs: 0 }
    }

    /// The services to filter the scan by.
    pub fn scan_filter() -> (services: [u128; 2])
        ensures
            services@ == seq![DOOR_SERVICE_UUID, ENGINE_SERVICE_UUID],
    {
        let services: [u128; 2] = [DOOR_SERVICE_UUID, ENGINE_SERVICE_UUID];
        assert(services@ =~= seq![DOOR_SERVICE_UUID, ENGINE_SERVICE_UUID]);
        services
    }

    /// How long to pause before the next look at the scan results, in
    /// seconds: three more than the last time, and never more than thirty.
    pub fn next_wait(&mut self) -> (secs: u64)
        ensures
            secs == next_backoff(old(self)@.wait_secs),
            secs <= MAX_BACKOFF_SECS,
            final(self)@ == (DiscoveryView { wait_secs: secs, ..old(self)@ }),
    {
        proof {
            use_type_invariant(&*self);
        }
        if self.wait_secs < MAX_BACKOFF_SECS {
            self.wait_secs = self.wait_secs + BACKOFF_STEP_SECS;
        }
        self.wait_secs
    }

    /// Whether both peripherals were found, so that the scan can stop.
    pub fn is_complete(&self) -> (res: bool)
        ensures
            res == self@.complete(),
    {
        self.found_starter && self.found_door_controller
    }

    /// Whether the peripheral seen at `address` is worth a connect: not once
    /// both kinds were found, and not if it fills a slot already.
    pub fn wants(&self, slots: &Sessions, address: u64) -> (res: bool)
        ensures
            res == (!self@.complete() && !slots@.holds(address)),
    {
        !self.is_complete() && !slots.holds(address)
    }

    /// Takes in one peripheral after the attempt to connect to it and to
    /// discover its services. The first peripheral of a kind fills the slot
    /// of that kind; one whose slot is filled is turned away.
    pub fn observe(
        &mut self,
        slots: &mut Sessions,
        session: PeripheralSession,
        services: &[u128],
    ) -> (outcome: Observation)
        ensures
            (final(self)@, final(slots)@, outcome) == old(self)@.observe(
                old(slots)@,
                session@,
                services@,
            ),
    {
        proof {
            use_type_invariant(&*self);
        }
        match classify_services(services, self.found_starter, self.found_door_controller) {
            None => Observation::Unmatched,
            Some(kind) => {
                match kind {
                    PeripheralKind::Starter => {
                        self.found_starter = true;
                    },
                    PeripheralKind::DoorController => {
                        self.found_door_controller = true;
                    },
                }
                if slots.bind(kind, session) {
                    Observation::Bound(kind)
                } else {
                    Observation::SlotTaken(kind)
                }
            },
        }
    }
}

/// Tells by its services which kind of peripheral this is, among the kinds
/// still wanted.
pub fn classify_services(services: &[u128], found_starter: bool, found_door_controller: bool) -> (res:
    Option<PeripheralKind>)
    ensures
        res == classify(services@, found_starter, found_door_controller),
{
    let mut i: usize = 0;
    proof {
        assert(services@.skip(0) == services@);
    }
    while i < services.len()
        invariant
            i <= services.len(),
            classify(services@, found_starter, found_door_controller) == classify(
                services@.skip(i as int),
                found_starter,
                found_door_controller,
            ),
        decreases services.len() - i,
    {
        proof {
            let rest = services@.skip(i as int);
            assert(rest[0] == services@[i as int]);
            assert(rest.drop_first() == services@.skip(i + 1));
        }
        if services[i] == ENGINE_SERVICE_UUID && !found_starter {
            return Some(PeripheralKind::Starter);
        } else if services[i] == DOOR_SERVICE_UUID && !found_door_controller {
            return Some(PeripheralKind::DoorController);
        }
        i = i + 1;
    }
    proof {
        assert(services@.skip(i as int).len() == 0);
    }
    None
}

/// The pauses grow by three seconds from three to thirty and stay there.
pub proof fn lemma_backoff_is_capped(n: nat)
    ensures
        backoff_after(n) == if n < 10 {
            3 * n
        } else {
            30
        },
        backoff_after(n) <= MAX_BACKOFF_SECS,
        backoff_after(n) <= backoff_after(n + 1),
    decreases n,
{
    if n > 0 {
        lemma_backoff_is_capped((n - 1) as nat);
    }
    reveal_with_fuel(backoff_after, 2);
}

/// A kind that was found stays found, each look finds at most the kind it
/// reports, and a filled slot is never given to another peripheral.
pub proof fn lemma_observe_keeps_first(
    progress: DiscoveryView,
    slots: SessionsView,
    session: SessionView,
    services: Seq<u128>,
    kind: PeripheralKind,
)
    ensures
        ({
            let (after, after_slots, outcome) = progress.observe(slots, session, services);
            &&& progress.found(kind) ==> after.found(kind)
            &&& slots.slot(kind) is Some ==> after_slots.slot(kind) == slots.slot(kind)
            &&& after_slots.slot(kind) != slots.slot(kind) ==> outcome == Observation::Bound(kind)
                && after_slots.slot(kind) == Some(session) && !progress.found(kind)
            &&& after.found(kind) && !progress.found(kind) ==> (outcome == Observation::Bound(kind)
                || outcome == Observation::SlotTaken(kind))
            &&& after.wait_secs == progress.wait_secs
        }),
{
    lemma_classify_wanted(services, progress.found_starter, progress.found_door_controller);
}

/// A list of services is only ever taken for a kind that is still wanted and
/// whose mark is in the list.
pub proof fn lemma_classify_wanted(services: Seq<u128>, found_starter: bool, found_door_controller: bool)
    ensures
        classify(services, found_starter, found_door_controller) == Some(PeripheralKind::Starter)
            ==> !found_starter && services.contains(ENGINE_SERVICE_UUID),
        classify(services, found_starter, found_door_controller) == Some(
            PeripheralKind::DoorController,
        ) ==> !found_door_controller && services.contains(DOOR_SERVICE_UUID),
        classify(services, found_starter, found_door_controller) is None ==> (found_starter
            || !services.contains(ENGINE_SERVICE_UUID)) && (found_door_controller
            || !services.contains(DOOR_SERVICE_UUID)),
    decreases services.len(),
{
    if services.len() > 0 {
        let rest = services.drop_first();
        lemma_classify_wanted(rest, found_starter, found_door_controller);
        assert(services[0] == services[0]);
        assert forall|uuid: u128| rest.contains(uuid) implies services.contains(uuid) by {
            let j = choose|j: int| 0 <= j < rest.len() && rest[j] == uuid;
            assert(services[j + 1] == uuid);
        }
        assert forall|uuid: u128| services.contains(uuid) && services[0] != uuid implies rest.contains(
            uuid,
        ) by {
            let j = choose|j: int| 0 <= j < services.len() && services[j] == uuid;
            assert(rest[j - 1] == uuid);
        }
    }
}

/// What the caller is to do next to bring a peripheral back.
#[derive(Debug, Clone, Copy, PartialEq, Eq, Structural)]
pub enum LinkStep {
    /// Make a fresh handle for the peripheral at this address: the old
    /// handle never reports a connection again.
    Recreate(u64),
    /// Try to connect the fresh handle.
    Connect,
    /// Discover the services of the connected peripheral.
    Discover,
    /// Pause for this many seconds.
    Wait(u64),
    /// Nothing more: the peripheral is connected, or it is not to be had
    /// now.
    Done(bool),
}

/// What came of the step that was handed out last.
#[derive(Debug, Clone, PartialEq, Eq)]
pub enum LinkEvent {
    /// Whether a fresh handle could be made.
    Recreated(bool),
    /// Whether the connect succeeded.
    Connected(bool),
    /// The characteristics known of the peripheral after the attempt to
    /// discover its services, none if that failed.
    Discovered(Vec<u128>),
    /// The pause is over.
    Waited,
}

/// The mathematical value of a [`LinkEvent`].
pub enum LinkEventView {
    Recreated(bool),
    Connected(bool),
    Discovered(Seq<u128>),
    Waited,
}

impl View for LinkEvent {
    type V = LinkEventView;

    open spec fn view(&self) -> LinkEventView {
        match self {
            LinkEvent::Recreated(ok) => LinkEventView::Recreated(*ok),
            LinkEvent::Connected(ok) => LinkEventView::Connected(*ok),
            LinkEvent::Discovered(characteristics) => LinkEventView::Discovered(characteristics@),
            LinkEvent::Waited => LinkEventView::Waited,
        }
    }
}

/// Where a reconnect stands: which step it waits on, or how it ended.
#[derive(Debug, Clone, Copy, PartialEq, Eq, Structural)]
pub enum LinkPhase {
    Recreating,
    Connecting,
    Discovering,
    Waiting,
    Finished(bool),
}

/// One run of bringing a peripheral back.
#[derive(Debug, Clone, Copy, PartialEq, Eq)]
pub struct Reconnect {
    kind: PeripheralKind,
    address: u64,
    attempts: u8,
    phase: LinkPhase,
}

/// The mathematical value of a [`Reconnect`].
pub struct ReconnectView {
    /// The slot that is being refilled.
    pub kind: PeripheralKind,
    /// The address the peripheral was last seen at.
    pub address: u64,
    /// How many connects were handed out so far.
    pub attempts: u8,
    pub phase: LinkPhase,
}

impl ReconnectView {
    /// What every run satisfies: no more than ten connects are handed out,
    /// none before the handle is made, and one before any answer to one.
    pub open spec fn wf(self) -> bool {
        &&& self.attempts <= MAX_CONNECT_ATTEMPTS
        &&& self.phase is Recreating ==> self.attempts == 0
        &&& (self.phase is Connecting || self.phase is Waiting || self.phase is Discovering)
            ==> self.attempts >= 1
    }

    /// The step that the run waits on.
    pub open spec fn pending(self) -> LinkStep {
        match self.phase {
            LinkPhase::Recreating => LinkStep::Recreate(self.address),
            LinkPhase::Connecting => LinkStep::Connect,
            LinkPhase::Discovering => LinkStep::Discover,
            LinkPhase::Waiting => LinkStep::Wait(RETRY_DELAY_SECS),
            LinkPhase::Finished(connected) => LinkStep::Done(connected),
        }
    }

    /// The run after `event`. An event that does not answer the pending step
    /// ends the run without success; a run that has ended stays as it is.
    pub open spec fn advance(self, event: LinkEventView) -> ReconnectView {
        match (self.phase, event) {
            (LinkPhase::Finished(_), _) => self,
            (LinkPhase::Recreating, LinkEventView::Recreated(true)) => ReconnectView {
                attempts: 1,
                phase: LinkPhase::Connecting,
                ..self
            },
            (LinkPhase::Connecting, LinkEventView::Connected(true)) => ReconnectView {
                phase: LinkPhase::Discovering,
                ..self
            },
            (LinkPhase::Connecting, LinkEventView::Connected(false)) => ReconnectView {
                phase: LinkPhase::Waiting,
                ..self
            },
            (LinkPhase::Waiting, LinkEventView::Waited) => if self.attempts < MAX_CONNECT_ATTEMPTS {
                ReconnectView {
                    attempts: (self.attempts + 1) as u8,
                    phase: LinkPhase::Connecting,
                    ..self
                }
            } else {
                ReconnectView { phase: LinkPhase::Finished(false), ..self }
            },
            (LinkPhase::Discovering, LinkEventView::Discovered(_)) => ReconnectView {
                phase: LinkPhase::Finished(true),
                ..self
            },
            _ => ReconnectView { phase: LinkPhase::Finished(false), ..self },
        }
    }

    /// The slots after `event`: once the services of the fresh handle were
    /// looked for, the slot holds the peripheral at its old address with the
    /// characteristics that were found. No other event touches a slot, so a
    /// slot that is filled stays filled and keeps its address.
    pub open spec fn slots_after(self, slots: SessionsView, event: LinkEventView) -> SessionsView {
        match (self.phase, event) {
            (LinkPhase::Discovering, LinkEventView::Discovered(characteristics)) => slots.with_slot(
                self.kind,
                Some(SessionView { address: self.address, characteristics }),
            ),
            _ => slots,
        }
    }

    /// The run that starts for the slot of `kind`, where `connected` is what
    /// the handle in the slot reports. A connected peripheral needs nothing;
    /// an empty slot offers nothing to connect to; otherwise a fresh handle
    /// is to be made for the address in the slot. The slots stay as they
    /// are: the address is kept whatever comes of the run.
    pub open spec fn begin(slots: SessionsView, kind: PeripheralKind, connected: bool)
        -> ReconnectView {
        match slots.slot(kind) {
            None => ReconnectView { kind, address: 0, attempts: 0, phase: LinkPhase::Finished(false) },
            Some(session) => ReconnectView {
                kind,
                address: session.address,
                attempts: 0,
                phase: if connected {
                    LinkPhase::Finished(true)
                } else {
                    LinkPhase::Recreating
                },
            },
        }
    }

    /// The slots after all of `events`.
    pub open spec fn slots_run(self, slots: SessionsView, events: Seq<LinkEventView>) -> SessionsView
        decreases events.len(),
    {
        if events.len() == 0 {
            slots
        } else {
            self.advance(events[0]).slots_run(
                self.slots_after(slots, events[0]),
                events.drop_first(),
            )
        }
    }

    /// How many connects are handed out while `events` come in.
    pub open spec fn connects(self, events: Seq<LinkEventView>) -> nat
        decreases events.len(),
    {
        if events.len() == 0 {
            0
        } else {
            let next = self.advance(events[0]);
            let handed: nat = if next.pending() == LinkStep::Connect {
                1
            } else {
                0
            };
            handed + next.connects(events.drop_first())
        }
    }

    /// The run after all of `events`.
    pub open spec fn run(self, events: Seq<LinkEventView>) -> ReconnectView
        decreases events.len(),
    {
        if events.len() == 0 {
            self
        } else {
            self.advance(events[0]).run(events.drop_first())
        }
    }
}

/// `rounds` times a failed connect and the pause after it.
pub open spec fn failed_rounds(rounds: nat) -> Seq<LinkEventView>
    decreases rounds,
{
    if rounds == 0 {
        Seq::empty()
    } else {
        seq![LinkEventView::Connected(false), LinkEventView::Waited] + failed_rounds(
            (rounds - 1) as nat,
        )
    }
}

impl View for Reconnect {
    type V = ReconnectView;

    closed spec fn view(&self) -> ReconnectView {
        ReconnectView {
            kind: self.kind,
            address: self.address,
            attempts: self.attempts,
            phase: self.phase,
        }
    }
}

impl Reconnect {
    #[verifier::type_invariant]
    spec fn valid(&self) -> bool {
        self@.wf()
    }

    /// Starts bringing back the peripheral of kind `kind`. `connected` is
    /// what the handle in the slot reports of itself; it is not looked at
    /// where the slot is empty. A connected peripheral is left alone. The
    /// slots are only read: the address stays in its slot, so that a run
    /// that gives up can be followed by another.
    pub fn begin(slots: &Sessions, kind: PeripheralKind, connected: bool) -> (run: Reconnect)
        ensures
            run@ == ReconnectView::begin(slots@, kind, connected),
            run@.wf(),
            slots@.slot(kind) is None ==> run@.pending() == LinkStep::Done(false),
            slots@.slot(kind) matches Some(session) ==> run@.pending() == if connected {
                LinkStep::Done(true)
            } else {
                LinkStep::Recreate(session.address)
            },
    {
        match slots.address(kind) {
            None => Reconnect { kind, address: 0, attempts: 0, phase: LinkPhase::Finished(false) },
            Some(address) => {
                if connected {
                    Reconnect { kind, address, attempts: 0, phase: LinkPhase::Finished(true) }
                } else {
                    Reconnect { kind, address, attempts: 0, phase: LinkPhase::Recreating }
                }
            },
        }
    }

    /// The step that this run waits on.
    pub fn pending(&self) -> (step: LinkStep)
        ensures
            step == self@.pending(),
            self@.wf(),
    {
        proof {
            use_type_invariant(self);
        }
        match self.phase {
            LinkPhase::Recreating => LinkStep::Recreate(self.address),
            LinkPhase::Connecting => LinkStep::Connect,
            LinkPhase::Discovering => LinkStep::Discover,
            LinkPhase::Waiting => LinkStep::Wait(RETRY_DELAY_SECS),
            LinkPhase::Finished(connected) => LinkStep::Done(connected),
        }
    }

    /// How the run ended, if it has.
    pub fn outcome(&self) -> (res: Option<bool>)
        ensures
            res == match self@.phase {
                LinkPhase::Finished(connected) => Some(connected),
                _ => None,
            },
    {
        match self.phase {
            LinkPhase::Finished(connected) => Some(connected),
            _ => None,
        }
    }

    /// Takes in what came of the pending step and hands out the next one.
    pub fn advance(&mut self, slots: &mut Sessions, event: LinkEvent) -> (step: LinkStep)
        ensures
            final(self)@ == old(self)@.advance(event@),
            final(slots)@ == old(self)@.slots_after(old(slots)@, event@),
            step == final(self)@.pending(),
            final(self)@.wf(),
            forall|kind: PeripheralKind| #[trigger]
                old(slots)@.slot(kind) is Some ==> final(slots)@.slot(kind) is Some,
    {
        proof {
            use_type_invariant(&*self);
        }
        let phase = self.phase;
        match phase {
            LinkPhase::Finished(_) => {},
            LinkPhase::Recreating => {
                match event {
                    LinkEvent::Recreated(true) => {
                        *self = Reconnect {
                            kind: self.kind,
                            address: self.address,
                            attempts: 1,
                            phase: LinkPhase::Connecting,
                        };
                    },
                    _ => {
                        self.phase = LinkPhase::Finished(false);
                    },
                }
            },
            LinkPhase::Connecting => {
                match event {
                    LinkEvent::Connected(true) => {
                        self.phase = LinkPhase::Discovering;
                    },
                    LinkEvent::Connected(false) => {
                        self.phase = LinkPhase::Waiting;
                    },
                    _ => {
                        self.phase = LinkPhase::Finished(false);
                    },
                }
            },
            LinkPhase::Waiting => {
                match event {
                    LinkEvent::Waited => {
                        if self.attempts < MAX_CONNECT_ATTEMPTS {
                            self.attempts = self.attempts + 1;
                            self.phase = LinkPhase::Connecting;
                        } else {
                            self.phase = LinkPhase::Finished(false);
                        }
                    },
                    _ => {
                        self.phase = LinkPhase::Finished(false);
                    },
                }
            },
            LinkPhase::Discovering => {
                match event {
                    LinkEvent::Discovered(characteristics) => {
                        slots.replace(self.kind, PeripheralSession::new(self.address, characteristics));
                        self.phase = LinkPhase::Finished(true);
                    },
                    _ => {
                        self.phase = LinkPhase::Finished(false);
                    },
                }
            },
        }
        self.pending()
    }
}

/// Whatever comes in, a run hands out at most ten connects, and every step
/// keeps it well formed.
pub proof fn lemma_at_most_ten_connects(run: ReconnectView, events: Seq<LinkEventView>)
    requires
        run.wf(),
    ensures
        run.attempts + run.connects(events) <= MAX_CONNECT_ATTEMPTS,
        run.run(events).wf(),
    decreases events.len(),
{
    if events.len() > 0 {
        let next = run.advance(events[0]);
        lemma_at_most_ten_connects(next, events.drop_first());
    }
}

/// Ensuring a connection that is there hands out no connect and changes no
/// slot; one that starts on an empty slot ends at once without success.
pub proof fn lemma_connected_needs_no_connect(
    slots: SessionsView,
    kind: PeripheralKind,
    connected: bool,
    events: Seq<LinkEventView>,
)
    ensures
        ({
            let run = ReconnectView::begin(slots, kind, connected);
            &&& run.wf()
            &&& run.connects(events) <= MAX_CONNECT_ATTEMPTS
            &&& slots.slot(kind) is Some && connected ==> run.pending() == LinkStep::Done(true)
                && run.connects(events) == 0 && run.run(events) == run && run.slots_run(
                slots,
                events,
            ) == slots
            &&& slots.slot(kind) is None ==> run.pending() == LinkStep::Done(false)
                && run.connects(events) == 0 && run.slots_run(slots, events) == slots
        }),
{
    let run = ReconnectView::begin(slots, kind, connected);
    lemma_at_most_ten_connects(run, events);
    if run.phase is Finished {
        lemma_finished_stays(run, events);
        lemma_finished_leaves_slots(run, slots, events);
    }
}

/// A run that has ended touches no slot.
pub proof fn lemma_finished_leaves_slots(
    run: ReconnectView,
    slots: SessionsView,
    events: Seq<LinkEventView>,
)
    requires
        run.phase is Finished,
    ensures
        run.slots_run(slots, events) == slots,
    decreases events.len(),
{
    if events.len() > 0 {
        lemma_finished_leaves_slots(run, slots, events.drop_first());
    }
}

/// The address of a peripheral is never lost. Whatever comes in while a
/// peripheral is brought back, its slot stays filled with its address and
/// the other slot stays as it is; so after a run that gave up, the next run
/// starts by making a fresh handle for the same address.
pub proof fn lemma_address_is_never_lost(
    slots: SessionsView,
    kind: PeripheralKind,
    connected: bool,
    events: Seq<LinkEventView>,
)
    requires
        slots.slot(kind) is Some,
    ensures
        ({
            let address = slots.slot(kind)->Some_0.address;
            let run = ReconnectView::begin(slots, kind, connected);
            let after = run.slots_run(slots, events);
            &&& after.slot(kind) matches Some(session) && session.address == address
            &&& after.with_slot(kind, slots.slot(kind)) == slots
            &&& ReconnectView::begin(after, kind, false).pending() == LinkStep::Recreate(address)
            &&& run.run(events).phase == LinkPhase::Finished(false) ==> ReconnectView::begin(
                after,
                kind,
                false,
            ).connects(seq![LinkEventView::Recreated(true)]) == 1
        }),
{
    let run = ReconnectView::begin(slots, kind, connected);
    lemma_slot_keeps_address(run, slots, events);
    let after = run.slots_run(slots, events);
    let again = ReconnectView::begin(after, kind, false);
    let first = seq![LinkEventView::Recreated(true)];
    assert(first.drop_first().len() == 0);
    assert(again.connects(first) == 1) by {
        let next = again.advance(first[0]);
        assert(next.pending() == LinkStep::Connect);
        assert(next.connects(first.drop_first()) == 0);
    }
}

/// While a run for a slot goes on, the slot keeps the address the run was
/// begun with, and the slots differ from what they were in that slot alone.
pub proof fn lemma_slot_keeps_address(
    run: ReconnectView,
    slots: SessionsView,
    events: Seq<LinkEventView>,
)
    requires
        slots.slot(run.kind) matches Some(session) && session.address == run.address,
    ensures
        run.slots_run(slots, events).slot(run.kind) matches Some(session) && session.address
            == run.address,
        run.slots_run(slots, events).with_slot(run.kind, slots.slot(run.kind)) == slots,
    decreases events.len(),
{
    if events.len() > 0 {
        let next = run.advance(events[0]);
        let between = run.slots_after(slots, events[0]);
        assert(next.kind == run.kind && next.address == run.address);
        assert(between.with_slot(run.kind, slots.slot(run.kind)) == slots);
        lemma_slot_keeps_address(next, between, events.drop_first());
        let after = run.slots_run(slots, events);
        assert(after == next.slots_run(between, events.drop_first()));
        assert(after.with_slot(run.kind, between.slot(run.kind)) == between);
    }
}

/// A run that has ended hands out nothing more.
pub proof fn lemma_finished_stays(run: ReconnectView, events: Seq<LinkEventView>)
    requires
        run.phase is Finished,
    ensures
        run.connects(events) == 0,
        run.run(events) == run,
    decreases events.len(),
{
    if events.len() > 0 {
        lemma_finished_stays(run, events.drop_first());
    }
}

/// A run gives up only after the tenth connect has failed: while every
/// connect fails, the run that stands at its `k`-th connect tries the
/// remaining ones and then ends without success.
pub proof fn lemma_gives_up_after_ten(run: ReconnectView)
    requires
        run.wf(),
        run.phase is Connecting,
    ensures
        ({
            let rounds = (MAX_CONNECT_ATTEMPTS - run.attempts + 1) as nat;
            &&& run.run(failed_rounds(rounds)).phase == LinkPhase::Finished(false)
            &&& run.connects(failed_rounds(rounds)) == MAX_CONNECT_ATTEMPTS - run.attempts
            &&& forall|fewer: nat| fewer < rounds ==> !(#[trigger] run.run(failed_rounds(fewer)).phase
                is Finished)
        }),
    decreases MAX_CONNECT_ATTEMPTS - run.attempts,
{
    let rounds = (MAX_CONNECT_ATTEMPTS - run.attempts + 1) as nat;
    let events = failed_rounds(rounds);
    let tail = failed_rounds((rounds - 1) as nat);
    let waiting = run.advance(LinkEventView::Connected(false));
    let next = waiting.advance(LinkEventView::Waited);
    assert(events.drop_first().drop_first() == tail);
    assert(events[0] == LinkEventView::Connected(false));
    assert(events.drop_first()[0] == LinkEventView::Waited);
    assert(run.run(events) == waiting.run(events.drop_first()));
    assert(waiting.run(events.drop_first()) == next.run(tail));
    assert(run.connects(events) == waiting.connects(events.drop_first()));
    assert(waiting.connects(events.drop_first()) == (if next.pending() == LinkStep::Connect {
        1nat
    } else {
        0nat
    }) + next.connects(tail));
    if run.attempts < MAX_CONNECT_ATTEMPTS {
        lemma_gives_up_after_ten(next);
    } else {
        assert(tail == Seq::<LinkEventView>::empty());
    }
    assert forall|fewer: nat| fewer < rounds implies !(#[trigger] run.run(failed_rounds(fewer)).phase
        is Finished) by {
        if fewer > 0 {
            let some = failed_rounds(fewer);
            let rest = failed_rounds((fewer - 1) as nat);
            assert(some.drop_first().drop_first() == rest);
            assert(some[0] == LinkEventView::Connected(false));
            assert(some.drop_first()[0] == LinkEventView::Waited);
            assert(run.run(some) == waiting.run(some.drop_first()));
            assert(waiting.run(some.drop_first()) == next.run(rest));
        }
    }
}

} // verus!
