//! The lifecycle of one keep-awake session as a state machine.
//!
//! A session opens the default output device, prepares one buffer header
//! against it, and then cycles: read the running flag; if it is set, play
//! the buffer, wait (bounded) for the device to finish, rest for the cycle
//! interval, and repeat; once the flag clears, unprepare the header and
//! close the device. The controller holds the state and makes every
//! decision; a front-end shell performs each [`Action`] it asks for — one
//! platform call, one flag read or one short sleep — and feeds the outcome
//! back as an [`Event`]. The shell never decides anything: correctness of
//! the open/close and prepare/unprepare pairing, of the bounded wait and of
//! cooperative shutdown is proved here, whatever the device reports.

use vstd::prelude::*;
use crate::audio::MMSYSERR_NOERROR;

verus! {

/// Interval between two polls of the done bit or two flag checks while
/// resting, in milliseconds.
pub const POLL_INTERVAL_MS: u64 = 10;

/// Longest time one wait for playback completion may take, in milliseconds.
pub const AWAIT_TIMEOUT_MS: u64 = 5000;

/// Number of polls one wait for playback completion may make:
/// [`AWAIT_TIMEOUT_MS`] divided into [`POLL_INTERVAL_MS`] slices.
pub const AWAIT_POLLS: u32 = 500;

/// Number of short sleeps that make up one inter-cycle rest:
/// [`crate::audio::TIMER_PERIOD_MS`] divided into [`POLL_INTERVAL_MS`]
/// slices.
pub const REST_TICKS: u32 = 500;

/// Most actions a controller can be away from `Done` once the running flag
/// stays cleared.
pub const SHUTDOWN_STEP_BOUND: u32 = AWAIT_POLLS + 9;

/// Where a session stands, from before the single-instance check to after
/// the device is closed.
#[derive(Clone, Copy, PartialEq, Eq, Structural, Debug)]
pub enum Phase {
    /// The single-instance mutex has not been checked yet.
    CheckingInstance,
    /// The device is about to be opened.
    Opening,
    /// The header is about to be prepared against the open device.
    Preparing,
    /// Top of the cycle: the running flag is about to be read.
    CheckingFlag,
    /// The buffer is about to be written to the device.
    Playing,
    /// The last write failed; the device is about to be reset.
    Resetting,
    /// Waiting for the device to set the header's done bit.
    Awaiting,
    /// Resting between cycles, one short sleep at a time.
    Resting,
    /// Shutting down: the header is about to be unprepared.
    Unpreparing,
    /// Shutting down: the device is about to be closed.
    Closing,
    /// The session is over; nothing is held.
    Done,
}

/// What the shell must do next for the controller.
#[derive(Clone, Copy, PartialEq, Eq, Structural, Debug)]
pub enum Action {
    /// Create the single-instance mutex and report whether a handle came
    /// back and whether the mutex already existed.
    CheckInstance,
    /// Open the default output device; report the result code.
    OpenDevice,
    /// Prepare the buffer header against the device; report the result code.
    PrepareHeader,
    /// Read the running flag; report its value.
    ReadFlag,
    /// Write the buffer to the device; report the result code.
    PlayBuffer,
    /// Reset the device after a failed write; report the result code.
    ResetDevice,
    /// Sleep one poll interval, then report whether the header's done bit
    /// is set.
    PollDone,
    /// Sleep one poll interval, then report the running flag.
    SleepTick,
    /// Unprepare the buffer header; report the result code.
    UnprepareHeader,
    /// Close the device; report the result code.
    CloseDevice,
    /// Nothing: the session is over.
    Finish,
}

/// The outcome of the last requested action.
#[derive(Clone, Copy, PartialEq, Eq, Structural, Debug)]
pub enum Event {
    /// Outcome of creating the single-instance mutex.
    Instance { created: bool, already_exists: bool },
    /// Result code of a device call.
    Code(u32),
    /// Value of the running flag.
    Flag(bool),
    /// Whether the header's done bit is set.
    DoneFlag(bool),
}

/// Why a session ended early or without playing.
#[derive(Clone, Copy, PartialEq, Eq, Structural, Debug)]
pub enum AudioError {
    /// Another instance holds the single-instance mutex.
    AlreadyRunning,
    /// The device could not be opened; the code the open call returned.
    DeviceUnavailable(u32),
    /// The header could not be prepared; the code the prepare call returned.
    PrepareFailed(u32),
    /// A write failed and the reset meant to heal it failed too; the code
    /// the reset call returned.
    WriteFailed(u32),
}

/// The state of one session: its phase, what it holds, and what the run has
/// done so far.
pub struct Controller {
    /// Where the session stands.
    pub phase: Phase,
    /// Polls made in the current wait for completion.
    pub polls: u32,
    /// Short sleeps made in the current inter-cycle rest.
    pub ticks: u32,
    /// Whether the device is open.
    pub device_open: bool,
    /// Whether the header is prepared against the device.
    pub header_prepared: bool,
    /// Whether any write was issued in this run.
    pub has_played: bool,
    /// Whether the last wait for completion ended by timeout.
    pub await_timed_out: bool,
    /// Result code of the unprepare call, once made (kept for logging;
    /// never fatal).
    pub unprepare_code: Option<u32>,
    /// Result code of the close call, once made (kept for logging; never
    /// fatal).
    pub close_code: Option<u32>,
    /// The failure that ended the run, if any.
    pub failure: Option<AudioError>,
    /// How often the device was opened.
    pub opens: Ghost<nat>,
    /// How often the device was closed.
    pub closes: Ghost<nat>,
    /// How often the header was prepared.
    pub prepares: Ghost<nat>,
    /// How often the header was unprepared.
    pub unprepares: Ghost<nat>,
    /// How many writes were issued.
    pub plays: Ghost<nat>,
}

impl Controller {
    /// The state before anything happened: no resources, no failure.
    pub open spec fn spec_init() -> Controller {
        Controller {
            phase: Phase::CheckingInstance,
            polls: 0,
            ticks: 0,
            device_open: false,
            header_prepared: false,
            has_played: false,
            await_timed_out: false,
            unprepare_code: None,
            close_code: None,
            failure: None,
            opens: Ghost(0),
            closes: Ghost(0),
            prepares: Ghost(0),
            unprepares: Ghost(0),
            plays: Ghost(0),
        }
    }

    /// The phases in which the device is open.
    pub open spec fn phase_device_open(p: Phase) -> bool {
        match p {
            Phase::CheckingInstance => false,
            Phase::Opening => false,
            Phase::Done => false,
            _ => true,
        }
    }

    /// The phases in which the header is prepared.
    pub open spec fn phase_header_prepared(p: Phase) -> bool {
        match p {
            Phase::CheckingFlag => true,
            Phase::Playing => true,
            Phase::Resetting => true,
            Phase::Awaiting => true,
            Phase::Resting => true,
            Phase::Unpreparing => true,
            _ => false,
        }
    }

    /// The phases of a run that is still going: no failure is recorded
    /// there, because every failure either ends the run or (a failed write)
    /// is healed by a reset.
    pub open spec fn phase_active(p: Phase) -> bool {
        match p {
            Phase::Unpreparing => false,
            Phase::Closing => false,
            Phase::Done => false,
            _ => true,
        }
    }

    /// Well-formedness: the held resources match the phase, the poll and
    /// tick counts are inside their budgets, and the ghost counters balance.
    pub open spec fn wf(self) -> bool {
        &&& self.device_open == Self::phase_device_open(self.phase)
        &&& self.header_prepared == Self::phase_header_prepared(self.phase)
        &&& (self.phase == Phase::Awaiting ==> self.polls < AWAIT_POLLS)
        &&& (self.phase != Phase::Awaiting ==> self.polls == 0)
        &&& (self.phase == Phase::Resting ==> self.ticks < REST_TICKS)
        &&& (self.phase != Phase::Resting ==> self.ticks == 0)
        &&& self.opens@ == self.closes@ + (if self.device_open { 1nat } else { 0nat })
        &&& self.prepares@ == self.unprepares@ + (if self.header_prepared { 1nat } else { 0nat })
        &&& self.opens@ <= 1
        &&& self.prepares@ <= self.opens@
        &&& (self.has_played <==> self.plays@ > 0)
        &&& (Self::phase_active(self.phase) ==> self.failure is None)
        &&& ((self.phase == Phase::CheckingInstance || self.phase == Phase::Opening) ==> self.opens@
            == 0 && self.prepares@ == 0 && self.plays@ == 0)
        &&& (self.phase == Phase::Preparing ==> self.prepares@ == 0)
    }

    /// Which kind of event answers the pending action of a phase. `Done`
    /// expects nothing: the session is over.
    pub open spec fn spec_expected(p: Phase, ev: Event) -> bool {
        match p {
            Phase::CheckingInstance => ev is Instance,
            Phase::Opening => ev is Code,
            Phase::Preparing => ev is Code,
            Phase::CheckingFlag => ev is Flag,
            Phase::Playing => ev is Code,
            Phase::Resetting => ev is Code,
            Phase::Awaiting => ev is DoneFlag,
            Phase::Resting => ev is Flag,
            Phase::Unpreparing => ev is Code,
            Phase::Closing => ev is Code,
            Phase::Done => false,
        }
    }

    /// The pending action of a phase.
    pub open spec fn spec_action(p: Phase) -> Action {
        match p {
            Phase::CheckingInstance => Action::CheckInstance,
            Phase::Opening => Action::OpenDevice,
            Phase::Preparing => Action::PrepareHeader,
            Phase::CheckingFlag => Action::ReadFlag,
            Phase::Playing => Action::PlayBuffer,
            Phase::Resetting => Action::ResetDevice,
            Phase::Awaiting => Action::PollDone,
            Phase::Resting => Action::SleepTick,
            Phase::Unpreparing => Action::UnprepareHeader,
            Phase::Closing => Action::CloseDevice,
            Phase::Done => Action::Finish,
        }
    }

    /// The transition relation: how one reported outcome moves the session
    /// forward.
    pub open spec fn spec_step(self, ev: Event) -> Controller
        recommends
            self.wf(),
            Self::spec_expected(self.phase, ev),
    {
        match self.phase {
            Phase::CheckingInstance => {
                if ev->Instance_created && !ev->Instance_already_exists {
                    Controller { phase: Phase::Opening, ..self }
                } else {
                    Controller {
                        phase: Phase::Done,
                        failure: Some(AudioError::AlreadyRunning),
                        ..self
                    }
                }
            },
            Phase::Opening => {
                if ev->Code_0 == MMSYSERR_NOERROR {
                    Controller {
                        phase: Phase::Preparing,
                        device_open: true,
                        opens: Ghost(self.opens@ + 1),
                        ..self
                    }
                } else {
                    Controller {
                        phase: Phase::Done,
                        failure: Some(AudioError::DeviceUnavailable(ev->Code_0)),
                        ..self
                    }
                }
            },
            Phase::Preparing => {
                if ev->Code_0 == MMSYSERR_NOERROR {
                    Controller {
                        phase: Phase::CheckingFlag,
                        header_prepared: true,
                        prepares: Ghost(self.prepares@ + 1),
                        ..self
                    }
                } else {
                    // The open device must still be closed: failing to
                    // prepare aborts the run, not the cleanup.
                    Controller {
                        phase: Phase::Closing,
                        failure: Some(AudioError::PrepareFailed(ev->Code_0)),
                        ..self
                    }
                }
            },
            Phase::CheckingFlag => {
                if ev->Flag_0 {
                    Controller { phase: Phase::Playing, ..self }
                } else {
                    Controller { phase: Phase::Unpreparing, ..self }
                }
            },
            Phase::Playing => {
                if ev->Code_0 == MMSYSERR_NOERROR {
                    Controller {
                        phase: Phase::Awaiting,
                        has_played: true,
                        await_timed_out: false,
                        plays: Ghost(self.plays@ + 1),
                        ..self
                    }
                } else {
                    // A failed write is healed by one reset; the loop goes on.
                    Controller { phase: Phase::Resetting, ..self }
                }
            },
            Phase::Resetting => {
                if ev->Code_0 == MMSYSERR_NOERROR {
                    Controller { phase: Phase::Resting, ..self }
                } else {
                    // No retries beyond the one reset: shut down cleanly.
                    Controller {
                        phase: Phase::Unpreparing,
                        failure: Some(AudioError::WriteFailed(ev->Code_0)),
                        ..self
                    }
                }
            },
            Phase::Awaiting => {
                if ev->DoneFlag_0 {
                    Controller { phase: Phase::Resting, polls: 0, ..self }
                } else if self.polls + 1 == AWAIT_POLLS {
                    // Timeout: noted, never fatal; the cycle goes on.
                    Controller { phase: Phase::Resting, polls: 0, await_timed_out: true, ..self }
                } else {
                    Controller { polls: (self.polls + 1) as u32, ..self }
                }
            },
            Phase::Resting => {
                if !ev->Flag_0 {
                    // The flag cleared mid-rest: wake early and re-check it
                    // at the top of the cycle.
                    Controller { phase: Phase::CheckingFlag, ticks: 0, ..self }
                } else if self.ticks + 1 == REST_TICKS {
                    Controller { phase: Phase::CheckingFlag, ticks: 0, ..self }
                } else {
                    Controller { ticks: (self.ticks + 1) as u32, ..self }
                }
            },
            Phase::Unpreparing => {
                // Best effort: the code is kept for logging, the cleanup
                // goes on regardless.
                Controller {
                    phase: Phase::Closing,
                    header_prepared: false,
                    unprepare_code: Some(ev->Code_0),
                    unprepares: Ghost(self.unprepares@ + 1),
                    ..self
                }
            },
            Phase::Closing => {
                Controller {
                    phase: Phase::Done,
                    device_open: false,
                    close_code: Some(ev->Code_0),
                    closes: Ghost(self.closes@ + 1),
                    ..self
                }
            },
            Phase::Done => self,
        }
    }

    /// A controller before the single-instance check, holding nothing.
    pub fn new() -> (c: Controller)
        ensures
            c == Self::spec_init(),
            c.wf(),
    {
        Controller {
            phase: Phase::CheckingInstance,
            polls: 0,
            ticks: 0,
            device_open: false,
            header_prepared: false,
            has_played: false,
            await_timed_out: false,
            unprepare_code: None,
            close_code: None,
            failure: None,
            opens: Ghost(0nat),
            closes: Ghost(0nat),
            prepares: Ghost(0nat),
            unprepares: Ghost(0nat),
            plays: Ghost(0nat),
        }
    }

    /// The next action the shell must perform.
    pub fn action(&self) -> (a: Action)
        ensures
            a == Self::spec_action(self.phase),
    {
        match self.phase {
            Phase::CheckingInstance => Action::CheckInstance,
            Phase::Opening => Action::OpenDevice,
            Phase::Preparing => Action::PrepareHeader,
            Phase::CheckingFlag => Action::ReadFlag,
            Phase::Playing => Action::PlayBuffer,
            Phase::Resetting => Action::ResetDevice,
            Phase::Awaiting => Action::PollDone,
            Phase::Resting => Action::SleepTick,
            Phase::Unpreparing => Action::UnprepareHeader,
            Phase::Closing => Action::CloseDevice,
            Phase::Done => Action::Finish,
        }
    }

    /// Whether an event is of the kind the pending action reports.
    pub fn event_fits(&self, ev: &Event) -> (r: bool)
        ensures
            r == Self::spec_expected(self.phase, *ev),
    {
        match self.phase {
            Phase::CheckingInstance => matches!(ev, Event::Instance { .. }),
            Phase::Opening | Phase::Preparing | Phase::Playing | Phase::Resetting
                | Phase::Unpreparing | Phase::Closing => matches!(ev, Event::Code(_)),
            Phase::CheckingFlag | Phase::Resting => matches!(ev, Event::Flag(_)),
            Phase::Awaiting => matches!(ev, Event::DoneFlag(_)),
            Phase::Done => false,
        }
    }

    /// Whether the session is over.
    pub fn is_done(&self) -> (r: bool)
        ensures
            r == (self.phase == Phase::Done),
    {
        matches!(self.phase, Phase::Done)
    }

    /// The run's outcome so far: the failure that ended it, or success.
    pub fn outcome(&self) -> (r: Result<(), AudioError>)
        ensures
            r is Ok <==> self.failure is None,
            r is Err ==> Some(r->Err_0) == self.failure,
    {
        match self.failure {
            None => Ok(()),
            Some(e) => Err(e),
        }
    }

    /// Consumes the outcome of the pending action and advances the session
    /// one transition.
    pub fn step(&mut self, ev: Event)
        requires
            old(self).wf(),
            Self::spec_expected(old(self).phase, ev),
        ensures
            *final(self) == old(self).spec_step(ev),
            final(self).wf(),
    {
        match self.phase {
            Phase::CheckingInstance => {
                if let Event::Instance { created, already_exists } = ev {
                    if created && !already_exists {
                        self.phase = Phase::Opening;
                    } else {
                        self.phase = Phase::Done;
                        self.failure = Some(AudioError::AlreadyRunning);
                    }
                } else {
                    proof {
                        assert(false);
                    }
                }
            },
            Phase::Opening => {
                if let Event::Code(c) = ev {
                    if c == MMSYSERR_NOERROR {
                        self.phase = Phase::Preparing;
                        self.device_open = true;
                        self.opens = Ghost(self.opens@ + 1);
                    } else {
                        self.phase = Phase::Done;
                        self.failure = Some(AudioError::DeviceUnavailable(c));
                    }
                } else {
                    proof {
                        assert(false);
                    }
                }
            },
            Phase::Preparing => {
                if let Event::Code(c) = ev {
                    if c == MMSYSERR_NOERROR {
                        self.phase = Phase::CheckingFlag;
                        self.header_prepared = true;
                        self.prepares = Ghost(self.prepares@ + 1);
                    } else {
                        self.phase = Phase::Closing;
                        self.failure = Some(AudioError::PrepareFailed(c));
                    }
                } else {
                    proof {
                        assert(false);
                    }
                }
            },
            Phase::CheckingFlag => {
                if let Event::Flag(f) = ev {
                    if f {
                        self.phase = Phase::Playing;
                    } else {
                        self.phase = Phase::Unpreparing;
                    }
                } else {
                    proof {
                        assert(false);
                    }
                }
            },
            Phase::Playing => {
                if let Event::Code(c) = ev {
                    if c == MMSYSERR_NOERROR {
                        self.phase = Phase::Awaiting;
                        self.has_played = true;
                        self.await_timed_out = false;
                        self.plays = Ghost(self.plays@ + 1);
                    } else {
                        self.phase = Phase::Resetting;
                    }
                } else {
                    proof {
                        assert(false);
                    }
                }
            },
            Phase::Resetting => {
                if let Event::Code(c) = ev {
                    if c == MMSYSERR_NOERROR {
                        self.phase = Phase::Resting;
                    } else {
                        self.phase = Phase::Unpreparing;
                        self.failure = Some(AudioError::WriteFailed(c));
                    }
                } else {
                    proof {
                        assert(false);
                    }
                }
            },
            Phase::Awaiting => {
                if let Event::DoneFlag(d) = ev {
                    if d {
                        self.phase = Phase::Resting;
                        self.polls = 0;
                    } else if self.polls + 1 == AWAIT_POLLS {
                        self.phase = Phase::Resting;
                        self.polls = 0;
                        self.await_timed_out = true;
                    } else {
                        self.polls = self.polls + 1;
                    }
                } else {
                    proof {
                        assert(false);
                    }
                }
            },
            Phase::Resting => {
                if let Event::Flag(f) = ev {
                    if !f {
                        self.phase = Phase::CheckingFlag;
                        self.ticks = 0;
                    } else if self.ticks + 1 == REST_TICKS {
                        self.phase = Phase::CheckingFlag;
                        self.ticks = 0;
                    } else {
                        self.ticks = self.ticks + 1;
                    }
                } else {
                    proof {
                        assert(false);
                    }
                }
            },
            Phase::Unpreparing => {
                if let Event::Code(c) = ev {
                    self.phase = Phase::Closing;
                    self.header_prepared = false;
                    self.unprepare_code = Some(c);
                    self.unprepares = Ghost(self.unprepares@ + 1);
                } else {
                    proof {
                        assert(false);
                    }
                }
            },
            Phase::Closing => {
                if let Event::Code(c) = ev {
                    self.phase = Phase::Done;
                    self.device_open = false;
                    self.close_code = Some(c);
                    self.closes = Ghost(self.closes@ + 1);
                } else {
                    proof {
                        assert(false);
                    }
                }
            },
            Phase::Done => {
                proof {
                    assert(false);
                }
            },
        }
    }
}

/// The state a controller reaches from `c` after consuming a sequence of
/// events in order, stopping early at `Done` or at an event of the wrong
/// kind.
pub open spec fn spec_run(c: Controller, evs: Seq<Event>) -> Controller
    decreases evs.len(),
{
    if evs.len() == 0 || c.phase == Phase::Done || !Controller::spec_expected(c.phase, evs[0]) {
        c
    } else {
        spec_run(c.spec_step(evs[0]), evs.drop_first())
    }
}

/// Runs one whole session over a recorded sequence of outcomes: from the
/// single-instance check through the playback cycles to the final state.
/// The live front-end shells drive a [`Controller`] event by event instead;
/// this is the same decision logic over a feed given in advance.
pub fn run_main(events: &Vec<Event>) -> (c: Controller)
    ensures
        c == spec_run(Controller::spec_init(), events@),
        c.wf(),
{
    let mut c = Controller::new();
    let mut i: usize = 0;
    proof {
        assert(events@.skip(0) =~= events@);
    }
    while i < events.len()
        invariant
            i <= events@.len(),
            c.wf(),
            spec_run(Controller::spec_init(), events@) == spec_run(c, events@.skip(i as int)),
        decreases events@.len() - i,
    {
        let ev = events[i];
        if c.is_done() || !c.event_fits(&ev) {
            proof {
                assert(spec_run(c, events@.skip(i as int)) == c);
            }
            return c;
        }
        proof {
            assert(events@.skip(i as int).drop_first() =~= events@.skip(i as int + 1));
            assert(events@.skip(i as int)[0] == events@[i as int]);
        }
        c.step(ev);
        i = i + 1;
    }
    proof {
        assert(events@.skip(i as int).len() == 0);
    }
    c
}

/// A finished session holds nothing: every open was matched by a close and
/// every prepare by an unprepare, so a following session starts against a
/// cleanly released device.
pub proof fn lemma_finished_run_releases_all(c: Controller)
    requires
        c.wf(),
        c.phase == Phase::Done,
    ensures
        !c.device_open,
        !c.header_prepared,
        c.opens@ == c.closes@,
        c.prepares@ == c.unprepares@,
{
}

/// Prepare and unprepare are strictly paired on every path: no state holds
/// more unprepares than prepares or falls more than one prepare behind, and
/// by the time the device is about to be closed — early-failure paths
/// included — exactly as many unprepares as prepares have happened, at most
/// one of each.
pub proof fn lemma_unprepare_paired_before_close(c: Controller)
    requires
        c.wf(),
    ensures
        c.unprepares@ <= c.prepares@ <= c.unprepares@ + 1,
        c.phase == Phase::Closing || c.phase == Phase::Done ==> c.prepares@ == c.unprepares@
            && c.unprepares@ <= 1,
{
}

/// A cleared running flag at the top of the cycle leads straight through
/// shutdown: no write is issued by the flag check, and none is added by the
/// unprepare and close that follow, whatever codes they report.
pub proof fn lemma_stopped_flag_plays_nothing(c: Controller, unprep_code: u32, close_code: u32)
    requires
        c.wf(),
        c.phase == Phase::CheckingFlag,
    ensures
        ({
            let shut = c.spec_step(Event::Flag(false)).spec_step(Event::Code(unprep_code)).spec_step(
                Event::Code(close_code),
            );
            &&& c.spec_step(Event::Flag(false)).phase == Phase::Unpreparing
            &&& shut.phase == Phase::Done
            &&& shut.plays@ == c.plays@
            &&& shut.has_played == c.has_played
            &&& shut.failure == c.failure
        }),
{
}

/// The state after `k` polls that all find the done bit unset.
pub open spec fn spec_polls_denied(c: Controller, k: nat) -> Controller
    decreases k,
{
    if k == 0 {
        c
    } else {
        spec_polls_denied(c.spec_step(Event::DoneFlag(false)), (k - 1) as nat)
    }
}

/// A wait for completion never outlasts its budget: even against a device
/// that never sets the done bit, after the remaining number of polls the
/// controller has left the wait — by timeout, noted but not fatal — and
/// rests for the next cycle.
pub proof fn lemma_await_within_timeout(c: Controller)
    requires
        c.wf(),
        c.phase == Phase::Awaiting,
    ensures
        ({
            let after = spec_polls_denied(c, (AWAIT_POLLS - c.polls) as nat);
            &&& after.phase == Phase::Resting
            &&& after.await_timed_out
            &&& after.wf()
        }),
    decreases AWAIT_POLLS - c.polls,
{
    let next = c.spec_step(Event::DoneFlag(false));
    if c.polls + 1 == AWAIT_POLLS {
        assert(spec_polls_denied(next, 0) == next);
    } else {
        lemma_await_within_timeout(next);
        assert(spec_polls_denied(c, (AWAIT_POLLS - c.polls) as nat) == spec_polls_denied(
            next,
            (AWAIT_POLLS - next.polls) as nat,
        ));
    }
}

/// How far a session is from `Done` once the running flag stays cleared,
/// counted in shell actions.
pub open spec fn shutdown_measure(c: Controller) -> int {
    match c.phase {
        Phase::Done => 0,
        Phase::Closing => 1,
        Phase::Unpreparing => 2,
        Phase::CheckingFlag => 3,
        Phase::Resting => 4,
        Phase::Awaiting => 5 + AWAIT_POLLS - c.polls,
        Phase::Resetting => 6,
        Phase::Playing => 6 + AWAIT_POLLS,
        Phase::Preparing => 7 + AWAIT_POLLS,
        Phase::Opening => 8 + AWAIT_POLLS,
        Phase::CheckingInstance => 9 + AWAIT_POLLS,
    }
}

/// Shutdown is prompt: once the running flag stays cleared, every fitting
/// event — whatever the device reports, done bit or not — strictly lowers
/// the distance to `Done`, and that distance never exceeds
/// [`SHUTDOWN_STEP_BOUND`] actions. One such action is at most one poll
/// interval of sleeping, so a stop request is honoured within roughly the
/// completion-timeout bound plus the cleanup calls.
pub proof fn lemma_shutdown_bounded(c: Controller, ev: Event)
    requires
        c.wf(),
        c.phase != Phase::Done,
        Controller::spec_expected(c.phase, ev),
        ev matches Event::Flag(f) ==> !f,
    ensures
        0 <= shutdown_measure(c.spec_step(ev)) < shutdown_measure(c),
        shutdown_measure(c) <= SHUTDOWN_STEP_BOUND,
{
}

/// One transition keeps the state well-formed: the stated invariant — held
/// resources matching the phase, budgets respected, counters balanced — is
/// preserved by every fitting event.
pub proof fn lemma_step_preserves_wf(c: Controller, ev: Event)
    requires
        c.wf(),
        Controller::spec_expected(c.phase, ev),
    ensures
        c.spec_step(ev).wf(),
{
}

/// An event feed that reports a cleared flag at every flag read, and whose
/// events all fit the pending actions along the run.
pub open spec fn stopping_feed(c: Controller, evs: Seq<Event>) -> bool
    decreases evs.len(),
{
    evs.len() == 0 || {
        &&& Controller::spec_expected(c.phase, evs[0])
        &&& (evs[0] matches Event::Flag(f) ==> !f)
        &&& stopping_feed(c.spec_step(evs[0]), evs.drop_first())
    }
}

/// End to end: once the running flag stays cleared, the session is over
/// within [`shutdown_measure`] further actions — at most
/// [`SHUTDOWN_STEP_BOUND`] — whatever result codes the device reports and
/// whether or not its done bit ever appears.
pub proof fn lemma_stop_reaches_done(c: Controller, evs: Seq<Event>)
    requires
        c.wf(),
        stopping_feed(c, evs),
        evs.len() >= shutdown_measure(c),
    ensures
        spec_run(c, evs).phase == Phase::Done,
    decreases evs.len(),
{
    if c.phase != Phase::Done {
        lemma_shutdown_bounded(c, evs[0]);
        lemma_step_preserves_wf(c, evs[0]);
        lemma_stop_reaches_done(c.spec_step(evs[0]), evs.drop_first());
    }
}

/// A second instance is turned away before any device work: when no valid
/// mutex handle comes back, or the mutex already exists, the very first
/// step ends the run as already running, with the device never opened and
/// nothing ever played.
pub proof fn lemma_second_instance_exits_immediately(created: bool, already_exists: bool)
    requires
        !(created && !already_exists),
    ensures
        ({
            let c = Controller::spec_init().spec_step(
                Event::Instance { created, already_exists },
            );
            &&& c.phase == Phase::Done
            &&& c.failure == Some(AudioError::AlreadyRunning)
            &&& c.opens@ == 0
            &&& c.plays@ == 0
            &&& !c.device_open
            &&& !c.header_prepared
        }),
{
}

} // verus!
