//! The polling cycle: what to publish and what to do next, decided from the
//! phase the cycle is in and from what has just happened.
//!
//! The cycle itself does no work. Whoever drives it fetches, waits and
//! publishes as it is told, and reports back what happened.

use crate::location::{is_numeric_id, location_of, COORDINATES_PATTERN};
use crate::pattern::{pattern_compiles, regex_captures, PatternError};
use crate::request::{build_url, url_text};
use crate::status::{display_status, is_status_code, status_line, STATUS_OK};
use vstd::prelude::*;
use vstd::string::*;

verus! {

/// What is published before the first answer has come.
pub const LOADING: &'static str = "loading...";

/// The shortest pause between two requests, in seconds.
pub const MIN_PERIOD_SECS: u64 = 60;

/// The pause after a report has come, in seconds, for a polling interval of
/// `poll_mins` minutes: that many minutes, but never less than one minute,
/// and `u64::MAX` seconds where the minutes are more than a `u64` of seconds
/// can hold.
pub open spec fn period_secs(poll_mins: u64) -> u64 {
    if poll_mins == 0 {
        MIN_PERIOD_SECS
    } else if poll_mins * 60 <= u64::MAX {
        (poll_mins * 60) as u64
    } else {
        u64::MAX
    }
}

/// The pause after a report has come, in seconds, for a polling interval of
/// `poll_mins` minutes. An interval of zero is taken as one minute, so that
/// the cycle never spins.
pub fn poll_period_secs(poll_mins: u64) -> (secs: u64)
    ensures
        secs == period_secs(poll_mins),
        secs >= MIN_PERIOD_SECS,
{
    if poll_mins == 0 {
        MIN_PERIOD_SECS
    } else if poll_mins > u64::MAX / 60 {
        u64::MAX
    } else {
        poll_mins * 60
    }
}

/// Where the cycle stands.
#[derive(Debug, Clone, Copy, PartialEq, Eq)]
pub enum Phase {
    /// Not started yet.
    Idle,
    /// A request is under way; its status is awaited.
    Requesting,
    /// The status was a success; the body of the answer is awaited.
    Reading,
    /// Pausing before the next request.
    Waiting,
    /// Ended, for good.
    Stopped,
}

/// What has just happened.
#[derive(Debug, Clone, PartialEq, Eq)]
pub enum Event {
    /// The cycle is set going.
    Start,
    /// The request was answered with this status.
    Status(u16),
    /// The body of the answer was read.
    Body(String),
    /// The pause is over.
    Elapsed,
    /// The cycle is called off.
    Cancel,
}

/// An `Event`, as plain values.
pub enum EventView {
    Start,
    Status(u16),
    Body(Seq<char>),
    Elapsed,
    Cancel,
}

impl View for Event {
    type V = EventView;

    open spec fn view(&self) -> EventView {
        match self {
            Event::Start => EventView::Start,
            Event::Status(code) => EventView::Status(*code),
            Event::Body(body) => EventView::Body(body@),
            Event::Elapsed => EventView::Elapsed,
            Event::Cancel => EventView::Cancel,
        }
    }
}

/// What the driver does next.
#[derive(Debug, Clone, Copy, PartialEq, Eq)]
pub enum Command {
    /// Send the request, and report its status.
    Fetch,
    /// Read the body of the answer, and report it.
    ReadBody,
    /// Pause for this many seconds, and report when the pause is over.
    Sleep(u64),
    /// End the cycle.
    Stop,
}

/// What is handed to the reader: the body of a report, or the text of a
/// failure.
pub type Update = Result<String, String>;

/// One turn of the cycle: what to publish, if anything, and what to do
/// next.
#[derive(Debug, Clone, PartialEq, Eq)]
pub struct Step {
    pub publish: Option<Update>,
    pub command: Command,
}

/// A `Step`, as plain values.
pub struct StepView {
    pub publish: Option<Result<Seq<char>, Seq<char>>>,
    pub command: Command,
}

impl View for Step {
    type V = StepView;

    open spec fn view(&self) -> StepView {
        StepView {
            publish: match self.publish {
                Some(Ok(body)) => Some(Ok(body@)),
                Some(Err(text)) => Some(Err(text@)),
                None => None,
            },
            command: self.command,
        }
    }
}

/// The turn that ends the cycle: nothing is published.
pub open spec fn halt() -> (Phase, StepView) {
    (Phase::Stopped, StepView { publish: None, command: Command::Stop })
}

/// The rules of the cycle: the phase that follows and the turn that is
/// taken when `event` happens in `phase`, for a cycle that pauses `period`
/// seconds after each report.
///
/// - Starting publishes the loading text as a failure and sends the first
///   request.
/// - A status of 200 has the body read; the body is published as a
///   success, and the cycle pauses for `period` seconds.
/// - Any other status is published as a failure, by its description, and
///   the request is sent again after `MIN_PERIOD_SECS` seconds.
/// - When a pause is over the request is sent again.
/// - Calling off ends the cycle, and so does an event that the phase does
///   not wait for, or a status that is no status code. An ended cycle stays
///   ended.
pub open spec fn transition(period: u64, phase: Phase, event: EventView) -> (Phase, StepView) {
    match (phase, event) {
        (Phase::Stopped, _) => halt(),
        (_, EventView::Cancel) => halt(),
        (Phase::Idle, EventView::Start) => (
            Phase::Requesting,
            StepView { publish: Some(Err(LOADING@)), command: Command::Fetch },
        ),
        (Phase::Requesting, EventView::Status(code)) => if code == STATUS_OK {
            (Phase::Reading, StepView { publish: None, command: Command::ReadBody })
        } else if is_status_code(code) {
            (
                Phase::Waiting,
                StepView {
                    publish: Some(Err(status_line(code))),
                    command: Command::Sleep(MIN_PERIOD_SECS),
                },
            )
        } else {
            halt()
        },
        (Phase::Reading, EventView::Body(body)) => (
            Phase::Waiting,
            StepView { publish: Some(Ok(body)), command: Command::Sleep(period) },
        ),
        (Phase::Waiting, EventView::Elapsed) => (
            Phase::Requesting,
            StepView { publish: None, command: Command::Fetch },
        ),
        _ => halt(),
    }
}

/// A polling cycle for one address.
#[derive(Debug)]
pub struct Poller {
    url: String,
    period_secs: u64,
    phase: Phase,
}

/// A `Poller`, as plain values.
pub struct PollerView {
    pub url: Seq<char>,
    pub period_secs: u64,
    pub phase: Phase,
}

impl View for Poller {
    type V = PollerView;

    closed spec fn view(&self) -> PollerView {
        PollerView { url: self.url@, period_secs: self.period_secs, phase: self.phase }
    }
}

impl Poller {
    /// No cycle pauses for less than `MIN_PERIOD_SECS` after a report.
    #[verifier::type_invariant]
    spec fn paced(&self) -> bool {
        self.period_secs >= MIN_PERIOD_SECS
    }

    /// A cycle, not yet started, that asks `url` and pauses as
    /// `period_secs(poll_mins)` says.
    pub fn with_url(url: String, poll_mins: u64) -> (poller: Poller)
        ensures
            poller@ == (PollerView {
                url: url@,
                period_secs: period_secs(poll_mins),
                phase: Phase::Idle,
            }),
    {
        Poller { url, period_secs: poll_period_secs(poll_mins), phase: Phase::Idle }
    }

    /// A cycle, not yet started, for the weather at the place written as
    /// `place`: its address is the one that `build_url` gives.
    ///
    /// It fails if, and only if, `place` is no numeric id and the
    /// expression engine refuses the pattern for coordinates.
    pub fn new(place: &str, units: &str, lang: &str, api_key: &str, poll_mins: u64) -> (made:
        Result<Poller, PatternError>)
        ensures
            made is Ok <==> is_numeric_id(place@) || pattern_compiles(COORDINATES_PATTERN@),
            made matches Ok(poller) ==> poller@ == (PollerView {
                url: url_text(
                    location_of(place@, regex_captures(COORDINATES_PATTERN@, place@)),
                    units@,
                    lang@,
                    api_key@,
                ),
                period_secs: period_secs(poll_mins),
                phase: Phase::Idle,
            }),
    {
        match build_url(place, units, lang, api_key) {
            Ok(url) => Ok(Poller::with_url(url, poll_mins)),
            Err(e) => Err(e),
        }
    }

    /// The address that is asked.
    pub fn url(&self) -> (url: &str)
        ensures
            url@ == self@.url,
    {
        self.url.as_str()
    }

    /// The pause after a report, in seconds.
    pub fn period_secs(&self) -> (secs: u64)
        ensures
            secs == self@.period_secs,
            secs >= MIN_PERIOD_SECS,
    {
        proof {
            use_type_invariant(self);
        }
        self.period_secs
    }

    /// Where the cycle stands.
    pub fn phase(&self) -> (phase: Phase)
        ensures
            phase == self@.phase,
    {
        self.phase
    }

    /// Takes one turn: moves the cycle on by `event` and says what to
    /// publish and what to do next, as `transition` rules. The address and
    /// the pause stay as they are.
    pub fn step(&mut self, event: Event) -> (step: Step)
        ensures
            (final(self)@.phase, step@) == transition(
                old(self)@.period_secs,
                old(self)@.phase,
                event@,
            ),
            final(self)@.url == old(self)@.url,
            final(self)@.period_secs == old(self)@.period_secs,
            step.command matches Command::Sleep(secs) ==> secs >= MIN_PERIOD_SECS,
    {
        proof {
            use_type_invariant(&*self);
        }
        let (phase, step) = match (self.phase, event) {
            (Phase::Stopped, _) => (Phase::Stopped, Step { publish: None, command: Command::Stop }),
            (_, Event::Cancel) => (Phase::Stopped, Step { publish: None, command: Command::Stop }),
            (Phase::Idle, Event::Start) => (
                Phase::Requesting,
                Step { publish: Some(Err(String::from_str(LOADING))), command: Command::Fetch },
            ),
            (Phase::Requesting, Event::Status(code)) => {
                if code == STATUS_OK {
                    (Phase::Reading, Step { publish: None, command: Command::ReadBody })
                } else {
                    match display_status(code) {
                        Some(text) => (
                            Phase::Waiting,
                            Step {
                                publish: Some(Err(text)),
                                command: Command::Sleep(MIN_PERIOD_SECS),
                            },
                        ),
                        None => (Phase::Stopped, Step { publish: None, command: Command::Stop }),
                    }
                }
            },
            (Phase::Reading, Event::Body(body)) => (
                Phase::Waiting,
                Step { publish: Some(Ok(body)), command: Command::Sleep(self.period_secs) },
            ),
            (Phase::Waiting, Event::Elapsed) => (
                Phase::Requesting,
                Step { publish: None, command: Command::Fetch },
            ),
            _ => (Phase::Stopped, Step { publish: None, command: Command::Stop }),
        };
        self.phase = phase;
        step
    }
}

/// The first turn of a cycle publishes the loading text as a failure and
/// sends the first request.
pub proof fn lemma_start_publishes_loading(period: u64)
    ensures
        transition(period, Phase::Idle, EventView::Start) == (
            Phase::Requesting,
            StepView { publish: Some(Err(LOADING@)), command: Command::Fetch },
        ),
{
}

/// The cycle never spins: a request is sent only at the start or when a
/// pause is over, and no pause is shorter than `MIN_PERIOD_SECS`.
pub proof fn lemma_requests_are_paced(period: u64, phase: Phase, event: EventView)
    requires
        period >= MIN_PERIOD_SECS,
    ensures
        transition(period, phase, event).1.command == Command::Fetch ==> (phase == Phase::Idle
            && event == EventView::Start) || (phase == Phase::Waiting && event
            == EventView::Elapsed),
        transition(period, phase, event).1.command matches Command::Sleep(secs) ==> secs
            >= MIN_PERIOD_SECS,
{
}

/// A status other than 200 is published as a failure that carries the
/// description of the status, and the cycle goes on: it pauses, and when
/// the pause is over the request is sent again.
pub proof fn lemma_refused_request_is_retried(period: u64, code: u16)
    requires
        is_status_code(code),
        code != STATUS_OK,
    ensures
        transition(period, Phase::Requesting, EventView::Status(code)) == (
            Phase::Waiting,
            StepView {
                publish: Some(Err(status_line(code))),
                command: Command::Sleep(MIN_PERIOD_SECS),
            },
        ),
        transition(period, Phase::Waiting, EventView::Elapsed) == (
            Phase::Requesting,
            StepView { publish: None, command: Command::Fetch },
        ),
{
}

/// A success is published only for a body that was read, which happens
/// only after a status of 200; the body is published as it was read.
pub proof fn lemma_success_carries_the_body(period: u64, phase: Phase, event: EventView)
    ensures
        transition(period, phase, event).1.publish matches Some(Ok(body)) ==> phase
            == Phase::Reading && event == EventView::Body(body),
        transition(period, phase, event).0 == Phase::Reading ==> phase == Phase::Requesting
            && event == EventView::Status(STATUS_OK),
{
}

/// Calling off ends the cycle from any phase, and an ended cycle stays
/// ended: it publishes nothing more and sends no request.
pub proof fn lemma_stopped_is_final(period: u64, phase: Phase, event: EventView)
    ensures
        transition(period, phase, EventView::Cancel) == halt(),
        transition(period, Phase::Stopped, event) == halt(),
{
}

} // verus!
