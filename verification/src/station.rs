//! The order of the station's work: read the clock, read the sensor, upload,
//! report, rest, and again.
//!
//! The station itself touches nothing. It is told what happened, and answers
//! with what is to be done next; the program that drives it does the work and
//! comes back with the result.

use vstd::prelude::*;
use crate::reading::{reading_line, reading_line_text, Measurement, PostData, PostDataView};
use crate::uplink::{
    classify,
    outcome_of,
    post_request,
    report_text,
    request_for,
    PostRequest,
    PostRequestView,
};

verus! {

/// The site the station stands at.
pub const LOCATION: &'static str = "45203";

/// The name the station reports under.
pub const DEVICE: &'static str = "sensor";

/// How long the station rests between two cycles, in milliseconds.
pub const DELAY_MS: u16 = 5000;

/// Where the station is in its work.
#[derive(Clone, Copy, Debug, PartialEq, Eq, Structural)]
pub enum Station {
    /// Between two cycles: the delay is running.
    Resting,
    /// A cycle has begun and waits for the time of its reading.
    Timing,
    /// The time is taken; the cycle waits for the sensor.
    Sampling { timestamp: i64 },
    /// The request is on its way.
    Uploading,
    /// Something failed. Nothing is done any more.
    Halted,
}

/// The three conditions a station can be in.
#[derive(Clone, Copy, Debug, PartialEq, Eq, Structural)]
pub enum Phase {
    /// Between two cycles.
    Idle,
    /// One cycle is in progress.
    Active,
    /// Stopped by a failure.
    Halted,
}

/// What happened since the last action was handed out.
#[derive(Debug)]
pub enum Event {
    /// The delay has elapsed.
    Rested,
    /// The clock was read: seconds since the Unix epoch.
    Time(i64),
    /// The sensor was read.
    Sample { humidity: Measurement, temperature: Measurement },
    /// The sensor could not be read.
    SensorFailed,
    /// The endpoint answered with this status.
    Answered(u16),
    /// The request did not get through.
    SendFailed,
}

/// What is to be done next.
#[derive(Debug)]
pub enum Action {
    /// Read the clock, and come back with [`Event::Time`].
    ReadClock,
    /// Read the sensor, and come back with [`Event::Sample`] or
    /// [`Event::SensorFailed`].
    ReadSensor,
    /// Show `notice`, then send `request`, and come back with
    /// [`Event::Answered`] or [`Event::SendFailed`].
    Send { notice: String, request: PostRequest },
    /// Show `report`, wait `millis` milliseconds, and come back with
    /// [`Event::Rested`].
    Rest { report: String, millis: u16 },
    /// End the program.
    Halt,
}

/// What an [`Action`] holds, as mathematical values.
pub enum ActionView {
    ReadClock,
    ReadSensor,
    Send { notice: Seq<char>, request: PostRequestView },
    Rest { report: Seq<char>, millis: u16 },
    Halt,
}

impl View for Action {
    type V = ActionView;

    open spec fn view(&self) -> ActionView {
        match self {
            Action::ReadClock => ActionView::ReadClock,
            Action::ReadSensor => ActionView::ReadSensor,
            Action::Send { notice, request } => ActionView::Send {
                notice: notice@,
                request: request@,
            },
            Action::Rest { report, millis } => ActionView::Rest {
                report: report@,
                millis: *millis,
            },
            Action::Halt => ActionView::Halt,
        }
    }
}

/// The reading that a cycle uploads: the station's identifiers, the time the
/// cycle took, and the JSON notations of the two values the sensor gave.
pub open spec fn reading_of(
    timestamp: i64,
    humidity: Seq<char>,
    temperature: Seq<char>,
) -> PostDataView {
    PostDataView {
        location: LOCATION@,
        device: DEVICE@,
        timestamp: timestamp as int,
        temperature,
        humidity,
    }
}

/// Whether `event` is what `state` waits for.
pub open spec fn awaits(state: Station, event: Event) -> bool {
    match state {
        Station::Resting => event is Rested,
        Station::Timing => event is Time,
        Station::Sampling { .. } => event is Sample,
        Station::Uploading => event is Answered,
        Station::Halted => false,
    }
}

/// The state that follows `state` on `event`, and the action that answers it.
///
/// Each state waits for one kind of event. Any other event is a failure, as
/// are the two events that report one, and a failure halts the station.
pub open spec fn next(state: Station, event: Event) -> (Station, ActionView) {
    match (state, event) {
        (Station::Resting, Event::Rested) => (Station::Timing, ActionView::ReadClock),
        (Station::Timing, Event::Time(timestamp)) => (
            Station::Sampling { timestamp },
            ActionView::ReadSensor,
        ),
        (Station::Sampling { timestamp }, Event::Sample { humidity, temperature }) => (
            Station::Uploading,
            ActionView::Send {
                notice: reading_line_text(humidity@.shown, temperature@.shown),
                request: request_for(
                    reading_of(timestamp, humidity@.json, temperature@.json).wire_text(),
                ),
            },
        ),
        (Station::Uploading, Event::Answered(status)) => (
            Station::Resting,
            ActionView::Rest { report: report_text(outcome_of(status)), millis: DELAY_MS },
        ),
        _ => (Station::Halted, ActionView::Halt),
    }
}

impl Station {
    /// The condition the station is in.
    pub open spec fn phase_of(self) -> Phase {
        match self {
            Station::Resting => Phase::Idle,
            Station::Halted => Phase::Halted,
            _ => Phase::Active,
        }
    }

    /// The condition the station is in.
    pub fn phase(&self) -> (p: Phase)
        ensures
            p == self.phase_of(),
    {
        match self {
            Station::Resting => Phase::Idle,
            Station::Halted => Phase::Halted,
            _ => Phase::Active,
        }
    }

    /// The station as the program starts: the first cycle begins at once.
    pub fn start() -> (r: (Station, Action))
        ensures
            r.0 == Station::Timing,
            r.1@ == ActionView::ReadClock,
    {
        (Station::Timing, Action::ReadClock)
    }

    /// Takes in what happened, and says what is to be done next.
    pub fn step(self, event: Event) -> (r: (Station, Action))
        ensures
            (r.0, r.1@) == next(self, event),
    {
        match (self, event) {
            (Station::Resting, Event::Rested) => (Station::Timing, Action::ReadClock),
            (Station::Timing, Event::Time(timestamp)) => (
                Station::Sampling { timestamp },
                Action::ReadSensor,
            ),
            (Station::Sampling { timestamp }, Event::Sample { humidity, temperature }) => {
                let notice = reading_line(humidity.shown(), temperature.shown());
                let reading = PostData {
                    location: LOCATION.to_owned(),
                    device: DEVICE.to_owned(),
                    timestamp,
                    temperature,
                    humidity,
                };
                (
                    Station::Uploading,
                    Action::Send { notice, request: post_request(reading.serialize()) },
                )
            },
            (Station::Uploading, Event::Answered(status)) => (
                Station::Resting,
                Action::Rest { report: classify(status).report(), millis: DELAY_MS },
            ),
            _ => (Station::Halted, Action::Halt),
        }
    }
}

/// How the station passes from one condition to another. It leaves idleness
/// only as the delay ends, and then for a cycle. A cycle ends in idleness only
/// as the endpoint answers, whatever the status. The station halts exactly
/// when it is halted already or is told something that its state does not
/// wait for, a failure among them.
pub proof fn lemma_phase_changes(state: Station, event: Event)
    ensures
        state.phase_of() == Phase::Idle && next(state, event).0.phase_of() != Phase::Halted ==> event
            is Rested && next(state, event).0.phase_of() == Phase::Active,
        state.phase_of() == Phase::Active && next(state, event).0.phase_of() == Phase::Idle
            ==> state == Station::Uploading && event is Answered,
        next(state, event).0.phase_of() == Phase::Halted <==> !awaits(state, event),
        next(state, event).1 == ActionView::Halt <==> !awaits(state, event),
        event is SendFailed || event is SensorFailed ==> !awaits(state, event),
        !awaits(Station::Halted, event),
{
}

/// The state of a station that was in `state` and has since taken in
/// `events`, one after the other.
pub open spec fn state_after(state: Station, events: Seq<Event>) -> Station
    decreases events.len(),
{
    if events.len() == 0 {
        state
    } else {
        next(state_after(state, events.drop_last()), events.last()).0
    }
}

/// The action that answered the last of `events`.
pub open spec fn last_action(state: Station, events: Seq<Event>) -> ActionView
    recommends
        events.len() > 0,
{
    next(state_after(state, events.drop_last()), events.last()).1
}

/// A station that has halted stays halted: whatever it is told from then on,
/// its answer is `Halt`.
pub proof fn lemma_halted_is_final(state: Station, events: Seq<Event>, i: int, j: int)
    requires
        0 <= i <= j <= events.len(),
        state_after(state, events.take(i)) == Station::Halted,
    ensures
        state_after(state, events.take(j)) == Station::Halted,
        i < j ==> last_action(state, events.take(j)) == ActionView::Halt,
    decreases j - i,
{
    if i < j {
        lemma_halted_is_final(state, events, i, j - 1);
        assert(events.take(j).drop_last() =~= events.take(j - 1));
    }
}

/// A failure ends the work for good. Once the station has been told that a
/// request did not get through, or that the sensor could not be read, every
/// action from that one on is `Halt`: nothing is read, sent or waited for
/// again.
pub proof fn lemma_failure_is_final(state: Station, events: Seq<Event>, i: int, j: int)
    requires
        0 <= i < j <= events.len(),
        events[i] is SendFailed || events[i] is SensorFailed,
    ensures
        state_after(state, events.take(j)) == Station::Halted,
        last_action(state, events.take(j)) == ActionView::Halt,
{
    assert(events.take(i + 1).drop_last() =~= events.take(i));
    assert(events.take(i + 1).last() == events[i]);
    lemma_halted_is_final(state, events, i + 1, j);
}

/// A rest lies between the answer to one upload and the next reading of the
/// sensor. If the answer is event `i` and the sensor is next read in answer to
/// event `j`, then the answer was followed by the order to rest for
/// [`DELAY_MS`] milliseconds, the station was idle from then on, and the very
/// next event was the end of that rest.
pub proof fn lemma_rest_separates_cycles(state: Station, events: Seq<Event>, i: int, j: int)
    requires
        0 <= i < j < events.len(),
        state_after(state, events.take(i)) == Station::Uploading,
        events[i] is Answered,
        last_action(state, events.take(j + 1)) == ActionView::ReadSensor,
    ensures
        last_action(state, events.take(i + 1)) matches ActionView::Rest { millis, .. }
            && millis == DELAY_MS,
        state_after(state, events.take(i + 1)).phase_of() == Phase::Idle,
        events[i + 1] is Rested,
        i + 1 < j,
{
    assert(events.take(i + 1).drop_last() =~= events.take(i));
    assert(events.take(i + 1).last() == events[i]);
    assert(state_after(state, events.take(i + 1)) == Station::Resting);
    assert(events.take(i + 2).drop_last() =~= events.take(i + 1));
    assert(events.take(i + 2).last() == events[i + 1]);
    if !(events[i + 1] is Rested) {
        assert(state_after(state, events.take(i + 2)) == Station::Halted);
        lemma_halted_is_final(state, events, i + 2, j + 1);
    }
}

/// Every upload carries the time of its own cycle. Where a request is sent in
/// answer to event `j`, that event is a reading of the sensor, the event
/// before it is the reading of the clock, the request is the one for this
/// time and these two values, and the same two values are shown before it is
/// sent.
pub proof fn lemma_upload_is_current(state: Station, events: Seq<Event>, j: int)
    requires
        1 <= j < events.len(),
        last_action(state, events.take(j + 1)) is Send,
    ensures
        events[j] is Sample,
        events[j - 1] is Time,
        last_action(state, events.take(j + 1)) == (ActionView::Send {
            notice: reading_line_text(events[j]->humidity@.shown, events[j]->temperature@.shown),
            request: request_for(
                reading_of(
                    events[j - 1]->Time_0,
                    events[j]->humidity@.json,
                    events[j]->temperature@.json,
                ).wire_text(),
            ),
        }),
{
    assert(events.take(j + 1).drop_last() =~= events.take(j));
    assert(events.take(j + 1).last() == events[j]);
    assert(events.take(j).drop_last() =~= events.take(j - 1));
    assert(events.take(j).last() == events[j - 1]);
}

} // verus!
