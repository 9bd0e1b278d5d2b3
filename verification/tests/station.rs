use sensor::station::{Action, Station, Event, Phase, DELAY_MS, DEVICE, LOCATION};
use sensor::reading::Measurement;
use sensor::uplink::post_request;

fn measured(value: f32) -> Measurement {
    Measurement::new(&serde_json::to_string(&value).unwrap(), &value.to_string()).unwrap()
}

fn sample(humidity: f32, temperature: f32) -> Event {
    Event::Sample { humidity: measured(humidity), temperature: measured(temperature) }
}

fn is_halt(action: &Action) -> bool {
    matches!(action, Action::Halt)
}

fn uploading() -> Station {
    let (state, _) = Station::start();
    let (state, _) = state.step(Event::Time(1700000000));
    let (state, _) = state.step(sample(48.2, 23.5));
    assert_eq!(state, Station::Uploading);
    state
}

#[test]
fn first_cycle_begins_at_once() {
    let (state, action) = Station::start();
    assert_eq!(state, Station::Timing);
    assert_eq!(state.phase(), Phase::Active);
    assert!(matches!(action, Action::ReadClock));
}

#[test]
fn station_constants() {
    assert_eq!(LOCATION, "45203");
    assert_eq!(DEVICE, "sensor");
    assert_eq!(DELAY_MS, 5000);
}

#[test]
fn cycle_reads_clock_then_sensor_then_uploads_then_rests() {
    let (state, action) = Station::start();
    assert!(matches!(action, Action::ReadClock));

    let (state, action) = state.step(Event::Time(1700000000));
    assert_eq!(state, Station::Sampling { timestamp: 1700000000 });
    assert_eq!(state.phase(), Phase::Active);
    assert!(matches!(action, Action::ReadSensor));

    let (state, action) = state.step(sample(48.2, 23.5));
    assert_eq!(state, Station::Uploading);
    assert_eq!(state.phase(), Phase::Active);
    match action {
        Action::Send { notice, request } => {
            assert_eq!(notice, "relative humidity=48.2%; temperature=23.5C");
            assert_eq!(request.method, "POST");
            assert_eq!(
                request,
                post_request(
                    "{\"LocationId\":\"45203\",\"DeviceId\":\"sensor\",\"EpochTime\":1700000000,\"Temperature\":23.5,\"Humidity\":48.2}"
                        .to_string()
                )
            );
        }
        other => panic!("{:?}", other),
    }

    let (state, action) = state.step(Event::Answered(200));
    assert_eq!(state, Station::Resting);
    assert_eq!(state.phase(), Phase::Idle);
    match action {
        Action::Rest { report, millis } => {
            assert_eq!(report, "success!");
            assert_eq!(millis, 5000);
        }
        other => panic!("{:?}", other),
    }

    let (state, action) = state.step(Event::Rested);
    assert_eq!(state, Station::Timing);
    assert!(matches!(action, Action::ReadClock));
}

#[test]
fn answer_is_reported_whatever_its_status() {
    for (status, line) in [
        (200u16, "success!"),
        (500, "server error! Status: 500"),
        (404, "Something else happened. Status: 404"),
    ] {
        let (state, action) = uploading().step(Event::Answered(status));
        assert_eq!(state, Station::Resting);
        match action {
            Action::Rest { report, millis } => {
                assert_eq!(report, line);
                assert_eq!(millis, 5000);
            }
            other => panic!("{:?}", other),
        }
    }
}

#[test]
fn rest_separates_two_cycles() {
    let (state, action) = uploading().step(Event::Answered(503));
    assert!(matches!(action, Action::Rest { millis: 5000, .. }));
    assert_eq!(state.phase(), Phase::Idle);
    let (state, action) = state.step(Event::Rested);
    assert_eq!(state.phase(), Phase::Active);
    assert!(matches!(action, Action::ReadClock));
    let (_, action) = state.step(Event::Time(1700000005));
    assert!(matches!(action, Action::ReadSensor));
}

#[test]
fn nothing_but_the_end_of_the_rest_begins_a_cycle() {
    let events: [fn() -> Event; 5] = [
        || Event::Time(3),
        || sample(1.0, 2.0),
        || Event::SensorFailed,
        || Event::Answered(200),
        || Event::SendFailed,
    ];
    for event in events {
        let (state, action) = Station::Resting.step(event());
        assert_eq!(state, Station::Halted);
        assert!(is_halt(&action));
    }
}

#[test]
fn transport_failure_ends_the_program_without_another_try() {
    let (mut state, action) = uploading().step(Event::SendFailed);
    assert_eq!(state, Station::Halted);
    assert_eq!(state.phase(), Phase::Halted);
    assert!(is_halt(&action));
    let later: [fn() -> Event; 6] = [
        || Event::Rested,
        || Event::Time(9),
        || sample(1.0, 2.0),
        || Event::Answered(200),
        || Event::SendFailed,
        || Event::SensorFailed,
    ];
    for event in later {
        let (next, action) = state.step(event());
        assert_eq!(next, Station::Halted);
        assert!(is_halt(&action));
        state = next;
    }
}

#[test]
fn sensor_failure_ends_the_program() {
    let (state, _) = Station::start();
    let (state, _) = state.step(Event::Time(12));
    let (state, action) = state.step(Event::SensorFailed);
    assert_eq!(state, Station::Halted);
    assert!(is_halt(&action));
}

#[test]
fn event_out_of_turn_ends_the_program() {
    let (state, action) = Station::Timing.step(Event::Rested);
    assert_eq!(state, Station::Halted);
    assert!(is_halt(&action));
    let (state, action) = Station::Timing.step(sample(1.0, 2.0));
    assert_eq!(state, Station::Halted);
    assert!(is_halt(&action));
    let (state, action) = Station::Sampling { timestamp: 4 }.step(Event::Time(5));
    assert_eq!(state, Station::Halted);
    assert!(is_halt(&action));
    let (state, action) = Station::Uploading.step(Event::Rested);
    assert_eq!(state, Station::Halted);
    assert!(is_halt(&action));
}

#[test]
fn upload_carries_the_time_of_its_own_cycle() {
    let (state, _) = Station::start();
    let (state, _) = state.step(Event::Time(100));
    let (state, first) = state.step(sample(40.0, 20.0));
    let (state, _) = state.step(Event::Answered(200));
    let (state, _) = state.step(Event::Rested);
    let (state, _) = state.step(Event::Time(105));
    let (_, second) = state.step(sample(41.5, 19.25));
    match (first, second) {
        (
            Action::Send { notice: shown_first, request: a },
            Action::Send { notice: shown_second, request: b },
        ) => {
            assert_eq!(shown_first, "relative humidity=40%; temperature=20C");
            assert_eq!(shown_second, "relative humidity=41.5%; temperature=19.25C");
            assert_eq!(
                a.body,
                "{\"LocationId\":\"45203\",\"DeviceId\":\"sensor\",\"EpochTime\":100,\"Temperature\":20.0,\"Humidity\":40.0}"
            );
            assert_eq!(
                b.body,
                "{\"LocationId\":\"45203\",\"DeviceId\":\"sensor\",\"EpochTime\":105,\"Temperature\":19.25,\"Humidity\":41.5}"
            );
        }
        other => panic!("{:?}", other),
    }
}
