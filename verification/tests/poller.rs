use openweathermap::poller::{
    poll_period_secs, Command, Event, Phase, Poller, Step, LOADING, MIN_PERIOD_SECS,
};
use openweathermap::channel::publish;
use openweathermap::reader::{deliver, update_with};
use std::sync::mpsc;

fn started(poll_mins: u64) -> Poller {
    let mut poller = Poller::new("2643743", "metric", "en", "KEY", poll_mins).unwrap();
    poller.step(Event::Start);
    poller
}

fn keep(body: String) -> Result<String, String> {
    Ok(body)
}

#[test]
fn period_is_the_interval_in_seconds() {
    assert_eq!(poll_period_secs(1), 60);
    assert_eq!(poll_period_secs(10), 600);
    assert_eq!(poll_period_secs(1440), 86400);
}

#[test]
fn period_of_no_interval_is_a_minute() {
    assert_eq!(MIN_PERIOD_SECS, 60);
    assert_eq!(poll_period_secs(0), 60);
}

#[test]
fn period_stops_at_the_largest_number() {
    assert_eq!(poll_period_secs(u64::MAX / 60), 18446744073709551600);
    assert_eq!(poll_period_secs(u64::MAX / 60 + 1), u64::MAX);
    assert_eq!(poll_period_secs(u64::MAX), u64::MAX);
}

#[test]
fn new_poller_is_idle() {
    let poller = Poller::new("2643743", "metric", "en", "KEY", 10).unwrap();
    assert_eq!(poller.phase(), Phase::Idle);
    assert_eq!(poller.period_secs(), 600);
    assert_eq!(
        poller.url(),
        "https://api.openweathermap.org/data/2.5/weather?id=2643743&units=metric&lang=en&appid=KEY"
    );
}

#[test]
fn poller_for_a_given_address() {
    let poller = Poller::with_url("http://localhost/w".to_string(), 0);
    assert_eq!(poller.url(), "http://localhost/w");
    assert_eq!(poller.period_secs(), 60);
    assert_eq!(poller.phase(), Phase::Idle);
}

#[test]
fn start_publishes_loading_and_fetches() {
    let mut poller = Poller::new("London", "metric", "en", "KEY", 10).unwrap();
    let step = poller.step(Event::Start);
    assert_eq!(LOADING, "loading...");
    assert_eq!(
        step,
        Step { publish: Some(Err("loading...".to_string())), command: Command::Fetch }
    );
    assert_eq!(poller.phase(), Phase::Requesting);
}

#[test]
fn success_has_the_body_read_and_published() {
    let mut poller = started(10);
    let step = poller.step(Event::Status(200));
    assert_eq!(step, Step { publish: None, command: Command::ReadBody });
    assert_eq!(poller.phase(), Phase::Reading);
    let step = poller.step(Event::Body("{\"name\":\"London\"}".to_string()));
    assert_eq!(
        step,
        Step {
            publish: Some(Ok("{\"name\":\"London\"}".to_string())),
            command: Command::Sleep(600),
        }
    );
    assert_eq!(poller.phase(), Phase::Waiting);
    let step = poller.step(Event::Elapsed);
    assert_eq!(step, Step { publish: None, command: Command::Fetch });
    assert_eq!(poller.phase(), Phase::Requesting);
}

#[test]
fn not_found_is_published_and_retried() {
    let mut poller = started(10);
    let step = poller.step(Event::Status(404));
    assert_eq!(
        step,
        Step { publish: Some(Err("404 Not Found".to_string())), command: Command::Sleep(60) }
    );
    assert_eq!(poller.phase(), Phase::Waiting);
    let step = poller.step(Event::Elapsed);
    assert_eq!(step, Step { publish: None, command: Command::Fetch });
    assert_eq!(poller.phase(), Phase::Requesting);
    let step = poller.step(Event::Status(200));
    assert_eq!(step.command, Command::ReadBody);
}

#[test]
fn failures_carry_the_description_of_the_status() {
    for (code, line) in [
        (401, "401 Unauthorized"),
        (429, "429 Too Many Requests"),
        (500, "500 Internal Server Error"),
        (201, "201 Created"),
        (100, "100 Continue"),
        (299, "299 <unknown status code>"),
        (999, "999 <unknown status code>"),
    ] {
        let mut poller = started(1);
        let step = poller.step(Event::Status(code));
        assert_eq!(step.publish, Some(Err(line.to_string())));
        assert_eq!(step.command, Command::Sleep(60));
    }
}

#[test]
fn a_number_that_is_no_status_stops_the_cycle() {
    for code in [0, 99, 1000, u16::MAX] {
        let mut poller = started(1);
        let step = poller.step(Event::Status(code));
        assert_eq!(step, Step { publish: None, command: Command::Stop });
        assert_eq!(poller.phase(), Phase::Stopped);
    }
}

#[test]
fn cancel_stops_the_cycle_in_every_phase() {
    let mut idle = Poller::new("1", "metric", "en", "KEY", 1).unwrap();
    assert_eq!(idle.step(Event::Cancel), Step { publish: None, command: Command::Stop });
    assert_eq!(idle.phase(), Phase::Stopped);

    let mut requesting = started(1);
    assert_eq!(requesting.step(Event::Cancel).command, Command::Stop);
    assert_eq!(requesting.phase(), Phase::Stopped);

    let mut reading = started(1);
    reading.step(Event::Status(200));
    assert_eq!(reading.step(Event::Cancel).command, Command::Stop);
    assert_eq!(reading.phase(), Phase::Stopped);

    let mut waiting = started(1);
    waiting.step(Event::Status(503));
    assert_eq!(waiting.step(Event::Cancel).command, Command::Stop);
    assert_eq!(waiting.phase(), Phase::Stopped);
}

#[test]
fn stopped_cycle_stays_stopped() {
    let mut poller = started(1);
    poller.step(Event::Cancel);
    for event in [
        Event::Start,
        Event::Status(200),
        Event::Body("x".to_string()),
        Event::Elapsed,
        Event::Cancel,
    ] {
        assert_eq!(poller.step(event), Step { publish: None, command: Command::Stop });
        assert_eq!(poller.phase(), Phase::Stopped);
    }
}

#[test]
fn unexpected_event_stops_the_cycle() {
    let mut idle = Poller::new("1", "metric", "en", "KEY", 1).unwrap();
    assert_eq!(idle.step(Event::Elapsed), Step { publish: None, command: Command::Stop });
    assert_eq!(idle.phase(), Phase::Stopped);

    let mut requesting = started(1);
    assert_eq!(
        requesting.step(Event::Body("x".to_string())),
        Step { publish: None, command: Command::Stop }
    );

    let mut again = started(1);
    assert_eq!(again.step(Event::Start), Step { publish: None, command: Command::Stop });

    let mut reading = started(1);
    reading.step(Event::Status(200));
    assert_eq!(reading.step(Event::Status(200)), Step { publish: None, command: Command::Stop });

    let mut waiting = started(1);
    waiting.step(Event::Status(404));
    assert_eq!(waiting.step(Event::Status(200)), Step { publish: None, command: Command::Stop });
}

#[test]
fn step_keeps_address_and_period() {
    let mut poller = Poller::new("51.5, -0.12", "metric", "en", "KEY", 5).unwrap();
    let url = poller.url().to_string();
    poller.step(Event::Start);
    poller.step(Event::Status(200));
    poller.step(Event::Body("{}".to_string()));
    poller.step(Event::Elapsed);
    assert_eq!(poller.url(), url);
    assert_eq!(poller.period_secs(), 300);
}

#[test]
fn first_poll_after_start_yields_loading() {
    let (sender, receiver) = mpsc::channel();
    let mut poller = Poller::new("2643743", "metric", "en", "KEY", 10).unwrap();
    let command = publish(&sender, poller.step(Event::Start));
    assert_eq!(command, Command::Fetch);
    assert_eq!(update_with(&receiver, keep), Some(Err("loading...".to_string())));
    assert_eq!(update_with(&receiver, keep), None);
}

#[test]
fn not_found_reaches_the_reader_as_a_failure() {
    let (sender, receiver) = mpsc::channel();
    let mut poller = started(10);
    let command = publish(&sender, poller.step(Event::Status(404)));
    assert_eq!(command, Command::Sleep(60));
    assert_eq!(update_with(&receiver, keep), Some(Err("404 Not Found".to_string())));
    assert_eq!(poller.step(Event::Elapsed).command, Command::Fetch);
}

#[test]
fn publish_without_an_update_sends_nothing() {
    let (sender, receiver) = mpsc::channel();
    let mut poller = started(10);
    let command = publish(&sender, poller.step(Event::Status(200)));
    assert_eq!(command, Command::ReadBody);
    assert_eq!(update_with(&receiver, keep), None);
}

#[test]
fn publish_to_a_reader_that_is_gone_drops_the_update() {
    let (sender, receiver) = mpsc::channel();
    drop(receiver);
    let mut poller = Poller::new("London", "metric", "en", "KEY", 10).unwrap();
    assert_eq!(publish(&sender, poller.step(Event::Start)), Command::Fetch);
    assert_eq!(publish(&sender, poller.step(Event::Status(500))), Command::Sleep(60));
    assert_eq!(poller.phase(), Phase::Waiting);
}

#[test]
fn a_whole_round_reaches_the_reader_in_order() {
    let (sender, receiver) = mpsc::channel();
    let mut poller = Poller::new("London", "metric", "en", "KEY", 2).unwrap();
    assert_eq!(publish(&sender, poller.step(Event::Start)), Command::Fetch);
    assert_eq!(publish(&sender, poller.step(Event::Status(503))), Command::Sleep(60));
    assert_eq!(publish(&sender, poller.step(Event::Elapsed)), Command::Fetch);
    assert_eq!(publish(&sender, poller.step(Event::Status(200))), Command::ReadBody);
    assert_eq!(publish(&sender, poller.step(Event::Body("{}".to_string()))), Command::Sleep(120));
    assert_eq!(update_with(&receiver, keep), Some(Err("loading...".to_string())));
    assert_eq!(update_with(&receiver, keep), Some(Err("503 Service Unavailable".to_string())));
    assert_eq!(update_with(&receiver, keep), Some(Ok("{}".to_string())));
    assert_eq!(update_with(&receiver, keep), None);
}

#[test]
fn empty_channel_yields_nothing() {
    let (_sender, receiver) = mpsc::channel::<Result<String, String>>();
    assert_eq!(update_with(&receiver, keep), None);
    assert_eq!(update_with(&receiver, keep), None);
}

#[test]
fn abandoned_channel_yields_nothing() {
    let (sender, receiver) = mpsc::channel::<Result<String, String>>();
    drop(sender);
    assert_eq!(update_with(&receiver, keep), None);
}

#[test]
fn updates_come_one_at_a_time_in_the_order_sent() {
    let (sender, receiver) = mpsc::channel();
    sender.send(Err("loading...".to_string())).unwrap();
    sender.send(Ok("first".to_string())).unwrap();
    sender.send(Ok("second".to_string())).unwrap();
    assert_eq!(update_with(&receiver, keep), Some(Err("loading...".to_string())));
    assert_eq!(update_with(&receiver, keep), Some(Ok("first".to_string())));
    assert_eq!(update_with(&receiver, keep), Some(Ok("second".to_string())));
    assert_eq!(update_with(&receiver, keep), None);
}

#[test]
fn deliver_nothing() {
    assert_eq!(deliver(None, keep), None);
}

#[test]
fn deliver_passes_a_failure_on_unchanged() {
    let called = std::cell::Cell::new(false);
    let update = deliver(Some(Err("503 Service Unavailable".to_string())), |body: String| {
        called.set(true);
        Ok::<String, String>(body)
    });
    assert_eq!(update, Some(Err("503 Service Unavailable".to_string())));
    assert!(!called.get());
}

#[test]
fn deliver_decodes_a_body() {
    let update = deliver(Some(Ok("42".to_string())), |body: String| {
        serde_json::from_str::<u64>(&body).map_err(|e| e.to_string())
    });
    assert_eq!(update, Some(Ok(42)));
}

#[test]
fn deliver_reports_a_body_that_does_not_decode() {
    let update = deliver(Some(Ok("{\"id\": ".to_string())), |body: String| {
        serde_json::from_str::<u64>(&body).map_err(|e| e.to_string())
    });
    match update {
        Some(Err(text)) => assert!(!text.is_empty()),
        other => panic!("expected a failure, got {:?}", other),
    }
}
