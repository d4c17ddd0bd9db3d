use ddns_update::error::ClientError;
use ddns_update::iface::{IpAddress, IpFamily, NetworkInterface};
use ddns_update::json::frame_record;
use ddns_update::reconcile::{
    step, update_dns, Action, Config, Event, Outcome, ReconcileInput, State, Transition,
};
use ddns_update::record::{find_record, DnsRecord};
use ddns_update::text::{record_endpoint, records_endpoint};

fn record(id: &str, name: &str, content: &str, ttl: u32) -> DnsRecord {
    DnsRecord {
        content: content.to_string(),
        id: id.to_string(),
        record_type: "A".to_string(),
        name: name.to_string(),
        ttl,
    }
}

fn home() -> Vec<DnsRecord> {
    vec![record("abc123", "home.example.com", "1.2.3.4", 120)]
}

fn input_with(ip: &str) -> ReconcileInput {
    ReconcileInput {
        zone: "z9".to_string(),
        token: "secret".to_string(),
        target_name: "home.example.com".to_string(),
        target_ip: ip.to_string(),
    }
}

fn settings() -> Config {
    Config {
        zone: "z9".to_string(),
        token: "secret".to_string(),
        target_name: "home.example.com".to_string(),
        device: "eth0".to_string(),
    }
}

fn host_with(ip: &str) -> Vec<NetworkInterface> {
    vec![NetworkInterface {
        name: "eth0".to_string(),
        ips: vec![IpAddress { family: IpFamily::V4, text: ip.to_string() }],
    }]
}

/// Runs the machine to its end, answering each read with `read` and each
/// write with `write`, and returns the actions in order.
fn drive(
    config: &Config,
    interfaces: Vec<NetworkInterface>,
    read: Result<Vec<DnsRecord>, String>,
    write: Result<(), String>,
) -> Vec<Action> {
    let mut actions = Vec::new();
    let mut state = State::Start;
    let mut event = Event::Interfaces(interfaces);
    loop {
        let Transition { state: next, action } = step(config, state, event);
        actions.push(action.clone());
        state = next;
        event = match action {
            Action::Read(_) => match read.clone() {
                Ok(records) => Event::Records(records),
                Err(m) => Event::Failed(m),
            },
            Action::Write(_) => match write.clone() {
                Ok(()) => Event::Written,
                Err(m) => Event::Failed(m),
            },
            Action::Finish(_) | Action::Abort(_) => {
                assert_eq!(state, State::Finished);
                return actions;
            }
        };
        assert!(actions.len() < 4);
    }
}

fn count_writes(actions: &[Action]) -> usize {
    actions.iter().filter(|a| matches!(a, Action::Write(_))).count()
}

fn count_requests(actions: &[Action]) -> usize {
    actions.iter().filter(|a| matches!(a, Action::Write(_) | Action::Read(_))).count()
}

#[test]
fn endpoints_are_built_from_zone_and_record() {
    assert_eq!(
        records_endpoint(&"023e105f4ecef8ad9ca31a8372d0c353".to_string()),
        "https://api.cloudflare.com/client/v4/zones/023e105f4ecef8ad9ca31a8372d0c353/dns_records"
    );
    assert_eq!(
        record_endpoint(&"z".to_string(), &"abc123".to_string()),
        "https://api.cloudflare.com/client/v4/zones/z/dns_records/abc123"
    );
    assert_eq!(records_endpoint(&String::new()), "https://api.cloudflare.com/client/v4/zones//dns_records");
}

#[test]
fn equal_content_ends_without_a_write() {
    let t = update_dns(&input_with("1.2.3.4"), &home());
    assert_eq!(t.state, State::Finished);
    assert_eq!(t.action, Action::Finish(Outcome::Unchanged));
}

#[test]
fn changed_content_asks_for_one_patch() {
    let t = update_dns(&input_with("5.6.7.8"), &home());
    assert_eq!(t.state, State::Writing);
    match t.action {
        Action::Write(w) => {
            assert_eq!(w.url, "https://api.cloudflare.com/client/v4/zones/z9/dns_records/abc123");
            assert_eq!(w.token, "secret");
            assert_eq!(w.record, record("abc123", "home.example.com", "5.6.7.8", 120));
            assert_eq!(
                w.body,
                "{\"content\":\"5.6.7.8\",\"id\":\"abc123\",\"type\":\"A\",\"name\":\"home.example.com\",\"ttl\":120}"
            );
        }
        other => panic!("expected a write, got {:?}", other),
    }
}

#[test]
fn end_to_end_unchanged_address() {
    let actions = drive(&settings(), host_with("1.2.3.4"), Ok(home()), Ok(()));
    assert_eq!(actions.len(), 2);
    assert!(matches!(actions[0], Action::Read(_)));
    assert_eq!(actions[1], Action::Finish(Outcome::Unchanged));
    assert_eq!(count_writes(&actions), 0);
}

#[test]
fn end_to_end_changed_address() {
    let actions = drive(&settings(), host_with("5.6.7.8"), Ok(home()), Ok(()));
    assert_eq!(actions.len(), 3);
    match &actions[0] {
        Action::Read(r) => {
            assert_eq!(r.url, "https://api.cloudflare.com/client/v4/zones/z9/dns_records");
            assert_eq!(r.name, "home.example.com");
            assert_eq!(r.token, "secret");
        }
        other => panic!("expected a read, got {:?}", other),
    }
    match &actions[1] {
        Action::Write(w) => {
            assert!(w.url.ends_with("/dns_records/abc123"));
            let parsed: serde_json::Value = serde_json::from_str(&w.body).unwrap();
            let expected: serde_json::Value = serde_json::from_str(
                "{\"content\":\"5.6.7.8\",\"id\":\"abc123\",\"type\":\"A\",\"name\":\"home.example.com\",\"ttl\":120}",
            )
            .unwrap();
            assert_eq!(parsed, expected);
        }
        other => panic!("expected a write, got {:?}", other),
    }
    assert_eq!(actions[2], Action::Finish(Outcome::Updated));
    assert_eq!(count_writes(&actions), 1);
    assert_eq!(count_requests(&actions), 2);
}

#[test]
fn missing_device_makes_no_request() {
    let mut cfg = settings();
    cfg.device = "eth7".to_string();
    let actions = drive(&cfg, host_with("1.2.3.4"), Ok(home()), Ok(()));
    assert_eq!(actions, vec![Action::Abort(ClientError::MissingDevice)]);
    assert_eq!(count_requests(&actions), 0);
}

#[test]
fn missing_record_aborts_before_any_write() {
    let others = vec![
        record("r1", "www.example.com", "9.9.9.9", 60),
        record("r2", "home.example.com.", "9.9.9.9", 60),
        record("r3", "Home.example.com", "9.9.9.9", 60),
    ];
    for records in [Vec::new(), others] {
        let actions = drive(&settings(), host_with("5.6.7.8"), Ok(records), Ok(()));
        assert_eq!(actions.len(), 2);
        assert_eq!(actions[1], Action::Abort(ClientError::RecordNotFound));
        assert_eq!(count_writes(&actions), 0);
    }
}

#[test]
fn first_record_of_the_name_is_the_one_reconciled() {
    let records = vec![
        record("r0", "www.example.com", "5.6.7.8", 60),
        record("r1", "home.example.com", "1.1.1.1", 300),
        record("r2", "home.example.com", "5.6.7.8", 60),
    ];
    assert_eq!(find_record(&records, &"home.example.com".to_string()), Some(1));
    assert_eq!(find_record(&records, &"example.com".to_string()), None);
    let t = update_dns(&input_with("5.6.7.8"), &records);
    match t.action {
        Action::Write(w) => {
            assert!(w.url.ends_with("/dns_records/r1"));
            assert_eq!(w.record, record("r1", "home.example.com", "5.6.7.8", 300));
        }
        other => panic!("expected a write, got {:?}", other),
    }
}

#[test]
fn content_is_compared_as_plain_text() {
    let records = vec![record("r1", "home.example.com", "1.2.3.4", 1)];
    for ip in ["1.2.3.04", "1.2.3.4 ", "1.2.3.4/32", "01.2.3.4", ""] {
        let t = update_dns(&input_with(ip), &records);
        assert!(matches!(t.action, Action::Write(_)), "{:?}", ip);
    }
}

#[test]
fn reconciling_a_record_with_its_own_content_writes_nothing() {
    let first = update_dns(&input_with("5.6.7.8"), &home());
    let written = match first.action {
        Action::Write(w) => w.record,
        other => panic!("expected a write, got {:?}", other),
    };
    let again = update_dns(&input_with("5.6.7.8"), &vec![written.clone()]);
    assert_eq!(again.action, Action::Finish(Outcome::Unchanged));
    let own = update_dns(&input_with(&home()[0].content), &home());
    assert_eq!(own.action, Action::Finish(Outcome::Unchanged));
    assert_eq!(written.pointing_to(&"5.6.7.8".to_string()), written);
}

#[test]
fn failed_read_aborts_with_its_description() {
    let actions = drive(&settings(), host_with("5.6.7.8"), Err("connection refused".to_string()), Ok(()));
    assert_eq!(actions.len(), 2);
    assert_eq!(actions[1], Action::Abort(ClientError::Other("connection refused".to_string())));
}

#[test]
fn failed_write_aborts_after_the_one_write() {
    let actions = drive(&settings(), host_with("5.6.7.8"), Ok(home()), Err("bad gateway".to_string()));
    assert_eq!(actions.len(), 3);
    assert_eq!(count_writes(&actions), 1);
    assert_eq!(actions[2], Action::Abort(ClientError::Other("bad gateway".to_string())));
}

#[test]
fn an_event_that_is_not_awaited_aborts() {
    let unexpected = Action::Abort(ClientError::Other("unexpected event".to_string()));
    let t = step(&settings(), State::Start, Event::Written);
    assert_eq!((t.state, t.action), (State::Finished, unexpected.clone()));
    let t = step(&settings(), State::Start, Event::Records(home()));
    assert_eq!(t.action, unexpected);
    let t = step(&settings(), State::Reading(input_with("1.2.3.4")), Event::Written);
    assert_eq!(t.action, unexpected);
    let t = step(&settings(), State::Writing, Event::Records(home()));
    assert_eq!(t.action, unexpected);
    let t = step(&settings(), State::Finished, Event::Failed("late".to_string()));
    assert_eq!((t.state, t.action), (State::Finished, unexpected.clone()));
    let t = step(&settings(), State::Finished, Event::Interfaces(host_with("1.2.3.4")));
    assert_eq!(t.action, unexpected);
}

#[test]
fn a_failure_aborts_from_every_waiting_state() {
    for state in [State::Start, State::Reading(input_with("1.2.3.4")), State::Writing] {
        let t = step(&settings(), state, Event::Failed("timeout".to_string()));
        assert_eq!(t.state, State::Finished);
        assert_eq!(t.action, Action::Abort(ClientError::Other("timeout".to_string())));
    }
}

#[test]
fn the_written_event_ends_the_run_as_updated() {
    let t = step(&settings(), State::Writing, Event::Written);
    assert_eq!(t.state, State::Finished);
    assert_eq!(t.action, Action::Finish(Outcome::Updated));
}

#[test]
fn record_text_is_json() {
    let r = record("id\"1", "a\\b", "line\nbreak", 0);
    assert_eq!(
        r.to_json(),
        "{\"content\":\"line\\nbreak\",\"id\":\"id\\\"1\",\"type\":\"A\",\"name\":\"a\\\\b\",\"ttl\":0}"
    );
    let parsed: serde_json::Value = serde_json::from_str(&r.to_json()).unwrap();
    assert_eq!(parsed["content"].as_str(), Some("line\nbreak"));
    assert_eq!(parsed["id"].as_str(), Some("id\"1"));
    assert_eq!(parsed["name"].as_str(), Some("a\\b"));
    assert_eq!(parsed["ttl"].as_u64(), Some(0));
}

#[test]
fn ttl_is_written_in_decimal() {
    for (ttl, text) in [(1u32, "1"), (9, "9"), (10, "10"), (120, "120"), (86400, "86400"), (u32::MAX, "4294967295")] {
        let r = record("i", "n", "c", ttl);
        assert_eq!(
            r.to_json(),
            format!("{{\"content\":\"c\",\"id\":\"i\",\"type\":\"A\",\"name\":\"n\",\"ttl\":{}}}", text)
        );
    }
}

#[test]
fn framing_puts_the_fields_in_order() {
    let body = frame_record(
        &"C".to_string(),
        &"I".to_string(),
        &"T".to_string(),
        &"N".to_string(),
        &"L".to_string(),
    );
    assert_eq!(body, "{\"content\":C,\"id\":I,\"type\":T,\"name\":N,\"ttl\":L}");
}

#[test]
fn error_messages() {
    assert_eq!(ClientError::MissingDevice.message(), "Please select the right device.");
    assert_eq!(ClientError::RecordNotFound.message(), "No DNS record matches the target name.");
    assert_eq!(ClientError::Other("boom".to_string()).message(), "boom");
}
