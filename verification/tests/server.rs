use bounce::app::Message;
use bounce::relay::{relay_step, RelayInput, RelayStep};
use bounce::server::{after_activity, after_bind, listen_address, Activity, Next, RequestCounter};
use bounce::types::{ProxyConfig, ProxyEvent};

#[test]
fn addresses_end_in_their_port() {
    let config = |addr: &str, port: u16| ProxyConfig {
        upstream_url: "http://up".to_string(),
        bind_addr: addr.to_string(),
        bind_port: port,
    };
    assert_eq!(listen_address(&config("0.0.0.0", 3000)), "0.0.0.0:3000");
    assert_eq!(listen_address(&config("[::1]", 0)), "[::1]:0");
    assert_eq!(listen_address(&config("", 65535)), ":65535");
}

#[test]
fn a_proxy_that_listens_says_so() {
    let step = after_bind(Ok(()));
    assert!(matches!(step.report, Some(ProxyEvent::Started)));
    assert_eq!(step.next, Next::Wait);
}

#[test]
fn a_proxy_that_cannot_listen_says_why() {
    let step = after_bind(Err("address in use".to_string()));
    match step.report {
        Some(ProxyEvent::Error(e)) => assert_eq!(e, "Bind error: address in use"),
        _ => panic!("the error should have been reported"),
    }
    assert_eq!(step.next, Next::Return);
}

#[test]
fn activities_lead_on_or_out() {
    let step = after_activity(Activity::Accepted);
    assert!(step.report.is_none());
    assert_eq!(step.next, Next::Serve);

    let step = after_activity(Activity::StopSignal);
    assert!(matches!(step.report, Some(ProxyEvent::Stopped)));
    assert_eq!(step.next, Next::Return);

    let step = after_activity(Activity::AcceptFailed);
    assert!(step.report.is_none());
    assert_eq!(step.next, Next::Return);
}

#[test]
fn a_life_ends_with_the_stop() {
    let mut stopped = 0;
    let mut served = 0;
    for activity in [
        Activity::Accepted,
        Activity::Accepted,
        Activity::StopSignal,
        Activity::Accepted,
    ] {
        let step = after_activity(activity);
        if matches!(step.report, Some(ProxyEvent::Stopped)) {
            stopped += 1;
        }
        match step.next {
            Next::Serve => served += 1,
            Next::Wait => {}
            Next::Return => break,
        }
    }
    assert_eq!((served, stopped), (2, 1));
}

#[test]
fn requests_are_numbered_from_zero() {
    let mut counter = RequestCounter::new();
    for expected in 0..1000 {
        assert_eq!(counter.assign(), expected);
    }
}

#[test]
fn reports_become_messages() {
    match relay_step(RelayInput::Received(Some(ProxyEvent::Error("e".to_string())))) {
        RelayStep::Send(Message::ProxyEvent(ProxyEvent::Error(e))) => assert_eq!(e, "e"),
        _ => panic!("the report should have been sent on"),
    }
    assert!(matches!(relay_step(RelayInput::Sent(true)), RelayStep::Receive));
}

#[test]
fn the_relay_ends_with_either_side() {
    assert!(matches!(relay_step(RelayInput::Received(None)), RelayStep::Finish));
    assert!(matches!(relay_step(RelayInput::Sent(false)), RelayStep::Finish));
}

#[test]
fn reports_arrive_in_order_until_the_window_is_gone() {
    let mut events = vec![
        ProxyEvent::Started,
        ProxyEvent::Error("a".to_string()),
        ProxyEvent::Stopped,
    ]
    .into_iter();
    let mut room = 2;
    let mut arrived = Vec::new();
    let mut step = RelayStep::Receive;
    loop {
        let input = match step {
            RelayStep::Receive => RelayInput::Received(events.next()),
            RelayStep::Send(message) => {
                if room > 0 {
                    room -= 1;
                    arrived.push(message);
                    RelayInput::Sent(true)
                } else {
                    RelayInput::Sent(false)
                }
            }
            RelayStep::Finish => break,
        };
        step = relay_step(input);
    }
    assert_eq!(arrived.len(), 2);
    assert!(matches!(arrived[0], Message::ProxyEvent(ProxyEvent::Started)));
    assert!(matches!(arrived[1], Message::ProxyEvent(ProxyEvent::Error(_))));
}
