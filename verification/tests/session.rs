use resolver_probe::framing::{frame, Reassembler};
use resolver_probe::message::{InboundMessage, TestDomain};
use resolver_probe::probe::ProbeKind;
use resolver_probe::wire::encode;
use resolver_probe::exchange::{Exchange, TransportError};
use resolver_probe::session::{
    accept_datagram, accept_message, accept_stream, correlate, is_addressed, on_wake, outcome,
    remaining, step, Endpoint, ProbeAction, ProbeEvent, ProbeState, Wake,
};

fn reply_bytes(id: u16) -> Vec<u8> {
    let mut m = vec![(id >> 8) as u8, (id & 0xff) as u8, 0x81, 0x80, 0x00, 0x00];
    m.extend_from_slice(&[0x00, 0x01, 0x00, 0x00, 0x00, 0x01]);
    m.extend_from_slice(&[0x00, 0x00, 0x01, 0x00, 0x01, 0x00, 0x00, 0x00, 0x3c]);
    m.extend_from_slice(&[0x00, 0x04, 10, 0, 0, 1]);
    m.extend_from_slice(&[0x00, 0x00, 0x29, 0x04, 0xd0, 0x00, 0x00, 0x00, 0x00, 0x00, 0x00]);
    m
}

fn reply(id: u16) -> InboundMessage {
    InboundMessage { id, answer_count: 1, edns_version: Some(0) }
}

const RESOLVER: Endpoint = Endpoint { address: 0xffff_7f00_0001, port: 53 };

#[test]
fn datagram_from_resolver_with_query_id_is_the_reply() {
    assert_eq!(
        accept_datagram(RESOLVER, 0x4242, RESOLVER, &reply_bytes(0x4242)),
        Some(Exchange::Reply(reply(0x4242)))
    );
}

#[test]
fn datagram_from_elsewhere_is_discarded() {
    let other_port = Endpoint { address: RESOLVER.address, port: 5353 };
    let other_host = Endpoint { address: 0xffff_7f00_0002, port: 53 };
    assert_eq!(accept_datagram(RESOLVER, 1, other_port, &reply_bytes(1)), None);
    assert_eq!(accept_datagram(RESOLVER, 1, other_host, &reply_bytes(1)), None);
    assert_eq!(accept_datagram(RESOLVER, 1, other_host, &[0xff]), None);
}

#[test]
fn datagram_with_other_id_is_discarded() {
    assert_eq!(accept_datagram(RESOLVER, 1, RESOLVER, &reply_bytes(2)), None);
    assert_eq!(accept_message(1, &reply_bytes(2)), None);
}

#[test]
fn undecodable_datagram_from_resolver_is_malformed() {
    assert_eq!(
        accept_datagram(RESOLVER, 1, RESOLVER, &[0x00, 0x01, 0xff]),
        Some(Exchange::Failed(TransportError::MalformedResponse))
    );
}

#[test]
fn correlate_by_identifier() {
    assert_eq!(correlate(5, Some(reply(5))), Some(Exchange::Reply(reply(5))));
    assert_eq!(correlate(5, Some(reply(6))), None);
    assert_eq!(correlate(5, None), Some(Exchange::Failed(TransportError::MalformedResponse)));
}

#[test]
fn stream_reply_arrives_in_two_reads() {
    let framed = frame(&reply_bytes(300)).unwrap();
    for cut in 0..framed.len() {
        let mut stream = Reassembler::new();
        assert_eq!(accept_stream(&mut stream, 300, &framed[..cut]), None);
        assert_eq!(
            accept_stream(&mut stream, 300, &framed[cut..]),
            Some(Exchange::Reply(reply(300)))
        );
    }
}

#[test]
fn stream_reply_to_other_query_is_skipped() {
    let mut bytes = frame(&reply_bytes(1)).unwrap();
    bytes.extend_from_slice(&frame(&reply_bytes(2)).unwrap());
    let mut stream = Reassembler::new();
    assert_eq!(accept_stream(&mut stream, 2, &bytes), Some(Exchange::Reply(reply(2))));
    assert_eq!(accept_stream(&mut stream, 2, &[]), None);
}

#[test]
fn stream_keeps_what_follows_the_reply() {
    let mut bytes = frame(&reply_bytes(1)).unwrap();
    bytes.extend_from_slice(&frame(&reply_bytes(1)).unwrap()[..5]);
    let mut stream = Reassembler::new();
    assert_eq!(accept_stream(&mut stream, 1, &bytes), Some(Exchange::Reply(reply(1))));
    assert_eq!(stream.missing(), 35);
}

#[test]
fn stream_with_undecodable_message_is_malformed() {
    let mut stream = Reassembler::new();
    assert_eq!(
        accept_stream(&mut stream, 0x0102, &[0x00, 0x03, 0x01, 0x02, 0x03]),
        Some(Exchange::Failed(TransportError::MalformedResponse))
    );
    let mut other = Reassembler::new();
    assert_eq!(accept_stream(&mut other, 1, &[0x00, 0x03, 0x01, 0x02, 0x03]), None);
    assert_eq!(other.missing(), 2);
}

#[test]
fn encoded_query_survives_framing_and_any_split() {
    let domain = TestDomain::new("dnssec-tools.org.").unwrap();
    let original = encode(&ProbeKind::Edns0.message(&domain), 0x0102).unwrap();
    let framed = frame(&original).unwrap();
    assert_eq!(framed.len(), original.len() + 2);
    for cut in 0..=framed.len() {
        let mut stream = Reassembler::new();
        stream.feed(&framed[..cut]);
        stream.feed(&framed[cut..]);
        assert_eq!(stream.take_message(), Some(original.clone()));
    }
}

#[test]
fn reply_with_short_tlsa_record_is_malformed() {
    let mut bytes = vec![0x00, 0x01, 0x81, 0x80, 0x00, 0x00, 0x00, 0x01, 0x00, 0x00, 0x00, 0x00];
    bytes.extend_from_slice(&[0x00, 0x00, 0x34, 0x00, 0x01, 0, 0, 0, 60, 0x00, 0x01, 1, 2, 3]);
    let malformed = Some(Exchange::Failed(TransportError::MalformedResponse));
    assert_eq!(accept_datagram(RESOLVER, 1, RESOLVER, &bytes), malformed);
    assert_eq!(accept_message(1, &bytes), malformed);
    let mut stream = Reassembler::new();
    assert_eq!(accept_stream(&mut stream, 1, &frame(&bytes).unwrap()), malformed);
}

#[test]
fn message_for_another_query_is_dropped_unread() {
    let mut unreadable = vec![0x00, 0x07, 0x81, 0x80, 0x00, 0x00, 0x00, 0x01, 0x00, 0x00, 0x00, 0x00];
    unreadable.extend_from_slice(&[0x00, 0x00, 0x34, 0x00, 0x01, 0, 0, 0, 60, 0x00, 0x01, 1, 2, 3]);
    assert_eq!(accept_datagram(RESOLVER, 1, RESOLVER, &unreadable), None);
    assert_eq!(accept_message(1, &unreadable), None);
    assert_eq!(accept_message(1, &[0x00, 0x02, 0xff]), None);
    assert_eq!(accept_message(1, &[0x00]), None);
    assert_eq!(accept_message(1, &[]), None);
    assert!(!is_addressed(1, &unreadable));
    assert!(is_addressed(7, &unreadable));
    assert_eq!(
        accept_message(7, &unreadable),
        Some(Exchange::Failed(TransportError::MalformedResponse))
    );
}

#[test]
fn silent_connection_times_out_at_the_deadline() {
    assert_eq!(on_wake(100, 100, 50, None), Wake::WaitFor(50));
    assert_eq!(on_wake(100, 120, 50, None), Wake::WaitFor(30));
    assert_eq!(on_wake(100, 149, 50, None), Wake::WaitFor(1));
    let timed_out = Wake::Finish(Exchange::Failed(TransportError::Timeout));
    assert_eq!(on_wake(100, 150, 50, None), timed_out);
    assert_eq!(on_wake(100, 151, 50, None), timed_out);
    assert_eq!(on_wake(100, 100, 0, None), timed_out);
}

#[test]
fn what_was_found_ends_the_wait() {
    let found = Exchange::Reply(reply(4));
    assert_eq!(on_wake(100, 120, 50, Some(found)), Wake::Finish(found));
    assert_eq!(on_wake(100, 500, 50, Some(found)), Wake::Finish(found));
    let reset = Exchange::Failed(TransportError::ConnectionReset);
    assert_eq!(on_wake(100, 120, 50, Some(reset)), Wake::Finish(reset));
}

#[test]
fn remaining_time() {
    assert_eq!(remaining(1000, 1000, 500), Some(500));
    assert_eq!(remaining(1000, 1200, 500), Some(300));
    assert_eq!(remaining(1000, 1499, 500), Some(1));
    assert_eq!(remaining(1000, 1500, 500), None);
    assert_eq!(remaining(1000, 9000, 500), None);
    assert_eq!(remaining(1000, 900, 500), Some(500));
    assert_eq!(remaining(0, 0, 0), None);
    assert_eq!(remaining(0, u64::MAX, u64::MAX), None);
}

#[test]
fn undisturbed_probe_walks_through_every_state() {
    let (s, a) = step(ProbeState::Idle, ProbeEvent::Started);
    assert_eq!((s, a), (ProbeState::Sending, ProbeAction::Await));
    let (s, a) = step(s, ProbeEvent::Sent);
    assert_eq!((s, a), (ProbeState::AwaitingResponse, ProbeAction::Await));
    assert_eq!(outcome(s), None);
    let (s, a) = step(s, ProbeEvent::Received(reply(1)));
    assert_eq!((s, a), (ProbeState::Classifying(reply(1)), ProbeAction::Classify));
    let (s, a) = step(s, ProbeEvent::Classified);
    assert_eq!((s, a), (ProbeState::Terminal(Exchange::Reply(reply(1))), ProbeAction::Close));
    assert_eq!(outcome(s), Some(Exchange::Reply(reply(1))));
}

#[test]
fn timeout_ends_an_awaiting_probe_at_once() {
    let (s, a) = step(ProbeState::AwaitingResponse, ProbeEvent::Failed(TransportError::Timeout));
    assert_eq!(s, ProbeState::Terminal(Exchange::Failed(TransportError::Timeout)));
    assert_eq!(a, ProbeAction::Close);
}

#[test]
fn failure_and_cancellation_end_any_running_state() {
    for state in [
        ProbeState::Idle,
        ProbeState::Sending,
        ProbeState::AwaitingResponse,
        ProbeState::Classifying(reply(1)),
    ] {
        assert_eq!(
            step(state, ProbeEvent::Failed(TransportError::ConnectionReset)).0,
            ProbeState::Terminal(Exchange::Failed(TransportError::ConnectionReset))
        );
        assert_eq!(step(state, ProbeEvent::Cancelled).0, ProbeState::Terminal(Exchange::Cancelled));
    }
}

#[test]
fn terminal_state_never_changes() {
    let done = ProbeState::Terminal(Exchange::Failed(TransportError::Timeout));
    for event in [
        ProbeEvent::Started,
        ProbeEvent::Sent,
        ProbeEvent::Received(reply(1)),
        ProbeEvent::Failed(TransportError::Connect),
        ProbeEvent::Cancelled,
        ProbeEvent::Classified,
    ] {
        assert_eq!(step(done, event), (done, ProbeAction::Close));
    }
}

#[test]
fn events_out_of_place_change_nothing() {
    assert_eq!(step(ProbeState::Idle, ProbeEvent::Sent), (ProbeState::Idle, ProbeAction::Send));
    assert_eq!(
        step(ProbeState::Idle, ProbeEvent::Received(reply(1))),
        (ProbeState::Idle, ProbeAction::Send)
    );
    assert_eq!(
        step(ProbeState::Sending, ProbeEvent::Classified),
        (ProbeState::Sending, ProbeAction::Await)
    );
    assert_eq!(
        step(ProbeState::AwaitingResponse, ProbeEvent::Started),
        (ProbeState::AwaitingResponse, ProbeAction::Await)
    );
}
