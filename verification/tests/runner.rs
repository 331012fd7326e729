use resolver_probe::message::{InboundMessage, TestDomain};
use resolver_probe::exchange::{Exchange, TransportError};
use resolver_probe::probe::ProbeKind;
use resolver_probe::runner::Runner;
use resolver_probe::session::{accept_datagram, Endpoint};
use resolver_probe::verdict::Verdict;
use resolver_probe::wire::encode;

fn fail(reason: &str) -> Verdict {
    Verdict::Fail(reason.to_string())
}

fn named(kind: ProbeKind, verdict: Verdict) -> (String, Verdict) {
    (kind.name(), verdict)
}

/// Stands for a resolver: answers any query with one A record and an OPT
/// pseudo-record of version 0, under the query's identifier.
fn mock_resolver(query: &[u8]) -> Vec<u8> {
    let mut m = vec![query[0], query[1], 0x81, 0x80, 0x00, 0x00];
    m.extend_from_slice(&[0x00, 0x01, 0x00, 0x00, 0x00, 0x01]);
    m.extend_from_slice(&[0x00, 0x00, 0x01, 0x00, 0x01, 0x00, 0x00, 0x00, 0x3c]);
    m.extend_from_slice(&[0x00, 0x04, 10, 0, 0, 1]);
    m.extend_from_slice(&[0x00, 0x00, 0x29, 0x04, 0xd0, 0x00, 0x00, 0x00, 0x00, 0x00, 0x00]);
    m
}

fn run_against_mock(gate: bool) -> Vec<(String, Verdict)> {
    let resolver = Endpoint { address: 0xffff_7f00_0001, port: 53 };
    let domain = TestDomain::new("dnssec-tools.org.").unwrap();
    let mut runner = Runner::new(vec![ProbeKind::BasicAnswer, ProbeKind::Edns0], gate);
    let mut id: u16 = 100;
    while let Some(kind) = runner.next_probe() {
        let query = encode(&kind.message(&domain), id).unwrap();
        let datagram = mock_resolver(&query);
        let exchange = accept_datagram(resolver, id, resolver, &datagram).unwrap();
        runner.record(&exchange);
        id += 1;
    }
    assert!(runner.is_done());
    runner.report()
}

#[test]
fn end_to_end_against_conforming_resolver() {
    let expected = vec![
        named(ProbeKind::BasicAnswer, Verdict::Success),
        named(ProbeKind::Edns0, Verdict::Success),
    ];
    assert_eq!(run_against_mock(false), expected);
    assert_eq!(run_against_mock(true), expected);
    assert_eq!(expected[0].0, "Basic Answer Probe");
    assert_eq!(expected[1].0, "EDNS0 Probe");
}

#[test]
fn two_runs_give_the_same_report() {
    assert_eq!(run_against_mock(false), run_against_mock(false));
}

#[test]
fn failure_does_not_abort_an_ungated_run() {
    let mut runner = Runner::new(vec![ProbeKind::BasicAnswer, ProbeKind::Edns0], false);
    assert!(!runner.is_done());
    assert_eq!(runner.next_probe(), Some(ProbeKind::BasicAnswer));
    runner.record(&Exchange::Failed(TransportError::Timeout));
    assert_eq!(runner.next_probe(), Some(ProbeKind::Edns0));
    assert_eq!(runner.report(), vec![named(ProbeKind::BasicAnswer, fail("transport error: timeout"))]);
    runner.record(&Exchange::Reply(InboundMessage { id: 1, answer_count: 0, edns_version: Some(0) }));
    assert_eq!(runner.next_probe(), None);
    assert!(runner.is_done());
    assert_eq!(
        runner.report(),
        vec![
            named(ProbeKind::BasicAnswer, fail("transport error: timeout")),
            named(ProbeKind::Edns0, Verdict::Success),
        ]
    );
}

#[test]
fn closed_gate_skips_the_probes_behind_it() {
    let mut runner = Runner::new(
        vec![ProbeKind::BasicAnswer, ProbeKind::Edns0, ProbeKind::Edns0],
        true,
    );
    runner.record(&Exchange::Reply(InboundMessage { id: 1, answer_count: 0, edns_version: None }));
    assert!(runner.is_done());
    assert_eq!(runner.next_probe(), None);
    assert_eq!(
        runner.report(),
        vec![
            named(ProbeKind::BasicAnswer, fail("no answer")),
            named(ProbeKind::Edns0, fail("prerequisite not met")),
            named(ProbeKind::Edns0, fail("prerequisite not met")),
        ]
    );
}

#[test]
fn gate_stays_open_when_only_edns_fails() {
    let mut runner = Runner::new(vec![ProbeKind::Edns0, ProbeKind::BasicAnswer], true);
    runner.record(&Exchange::Reply(InboundMessage { id: 1, answer_count: 1, edns_version: None }));
    assert_eq!(runner.next_probe(), Some(ProbeKind::BasicAnswer));
    runner.record(&Exchange::Reply(InboundMessage { id: 2, answer_count: 1, edns_version: None }));
    assert_eq!(
        runner.report(),
        vec![
            named(ProbeKind::Edns0, fail("No EDNS option")),
            named(ProbeKind::BasicAnswer, Verdict::Success),
        ]
    );
}

#[test]
fn record_after_the_last_probe_changes_nothing() {
    let mut runner = Runner::new(vec![ProbeKind::BasicAnswer], false);
    runner.record(&Exchange::Cancelled);
    let before = runner.report();
    runner.record(&Exchange::Reply(InboundMessage { id: 1, answer_count: 1, edns_version: None }));
    assert_eq!(runner.report(), before);
    assert_eq!(before, vec![named(ProbeKind::BasicAnswer, fail("cancelled"))]);
}

#[test]
fn replay_records_each_exchange_in_turn() {
    let exchanges = vec![
        Exchange::Reply(InboundMessage { id: 1, answer_count: 2, edns_version: None }),
        Exchange::Reply(InboundMessage { id: 2, answer_count: 2, edns_version: Some(1) }),
    ];
    let mut runner = Runner::new(vec![ProbeKind::BasicAnswer, ProbeKind::Edns0], true);
    runner.replay(&exchanges);
    assert!(runner.is_done());
    let report = runner.report();
    assert_eq!(
        report,
        vec![
            named(ProbeKind::BasicAnswer, Verdict::Success),
            named(ProbeKind::Edns0, fail("Wrong EDNS option")),
        ]
    );
    let mut again = Runner::new(vec![ProbeKind::BasicAnswer, ProbeKind::Edns0], true);
    again.replay(&exchanges);
    assert_eq!(again.report(), report);
}

#[test]
fn replay_stops_recording_behind_a_closed_gate() {
    let exchanges = vec![
        Exchange::Failed(TransportError::ConnectionReset),
        Exchange::Reply(InboundMessage { id: 2, answer_count: 2, edns_version: Some(0) }),
    ];
    let mut runner = Runner::new(vec![ProbeKind::BasicAnswer, ProbeKind::Edns0], true);
    runner.replay(&exchanges);
    assert_eq!(
        runner.report(),
        vec![
            named(ProbeKind::BasicAnswer, fail("transport error: connection reset")),
            named(ProbeKind::Edns0, fail("prerequisite not met")),
        ]
    );
}

#[test]
fn empty_run_is_done_at_once() {
    let runner = Runner::new(vec![], true);
    assert!(runner.is_done());
    assert_eq!(runner.next_probe(), None);
    assert_eq!(runner.report(), vec![]);
}
