use vstd::prelude::*;
use crate::framing::{
    after_first_message, first_message, framed, has_message, lemma_split_delivery, Reassembler,
    MAX_MESSAGE_LEN,
};
use crate::message::InboundMessage;
use crate::exchange::{Exchange, TransportError};
use crate::probe::{verdict_of, ProbeKind};
use crate::verdict::VerdictView;
use crate::layout::pair_at;
use crate::wire::{decode, reply_in};

verus! {

/// The transports a session can use.
#[derive(Debug, Clone, Copy, PartialEq, Eq, Structural)]
pub enum Protocol {
    Udp,
    Tcp,
}

/// A socket address as plain numbers: the IP address, an IPv4 one in its
/// IPv6-mapped form, and the port.
#[derive(Debug, Clone, Copy, PartialEq, Eq, Structural)]
pub struct Endpoint {
    pub address: u128,
    pub port: u16,
}

/// Whether a message carries the identifier `id` in its first two bytes.
pub open spec fn addressed(id: u16, message: Seq<u8>) -> bool {
    message.len() >= 2 && pair_at(message, 0) == id
}

/// What a session makes of what was read from a message that carries the
/// identifier of its outstanding query: a reply ends the exchange, if it
/// holds that identifier, and what is no message ends it as a malformed
/// response.
pub open spec fn answered(id: u16, parsed: Option<InboundMessage>) -> Option<Exchange> {
    match parsed {
        None => Some(Exchange::Failed(TransportError::MalformedResponse)),
        Some(reply) => if reply.id == id {
            Some(Exchange::Reply(reply))
        } else {
            None
        },
    }
}

/// What a session makes of a message that reached it while the query with
/// identifier `id` is outstanding. A message that does not carry that
/// identifier is not for this session: it is dropped unread, whatever else
/// it holds. One that does is read, and ends the exchange.
pub open spec fn matched(id: u16, message: Seq<u8>) -> Option<Exchange> {
    if addressed(id, message) {
        answered(id, reply_in(message))
    } else {
        None
    }
}

/// What a UDP session makes of a datagram from `source` while its query to
/// `peer` is outstanding: one from another source is dropped unread.
pub open spec fn correlated(peer: Endpoint, id: u16, source: Endpoint, datagram: Seq<u8>) -> Option<
    Exchange,
> {
    if source != peer {
        None
    } else {
        matched(id, datagram)
    }
}

/// Whether a message carries the identifier of the outstanding query.
pub fn is_addressed(id: u16, message: &[u8]) -> (out: bool)
    ensures
        out == addressed(id, message@),
{
    if message.len() < 2 {
        return false;
    }
    let carried: u16 = (message[0] as u16) * 256 + (message[1] as u16);
    carried == id
}

/// Decides how what was read from a message ends the exchange.
pub fn correlate(id: u16, parsed: Option<InboundMessage>) -> (out: Option<Exchange>)
    ensures
        out == answered(id, parsed),
{
    match parsed {
        None => Some(Exchange::Failed(TransportError::MalformedResponse)),
        Some(reply) => if reply.id == id {
            Some(Exchange::Reply(reply))
        } else {
            None
        },
    }
}

/// Looks at one message that reached a session: `None` where it is to be
/// dropped, else how the exchange ends.
pub fn accept_message(id: u16, message: &[u8]) -> (out: Option<Exchange>)
    ensures
        out == matched(id, message@),
{
    if !is_addressed(id, message) {
        return None;
    }
    match decode(message) {
        Ok(reply) => correlate(id, Some(reply)),
        Err(_) => correlate(id, None),
    }
}

/// Looks at one datagram that arrived on a UDP session's socket: `None`
/// where it is to be dropped, else how the exchange ends.
pub fn accept_datagram(peer: Endpoint, id: u16, source: Endpoint, datagram: &[u8]) -> (out: Option<
    Exchange,
>)
    ensures
        out == correlated(peer, id, source, datagram@),
{
    if source.address != peer.address || source.port != peer.port {
        return None;
    }
    accept_message(id, datagram)
}

/// What a TCP session finds in the bytes it holds while the query with
/// identifier `id` is outstanding: the whole messages are looked at in the
/// order in which they arrived, replies to other queries are dropped, and
/// the first message that ends the exchange is the result. The second part
/// is what stays in the stream: the bytes after that message, or an
/// unfinished message for which more has to be read.
pub open spec fn scanned(id: u16, stream: Seq<u8>) -> (Option<Exchange>, Seq<u8>)
    decreases stream.len(),
{
    if !has_message(stream) {
        (None, stream)
    } else {
        match matched(id, first_message(stream)) {
            Some(exchange) => (Some(exchange), after_first_message(stream)),
            None => scanned(id, after_first_message(stream)),
        }
    }
}

/// Takes in what one read of a TCP session's stream delivered, however the
/// stream was cut, and looks for the reply among the messages that are now
/// whole.
pub fn accept_stream(stream: &mut Reassembler, id: u16, chunk: &[u8]) -> (out: Option<Exchange>)
    ensures
        out == scanned(id, old(stream)@ + chunk@).0,
        final(stream)@ == scanned(id, old(stream)@ + chunk@).1,
{
    stream.feed(chunk);
    let ghost received = stream@;
    loop
        invariant
            received == old(stream)@ + chunk@,
            scanned(id, stream@) == scanned(id, received),
        decreases stream@.len(),
    {
        match stream.take_message() {
            None => {
                return None;
            },
            Some(message) => {
                let found = accept_message(id, message.as_slice());
                if found.is_some() {
                    return found;
                }
            },
        }
    }
}

/// The time left of a round trip that started at `started` and may take
/// `timeout`, seen at `now` (all in milliseconds of one monotonic clock):
/// `None` once the timeout has run out. A clock that went backwards counts
/// as no time passed.
pub open spec fn time_left(started: u64, now: u64, timeout: u64) -> Option<u64> {
    let elapsed: int = if now >= started {
        now - started
    } else {
        0
    };
    if elapsed >= timeout {
        None
    } else {
        Some((timeout - elapsed) as u64)
    }
}

/// How long the session may still wait for the reply.
pub fn remaining(started: u64, now: u64, timeout: u64) -> (out: Option<u64>)
    ensures
        out == time_left(started, now, timeout),
{
    let elapsed: u64 = if now >= started {
        now - started
    } else {
        0
    };
    if elapsed >= timeout {
        None
    } else {
        Some(timeout - elapsed)
    }
}

/// What a session that waits for its reply does when it wakes.
#[derive(Debug, Clone, Copy, PartialEq, Eq)]
pub enum Wake {
    /// The exchange is over.
    Finish(Exchange),
    /// Nothing ended it yet: wait again, for at most so many milliseconds.
    WaitFor(u64),
}

/// What a session does on waking at `now`, having found `found` since it
/// last looked: what ends the exchange ends it; with nothing found and the
/// timeout run out the exchange ends as timed out; else the session waits
/// for what is left of the round trip and no longer.
pub open spec fn woken(started: u64, now: u64, timeout: u64, found: Option<Exchange>) -> Wake {
    match found {
        Some(exchange) => Wake::Finish(exchange),
        None => match time_left(started, now, timeout) {
            Some(left) => Wake::WaitFor(left),
            None => Wake::Finish(Exchange::Failed(TransportError::Timeout)),
        },
    }
}

/// Decides what a waiting session does next.
pub fn on_wake(started: u64, now: u64, timeout: u64, found: Option<Exchange>) -> (out: Wake)
    ensures
        out == woken(started, now, timeout, found),
{
    match found {
        Some(exchange) => Wake::Finish(exchange),
        None => match remaining(started, now, timeout) {
            Some(left) => Wake::WaitFor(left),
            None => Wake::Finish(Exchange::Failed(TransportError::Timeout)),
        },
    }
}

/// Where one execution of a probe stands.
#[derive(Debug, Clone, Copy, PartialEq, Eq)]
pub enum ProbeState {
    Idle,
    Sending,
    AwaitingResponse,
    /// The correlated reply arrived and awaits its verdict.
    Classifying(InboundMessage),
    /// The execution is over; the exchange ended as recorded.
    Terminal(Exchange),
}

/// What can happen to a probe's execution.
#[derive(Debug, Clone, Copy, PartialEq, Eq)]
pub enum ProbeEvent {
    /// The probe was started.
    Started,
    /// The query left.
    Sent,
    /// The correlated reply arrived.
    Received(InboundMessage),
    /// The session failed.
    Failed(TransportError),
    /// The caller's deadline passed.
    Cancelled,
    /// The reply was classified.
    Classified,
}

/// What the driver of a probe does next.
#[derive(Debug, Clone, Copy, PartialEq, Eq, Structural)]
pub enum ProbeAction {
    /// Open the session and send the query.
    Send,
    /// Wait for the reply, a failure or the timeout.
    Await,
    /// Hand the reply to the probe.
    Classify,
    /// Close the session and report the verdict.
    Close,
}

/// The state after `event`. A failure or a cancellation ends the execution
/// from any state but a terminal one, and a terminal state never changes:
/// a probe does not retry. An event that does not belong to the state
/// changes nothing.
pub open spec fn next_state(state: ProbeState, event: ProbeEvent) -> ProbeState {
    match state {
        ProbeState::Terminal(_) => state,
        _ => match event {
            ProbeEvent::Failed(err) => ProbeState::Terminal(Exchange::Failed(err)),
            ProbeEvent::Cancelled => ProbeState::Terminal(Exchange::Cancelled),
            ProbeEvent::Started => if state is Idle {
                ProbeState::Sending
            } else {
                state
            },
            ProbeEvent::Sent => if state is Sending {
                ProbeState::AwaitingResponse
            } else {
                state
            },
            ProbeEvent::Received(reply) => if state is AwaitingResponse {
                ProbeState::Classifying(reply)
            } else {
                state
            },
            ProbeEvent::Classified => match state {
                ProbeState::Classifying(reply) => ProbeState::Terminal(Exchange::Reply(reply)),
                _ => state,
            },
        },
    }
}

/// What the driver does in `state`.
pub open spec fn action_in(state: ProbeState) -> ProbeAction {
    match state {
        ProbeState::Idle => ProbeAction::Send,
        ProbeState::Sending => ProbeAction::Await,
        ProbeState::AwaitingResponse => ProbeAction::Await,
        ProbeState::Classifying(_) => ProbeAction::Classify,
        ProbeState::Terminal(_) => ProbeAction::Close,
    }
}

/// Advances a probe's execution by one event and says what to do next.
pub fn step(state: ProbeState, event: ProbeEvent) -> (out: (ProbeState, ProbeAction))
    ensures
        out.0 == next_state(state, event),
        out.1 == action_in(out.0),
{
    let next = match state {
        ProbeState::Terminal(_) => state,
        ProbeState::Idle => match event {
            ProbeEvent::Failed(err) => ProbeState::Terminal(Exchange::Failed(err)),
            ProbeEvent::Cancelled => ProbeState::Terminal(Exchange::Cancelled),
            ProbeEvent::Started => ProbeState::Sending,
            _ => state,
        },
        ProbeState::Sending => match event {
            ProbeEvent::Failed(err) => ProbeState::Terminal(Exchange::Failed(err)),
            ProbeEvent::Cancelled => ProbeState::Terminal(Exchange::Cancelled),
            ProbeEvent::Sent => ProbeState::AwaitingResponse,
            _ => state,
        },
        ProbeState::AwaitingResponse => match event {
            ProbeEvent::Failed(err) => ProbeState::Terminal(Exchange::Failed(err)),
            ProbeEvent::Cancelled => ProbeState::Terminal(Exchange::Cancelled),
            ProbeEvent::Received(reply) => ProbeState::Classifying(reply),
            _ => state,
        },
        ProbeState::Classifying(reply) => match event {
            ProbeEvent::Failed(err) => ProbeState::Terminal(Exchange::Failed(err)),
            ProbeEvent::Cancelled => ProbeState::Terminal(Exchange::Cancelled),
            ProbeEvent::Classified => ProbeState::Terminal(Exchange::Reply(reply)),
            _ => state,
        },
    };
    let action = match next {
        ProbeState::Idle => ProbeAction::Send,
        ProbeState::Sending => ProbeAction::Await,
        ProbeState::AwaitingResponse => ProbeAction::Await,
        ProbeState::Classifying(_) => ProbeAction::Classify,
        ProbeState::Terminal(_) => ProbeAction::Close,
    };
    (next, action)
}

/// The exchange that a finished execution ended with, `None` while it runs.
pub fn outcome(state: ProbeState) -> (out: Option<Exchange>)
    ensures
        out == (match state {
            ProbeState::Terminal(exchange) => Some(exchange),
            _ => None,
        }),
{
    match state {
        ProbeState::Terminal(exchange) => Some(exchange),
        _ => None,
    }
}

/// A session whose connection never replies runs out of time: once the
/// timeout has passed nothing is left to wait for, the timeout ends the
/// awaiting execution at once, and every probe reports it as a failure with
/// a reason.
pub proof fn lemma_silence_times_out(kind: ProbeKind, started: u64, now: u64, timeout: u64)
    requires
        now - started >= timeout,
    ensures
        time_left(started, now, timeout).is_none(),
        next_state(ProbeState::AwaitingResponse, ProbeEvent::Failed(TransportError::Timeout))
            == ProbeState::Terminal(Exchange::Failed(TransportError::Timeout)),
        verdict_of(kind, Exchange::Failed(TransportError::Timeout)) is Fail,
        verdict_of(kind, Exchange::Failed(TransportError::Timeout))->Fail_0.len() > 0,
{
    crate::probe::lemma_failed_exchange_fails(kind, Exchange::Failed(TransportError::Timeout));
}

/// A session whose connection never replies is never left waiting: each
/// wait it starts ends at the deadline, the start plus the timeout. So if a
/// wait that was asked to last `left` is over by at most `margin` more, the
/// session wakes no later than the deadline plus `margin`; waking at or
/// after the deadline it ends as timed out, and it never does so before the
/// deadline; waking earlier it waits again, and again only to the deadline.
pub proof fn lemma_wait_is_bounded(started: u64, now: u64, timeout: u64, woke: u64, margin: nat)
    requires
        started <= now,
        woken(started, now, timeout, None) is WaitFor,
        now <= woke <= now + woken(started, now, timeout, None)->WaitFor_0 + margin,
    ensures
        now + woken(started, now, timeout, None)->WaitFor_0 == started + timeout,
        woke <= started + timeout + margin,
        woke >= started + timeout <==> woken(started, woke, timeout, None) == Wake::Finish(
            Exchange::Failed(TransportError::Timeout),
        ),
        woken(started, woke, timeout, None) matches Wake::WaitFor(again) ==> woke + again
            == started + timeout,
{
}

/// The times at which a session wakes while nothing arrives, as its driver
/// and clock allow them: the first no later than the deadline plus `margin`;
/// after a wake that found time left, the clock has advanced at the next,
/// which comes no more than `margin` after the wait that was asked for.
pub open spec fn paced(started: u64, timeout: u64, margin: nat, wakes: Seq<u64>) -> bool {
    &&& wakes.len() > 0
    &&& started <= wakes[0] <= started + timeout + margin
    &&& forall|k: int|
        0 <= k && k + 1 < wakes.len() && woken(started, #[trigger] wakes[k], timeout, None)
            is WaitFor ==> wakes[k] < wakes[k + 1] <= wakes[k] + woken(
            started,
            wakes[k],
            timeout,
            None,
        )->WaitFor_0 + margin
}

/// Whether the session, waking at these times and finding nothing, waits at
/// every wake before the one at `k` and ends there as timed out, at or after
/// the deadline and no more than `margin` after it.
pub open spec fn times_out_at(
    started: u64,
    timeout: u64,
    margin: nat,
    wakes: Seq<u64>,
    k: int,
) -> bool {
    &&& 0 <= k < wakes.len()
    &&& forall|j: int| 0 <= j < k ==> woken(started, #[trigger] wakes[j], timeout, None) is WaitFor
    &&& woken(started, wakes[k], timeout, None) == Wake::Finish(
        Exchange::Failed(TransportError::Timeout),
    )
    &&& started + timeout <= wakes[k] <= started + timeout + margin
}

proof fn lemma_times_out_from(
    started: u64,
    timeout: u64,
    margin: nat,
    wakes: Seq<u64>,
    k: int,
) -> (end: int)
    requires
        paced(started, timeout, margin, wakes),
        wakes.len() > timeout,
        0 <= k < wakes.len(),
        forall|j: int| 0 <= j < k ==> woken(started, #[trigger] wakes[j], timeout, None) is WaitFor,
        started + k <= wakes[k] <= started + timeout + margin,
    ensures
        times_out_at(started, timeout, margin, wakes, end),
    decreases wakes.len() - k,
{
    if wakes[k] >= started + timeout {
        k
    } else {
        assert(woken(started, wakes[k], timeout, None) is WaitFor);
        assert(k < timeout);
        assert(wakes[k] + woken(started, wakes[k], timeout, None)->WaitFor_0 == started
            + timeout);
        lemma_times_out_from(started, timeout, margin, wakes, k + 1)
    }
}

/// A session whose connection never replies ends as timed out, at or after
/// the deadline and no more than `margin` after it, and it waits at every
/// wake before: it is never left waiting for good. This holds of every run
/// of wakes that is paced as above and long enough for the clock to pass
/// the deadline.
pub proof fn lemma_silent_session_times_out(
    started: u64,
    timeout: u64,
    margin: nat,
    wakes: Seq<u64>,
)
    requires
        paced(started, timeout, margin, wakes),
        wakes.len() > timeout,
    ensures
        exists|k: int| times_out_at(started, timeout, margin, wakes, k),
{
    let end = lemma_times_out_from(started, timeout, margin, wakes, 0);
    assert(times_out_at(started, timeout, margin, wakes, end));
}

/// A session hands on no reply that it did not ask for: what ends the
/// exchange came in a message that carries the identifier of the outstanding
/// query, a reply that ends it holds that identifier, and on UDP it came
/// from the resolver that the query went to.
pub proof fn lemma_only_the_requested_reply(
    peer: Endpoint,
    id: u16,
    source: Endpoint,
    message: Seq<u8>,
    stream: Seq<u8>,
)
    ensures
        matched(id, message).is_some() ==> addressed(id, message),
        matched(id, message) matches Some(Exchange::Reply(reply)) ==> reply.id == id
            && reply_in(message) == Some(reply),
        correlated(peer, id, source, message).is_some() ==> source == peer,
        correlated(peer, id, source, message) matches Some(Exchange::Reply(reply)) ==> reply.id
            == id,
        scanned(id, stream).0 matches Some(Exchange::Reply(reply)) ==> reply.id == id,
    decreases stream.len(),
{
    if has_message(stream) && matched(id, first_message(stream)).is_none() {
        lemma_only_the_requested_reply(peer, id, source, message, after_first_message(stream));
    }
}

/// A sound reply to the outstanding query that holds an answer, framed and
/// delivered over TCP in two reads cut anywhere, gives the basic answer
/// probe its success, as it does when it comes in one piece: the cut brings
/// no failure.
pub proof fn lemma_split_reply_succeeds(id: u16, payload: Seq<u8>, cut: int, reply: InboundMessage)
    requires
        payload.len() <= MAX_MESSAGE_LEN,
        0 <= cut <= framed(payload).len(),
        addressed(id, payload),
        reply_in(payload) == Some(reply),
        reply.id == id,
        reply.answer_count > 0,
    ensures
        ({
            let stream = framed(payload);
            let first = stream.subrange(0, cut);
            let second = stream.subrange(cut, stream.len() as int);
            &&& scanned(id, first + second).0 == Some(Exchange::Reply(reply))
            &&& scanned(id, stream).0 == Some(Exchange::Reply(reply))
            &&& verdict_of(ProbeKind::BasicAnswer, Exchange::Reply(reply)) == VerdictView::Success
        }),
{
    lemma_split_reply_is_found(id, payload, cut);
    lemma_split_reply_is_found(id, payload, 0);
    let stream = framed(payload);
    assert(stream.subrange(0, 0) + stream.subrange(0, stream.len() as int) =~= stream);
}

/// A message for another query never ends the exchange, whatever it holds:
/// the session goes on waiting, and runs into its timeout if nothing else
/// comes.
pub proof fn lemma_stray_message_is_dropped(
    peer: Endpoint,
    id: u16,
    source: Endpoint,
    message: Seq<u8>,
)
    requires
        source != peer || !addressed(id, message),
    ensures
        correlated(peer, id, source, message).is_none(),
        !addressed(id, message) ==> matched(id, message).is_none(),
{
}

/// A framed reply that reaches a TCP session cut anywhere into two reads is
/// found as if it had come in one piece, with nothing left in the stream;
/// and after the first read alone nothing is found and every byte is kept.
pub proof fn lemma_split_reply_is_found(id: u16, payload: Seq<u8>, cut: int)
    requires
        payload.len() <= MAX_MESSAGE_LEN,
        0 <= cut <= framed(payload).len(),
    ensures
        ({
            let stream = framed(payload);
            let first = stream.subrange(0, cut);
            let second = stream.subrange(cut, stream.len() as int);
            &&& scanned(id, first + second).0 == matched(id, payload)
            &&& scanned(id, first + second).1 == Seq::<u8>::empty()
            &&& cut < stream.len() ==> scanned(id, first) == (None::<Exchange>, first)
        }),
{
    let stream = framed(payload);
    let first = stream.subrange(0, cut);
    let second = stream.subrange(cut, stream.len() as int);
    lemma_split_delivery(payload, cut);
    let whole = first + second;
    assert(has_message(whole));
    assert(first_message(whole) == payload);
    assert(after_first_message(whole) == Seq::<u8>::empty());
    assert(!has_message(Seq::<u8>::empty()));
    assert(scanned(id, Seq::<u8>::empty()) == (None::<Exchange>, Seq::<u8>::empty()));
    if matched(id, payload) is None {
        assert(scanned(id, whole) == scanned(id, after_first_message(whole)));
    }
}

/// A finished execution stays as it is, whatever happens afterwards.
pub proof fn lemma_terminal_is_final(exchange: Exchange, event: ProbeEvent)
    ensures
        next_state(ProbeState::Terminal(exchange), event) == ProbeState::Terminal(exchange),
{
}

/// An undisturbed execution that receives `reply` ends with that reply, and
/// so with the verdict that the probe gives it.
pub proof fn lemma_undisturbed_run(reply: InboundMessage)
    ensures
        next_state(
            next_state(
                next_state(next_state(ProbeState::Idle, ProbeEvent::Started), ProbeEvent::Sent),
                ProbeEvent::Received(reply),
            ),
            ProbeEvent::Classified,
        ) == ProbeState::Terminal(Exchange::Reply(reply)),
{
}

} // verus!
