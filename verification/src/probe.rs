use vstd::prelude::*;
use crate::exchange::{Exchange, TransportError};
use crate::message::{
    attach_edns, plain_message, EdnsOption, OutboundMessage, OutboundView, QueryView, RecordType,
    TestDomain,
};
use crate::verdict::{Verdict, VerdictView};

verus! {

/// The conformance probes.
#[derive(Debug, Clone, Copy, PartialEq, Eq, Structural)]
pub enum ProbeKind {
    /// A plain A query must be answered with at least one record.
    BasicAnswer,
    /// A query carrying an OPT pseudo-record must be answered with one of version 0.
    Edns0,
}

/// Reason reported by the basic answer probe for a transport failure:
/// the words "transport error: " followed by the failure's detail.
pub open spec fn transport_reason(err: TransportError) -> Seq<char> {
    "transport error: "@ + err.spec_detail()
}

/// The verdict of probe `kind` for an exchange that ended as `exchange`.
pub open spec fn verdict_of(kind: ProbeKind, exchange: Exchange) -> VerdictView {
    match exchange {
        Exchange::Cancelled => VerdictView::Fail("cancelled"@),
        Exchange::Failed(err) => match kind {
            ProbeKind::BasicAnswer => VerdictView::Fail(transport_reason(err)),
            ProbeKind::Edns0 => VerdictView::Fail("error in reactor"@),
        },
        Exchange::Reply(reply) => match kind {
            ProbeKind::BasicAnswer => if reply.answer_count > 0 {
                VerdictView::Success
            } else {
                VerdictView::Fail("no answer"@)
            },
            ProbeKind::Edns0 => match reply.edns_version {
                Some(version) => if version == 0 {
                    VerdictView::Success
                } else {
                    VerdictView::Fail("Wrong EDNS option"@)
                },
                None => VerdictView::Fail("No EDNS option"@),
            },
        },
    }
}

/// The message that probe `kind` sends about `domain`: an A query. The
/// basic answer probe sends it alone and asks for recursion; the EDNS0 probe
/// sends it without that flag and with an OPT pseudo-record of version 0
/// that holds one option, of code zero and without data.
pub open spec fn probe_message(kind: ProbeKind, domain: Seq<char>) -> OutboundView {
    OutboundView {
        query: QueryView { name: domain, record_type: RecordType::A },
        recursion_desired: kind == ProbeKind::BasicAnswer,
        edns: match kind {
            ProbeKind::BasicAnswer => None,
            ProbeKind::Edns0 => Some((0u8, seq![(0u16, Seq::<u8>::empty())])),
        },
    }
}

/// The basic answer probe's verdict for a transport failure.
fn transport_verdict(err: TransportError) -> (v: Verdict)
    ensures
        v@ == VerdictView::Fail(transport_reason(err)),
{
    proof {
        reveal_strlit("transport error: ");
        reveal_strlit("connect failed");
        reveal_strlit("timeout");
        reveal_strlit("connection reset");
        reveal_strlit("malformed response");
        reveal_strlit("transport error: connect failed");
        reveal_strlit("transport error: timeout");
        reveal_strlit("transport error: connection reset");
        reveal_strlit("transport error: malformed response");
    }
    let v = match err {
        TransportError::Connect => Verdict::fail("transport error: connect failed"),
        TransportError::Timeout => Verdict::fail("transport error: timeout"),
        TransportError::ConnectionReset => Verdict::fail("transport error: connection reset"),
        TransportError::MalformedResponse => Verdict::fail("transport error: malformed response"),
    };
    assert(v@->Fail_0 =~= transport_reason(err));
    v
}

impl ProbeKind {
    /// The name under which the probe is reported.
    pub open spec fn spec_name(self) -> Seq<char> {
        match self {
            ProbeKind::BasicAnswer => "Basic Answer Probe"@,
            ProbeKind::Edns0 => "EDNS0 Probe"@,
        }
    }

    pub fn name(self) -> (s: String)
        ensures
            s@ == self.spec_name(),
    {
        match self {
            ProbeKind::BasicAnswer => "Basic Answer Probe".to_owned(),
            ProbeKind::Edns0 => "EDNS0 Probe".to_owned(),
        }
    }

    /// Builds the message that this probe sends about `domain`.
    pub fn message(self, domain: &TestDomain) -> (m: OutboundMessage)
        ensures
            m@ == probe_message(self, domain@),
    {
        let query = domain.query(RecordType::A);
        match self {
            ProbeKind::BasicAnswer => plain_message(query, true),
            ProbeKind::Edns0 => {
                let mut options: Vec<EdnsOption> = Vec::new();
                options.push(EdnsOption { code: 0, data: Vec::new() });
                let m = attach_edns(plain_message(query, false), 0, options);
                assert(m@.edns->Some_0.1 =~= seq![(0u16, Seq::<u8>::empty())]);
                m
            },
        }
    }

    /// Reduces the end of an exchange to this probe's verdict.
    pub fn classify(self, exchange: &Exchange) -> (v: Verdict)
        ensures
            v@ == verdict_of(self, *exchange),
    {
        match exchange {
            Exchange::Cancelled => Verdict::fail("cancelled"),
            Exchange::Failed(err) => match self {
                ProbeKind::BasicAnswer => transport_verdict(*err),
                ProbeKind::Edns0 => Verdict::fail("error in reactor"),
            },
            Exchange::Reply(reply) => match self {
                ProbeKind::BasicAnswer => if reply.answer_count > 0 {
                    Verdict::Success
                } else {
                    Verdict::fail("no answer")
                },
                ProbeKind::Edns0 => match reply.edns_version {
                    Some(version) => if version == 0 {
                        Verdict::Success
                    } else {
                        Verdict::fail("Wrong EDNS option")
                    },
                    None => Verdict::fail("No EDNS option"),
                },
            },
        }
    }
}

/// Every probe answers a transport failure, whichever it is, and a cancelled
/// exchange with a failing verdict whose reason is not empty.
pub proof fn lemma_failed_exchange_fails(kind: ProbeKind, exchange: Exchange)
    requires
        !(exchange is Reply),
    ensures
        verdict_of(kind, exchange) is Fail,
        verdict_of(kind, exchange)->Fail_0.len() > 0,
{
    reveal_strlit("transport error: ");
    reveal_strlit("error in reactor");
    reveal_strlit("cancelled");
}

/// The verdict depends on the probe and the end of the exchange alone:
/// the same probe on equal exchanges gives equal verdicts.
pub proof fn lemma_verdict_repeatable(kind: ProbeKind, first: Exchange, second: Exchange)
    requires
        first == second,
    ensures
        verdict_of(kind, first) == verdict_of(kind, second),
{
}

/// No probe ever reports a failure without a reason.
pub proof fn lemma_reason_never_empty(kind: ProbeKind, exchange: Exchange)
    ensures
        verdict_of(kind, exchange) matches VerdictView::Fail(reason) ==> reason.len() > 0,
{
    reveal_strlit("transport error: ");
    reveal_strlit("error in reactor");
    reveal_strlit("cancelled");
    reveal_strlit("no answer");
    reveal_strlit("Wrong EDNS option");
    reveal_strlit("No EDNS option");
}

} // verus!
