use vstd::prelude::*;
use std::str::FromStr;
use crate::wire::{serialize, wire_form};

verus! {

/// Record types a query can ask for.
#[derive(Debug, Clone, Copy, PartialEq, Eq, Structural)]
pub enum RecordType {
    A,
    Ns,
    Cname,
    Mx,
    Txt,
    Aaaa,
}

impl RecordType {
    /// The type's number on the wire.
    pub open spec fn spec_code(self) -> u16 {
        match self {
            RecordType::A => 1,
            RecordType::Ns => 2,
            RecordType::Cname => 5,
            RecordType::Mx => 15,
            RecordType::Txt => 16,
            RecordType::Aaaa => 28,
        }
    }

    #[verifier::when_used_as_spec(spec_code)]
    pub fn code(self) -> (c: u16)
        ensures
            c == self.spec_code(),
    {
        match self {
            RecordType::A => 1,
            RecordType::Ns => 2,
            RecordType::Cname => 5,
            RecordType::Mx => 15,
            RecordType::Txt => 16,
            RecordType::Aaaa => 28,
        }
    }
}

/// Why the harness cannot start: a fault in what it was configured with.
#[derive(Debug, Clone, Copy, PartialEq, Eq, Structural)]
pub enum ConfigurationError {
    /// The test domain is no well-formed domain name.
    MalformedDomain,
    /// The message cannot be put on the wire.
    Unencodable,
}

/// A question for one record type of one domain, in class IN.
#[derive(Debug, Clone, PartialEq, Eq)]
pub struct Query {
    name: String,
    record_type: RecordType,
}

/// Mathematical value of a [`Query`].
pub struct QueryView {
    pub name: Seq<char>,
    pub record_type: RecordType,
}

impl View for Query {
    type V = QueryView;

    closed spec fn view(&self) -> QueryView {
        QueryView { name: self.name@, record_type: self.record_type }
    }
}

impl Query {
    /// The domain asked about.
    pub fn name(&self) -> (s: &str)
        ensures
            s@ == self@.name,
    {
        self.name.as_str()
    }

    /// The record type asked for.
    pub fn record_type(&self) -> (t: RecordType)
        ensures
            t == self@.record_type,
    {
        self.record_type
    }
}

/// One option of an OPT pseudo-record: a code and opaque data.
#[derive(Debug, Clone, PartialEq, Eq)]
pub struct EdnsOption {
    pub code: u16,
    pub data: Vec<u8>,
}

impl View for EdnsOption {
    type V = (u16, Seq<u8>);

    open spec fn view(&self) -> (u16, Seq<u8>) {
        (self.code, self.data@)
    }
}

/// The OPT pseudo-record attached to a query.
#[derive(Debug, Clone, PartialEq, Eq)]
pub struct EdnsOptions {
    pub version: u8,
    pub options: Vec<EdnsOption>,
}

impl View for EdnsOptions {
    type V = (u8, Seq<(u16, Seq<u8>)>);

    open spec fn view(&self) -> (u8, Seq<(u16, Seq<u8>)>) {
        (self.version, Seq::new(self.options@.len(), |i: int| self.options@[i]@))
    }
}

/// A message to send: one query, with or without an OPT pseudo-record.
#[derive(Debug, Clone, PartialEq, Eq)]
pub struct OutboundMessage {
    pub query: Query,
    /// Whether the resolver is asked to resolve the name for the sender.
    pub recursion_desired: bool,
    pub edns: Option<EdnsOptions>,
}

/// Mathematical value of an [`OutboundMessage`].
pub struct OutboundView {
    pub query: QueryView,
    pub recursion_desired: bool,
    pub edns: Option<(u8, Seq<(u16, Seq<u8>)>)>,
}

impl View for OutboundMessage {
    type V = OutboundView;

    open spec fn view(&self) -> OutboundView {
        OutboundView {
            query: self.query@,
            recursion_desired: self.recursion_desired,
            edns: match self.edns {
                Some(e) => Some(e@),
                None => None,
            },
        }
    }
}

/// Whether `trust_dns::rr::Name::from_str` accepts the text as a domain name.
pub uninterp spec fn domain_parses(name: Seq<char>) -> bool;

/// Asks `trust_dns::rr::Name::from_str` whether the text is a well-formed
/// domain name. The contract gives the answer its name, `domain_parses`, and
/// claims nothing else of it.
#[verifier::external_body]
fn name_parses(domain: &str) -> (ok: bool)
    ensures
        ok == domain_parses(domain@),
{
    trust_dns::rr::Name::from_str(domain).is_ok()
}

/// Whether a question about the name can be sent: the name is well formed
/// and a plain A query for it has a wire form, which a name longer than the
/// wire allows has not.
pub open spec fn domain_usable(name: Seq<char>) -> bool {
    domain_parses(name) && wire_form(0, false, name, 1, None).is_some()
}

/// The query for a domain of which it has been decided whether it is well
/// formed and whether it can be put on the wire.
pub fn query_from_checks(
    domain: &str,
    record_type: RecordType,
    parses: bool,
    encodes: bool,
) -> (out: Result<Query, ConfigurationError>)
    ensures
        parses && encodes ==> out.is_ok() && out.unwrap()@ == (QueryView {
            name: domain@,
            record_type,
        }),
        !(parses && encodes) ==> out == Err::<Query, ConfigurationError>(
            ConfigurationError::MalformedDomain,
        ),
{
    if parses && encodes {
        Ok(Query { name: domain.to_owned(), record_type })
    } else {
        Err(ConfigurationError::MalformedDomain)
    }
}

/// Builds the query for `record_type` records of `domain`. Fails exactly
/// when the domain is malformed: a label or the whole name is refused.
pub fn build_query(domain: &str, record_type: RecordType) -> (out: Result<Query, ConfigurationError>)
    ensures
        domain_usable(domain@) ==> out.is_ok() && out.unwrap()@ == (QueryView {
            name: domain@,
            record_type,
        }),
        !domain_usable(domain@) ==> out == Err::<Query, ConfigurationError>(
            ConfigurationError::MalformedDomain,
        ),
{
    let parses = name_parses(domain);
    let encodes = serialize(0, false, domain, 1, &None).is_some();
    query_from_checks(domain, record_type, parses, encodes)
}

/// The domain that every probe asks about: a well-formed domain name, checked
/// once when it is made and read-only afterwards.
#[derive(Debug, PartialEq, Eq)]
pub struct TestDomain {
    name: String,
}

impl View for TestDomain {
    type V = Seq<char>;

    closed spec fn view(&self) -> Seq<char> {
        self.name@
    }
}

impl TestDomain {
    #[verifier::type_invariant]
    spec fn well_formed(&self) -> bool {
        domain_usable(self.name@)
    }

    /// Checks the name and keeps it. Fails exactly when the name is
    /// malformed: a label or the whole name is refused.
    pub fn new(name: &str) -> (out: Result<TestDomain, ConfigurationError>)
        ensures
            domain_usable(name@) ==> out.is_ok() && out.unwrap()@ == name@,
            !domain_usable(name@) ==> out == Err::<TestDomain, ConfigurationError>(
                ConfigurationError::MalformedDomain,
            ),
    {
        if name_parses(name) && serialize(0, false, name, 1, &None).is_some() {
            Ok(TestDomain { name: name.to_owned() })
        } else {
            Err(ConfigurationError::MalformedDomain)
        }
    }

    /// The name as text; a question about it can be sent.
    pub fn as_str(&self) -> (s: &str)
        ensures
            s@ == self@,
            domain_usable(self@),
    {
        proof {
            use_type_invariant(self);
        }
        self.name.as_str()
    }

    /// The query for `record_type` records of this domain.
    pub fn query(&self, record_type: RecordType) -> (q: Query)
        ensures
            q@ == (QueryView { name: self@, record_type }),
    {
        Query { name: self.name.clone(), record_type }
    }
}

/// The message that carries the query alone, with the recursion flag as
/// given.
pub fn plain_message(query: Query, recursion_desired: bool) -> (m: OutboundMessage)
    ensures
        m@ == (OutboundView { query: query@, recursion_desired, edns: None }),
{
    OutboundMessage { query, recursion_desired, edns: None }
}

/// The message with an OPT pseudo-record of the given version and options
/// in place of any it had; the query and the recursion flag stay.
pub fn attach_edns(message: OutboundMessage, version: u8, options: Vec<EdnsOption>) -> (m:
    OutboundMessage)
    ensures
        m@ == (OutboundView {
            query: message@.query,
            recursion_desired: message@.recursion_desired,
            edns: Some((version, Seq::new(options@.len(), |i: int| options@[i]@))),
        }),
{
    OutboundMessage {
        query: message.query,
        recursion_desired: message.recursion_desired,
        edns: Some(EdnsOptions { version, options }),
    }
}

/// What a probe reads of a resolver's reply.
#[derive(Debug, Clone, Copy, PartialEq, Eq)]
pub struct InboundMessage {
    /// Transaction identifier of the reply.
    pub id: u16,
    /// Number of records in the answer section.
    pub answer_count: usize,
    /// Version of the echoed OPT pseudo-record, if the reply carries one.
    pub edns_version: Option<u8>,
}

} // verus!
