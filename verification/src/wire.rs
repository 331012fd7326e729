use vstd::prelude::*;
use std::str::FromStr;
use crate::message::{
    domain_parses, ConfigurationError, EdnsOptions, InboundMessage, OutboundMessage,
};
use crate::exchange::TransportError;
use crate::layout::{find_unreadable_record, holds_unreadable_record};
use trust_dns::op::{Edns, Message, Query};
use trust_dns::rr::rdata::opt::{EdnsCode, EdnsOption};
use trust_dns::rr::{Name, RecordType};

verus! {

/// The bytes that `trust_dns::op::Message::to_vec` gives for the message with
/// the given transaction identifier and recursion flag, one question of class
/// IN for the name and the record type's number, and the OPT pseudo-record if
/// there is one, its options written in the order given; `None` where the
/// name or the message is refused.
pub uninterp spec fn wire_form(
    id: u16,
    recursion_desired: bool,
    name: Seq<char>,
    type_code: u16,
    edns: Option<(u8, Seq<(u16, Seq<u8>)>)>,
) -> Option<Seq<u8>>;

/// What `trust_dns::op::Message::from_vec` reads from the bytes: the
/// identifier, the number of answer records and the version of the OPT
/// pseudo-record; `None` where it refuses them.
pub uninterp spec fn parsed_reply(bytes: Seq<u8>) -> Option<InboundMessage>;

/// Whether no two of the options have the same code.
pub open spec fn codes_differ(options: Seq<(u16, Seq<u8>)>) -> bool {
    forall|i: int, j: int| 0 <= i < j < options.len() ==> options[i].0 != options[j].0
}

/// Whether the bytes are the wire form of the message with its options in
/// some order.
pub open spec fn wire_form_in_some_order(
    bytes: Option<Seq<u8>>,
    id: u16,
    recursion_desired: bool,
    name: Seq<char>,
    type_code: u16,
    version: u8,
    options: Seq<(u16, Seq<u8>)>,
) -> bool {
    exists|order: Seq<(u16, Seq<u8>)>|
        order.to_multiset() == options.to_multiset() && bytes == #[trigger] wire_form(
            id,
            recursion_desired,
            name,
            type_code,
            Some((version, order)),
        )
}

/// The view of an optional byte vector.
pub open spec fn bytes_view(bytes: Option<Vec<u8>>) -> Option<Seq<u8>> {
    match bytes {
        Some(v) => Some(v@),
        None => None,
    }
}

/// The view of an optional OPT pseudo-record.
pub open spec fn edns_view(edns: Option<EdnsOptions>) -> Option<(u8, Seq<(u16, Seq<u8>)>)> {
    match edns {
        Some(e) => Some(e@),
        None => None,
    }
}

/// Assembles a `trust_dns::op::Message` with `Message::new`, `set_id`,
/// `set_recursion_desired`, `add_query` and `set_edns`, and serialises it with
/// `Message::to_vec`. A name that `Name::from_str` refuses gives nothing.
/// Whether the serialiser accepts the message depends on the arguments alone;
/// so do the bytes with at most one option, and the contract gives them their
/// name, `wire_form`. With more options the crate keeps them in a hash map,
/// one for each code, and writes them in the order in which it walks that
/// map: where no two options share a code the bytes are the wire form under
/// some order of the options, and which order is left open.
#[verifier::external_body]
pub(crate) fn serialize(
    id: u16,
    recursion_desired: bool,
    name: &str,
    type_code: u16,
    edns: &Option<EdnsOptions>,
) -> (out: Option<Vec<u8>>)
    ensures
        !domain_parses(name@) ==> out.is_none(),
        out.is_some() == wire_form(
            id,
            recursion_desired,
            name@,
            type_code,
            edns_view(*edns),
        ).is_some(),
        edns_view(*edns) matches Some(e) && e.1.len() > 1 || bytes_view(out) == wire_form(
            id,
            recursion_desired,
            name@,
            type_code,
            edns_view(*edns),
        ),
        match edns_view(*edns) {
            Some(e) => codes_differ(e.1) ==> wire_form_in_some_order(
                bytes_view(out),
                id,
                recursion_desired,
                name@,
                type_code,
                e.0,
                e.1,
            ),
            None => true,
        },
{
    let mut msg = Message::new();
    msg.set_id(id).set_recursion_desired(recursion_desired);
    msg.add_query(Query::query(Name::from_str(name).ok()?, RecordType::from(type_code)));
    if let Some(e) = edns {
        let mut opt = Edns::new();
        opt.set_version(e.version);
        for o in e.options.iter() {
            opt.set_option(EdnsOption::from((EdnsCode::from(o.code), &o.data[..])));
        }
        msg.set_edns(opt);
    }
    msg.to_vec().ok()
}

/// What a reply's bytes are read as: nothing where they hold a record that
/// cannot be read, else what the parser finds in them.
pub open spec fn reply_in(bytes: Seq<u8>) -> Option<InboundMessage> {
    if holds_unreadable_record(bytes) {
        None
    } else {
        parsed_reply(bytes)
    }
}

/// Reads a reply with `trust_dns::op::Message::from_vec` and copies out its
/// identifier, the length of its answer section and the version of its OPT
/// pseudo-record. The contract gives the outcome its name, `parsed_reply`.
/// The crate reads the data of some record types by its parts and takes
/// what is left of the announced length as the last part, without looking
/// whether anything is left, and it decodes type bitmaps without looking at
/// their lengths; a message with such a record is kept from this call.
#[verifier::external_body]
fn parse(bytes: &[u8]) -> (out: Option<InboundMessage>)
    requires
        !holds_unreadable_record(bytes@),
    ensures
        out == parsed_reply(bytes@),
{
    match Message::from_vec(bytes) {
        Ok(m) => Some(
            InboundMessage {
                id: m.id(),
                answer_count: m.answers().len(),
                edns_version: m.edns().map(|e| e.version()),
            },
        ),
        Err(_) => None,
    }
}

/// The result of encoding, given what the serialiser handed back.
pub fn encoded_from(raw: Option<Vec<u8>>) -> (out: Result<Vec<u8>, ConfigurationError>)
    ensures
        match raw {
            Some(bytes) => out == Ok::<Vec<u8>, ConfigurationError>(bytes),
            None => out == Err::<Vec<u8>, ConfigurationError>(ConfigurationError::Unencodable),
        },
{
    match raw {
        Some(bytes) => Ok(bytes),
        None => Err(ConfigurationError::Unencodable),
    }
}

/// Puts a message on the wire under the transaction identifier `id`. It
/// succeeds exactly when the message has a wire form, whatever its options;
/// with at most one option the bytes are that form, and with several, of
/// which no two share a code, they are that form under some order of the
/// options.
pub fn encode(message: &OutboundMessage, id: u16) -> (out: Result<Vec<u8>, ConfigurationError>)
    ensures
        out matches Err(e) ==> e == ConfigurationError::Unencodable,
        out.is_ok() ==> domain_parses(message@.query.name),
        out.is_ok() == wire_form(
            id,
            message@.recursion_desired,
            message@.query.name,
            message@.query.record_type.spec_code(),
            message@.edns,
        ).is_some(),
        !(message@.edns matches Some(e) && e.1.len() > 1) && out.is_ok() ==> Some(out.unwrap()@)
            == wire_form(
            id,
            message@.recursion_desired,
            message@.query.name,
            message@.query.record_type.spec_code(),
            message@.edns,
        ),
        match message@.edns {
            Some(e) => codes_differ(e.1) && out.is_ok() ==> wire_form_in_some_order(
                Some(out.unwrap()@),
                id,
                message@.recursion_desired,
                message@.query.name,
                message@.query.record_type.spec_code(),
                e.0,
                e.1,
            ),
            None => true,
        },
{
    let raw = serialize(
        id,
        message.recursion_desired,
        message.query.name(),
        message.query.record_type().code(),
        &message.edns,
    );
    encoded_from(raw)
}

/// The result of decoding, given what the parser found.
pub fn decoded_from(parsed: Option<InboundMessage>) -> (out: Result<InboundMessage, TransportError>)
    ensures
        match parsed {
            Some(reply) => out == Ok::<InboundMessage, TransportError>(reply),
            None => out == Err::<InboundMessage, TransportError>(
                TransportError::MalformedResponse,
            ),
        },
{
    match parsed {
        Some(reply) => Ok(reply),
        None => Err(TransportError::MalformedResponse),
    }
}

/// Reads a reply off the wire: what the bytes are read as, or a malformed
/// response exactly where they are read as nothing.
pub fn decode(bytes: &[u8]) -> (out: Result<InboundMessage, TransportError>)
    ensures
        match reply_in(bytes@) {
            Some(reply) => out == Ok::<InboundMessage, TransportError>(reply),
            None => out == Err::<InboundMessage, TransportError>(
                TransportError::MalformedResponse,
            ),
        },
{
    if find_unreadable_record(bytes) {
        return Err(TransportError::MalformedResponse);
    }
    let parsed = parse(bytes);
    decoded_from(parsed)
}

} // verus!
