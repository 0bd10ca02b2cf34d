//! The Binding server: what to send back for one inbound datagram.
//!
//! The server keeps nothing between datagrams. A Binding Request is answered
//! with the address it came from, an indication is not answered, and a
//! response that arrives here is refused with an error.

use vstd::prelude::*;
use vstd::utf8::{is_ascii_chars, is_ascii_chars_encode_utf8};
use crate::address::Address;
use crate::codec::{decode_header, encodable, encode, encoded, header_of, text_fits};
use crate::message::{
    Attribute,
    AttributeView,
    Header,
    Message,
    MessageClass,
    MessageMethod,
    MessageView,
    TransactionId,
};

verus! {

/// The hundreds digit of the error code with which a misdirected response
/// is refused.
pub const REJECT_CLASS: u8 = 4;

/// The rest of that error code.
pub const REJECT_NUMBER: u8 = 0;

/// The phrase that goes with that error code.
pub open spec fn reject_reason() -> Seq<char> {
    "Invalid binding request class"@
}

/// The answer to a Binding Request: a success response under the request's
/// transaction identifier, whose one attribute is the address that the
/// request came from.
pub open spec fn success_view(transaction_id: TransactionId, src_addr: Address) -> MessageView {
    MessageView {
        header: Header {
            method: MessageMethod::Binding,
            class: MessageClass::SuccessResponse,
            transaction_id,
        },
        attributes: seq![AttributeView::XorMappedAddress { address: src_addr }],
    }
}

/// The refusal of a misdirected response: an error response whose one
/// attribute is the error code. It does not take up the transaction
/// identifier of what it refuses.
pub open spec fn rejection_view(transaction_id: TransactionId) -> MessageView {
    MessageView {
        header: Header {
            method: MessageMethod::Binding,
            class: MessageClass::ErrorResponse,
            transaction_id,
        },
        attributes: seq![
            AttributeView::ErrorCode {
                class: REJECT_CLASS,
                number: REJECT_NUMBER,
                reason: reject_reason(),
            },
        ],
    }
}

/// Whether a message is a refusal, under whatever transaction identifier.
pub open spec fn is_rejection(message: MessageView) -> bool {
    message == rejection_view(message.header.transaction_id)
}

/// What the server does with a datagram.
pub enum Action {
    /// Answer with the sender's address.
    Answer,
    /// Send nothing.
    Ignore,
    /// Refuse with an error.
    Reject,
}

/// What the server does with a datagram, given the header that was decoded
/// from it, if any.
pub open spec fn action_for(header: Option<Header>) -> Action {
    match header {
        None => Action::Ignore,
        Some(header) => match (header.method, header.class) {
            (MessageMethod::Binding, MessageClass::Request) => Action::Answer,
            (MessageMethod::Binding, MessageClass::Indication) => Action::Ignore,
            (MessageMethod::Binding, MessageClass::SuccessResponse) => Action::Reject,
            (MessageMethod::Binding, MessageClass::ErrorResponse) => Action::Reject,
        },
    }
}

/// Whether `reply` is what the server sends back to `src_addr` for a
/// datagram with this decoded header.
pub open spec fn is_reply(header: Option<Header>, src_addr: Address, reply: Option<MessageView>) -> bool {
    match action_for(header) {
        Action::Answer => reply == Some(success_view(header->0.transaction_id, src_addr)),
        Action::Ignore => reply is None,
        Action::Reject => reply is Some && is_rejection(reply->0),
    }
}

/// Whether `datagram` is the encoded form of what the server sends back.
pub open spec fn is_reply_datagram(header: Option<Header>, src_addr: Address, datagram: Option<Seq<u8>>) -> bool {
    match action_for(header) {
        Action::Answer => datagram == Some(encoded(success_view(header->0.transaction_id, src_addr))),
        Action::Ignore => datagram is None,
        Action::Reject => exists|transaction_id: TransactionId| datagram == Some(#[trigger] encoded(rejection_view(transaction_id))),
    }
}

/// The view of a reply that may be absent.
pub open spec fn reply_view(reply: Option<Message>) -> Option<MessageView> {
    match reply {
        Some(message) => Some(message@),
        None => None,
    }
}

/// Builds the answer to a Binding Request.
pub fn success_response(transaction_id: TransactionId, src_addr: Address) -> (message: Message)
    ensures
        message@ == success_view(transaction_id, src_addr),
{
    let message = Message::new(MessageMethod::Binding, MessageClass::SuccessResponse)
        .set_transaction_id(transaction_id)
        .add_attribute(Attribute::XorMappedAddress { address: src_addr });
    assert(message@.attributes =~= success_view(transaction_id, src_addr).attributes);
    message
}

/// Builds the refusal of a misdirected response, under a transaction
/// identifier drawn at random.
pub fn rejection() -> (message: Message)
    ensures
        is_rejection(message@),
{
    let reason = "Invalid binding request class".to_owned();
    let message = Message::new(MessageMethod::Binding, MessageClass::ErrorResponse).add_attribute(
        Attribute::ErrorCode { class: REJECT_CLASS, number: REJECT_NUMBER, reason },
    );
    assert(message@.attributes =~= rejection_view(message@.header.transaction_id).attributes);
    message
}

/// Chooses the reply to a datagram from the header that was decoded from
/// it, if any, and the address it came from.
pub fn respond(header: Option<Header>, src_addr: Address) -> (reply: Option<Message>)
    ensures
        is_reply(header, src_addr, reply_view(reply)),
{
    let header = match header {
        Some(header) => header,
        None => {
            return None;
        },
    };
    match (header.method, header.class) {
        (MessageMethod::Binding, MessageClass::Request) => Some(
            success_response(header.transaction_id, src_addr),
        ),
        (MessageMethod::Binding, MessageClass::Indication) => None,
        (MessageMethod::Binding, MessageClass::ErrorResponse)
        | (MessageMethod::Binding, MessageClass::SuccessResponse) => Some(rejection()),
    }
}

/// Decodes a datagram that came from `src_addr` and chooses the reply to
/// it. A datagram that does not decode gets none.
pub fn parse_message(buf: &[u8], src_addr: Address) -> (reply: Option<Message>)
    ensures
        is_reply(header_of(buf@), src_addr, reply_view(reply)),
{
    respond(decode_header(buf), src_addr)
}

/// A datagram that decodes as a Binding Request is answered with a success
/// response that carries the request's transaction identifier and exactly
/// one attribute: the address that the datagram came from.
pub proof fn lemma_request_is_answered(buf: Seq<u8>, src_addr: Address, reply: Option<MessageView>)
    requires
        is_reply(header_of(buf), src_addr, reply),
        header_of(buf) is Some,
        header_of(buf)->0.class == MessageClass::Request,
    ensures
        reply is Some,
        reply->0.header.method == MessageMethod::Binding,
        reply->0.header.class == MessageClass::SuccessResponse,
        reply->0.header.transaction_id == header_of(buf)->0.transaction_id,
        reply->0.attributes.len() == 1,
        reply->0.attributes[0] == (AttributeView::XorMappedAddress { address: src_addr }),
{
}

/// A datagram that decodes as a Binding Indication is not answered.
pub proof fn lemma_indication_is_ignored(buf: Seq<u8>, src_addr: Address, reply: Option<MessageView>)
    requires
        is_reply(header_of(buf), src_addr, reply),
        header_of(buf) is Some,
        header_of(buf)->0.class == MessageClass::Indication,
    ensures
        reply is None,
{
}

/// A datagram that decodes as a Binding success or error response is
/// refused with an error response whose one attribute is the error code
/// 400 with its phrase.
pub proof fn lemma_response_is_refused(buf: Seq<u8>, src_addr: Address, reply: Option<MessageView>)
    requires
        is_reply(header_of(buf), src_addr, reply),
        header_of(buf) is Some,
        header_of(buf)->0.class == MessageClass::SuccessResponse || header_of(buf)->0.class
            == MessageClass::ErrorResponse,
    ensures
        reply is Some,
        reply->0.header.method == MessageMethod::Binding,
        reply->0.header.class == MessageClass::ErrorResponse,
        reply->0.attributes.len() == 1,
        reply->0.attributes[0] == (AttributeView::ErrorCode {
            class: 4,
            number: 0,
            reason: "Invalid binding request class"@,
        }),
{
}

/// A datagram that does not decode is not answered.
pub proof fn lemma_undecodable_is_ignored(buf: Seq<u8>, src_addr: Address, reply: Option<MessageView>)
    requires
        is_reply(header_of(buf), src_addr, reply),
        header_of(buf) is None,
    ensures
        reply is None,
{
}

/// The phrase of the refusal is within the encoder's limit on text.
pub proof fn lemma_reject_reason_fits()
    ensures
        text_fits(reject_reason()),
{
    reveal_strlit("Invalid binding request class");
    assert(is_ascii_chars(reject_reason()));
    is_ascii_chars_encode_utf8(reject_reason());
}

/// Every reply that the server chooses can be encoded.
pub proof fn lemma_reply_encodable(header: Option<Header>, src_addr: Address, reply: MessageView)
    requires
        is_reply(header, src_addr, Some(reply)),
    ensures
        encodable(reply),
{
    lemma_reject_reason_fits();
}

/// One round of the server: the datagram to send back to `src_addr` for the
/// datagram `buf` that came from there, if any is to be sent.
pub fn serve(buf: &[u8], src_addr: Address) -> (datagram: Option<Vec<u8>>)
    ensures
        is_reply_datagram(
            header_of(buf@),
            src_addr,
            match datagram {
                Some(bytes) => Some(bytes@),
                None => None,
            },
        ),
{
    let reply = parse_message(buf, src_addr);
    match reply {
        None => None,
        Some(message) => {
            proof {
                lemma_reply_encodable(header_of(buf@), src_addr, message@);
            }
            let bytes = encode(&message).unwrap();
            Some(bytes)
        },
    }
}

} // verus!
