//! The way into and out of the wire format, which the `stun_coder` crate owns.

use vstd::prelude::*;
use vstd::utf8::encode_utf8;
use crate::address::IpAddress;
use crate::frame::{is_safe_to_decode, safe_to_decode};
use crate::message::{
    Attribute,
    AttributeView,
    Header,
    Message,
    MessageClass,
    MessageMethod,
    MessageView,
    TransactionId,
};
use stun_coder::{StunAttribute, StunMessage, StunMessageClass, StunMessageMethod};

verus! {

/// The most bytes of text that the encoder takes in one attribute.
pub const MAX_TEXT_BYTES: usize = 763;

/// The most attributes that this library encodes in one message. An
/// encoded attribute takes at most 772 bytes, so with the 20 bytes of the
/// header such a message stays under the 65535 bytes that the encoder can
/// count.
pub const MAX_ATTRIBUTES: usize = 84;

/// Whether the encoder takes this text: its UTF-8 form is within
/// `MAX_TEXT_BYTES`.
pub open spec fn text_fits(text: Seq<char>) -> bool {
    encode_utf8(text).len() <= MAX_TEXT_BYTES
}

/// Whether the attribute is of a kind that this library writes.
pub open spec fn supported(attribute: AttributeView) -> bool {
    !(attribute is Other)
}

/// Whether the text that the attribute holds, if any, fits.
pub open spec fn within_text_limit(attribute: AttributeView) -> bool {
    match attribute {
        AttributeView::Software { description } => text_fits(description),
        AttributeView::ErrorCode { reason, .. } => text_fits(reason),
        _ => true,
    }
}

/// Whether a message can be encoded.
pub open spec fn encodable(message: MessageView) -> bool {
    &&& message.attributes.len() <= MAX_ATTRIBUTES
    &&& forall|i: int| 0 <= i < message.attributes.len() ==> supported(#[trigger] message.attributes[i])
    &&& forall|i: int| 0 <= i < message.attributes.len() ==> within_text_limit(#[trigger] message.attributes[i])
}

/// Why a message was not encoded.
#[derive(Clone, Copy, Debug, PartialEq, Eq, Structural)]
pub enum EncodeError {
    /// The message holds more than `MAX_ATTRIBUTES` attributes.
    TooManyAttributes,
    /// The message holds an attribute of a kind that this library does not
    /// write.
    UnsupportedAttribute,
    /// An attribute holds text of more than `MAX_TEXT_BYTES` bytes.
    TextTooLong,
}

/// The error that `encode` reports for a message, if any: the first of the
/// three that applies.
pub open spec fn encode_error(message: MessageView) -> Option<EncodeError> {
    if message.attributes.len() > MAX_ATTRIBUTES {
        Some(EncodeError::TooManyAttributes)
    } else if exists|i: int| 0 <= i < message.attributes.len() && !supported(#[trigger] message.attributes[i]) {
        Some(EncodeError::UnsupportedAttribute)
    } else if exists|i: int| 0 <= i < message.attributes.len() && !within_text_limit(#[trigger] message.attributes[i]) {
        Some(EncodeError::TextTooLong)
    } else {
        None
    }
}

/// The header of the message that the decoder reads from a datagram, or
/// nothing where the decoder reports an error.
pub uninterp spec fn decoded_header(bytes: Seq<u8>) -> Option<Header>;

/// The bytes that the encoder writes for a message that can be encoded.
pub uninterp spec fn encoded(message: MessageView) -> Seq<u8>;

/// Calls `stun_coder::generate_transaction_id`, which draws twelve random
/// bytes. Nothing is claimed of them.
#[verifier::external_body]
pub(crate) fn fresh_transaction_id() -> (id: TransactionId) {
    stun_coder::generate_transaction_id()
}

/// Calls `StunMessage::decode` without an integrity password and hands out
/// the header of what it read. The decoder is a function of the datagram
/// alone. The precondition leaves out the datagrams on which it aborts
/// instead of reporting an error.
#[verifier::external_body]
fn decode_header_unscreened(bytes: &[u8]) -> (header: Option<Header>)
    requires
        safe_to_decode(bytes@),
    ensures
        header == decoded_header(bytes@),
{
    let message = StunMessage::decode(bytes, None).ok()?;
    let header = message.get_header();
    let method = match header.message_method {
        StunMessageMethod::BindingRequest => MessageMethod::Binding,
    };
    let class = match header.message_class {
        StunMessageClass::Request => MessageClass::Request,
        StunMessageClass::Indication => MessageClass::Indication,
        StunMessageClass::SuccessResponse => MessageClass::SuccessResponse,
        StunMessageClass::ErrorResponse => MessageClass::ErrorResponse,
    };
    Some(Header { method, class, transaction_id: header.transaction_id })
}

/// The message type of `stun_coder`. One is built here attribute by
/// attribute and handed to the encoder; nothing inside it is read.
#[verifier::external_type_specification]
#[verifier::external_body]
pub struct ExStunMessage(StunMessage);

/// The header that a `StunMessage` holds.
pub uninterp spec fn held_header(message: StunMessage) -> Header;

/// The attributes that a `StunMessage` holds, in order.
pub uninterp spec fn held_attributes(message: StunMessage) -> Seq<AttributeView>;

/// What a `StunMessage` holds.
pub open spec fn held(message: StunMessage) -> MessageView {
    MessageView { header: held_header(message), attributes: held_attributes(message) }
}

/// Calls `StunMessage::new` and `StunMessage::set_transaction_id`, which
/// give a message with this header and no attributes.
#[verifier::external_body]
fn outside_message(header: Header) -> (message: StunMessage)
    ensures
        held_header(message) == header,
        held_attributes(message) == Seq::<AttributeView>::empty(),
{
    let class = match header.class {
        MessageClass::Request => StunMessageClass::Request,
        MessageClass::Indication => StunMessageClass::Indication,
        MessageClass::SuccessResponse => StunMessageClass::SuccessResponse,
        MessageClass::ErrorResponse => StunMessageClass::ErrorResponse,
    };
    StunMessage::new(StunMessageMethod::BindingRequest, class)
        .set_transaction_id(header.transaction_id)
}

/// Calls `StunMessage::add_attribute`, which puts the attribute after those
/// that the message holds and leaves the header alone. An attribute of a
/// kind that this library does not write has no counterpart to add.
#[verifier::external_body]
fn outside_add(message: StunMessage, attribute: &Attribute) -> (longer: StunMessage)
    requires
        supported(attribute@),
    ensures
        held_header(longer) == held_header(message),
        held_attributes(longer) == held_attributes(message).push(attribute@),
{
    let converted = match attribute.clone() {
        Attribute::Software { description } => StunAttribute::Software { description },
        Attribute::XorMappedAddress { address } => StunAttribute::XorMappedAddress {
            socket_addr: match address.ip {
                IpAddress::V4(octets) => (octets, address.port).into(),
                IpAddress::V6(octets) => (octets, address.port).into(),
            },
        },
        Attribute::ErrorCode { class, number, reason } => StunAttribute::ErrorCode { class, number, reason },
        Attribute::Other => return message,
    };
    message.add_attribute(converted)
}

/// Calls `StunMessage::encode` without an integrity password. The encoder
/// is a function of what the message holds. On a message within the
/// precondition it does not fail: of the attributes that this library
/// writes it refuses only text over the limit, and under the bound on their
/// number it can count the message's length.
#[verifier::external_body]
fn outside_encode(message: &StunMessage) -> (bytes: Option<Vec<u8>>)
    requires
        encodable(held(*message)),
    ensures
        bytes is Some,
        (bytes->0)@ == encoded(held(*message)),
{
    message.encode(None).ok()
}

/// What `decode_header` returns for a datagram: the header that the decoder
/// reads, or nothing where the datagram is unsafe to decode or the decoder
/// reports an error.
pub open spec fn header_of(bytes: Seq<u8>) -> Option<Header> {
    if safe_to_decode(bytes) {
        decoded_header(bytes)
    } else {
        None
    }
}

/// Decodes a datagram as far as its header. The whole datagram is decoded,
/// so a datagram with a sound header and a broken attribute gives nothing.
pub fn decode_header(bytes: &[u8]) -> (header: Option<Header>)
    ensures
        header == header_of(bytes@),
{
    if is_safe_to_decode(bytes) {
        decode_header_unscreened(bytes)
    } else {
        None
    }
}

/// Whether the text of an attribute, if it holds any, is within the limit.
fn attribute_within_text_limit(attribute: &Attribute) -> (fits: bool)
    ensures
        fits == within_text_limit(attribute@),
{
    match attribute {
        Attribute::Software { description } => description.as_str().as_bytes().len() <= MAX_TEXT_BYTES,
        Attribute::ErrorCode { reason, .. } => reason.as_str().as_bytes().len() <= MAX_TEXT_BYTES,
        _ => true,
    }
}

/// Encodes a message, or says why it cannot be encoded.
pub fn encode(message: &Message) -> (result: Result<Vec<u8>, EncodeError>)
    ensures
        match result {
            Ok(bytes) => encode_error(message@) is None && bytes@ == encoded(message@),
            Err(error) => encode_error(message@) == Some(error),
        },
{
    let count: usize = message.attributes.len();
    if count > MAX_ATTRIBUTES {
        return Err(EncodeError::TooManyAttributes);
    }
    let mut unsupported: bool = false;
    let mut too_long: bool = false;
    let mut i: usize = 0;
    while i < count
        invariant
            i <= count,
            count == message.attributes@.len(),
            unsupported == exists|j: int| 0 <= j < i && !supported(#[trigger] message@.attributes[j]),
            too_long == exists|j: int| 0 <= j < i && !within_text_limit(#[trigger] message@.attributes[j]),
        decreases count - i,
    {
        let attribute = &message.attributes[i];
        assert(message@.attributes[i as int] == attribute@);
        if let Attribute::Other = attribute {
            unsupported = true;
        }
        if !attribute_within_text_limit(attribute) {
            too_long = true;
        }
        i = i + 1;
    }
    if unsupported {
        return Err(EncodeError::UnsupportedAttribute);
    }
    if too_long {
        return Err(EncodeError::TextTooLong);
    }
    let mut out = outside_message(message.header);
    let mut i: usize = 0;
    while i < count
        invariant
            i <= count,
            count == message.attributes@.len(),
            encodable(message@),
            held_header(out) == message@.header,
            held_attributes(out) == message@.attributes.take(i as int),
        decreases count - i,
    {
        let attribute = &message.attributes[i];
        assert(message@.attributes[i as int] == attribute@);
        out = outside_add(out, attribute);
        assert(message@.attributes.take(i + 1) =~= message@.attributes.take(i as int).push(attribute@));
        i = i + 1;
    }
    assert(message@.attributes.take(count as int) =~= message@.attributes);
    Ok(outside_encode(&out).unwrap())
}

} // verus!
