//! STUN messages as plain values: a header and an ordered list of attributes.

use vstd::prelude::*;
use crate::address::Address;
use crate::codec::fresh_transaction_id;

verus! {

/// The class of a message.
#[derive(Clone, Copy, Debug, PartialEq, Eq, Structural)]
pub enum MessageClass {
    Request,
    Indication,
    SuccessResponse,
    ErrorResponse,
}

/// The method of a message. Binding is the only one.
#[derive(Clone, Copy, Debug, PartialEq, Eq, Structural)]
pub enum MessageMethod {
    Binding,
}

/// Correlates a request with its response.
pub type TransactionId = [u8; 12];

/// What every message starts with.
#[derive(Clone, Copy, Debug, PartialEq, Eq)]
pub struct Header {
    pub method: MessageMethod,
    pub class: MessageClass,
    pub transaction_id: TransactionId,
}

/// One attribute of a message.
#[derive(Clone, Debug, PartialEq, Eq)]
pub enum Attribute {
    /// A description of the software that sent the message.
    Software { description: String },
    /// The address from which the server saw the request come.
    XorMappedAddress { address: Address },
    /// Why a request was refused: the hundreds digit of the code, the rest
    /// of the code, and a phrase for a human reader.
    ErrorCode { class: u8, number: u8, reason: String },
    /// An attribute of a kind that this library does not read.
    Other,
}

/// An attribute with its text as a sequence of characters.
pub enum AttributeView {
    Software { description: Seq<char> },
    XorMappedAddress { address: Address },
    ErrorCode { class: u8, number: u8, reason: Seq<char> },
    Other,
}

impl View for Attribute {
    type V = AttributeView;

    open spec fn view(&self) -> AttributeView {
        match *self {
            Attribute::Software { description } => AttributeView::Software {
                description: description@,
            },
            Attribute::XorMappedAddress { address } => AttributeView::XorMappedAddress { address },
            Attribute::ErrorCode { class, number, reason } => AttributeView::ErrorCode {
                class,
                number,
                reason: reason@,
            },
            Attribute::Other => AttributeView::Other,
        }
    }
}

/// A message: its header and its attributes in order.
#[derive(Clone, Debug, PartialEq, Eq)]
pub struct Message {
    pub header: Header,
    pub attributes: Vec<Attribute>,
}

/// A message with its attributes as a sequence of attribute views.
pub struct MessageView {
    pub header: Header,
    pub attributes: Seq<AttributeView>,
}

impl View for Message {
    type V = MessageView;

    open spec fn view(&self) -> MessageView {
        MessageView {
            header: self.header,
            attributes: self.attributes@.map_values(|a: Attribute| a@),
        }
    }
}

impl Message {
    /// A message of the given method and class with no attributes and a
    /// transaction identifier drawn at random.
    pub fn new(method: MessageMethod, class: MessageClass) -> (message: Message)
        ensures
            message@.header.method == method,
            message@.header.class == class,
            message@.attributes == Seq::<AttributeView>::empty(),
    {
        let transaction_id = fresh_transaction_id();
        Message { header: Header { method, class, transaction_id }, attributes: Vec::new() }
    }

    /// A Binding Request with no attributes and a transaction identifier
    /// drawn at random.
    pub fn create_request() -> (message: Message)
        ensures
            message@.header.method == MessageMethod::Binding,
            message@.header.class == MessageClass::Request,
            message@.attributes == Seq::<AttributeView>::empty(),
    {
        Message::new(MessageMethod::Binding, MessageClass::Request)
    }

    /// The same message under another transaction identifier.
    pub fn set_transaction_id(self, transaction_id: TransactionId) -> (message: Message)
        ensures
            message@ == (MessageView {
                header: Header { transaction_id, ..self@.header },
                attributes: self@.attributes,
            }),
    {
        let Message { header, attributes } = self;
        Message {
            header: Header { method: header.method, class: header.class, transaction_id },
            attributes,
        }
    }

    /// The same message with one more attribute at its end.
    pub fn add_attribute(self, attribute: Attribute) -> (message: Message)
        ensures
            message@ == (MessageView {
                header: self@.header,
                attributes: self@.attributes.push(attribute@),
            }),
    {
        let ghost before = self@.attributes;
        let ghost added = attribute@;
        let Message { header, attributes } = self;
        let mut attributes = attributes;
        attributes.push(attribute);
        let message = Message { header, attributes };
        assert(message@.attributes =~= before.push(added));
        message
    }
}

} // verus!
