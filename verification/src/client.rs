//! The Binding client: the request it sends and what it makes of the reply.

use vstd::prelude::*;
use vstd::utf8::{is_ascii_chars, is_ascii_chars_encode_utf8};
use crate::address::Address;
use crate::codec::{encodable, encode, encoded, text_fits};
use crate::server::{rejection_view, success_view};
use crate::message::{
    Attribute,
    AttributeView,
    Header,
    Message,
    MessageClass,
    MessageMethod,
    MessageView,
    TransactionId,
};

verus! {

/// The size of the buffer into which a reply is received: no message over
/// UDP should be larger.
pub const MAX_STUN_MSG_SIZE: usize = 1280;

/// How the client describes itself to the server.
pub open spec fn software() -> Seq<char> {
    "stunner"@
}

/// The client's request under a given transaction identifier: a Binding
/// Request whose one attribute describes the client.
pub open spec fn request_view(transaction_id: TransactionId) -> MessageView {
    MessageView {
        header: Header {
            method: MessageMethod::Binding,
            class: MessageClass::Request,
            transaction_id,
        },
        attributes: seq![AttributeView::Software { description: software() }],
    }
}

/// Whether a message is the client's request, under whatever transaction
/// identifier.
pub open spec fn is_request(message: MessageView) -> bool {
    message == request_view(message.header.transaction_id)
}

/// Whether the attribute at `index` is the first that holds a mapped
/// address.
pub open spec fn is_first_mapped_address(attributes: Seq<AttributeView>, index: int) -> bool {
    &&& 0 <= index < attributes.len()
    &&& attributes[index] is XorMappedAddress
    &&& forall|j: int| 0 <= j < index ==> !(#[trigger] attributes[j] is XorMappedAddress)
}

/// Whether `address` is what the client reads from these attributes: the
/// address in the first attribute that holds a mapped address, or nothing
/// where no attribute holds one.
pub open spec fn is_mapped_address(attributes: Seq<AttributeView>, address: Option<Address>) -> bool {
    match address {
        Some(address) => exists|i: int|
            is_first_mapped_address(attributes, i) && #[trigger] attributes[i]
                == (AttributeView::XorMappedAddress { address }),
        None => forall|i: int|
            0 <= i < attributes.len() ==> !(#[trigger] attributes[i] is XorMappedAddress),
    }
}

/// Why the client has no address to report.
#[derive(Clone, Copy, Debug, PartialEq, Eq, Structural)]
pub enum ClientError {
    /// The reply did not decode.
    Decode,
    /// The reply decoded and holds no mapped address.
    NoMappedAddress,
}

impl ClientError {
    /// The error in words.
    pub fn describe(&self) -> (text: String)
        ensures
            text@ == match *self {
                ClientError::Decode => "could not decode STUN response"@,
                ClientError::NoMappedAddress => "No XorMappedAddress has been set in response."@,
            },
    {
        match self {
            ClientError::Decode => "could not decode STUN response".to_owned(),
            ClientError::NoMappedAddress => "No XorMappedAddress has been set in response.".to_owned(),
        }
    }
}

/// Builds the client's request, under a transaction identifier drawn at
/// random.
pub fn binding_request() -> (message: Message)
    ensures
        is_request(message@),
{
    let description = "stunner".to_owned();
    let message = Message::create_request().add_attribute(Attribute::Software { description });
    assert(message@.attributes =~= request_view(message@.header.transaction_id).attributes);
    message
}

/// The client's description of itself is within the encoder's limit on
/// text.
pub proof fn lemma_software_fits()
    ensures
        text_fits(software()),
{
    reveal_strlit("stunner");
    assert(is_ascii_chars(software()));
    is_ascii_chars_encode_utf8(software());
}

/// Builds the client's request and encodes it: the datagram to send to the
/// server.
pub fn request_datagram() -> (datagram: Vec<u8>)
    ensures
        exists|transaction_id: TransactionId| datagram@ == #[trigger] encoded(request_view(transaction_id)),
{
    let message = binding_request();
    proof {
        lemma_software_fits();
        assert(encodable(message@));
    }
    encode(&message).unwrap()
}

/// Finds the address under which the server saw the client: the one in the
/// first attribute of the reply that holds a mapped address.
pub fn mapped_address(reply: &Message) -> (address: Option<Address>)
    ensures
        is_mapped_address(reply@.attributes, address),
{
    let count: usize = reply.attributes.len();
    let mut i: usize = 0;
    while i < count
        invariant
            i <= count,
            count == reply.attributes@.len(),
            forall|j: int| 0 <= j < i ==> !(#[trigger] reply@.attributes[j] is XorMappedAddress),
        decreases count - i,
    {
        assert(reply@.attributes[i as int] == reply.attributes@[i as int]@);
        if let Attribute::XorMappedAddress { address } = &reply.attributes[i] {
            assert(is_first_mapped_address(reply@.attributes, i as int));
            return Some(*address);
        }
        i = i + 1;
    }
    None
}

/// What the client reads from the server's answer to a request is the
/// address from which the server saw the request come.
pub proof fn lemma_answer_gives_source(
    transaction_id: TransactionId,
    src_addr: Address,
    address: Option<Address>,
)
    requires
        is_mapped_address(success_view(transaction_id, src_addr).attributes, address),
    ensures
        address == Some(src_addr),
{
    let attributes = success_view(transaction_id, src_addr).attributes;
    assert(attributes[0] is XorMappedAddress);
}

/// The client reads no address from a refusal.
pub proof fn lemma_refusal_gives_nothing(transaction_id: TransactionId, address: Option<Address>)
    requires
        is_mapped_address(rejection_view(transaction_id).attributes, address),
    ensures
        address is None,
{
}

/// What the client reports for a reply.
pub open spec fn reading_of(reply: Option<MessageView>, result: Result<Address, ClientError>) -> bool {
    match reply {
        None => result == Err::<Address, ClientError>(ClientError::Decode),
        Some(message) => match result {
            Ok(address) => is_mapped_address(message.attributes, Some(address)),
            Err(error) => error == ClientError::NoMappedAddress && is_mapped_address(
                message.attributes,
                None,
            ),
        },
    }
}

/// Reads the client's address from the decoded reply, or says why there is
/// none: the reply did not decode (`None`), or it holds no mapped address.
pub fn read_reply(reply: Option<&Message>) -> (result: Result<Address, ClientError>)
    ensures
        reading_of(
            match reply {
                Some(message) => Some(message@),
                None => None,
            },
            result,
        ),
{
    match reply {
        None => Err(ClientError::Decode),
        Some(message) => match mapped_address(message) {
            Some(address) => Ok(address),
            None => Err(ClientError::NoMappedAddress),
        },
    }
}

} // verus!
