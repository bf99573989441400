//! STUN messages as values, read and written through the `stun_codec` crate.
use vstd::prelude::*;

use bytecodec::{DecodeExt, EncodeExt, Error as CodecError};
use stun_codec::net::socket_addr_xor;
use stun_codec::rfc5389::attributes::{
    ErrorCode, ErrorCodeDecoder, ErrorCodeEncoder, Software, SoftwareDecoder, SoftwareEncoder,
    XorMappedAddress, XorMappedAddressDecoder, XorMappedAddressEncoder,
};
use stun_codec::rfc5389::errors::BadRequest;
use stun_codec::rfc5780::attributes::{
    ResponseOrigin, ResponseOriginDecoder, ResponseOriginEncoder,
};
use stun_codec::{AttributeType, MessageDecoder, MessageEncoder, Method, RawAttribute, TransactionId};

use crate::addr::SocketAddr;
use crate::wire::{
    ERROR_CODE, RESPONSE_ORIGIN, SOFTWARE, XOR_MAPPED_ADDRESS,
};

verus! {

/// How the responder describes itself in its answers.
pub const DESCRIPTION: &'static str = "merdia";

/// The error of the `bytecodec` crate, carried through unopened.
#[verifier::external_type_specification]
#[verifier::external_body]
pub struct ExCodecError(CodecError);

/// The class of a message.
#[derive(Clone, Copy, Debug, PartialEq, Eq, Structural)]
pub enum MessageClass {
    Request,
    Indication,
    SuccessResponse,
    ErrorResponse,
}

impl MessageClass {
    /// The two bits that stand for the class.
    pub open spec fn number(self) -> int {
        match self {
            MessageClass::Request => 0,
            MessageClass::Indication => 1,
            MessageClass::SuccessResponse => 2,
            MessageClass::ErrorResponse => 3,
        }
    }
}

/// An attribute that the responder puts into its answers.
#[derive(Clone, Copy, Debug, PartialEq, Eq)]
pub enum Attribute {
    /// ERROR-CODE with error 400, Bad Request.
    BadRequest,
    /// XOR-MAPPED-ADDRESS.
    XorMappedAddress(SocketAddr),
    /// SOFTWARE with [`DESCRIPTION`].
    Software,
    /// RESPONSE-ORIGIN.
    ResponseOrigin(SocketAddr),
}

/// The value of an ERROR-CODE attribute with error 400: class 4, number 0, "Bad Request".
pub open spec fn bad_request_value() -> Seq<u8> {
    seq![0u8, 0u8, 4u8, 0u8] + vstd::utf8::encode_utf8("Bad Request"@)
}

impl Attribute {
    /// The type of the attribute and its value, in a message with the given transaction ID.
    pub open spec fn wire(self, transaction_id: Seq<u8>) -> (u16, Seq<u8>) {
        match self {
            Attribute::BadRequest => (ERROR_CODE, bad_request_value()),
            Attribute::XorMappedAddress(addr) => (
                XOR_MAPPED_ADDRESS,
                crate::wire::address_value(
                    crate::wire::xor_octets(addr@.octets, transaction_id),
                    crate::wire::xor_port(addr@.port),
                ),
            ),
            Attribute::Software => (SOFTWARE, vstd::utf8::encode_utf8(DESCRIPTION@)),
            Attribute::ResponseOrigin(addr) => (
                RESPONSE_ORIGIN,
                crate::wire::address_value(addr@.octets, addr@.port),
            ),
        }
    }
}

/// A message to be sent.
#[derive(Debug, PartialEq, Eq)]
pub struct Message {
    pub class: MessageClass,
    pub method: u16,
    pub transaction_id: [u8; 12],
    pub attributes: Vec<Attribute>,
}

impl Message {
    /// The types and values of the attributes, in their order.
    pub open spec fn wire_attributes(self) -> Seq<(u16, Seq<u8>)> {
        Seq::new(
            self.attributes@.len(),
            |i: int| self.attributes@[i].wire(self.transaction_id@),
        )
    }

    /// The bytes of the message.
    pub open spec fn wire(self) -> Seq<u8> {
        crate::wire::message_bytes(
            self.class.number(),
            self.method as int,
            self.transaction_id@,
            self.wire_attributes(),
        )
    }

    /// Whether the method and the length of the message fit the fields that hold them.
    pub open spec fn fits(self) -> bool {
        crate::wire::fits_header(self.method as int, self.wire_attributes())
    }
}

/// What an answer depends on in a message that was received.
#[derive(Clone, Copy, Debug, PartialEq, Eq)]
pub struct Request {
    pub method: u16,
    pub transaction_id: [u8; 12],
}

impl Request {
    /// Whether the request is the one that `message` holds.
    pub open spec fn is_read_from(self, message: Seq<u8>) -> bool {
        &&& self.method == crate::wire::method_of(message)
        &&& self.transaction_id@ == crate::wire::transaction_of(message)
    }
}

/// Attributes as pairs of a type and a value, with the values as sequences.
pub open spec fn raw_view(attributes: Seq<(u16, Vec<u8>)>) -> Seq<(u16, Seq<u8>)> {
    Seq::new(attributes.len(), |i: int| (attributes[i].0, attributes[i].1@))
}

/// A request and the attributes that came with it.
struct RawMessage {
    request: Request,
    attributes: Vec<(u16, Vec<u8>)>,
}

/// Reads a message with `stun_codec::MessageDecoder`, through `decode_from_bytes` of `bytecodec`.
///
/// Claimed of the two: they fail on bytes without a header, on bytes after the announced end, and
/// where more than half of the announced bytes are missing. Otherwise they hand out the header
/// fields and the attributes, or, where the attributes do not fill the announced length, a broken
/// message, which is `None` here.
#[verifier::external_body]
fn decode_message(buf: &[u8]) -> (r: Result<Option<RawMessage>, CodecError>)
    ensures
        r is Ok <==> crate::wire::is_framed(buf@),
        r matches Ok(m) ==> (m is Some <==> crate::wire::is_whole(buf@)),
        r matches Ok(Some(m)) ==> m.request.is_read_from(buf@) && raw_view(m.attributes@)
            == crate::wire::attributes_of(buf@),
{
    let decoded = MessageDecoder::<RawAttribute>::new().decode_from_bytes(buf)?;
    Ok(decoded.ok().map(|m| RawMessage {
        request: Request {
            method: m.method().as_u16(),
            transaction_id: *m.transaction_id().as_bytes(),
        },
        attributes: m
            .attributes()
            .map(|a| (stun_codec::Attribute::get_type(a).as_u16(), a.value().to_vec()))
            .collect(),
    }))
}

/// Reads a value with `ErrorCodeDecoder` of `stun_codec`, and says whether that succeeds: where
/// the class is 3, 4 or 5, the number is below 100, and the reason is UTF-8.
#[verifier::external_body]
fn error_code_decodes(value: &[u8]) -> (r: bool)
    ensures
        r == crate::wire::is_error_value(value@),
{
    ErrorCodeDecoder::new().decode_from_bytes(value).is_ok()
}

/// Reads a value with `XorMappedAddressDecoder` of `stun_codec`, and says whether that succeeds:
/// where the family is one of the two and the length is that of the family.
#[verifier::external_body]
fn xor_mapped_address_decodes(value: &[u8]) -> (r: bool)
    ensures
        r == crate::wire::is_address_value(value@),
{
    XorMappedAddressDecoder::new().decode_from_bytes(value).is_ok()
}

/// Reads a value with `SoftwareDecoder` of `stun_codec`, and says whether that succeeds: where the
/// value is UTF-8 of fewer than 128 characters.
#[verifier::external_body]
fn software_decodes(value: &[u8]) -> (r: bool)
    ensures
        r == crate::wire::is_software_value(value@),
{
    SoftwareDecoder::new().decode_from_bytes(value).is_ok()
}

/// Reads a value with `ResponseOriginDecoder` of `stun_codec`, and says whether that succeeds:
/// where the family is one of the two and the length is that of the family.
#[verifier::external_body]
fn response_origin_decodes(value: &[u8]) -> (r: bool)
    ensures
        r == crate::wire::is_address_value(value@),
{
    ResponseOriginDecoder::new().decode_from_bytes(value).is_ok()
}

/// Writes the error 400 with `ErrorCodeEncoder` of `stun_codec`. Claimed: the write succeeds, and
/// the value is two zeros, the class, the number, and the text that the crate has for this error.
#[verifier::external_body]
fn encode_bad_request() -> (r: Result<Vec<u8>, CodecError>)
    ensures
        r is Ok,
        r->Ok_0@ == bad_request_value(),
{
    ErrorCodeEncoder::new().encode_into_bytes(ErrorCode::from(BadRequest))
}

/// Combines an address with the magic cookie and the transaction ID by
/// `stun_codec::net::socket_addr_xor`, and writes it with `XorMappedAddressEncoder`. Claimed: the
/// write succeeds, and the value is the family, the port and the octets, combined.
#[verifier::external_body]
fn encode_xor_mapped_address(addr: SocketAddr, transaction_id: [u8; 12]) -> (r: Result<
    Vec<u8>,
    CodecError,
>)
    ensures
        r is Ok,
        r->Ok_0@ == crate::wire::address_value(
            crate::wire::xor_octets(addr@.octets, transaction_id@),
            crate::wire::xor_port(addr@.port),
        ),
{
    let plain = match addr {
        SocketAddr::V4 { ip, port } => (ip, port).into(),
        SocketAddr::V6 { ip, port, .. } => (ip, port).into(),
    };
    let combined = socket_addr_xor(plain, TransactionId::new(transaction_id));
    XorMappedAddressEncoder::new().encode_into_bytes(XorMappedAddress::new(combined))
}

/// Writes a description with `SoftwareEncoder` of `stun_codec`. `Software::new_static` panics
/// above 127 bytes. Claimed: the write succeeds, and the value is the description in UTF-8.
#[verifier::external_body]
fn encode_software(description: &'static str) -> (r: Result<Vec<u8>, CodecError>)
    requires
        vstd::utf8::encode_utf8(description@).len() < 128,
    ensures
        r is Ok,
        r->Ok_0@ == vstd::utf8::encode_utf8(description@),
{
    SoftwareEncoder::new().encode_into_bytes(Software::new_static(description))
}

/// Writes an address with `ResponseOriginEncoder` of `stun_codec`. Claimed: the write succeeds,
/// and the value is the family, the port and the octets.
#[verifier::external_body]
fn encode_response_origin(addr: SocketAddr) -> (r: Result<Vec<u8>, CodecError>)
    ensures
        r is Ok,
        r->Ok_0@ == crate::wire::address_value(addr@.octets, addr@.port),
{
    let plain = match addr {
        SocketAddr::V4 { ip, port } => (ip, port).into(),
        SocketAddr::V6 { ip, port, .. } => (ip, port).into(),
    };
    ResponseOriginEncoder::new().encode_into_bytes(ResponseOrigin::new(plain))
}

/// Writes a message with `stun_codec::MessageEncoder`, through `encode_into_bytes` of `bytecodec`.
///
/// Claimed of the two: they fail where the method has more than twelve bits or the attributes take
/// 65536 bytes or more. Otherwise they write the header and the attributes; of a method of sixteen
/// or more, the header then holds other bits than the ones that a reader takes for the method.
#[verifier::external_body]
fn encode_message(
    class: MessageClass,
    method: u16,
    transaction_id: [u8; 12],
    attributes: Vec<(u16, Vec<u8>)>,
) -> (r: Result<Vec<u8>, CodecError>)
    ensures
        r is Ok <==> crate::wire::fits_header(method as int, raw_view(attributes@)),
        r is Ok ==> r->Ok_0@ == crate::wire::message_bytes(
            class.number(),
            method as int,
            transaction_id@,
            raw_view(attributes@),
        ),
{
    let class = match class {
        MessageClass::Request => stun_codec::MessageClass::Request,
        MessageClass::Indication => stun_codec::MessageClass::Indication,
        MessageClass::SuccessResponse => stun_codec::MessageClass::SuccessResponse,
        MessageClass::ErrorResponse => stun_codec::MessageClass::ErrorResponse,
    };
    let id = TransactionId::new(transaction_id);
    let mut message = stun_codec::Message::<RawAttribute>::new(class, Method::new(method)?, id);
    for (code, value) in attributes {
        message.add_attribute(RawAttribute::new(AttributeType::new(code), value));
    }
    MessageEncoder::new().encode_into_bytes(message)
}

/// Whether the value of an attribute is one that its type allows.
fn attribute_decodes(code: u16, value: &[u8]) -> (r: bool)
    ensures
        r == crate::wire::is_readable((code, value@)),
{
    if code == ERROR_CODE {
        error_code_decodes(value)
    } else if code == XOR_MAPPED_ADDRESS {
        xor_mapped_address_decodes(value)
    } else if code == SOFTWARE {
        software_decodes(value)
    } else if code == RESPONSE_ORIGIN {
        response_origin_decodes(value)
    } else {
        true
    }
}

/// Whether `message` is whole and its attributes can be read.
pub open spec fn is_sound(message: Seq<u8>) -> bool {
    &&& crate::wire::is_whole(message)
    &&& crate::wire::are_readable(crate::wire::attributes_of(message))
}

/// Reads a message. The result is an error where the bytes are no frame of a message, and `None`
/// where the frame holds a broken one.
pub fn decode_request(buf: &[u8]) -> (r: Result<Option<Request>, CodecError>)
    ensures
        r is Ok <==> crate::wire::is_framed(buf@),
        r matches Ok(m) ==> (m is Some <==> is_sound(buf@)),
        r matches Ok(Some(request)) ==> request.is_read_from(buf@) && request.method < 0x1000,
{
    let message: RawMessage = match decode_message(buf) {
        Err(error) => {
            return Err(error);
        },
        Ok(None) => {
            return Ok(None);
        },
        Ok(Some(message)) => message,
    };
    let ghost attributes = crate::wire::attributes_of(buf@);
    let mut i: usize = 0;
    while i < message.attributes.len()
        invariant
            0 <= i <= message.attributes@.len(),
            raw_view(message.attributes@) == attributes,
            attributes == crate::wire::attributes_of(buf@),
            crate::wire::is_framed(buf@),
            crate::wire::is_whole(buf@),
            forall|j: int| 0 <= j < i ==> crate::wire::is_readable(#[trigger] attributes[j]),
        decreases message.attributes@.len() - i,
    {
        let entry: &(u16, Vec<u8>) = &message.attributes[i];
        assert(attributes[i as int] == (entry.0, entry.1@));
        if !attribute_decodes(entry.0, entry.1.as_slice()) {
            return Ok(None);
        }
        i += 1;
    }
    Ok(Some(message.request))
}

impl Attribute {
    /// The type of the attribute and its value, in a message with the given transaction ID.
    pub fn encode(&self, transaction_id: [u8; 12]) -> (r: Result<(u16, Vec<u8>), CodecError>)
        ensures
            r matches Ok(a) && (a.0, a.1@) == self.wire(transaction_id@),
    {
        match *self {
            Attribute::BadRequest => match encode_bad_request() {
                Ok(value) => Ok((ERROR_CODE, value)),
                Err(error) => Err(error),
            },
            Attribute::XorMappedAddress(addr) => match encode_xor_mapped_address(
                addr,
                transaction_id,
            ) {
                Ok(value) => Ok((XOR_MAPPED_ADDRESS, value)),
                Err(error) => Err(error),
            },
            Attribute::Software => {
                proof {
                    description_is_short();
                }
                match encode_software(DESCRIPTION) {
                    Ok(value) => Ok((SOFTWARE, value)),
                    Err(error) => Err(error),
                }
            },
            Attribute::ResponseOrigin(addr) => match encode_response_origin(addr) {
                Ok(value) => Ok((RESPONSE_ORIGIN, value)),
                Err(error) => Err(error),
            },
        }
    }
}

impl Message {
    /// The bytes of the message, where it fits its header.
    pub fn encode(&self) -> (r: Result<Vec<u8>, CodecError>)
        ensures
            r is Ok <==> self.fits(),
            r matches Ok(b) ==> b@ == self.wire(),
    {
        let mut raw: Vec<(u16, Vec<u8>)> = Vec::new();
        let mut i: usize = 0;
        while i < self.attributes.len()
            invariant
                0 <= i <= self.attributes@.len(),
                raw@.len() == i,
                forall|j: int|
                    0 <= j < i ==> (#[trigger] raw@[j].0, raw@[j].1@) == self.wire_attributes()[j],
            decreases self.attributes@.len() - i,
        {
            match self.attributes[i].encode(self.transaction_id) {
                Ok(attribute) => {
                    raw.push(attribute);
                },
                Err(error) => {
                    return Err(error);
                },
            }
            i += 1;
        }
        assert(raw_view(raw@) =~= self.wire_attributes());
        encode_message(self.class, self.method, self.transaction_id, raw)
    }
}

/// The description takes six bytes.
pub proof fn description_is_short()
    ensures
        vstd::utf8::encode_utf8(DESCRIPTION@).len() == 6,
{
    reveal_strlit("merdia");
    assert(vstd::utf8::is_ascii_chars(DESCRIPTION@));
    vstd::utf8::is_ascii_chars_encode_utf8(DESCRIPTION@);
}

/// The value of the error takes fifteen bytes.
pub proof fn bad_request_is_short()
    ensures
        bad_request_value().len() == 15,
{
    reveal_strlit("Bad Request");
    assert(vstd::utf8::is_ascii_chars("Bad Request"@));
    vstd::utf8::is_ascii_chars_encode_utf8("Bad Request"@);
}

/// The texts in the answers are ones that their attributes allow.
pub proof fn answer_texts_can_be_read()
    ensures
        crate::wire::is_software_value(vstd::utf8::encode_utf8(DESCRIPTION@)),
        crate::wire::is_error_value(bad_request_value()),
{
    reveal_strlit("merdia");
    vstd::utf8::encode_utf8_valid_utf8(DESCRIPTION@);
    vstd::utf8::encode_utf8_decode_utf8(DESCRIPTION@);
    vstd::utf8::encode_utf8_valid_utf8("Bad Request"@);
    assert(bad_request_value().skip(4) =~= vstd::utf8::encode_utf8("Bad Request"@));
}

/// A message is answered if and only if it is whole and each of its attributes can be read.
pub proof fn sound_messages(m: Seq<u8>)
    ensures
        is_sound(m) <==> crate::wire::is_whole(m) && (forall|i: int|
            0 <= i < crate::wire::attributes_of(m).len() ==> crate::wire::is_readable(
                #[trigger] crate::wire::attributes_of(m)[i],
            )),
{
}

/// A request has the method that the first two bytes of its message hold, around the two bits of
/// the class, and the twelve bytes of its transaction ID.
#[verifier::rlimit(50)]
pub proof fn request_in_bytes(request: Request, m: Seq<u8>)
    requires
        m.len() >= 20,
        m[0] < 0x40,
        request.is_read_from(m),
    ensures
        request.method % 16 == m[1] % 16,
        request.method / 16 % 8 == m[1] / 32,
        request.method / 128 == m[0] / 2,
        forall|i: int| 0 <= i < 12 ==> request.transaction_id@[i] == m[8 + i],
{
    let t = m[0] * 256 + m[1];
    assert(t % 16 == m[1] % 16);
    assert((t / 32) % 8 == m[1] / 32);
    assert((t / 512) % 32 == m[0] / 2);
}

/// The description of the responder in bytes.
pub proof fn description_in_bytes()
    ensures
        vstd::utf8::encode_utf8(DESCRIPTION@) == seq![0x6du8, 0x65u8, 0x72u8, 0x64u8, 0x69u8, 0x61u8],
{
    reveal_strlit("merdia");
    assert(vstd::utf8::is_ascii_chars(DESCRIPTION@));
    vstd::utf8::is_ascii_chars_encode_utf8(DESCRIPTION@);
    let bytes = vstd::utf8::encode_utf8(DESCRIPTION@);
    assert(DESCRIPTION@[0] == 'm' && DESCRIPTION@[1] == 'e' && DESCRIPTION@[2] == 'r');
    assert(DESCRIPTION@[3] == 'd' && DESCRIPTION@[4] == 'i' && DESCRIPTION@[5] == 'a');
    assert(bytes =~= seq![0x6du8, 0x65u8, 0x72u8, 0x64u8, 0x69u8, 0x61u8]);
}

/// The error 400 in bytes.
pub proof fn bad_request_in_bytes()
    ensures
        bad_request_value() == seq![
            0u8, 0u8, 4u8, 0u8,
            0x42u8, 0x61u8, 0x64u8, 0x20u8, 0x52u8, 0x65u8, 0x71u8, 0x75u8, 0x65u8, 0x73u8, 0x74u8,
        ],
{
    reveal_strlit("Bad Request");
    let text = "Bad Request"@;
    assert(vstd::utf8::is_ascii_chars(text));
    vstd::utf8::is_ascii_chars_encode_utf8(text);
    let bytes = vstd::utf8::encode_utf8(text);
    assert(text[0] == 'B' && text[1] == 'a' && text[2] == 'd' && text[3] == ' ');
    assert(text[4] == 'R' && text[5] == 'e' && text[6] == 'q' && text[7] == 'u');
    assert(text[8] == 'e' && text[9] == 's' && text[10] == 't');
    assert(bytes =~= seq![
        0x42u8, 0x61u8, 0x64u8, 0x20u8, 0x52u8, 0x65u8, 0x71u8, 0x75u8, 0x65u8, 0x73u8, 0x74u8,
    ]);
    assert(bad_request_value() =~= seq![0u8, 0u8, 4u8, 0u8] + bytes);
}

/// An attribute that holds an address tells its family, its port and its octets; in an
/// XOR-MAPPED-ADDRESS, port and octets are hidden by the magic cookie and the transaction ID.
pub proof fn addresses_in_bytes(addr: SocketAddr, id: Seq<u8>)
    requires
        id.len() == 12,
    ensures
        ({
            let e = addr@;
            let family = if e.octets.len() == 4 {
                1u8
            } else {
                2u8
            };
            let hidden = e.port ^ 0x2112;
            let key = seq![0x21u8, 0x12u8, 0xa4u8, 0x42u8] + id;
            &&& Attribute::ResponseOrigin(addr).wire(id) == (
                0x802bu16,
                seq![0u8, family, (e.port / 256) as u8, (e.port % 256) as u8] + e.octets,
            )
            &&& Attribute::XorMappedAddress(addr).wire(id) == (
                0x0020u16,
                seq![0u8, family, (hidden / 256) as u8, (hidden % 256) as u8] + Seq::new(
                    e.octets.len(),
                    |i: int| e.octets[i] ^ key[i],
                ),
            )
        }),
{
    let e = addr@;
    let family = if e.octets.len() == 4 {
        1u8
    } else {
        2u8
    };
    let hidden = e.port ^ 0x2112;
    let key = seq![0x21u8, 0x12u8, 0xa4u8, 0x42u8] + id;
    let octets = Seq::new(e.octets.len(), |i: int| e.octets[i] ^ key[i]);
    assert(key =~= crate::wire::cookie() + id);
    assert(crate::wire::xor_octets(e.octets, id) =~= octets);
    assert(Attribute::ResponseOrigin(addr).wire(id).1 =~= seq![
        0u8, family, (e.port / 256) as u8, (e.port % 256) as u8,
    ] + e.octets);
    assert(Attribute::XorMappedAddress(addr).wire(id).1 =~= seq![
        0u8, family, (hidden / 256) as u8, (hidden % 256) as u8,
    ] + octets);
}

/// The two texts that answers hold stand in attributes of their own types.
pub proof fn texts_in_bytes(id: Seq<u8>)
    ensures
        Attribute::Software.wire(id) == (
            0x8022u16,
            seq![0x6du8, 0x65u8, 0x72u8, 0x64u8, 0x69u8, 0x61u8],
        ),
        Attribute::BadRequest.wire(id).0 == 0x0009,
        Attribute::BadRequest.wire(id).1 == bad_request_value(),
{
    description_in_bytes();
}

/// A message is written as its header and then its attributes, one after the other. The first two
/// bytes hold the low bits of the method, the class, and three more bits of the method.
pub proof fn message_in_bytes(message: Message, i: int)
    requires
        message.fits(),
    ensures
        ({
            let m = message.wire();
            let class = match message.class {
                MessageClass::Request => 0int,
                MessageClass::Indication => 1int,
                MessageClass::SuccessResponse => 2int,
                MessageClass::ErrorResponse => 3int,
            };
            let body = m.subrange(20, m.len() as int);
            &&& m.len() >= 20
            &&& m[1] == message.method % 16 + 16 * (class % 2)
            &&& m[0] == class / 2 + 2 * (message.method / 16 % 8)
            &&& m[2] * 256 + m[3] == body.len()
            &&& m[4] == 0x21 && m[5] == 0x12 && m[6] == 0xa4 && m[7] == 0x42
            &&& m.subrange(8, 20) == message.transaction_id@
            &&& body == crate::wire::attributes_bytes(message.wire_attributes())
            &&& message.wire_attributes().len() == message.attributes@.len()
            &&& 0 <= i < message.attributes@.len() ==> message.wire_attributes()[i]
                == message.attributes@[i].wire(message.transaction_id@)
        }),
{
    let m = message.wire();
    let body = crate::wire::attributes_bytes(message.wire_attributes());
    let t = crate::wire::type_number(message.class.number(), message.method as int);
    assert(m.subrange(20, m.len() as int) =~= body);
    assert(m.subrange(8, 20) =~= message.transaction_id@);
    assert(0 <= t < 0x1000);
    assert(m[0] == (t / 256) as u8);
    assert(m[1] == (t % 256) as u8);
    assert(m[2] == (body.len() as int / 256) as u8);
    assert(m[3] == (body.len() as int % 256) as u8);
    assert(m[4] == crate::wire::cookie()[0] && m[5] == crate::wire::cookie()[1]);
    assert(m[6] == crate::wire::cookie()[2] && m[7] == crate::wire::cookie()[3]);
}

/// A message fits where its method has at most twelve bits and its attributes take fewer than
/// 65536 bytes.
pub proof fn messages_that_fit(message: Message)
    ensures
        message.fits() <==> message.method <= 0xfff && crate::wire::attributes_bytes(
            message.wire_attributes(),
        ).len() <= 0xffff,
{
}

/// Attributes are seen as they are held: as many, in the same order, each with its type and its
/// value.
pub proof fn attributes_are_seen_as_held(attributes: Seq<(u16, Vec<u8>)>, i: int)
    requires
        0 <= i < attributes.len(),
    ensures
        raw_view(attributes).len() == attributes.len(),
        raw_view(attributes)[i].0 == attributes[i].0,
        raw_view(attributes)[i].1 == attributes[i].1@,
{
}

} // verus!
