//! The STUN wire format: the shape of the bytes that the codec reads and writes.
use vstd::prelude::*;

use crate::addr::Endpoint;

verus! {

/// The method number of a Binding request.
pub const BINDING: u16 = 0x0001;

/// The type of an ERROR-CODE attribute.
pub const ERROR_CODE: u16 = 0x0009;

/// The type of an XOR-MAPPED-ADDRESS attribute.
pub const XOR_MAPPED_ADDRESS: u16 = 0x0020;

/// The type of a SOFTWARE attribute.
pub const SOFTWARE: u16 = 0x8022;

/// The type of a RESPONSE-ORIGIN attribute.
pub const RESPONSE_ORIGIN: u16 = 0x802b;

/// A number as two bytes, the high one first.
pub open spec fn be(n: int) -> Seq<u8> {
    seq![(n / 256) as u8, (n % 256) as u8]
}

/// The number that two bytes at `i` stand for, the high one first.
pub open spec fn be_at(s: Seq<u8>, i: int) -> int {
    s[i] * 256 + s[i + 1]
}

/// The magic cookie in the header of each message.
pub open spec fn cookie() -> Seq<u8> {
    seq![0x21u8, 0x12u8, 0xa4u8, 0x42u8]
}

/// The number of bytes that follow a value of `len` bytes, to fill up the last four.
pub open spec fn padding(len: int) -> int {
    (4 - len % 4) % 4
}

/// One attribute: type, length, value and zeros up to a multiple of four bytes.
pub open spec fn attribute_bytes(code: u16, value: Seq<u8>) -> Seq<u8> {
    be(code as int) + be(value.len() as int) + value + Seq::new(
        padding(value.len() as int) as nat,
        |i: int| 0u8,
    )
}

/// Attributes one after the other.
pub open spec fn attributes_bytes(attributes: Seq<(u16, Seq<u8>)>) -> Seq<u8>
    decreases attributes.len(),
{
    if attributes.len() == 0 {
        Seq::empty()
    } else {
        attributes_bytes(attributes.drop_last()) + attribute_bytes(
            attributes.last().0,
            attributes.last().1,
        )
    }
}

/// The attributes that `s` is made of, if it is made of attributes.
pub open spec fn read_attributes(s: Seq<u8>) -> Option<Seq<(u16, Seq<u8>)>>
    decreases s.len(),
{
    if s.len() == 0 {
        Some(Seq::empty())
    } else if s.len() < 4 || s.len() < 4 + be_at(s, 2) + padding(be_at(s, 2)) {
        None
    } else {
        let len = be_at(s, 2);
        match read_attributes(s.skip(4 + len + padding(len))) {
            Some(rest) => Some(seq![(be_at(s, 0) as u16, s.subrange(4, 4 + len))] + rest),
            None => None,
        }
    }
}

/// The method that the first two bytes of a message hold: twelve bits, parted by the two bits of
/// the class.
pub open spec fn method_of(message: Seq<u8>) -> int {
    let t = be_at(message, 0);
    t % 16 + (t / 32) % 8 * 16 + (t / 512) % 32 * 128
}

/// The class that the first two bytes of a message hold: the two bits between those of the method.
pub open spec fn class_of(message: Seq<u8>) -> int {
    let t = be_at(message, 0);
    t / 16 % 2 + t / 256 % 2 * 2
}

/// The transaction ID in the header of a message.
pub open spec fn transaction_of(message: Seq<u8>) -> Seq<u8> {
    message.subrange(8, 20)
}

/// The number of bytes after the header that the header of a message announces.
pub open spec fn announced_len(message: Seq<u8>) -> int {
    be_at(message, 2)
}

/// A header that starts with two zero bits and holds the magic cookie.
pub open spec fn has_header(message: Seq<u8>) -> bool {
    &&& message.len() >= 20
    &&& message[0] < 0x40
    &&& message.subrange(4, 8) == cookie()
}

/// A header followed by no more bytes than it announces, and by at least half of them.
pub open spec fn is_framed(message: Seq<u8>) -> bool {
    &&& has_header(message)
    &&& message.len() - 20 <= announced_len(message)
    &&& announced_len(message) <= 2 * (message.len() - 20)
}

/// A header and exactly the attributes that it announces.
pub open spec fn is_whole(message: Seq<u8>) -> bool {
    &&& has_header(message)
    &&& announced_len(message) == message.len() - 20
    &&& read_attributes(message.skip(20)) is Some
}

/// The attributes of a whole message.
pub open spec fn attributes_of(message: Seq<u8>) -> Seq<(u16, Seq<u8>)>
    recommends
        is_whole(message),
{
    read_attributes(message.skip(20))->0
}

/// The first two bytes of a message of the given class and method. The low four bits of the
/// method and the two bits of the class stand where [`method_of`] and the class are read; the next
/// three bits of the method stand four places too high, and the last five are left out.
pub open spec fn type_number(class: int, method: int) -> int {
    method % 16 + class % 2 * 16 + class / 2 * 256 + (method / 16) % 8 * 512
}

/// Whether the header has room for the method and for the length of the attributes.
pub open spec fn fits_header(method: int, attributes: Seq<(u16, Seq<u8>)>) -> bool {
    &&& 0 <= method < 0x1000
    &&& attributes_bytes(attributes).len() < 0x10000
}

/// A message with the given header fields and attributes.
pub open spec fn message_bytes(
    class: int,
    method: int,
    transaction_id: Seq<u8>,
    attributes: Seq<(u16, Seq<u8>)>,
) -> Seq<u8> {
    let body = attributes_bytes(attributes);
    be(type_number(class, method)) + be(body.len() as int) + cookie() + transaction_id + body
}

/// The value of an attribute that holds an address: a zero, the family, the port, the octets.
pub open spec fn address_value(octets: Seq<u8>, port: u16) -> Seq<u8> {
    seq![
        0u8,
        if octets.len() == 4 {
            1u8
        } else {
            2u8
        },
    ] + be(port as int) + octets
}

/// Whether a value holds an address: the family is known and the length is the family's.
pub open spec fn is_address_value(value: Seq<u8>) -> bool {
    ||| value.len() == 8 && value[1] == 1
    ||| value.len() == 20 && value[1] == 2
}

/// The octets of the address in a value.
pub open spec fn octets_in(value: Seq<u8>) -> Seq<u8> {
    value.skip(4)
}

/// The port of the address in a value.
pub open spec fn port_in(value: Seq<u8>) -> u16 {
    be_at(value, 2) as u16
}

/// Octets combined with the magic cookie and the transaction ID, so that a router that rewrites
/// addresses in passing does not recognise them.
pub open spec fn xor_octets(octets: Seq<u8>, transaction_id: Seq<u8>) -> Seq<u8> {
    Seq::new(octets.len(), |i: int| octets[i] ^ (cookie() + transaction_id)[i])
}

/// A port combined with the first half of the magic cookie.
pub open spec fn xor_port(port: u16) -> u16 {
    port ^ 0x2112
}

/// Whether a value holds an error: a class from 3 to 5, a number below 100, a reason in UTF-8.
pub open spec fn is_error_value(value: Seq<u8>) -> bool {
    &&& value.len() >= 4
    &&& 3 <= value[2] % 8 <= 5
    &&& value[3] < 100
    &&& vstd::utf8::valid_utf8(value.skip(4))
}

/// Whether a value holds a description of software: UTF-8 of fewer than 128 characters.
pub open spec fn is_software_value(value: Seq<u8>) -> bool {
    &&& vstd::utf8::valid_utf8(value)
    &&& vstd::utf8::decode_utf8(value).len() < 128
}

/// Whether the value of an attribute is one that its type allows. Types that the responder does
/// not know allow any value.
pub open spec fn is_readable(attribute: (u16, Seq<u8>)) -> bool {
    &&& attribute.0 == ERROR_CODE ==> is_error_value(attribute.1)
    &&& attribute.0 == XOR_MAPPED_ADDRESS ==> is_address_value(attribute.1)
    &&& attribute.0 == SOFTWARE ==> is_software_value(attribute.1)
    &&& attribute.0 == RESPONSE_ORIGIN ==> is_address_value(attribute.1)
}

/// Whether the values of all attributes are ones that their types allow.
pub open spec fn are_readable(attributes: Seq<(u16, Seq<u8>)>) -> bool {
    forall|i: int| 0 <= i < attributes.len() ==> is_readable(#[trigger] attributes[i])
}

/// Splitting a number into two bytes loses nothing.
pub proof fn be_round_trip(n: int, s: Seq<u8>, i: int)
    requires
        0 <= n < 0x10000,
        0 <= i,
        i + 2 <= s.len(),
        s.subrange(i, i + 2) == be(n),
    ensures
        be_at(s, i) == n,
{
    assert(s[i] == s.subrange(i, i + 2)[0]);
    assert(s[i + 1] == s.subrange(i, i + 2)[1]);
}

/// The attribute part of a message is a whole number of four-byte words.
pub proof fn attributes_fill_words(attributes: Seq<(u16, Seq<u8>)>)
    ensures
        attributes_bytes(attributes).len() % 4 == 0,
        attributes_bytes(attributes).len() >= 4 * attributes.len(),
    decreases attributes.len(),
{
    if attributes.len() > 0 {
        attributes_fill_words(attributes.drop_last());
    }
}

/// The first attribute can be split off the bytes of a list.
proof fn attributes_bytes_first(attributes: Seq<(u16, Seq<u8>)>)
    requires
        attributes.len() > 0,
    ensures
        attributes_bytes(attributes) == attribute_bytes(attributes[0].0, attributes[0].1)
            + attributes_bytes(attributes.drop_first()),
    decreases attributes.len(),
{
    if attributes.len() == 1 {
        assert(attributes.drop_last() =~= Seq::empty());
        assert(attributes.drop_first() =~= Seq::empty());
        assert(attributes_bytes(attributes.drop_last()) =~= Seq::empty());
        assert(attributes_bytes(attributes.drop_first()) =~= Seq::empty());
    } else {
        attributes_bytes_first(attributes.drop_last());
        assert(attributes.drop_last().drop_first() =~= attributes.drop_first().drop_last());
        assert(attributes.drop_last()[0] == attributes[0]);
        assert(attributes.drop_first().last() == attributes.last());
        assert(attributes_bytes(attributes) =~= attribute_bytes(attributes[0].0, attributes[0].1)
            + attributes_bytes(attributes.drop_first()));
    }
}

/// Reading attributes gives back the attributes that were written.
#[verifier::rlimit(30)]
pub proof fn reading_attributes_undoes_writing(attributes: Seq<(u16, Seq<u8>)>)
    requires
        forall|i: int| 0 <= i < attributes.len() ==> (#[trigger] attributes[i]).1.len() < 0x10000,
    ensures
        read_attributes(attributes_bytes(attributes)) == Some(attributes),
    decreases attributes.len(),
{
    let s = attributes_bytes(attributes);
    if attributes.len() == 0 {
        assert(attributes =~= Seq::empty());
    } else {
        let (code, value) = attributes[0];
        let rest = attributes.drop_first();
        let first = attribute_bytes(code, value);
        attributes_bytes_first(attributes);
        assert(s == first + attributes_bytes(rest));
        assert(s.subrange(0, 2) =~= be(code as int));
        be_round_trip(code as int, s, 0);
        assert(s.subrange(2, 4) =~= be(value.len() as int));
        be_round_trip(value.len() as int, s, 2);
        assert(s.subrange(4, 4 + value.len() as int) =~= value);
        let end = 4 + value.len() + padding(value.len() as int);
        assert(first.len() == end);
        assert(s.skip(end) =~= attributes_bytes(rest));
        assert forall|i: int| 0 <= i < rest.len() implies (#[trigger] rest[i]).1.len()
            < 0x10000 by {
            assert(rest[i] == attributes[i + 1]);
        }
        reading_attributes_undoes_writing(rest);
        assert(attributes =~= seq![(code, value)] + rest);
    }
}

/// A method is a number of twelve bits.
pub proof fn method_has_twelve_bits(message: Seq<u8>)
    ensures
        0 <= method_of(message) < 0x1000,
{
}

/// The class can be read from the number that it was written into, and so can a method below
/// sixteen.
proof fn type_number_round_trip(class: int, method: int)
    requires
        0 <= class < 4,
        0 <= method < 0x1000,
    ensures
        ({
            let t = type_number(class, method);
            &&& 0 <= t < 0x1000
            &&& t / 16 % 2 + t / 256 % 2 * 2 == class
            &&& method < 16 ==> t % 16 + (t / 32) % 8 * 16 + (t / 512) % 32 * 128 == method
        }),
{
    let low = method % 16;
    let high = (method / 16) % 8;
    let t = type_number(class, method);
    assert(t == low + class % 2 * 16 + class / 2 * 256 + high * 512);
    if class == 0 {
    } else if class == 1 {
    } else if class == 2 {
    } else {
        assert(class == 3);
    }
}

/// A message is read back with the class that it was written with, and with the method where that
/// is below sixteen.
pub proof fn reading_header_undoes_writing(
    class: int,
    method: int,
    transaction_id: Seq<u8>,
    attributes: Seq<(u16, Seq<u8>)>,
)
    requires
        0 <= class < 4,
        0 <= method < 0x1000,
    ensures
        class_of(message_bytes(class, method, transaction_id, attributes)) == class,
        method < 16 ==> method_of(message_bytes(class, method, transaction_id, attributes))
            == method,
{
    let m = message_bytes(class, method, transaction_id, attributes);
    let t = type_number(class, method);
    type_number_round_trip(class, method);
    assert(m.subrange(0, 2) =~= be(t));
    be_round_trip(t, m, 0);
}

/// A message that fits its header is read back with the attributes and the transaction ID that it
/// was written with.
pub proof fn reading_message_undoes_writing(
    class: int,
    method: int,
    transaction_id: Seq<u8>,
    attributes: Seq<(u16, Seq<u8>)>,
)
    requires
        0 <= class < 4,
        transaction_id.len() == 12,
        fits_header(method, attributes),
    ensures
        is_whole(message_bytes(class, method, transaction_id, attributes)),
        attributes_of(message_bytes(class, method, transaction_id, attributes)) == attributes,
        transaction_of(message_bytes(class, method, transaction_id, attributes)) == transaction_id,
{
    let body = attributes_bytes(attributes);
    let m = message_bytes(class, method, transaction_id, attributes);
    let t = type_number(class, method);
    type_number_round_trip(class, method);
    assert(m.subrange(0, 2) =~= be(t));
    be_round_trip(t, m, 0);
    assert(m.subrange(2, 4) =~= be(body.len() as int));
    be_round_trip(body.len() as int, m, 2);
    assert(m.subrange(4, 8) =~= cookie());
    assert(m.subrange(8, 20) =~= transaction_id);
    assert(m.skip(20) =~= body);
    assert forall|i: int| 0 <= i < attributes.len() implies (#[trigger] attributes[i]).1.len()
        < 0x10000 by {
        attribute_fits_in_list(attributes, i);
    }
    reading_attributes_undoes_writing(attributes);
}

/// A value is no longer than the bytes of the list that it stands in.
proof fn attribute_fits_in_list(attributes: Seq<(u16, Seq<u8>)>, i: int)
    requires
        0 <= i < attributes.len(),
    ensures
        attributes[i].1.len() <= attributes_bytes(attributes).len(),
    decreases attributes.len(),
{
    if i < attributes.len() - 1 {
        attribute_fits_in_list(attributes.drop_last(), i);
        assert(attributes.drop_last()[i] == attributes[i]);
    }
}

/// Combining an address with the cookie and the transaction ID twice gives the address back.
pub proof fn xor_undoes_xor(octets: Seq<u8>, port: u16, transaction_id: Seq<u8>)
    ensures
        xor_octets(xor_octets(octets, transaction_id), transaction_id) == octets,
        xor_port(xor_port(port)) == port,
{
    let key = cookie() + transaction_id;
    assert forall|i: int| 0 <= i < octets.len() implies octets[i] ^ key[i] ^ key[i]
        == #[trigger] octets[i] by {
        let a = octets[i];
        let b = key[i];
        assert(a ^ b ^ b == a) by (bit_vector);
    }
    assert(xor_octets(xor_octets(octets, transaction_id), transaction_id) =~= octets);
    assert(port ^ 0x2112 ^ 0x2112 == port) by (bit_vector);
}

/// An address is read back from the value that it was written to.
pub proof fn reading_address_undoes_writing(e: Endpoint)
    requires
        e.wf(),
    ensures
        is_address_value(address_value(e.octets, e.port)),
        octets_in(address_value(e.octets, e.port)) == e.octets,
        port_in(address_value(e.octets, e.port)) == e.port,
{
    let v = address_value(e.octets, e.port);
    assert(v.subrange(2, 4) =~= be(e.port as int));
    be_round_trip(e.port as int, v, 2);
    assert(v.skip(4) =~= e.octets);
}

/// The bytes of one attribute, with any filling, are read as that attribute and then as what
/// follows it.
pub proof fn attribute_is_read_first(code: u16, value: Seq<u8>, filling: Seq<u8>, rest: Seq<u8>)
    requires
        value.len() < 0x10000,
        filling.len() < 4,
        (value.len() + filling.len()) % 4 == 0,
    ensures
        ({
            let len = value.len() as int;
            let head = seq![
                (code / 256) as u8,
                (code % 256) as u8,
                (len / 256) as u8,
                (len % 256) as u8,
            ];
            read_attributes(head + value + filling + rest) == match read_attributes(rest) {
                Some(others) => Some(seq![(code, value)] + others),
                None => None,
            }
        }),
{
    let len = value.len() as int;
    let head = seq![
        (code / 256) as u8,
        (code % 256) as u8,
        (len / 256) as u8,
        (len % 256) as u8,
    ];
    let s = head + value + filling + rest;
    assert(be_at(s, 0) == code);
    assert(be_at(s, 2) == len);
    assert(padding(len) == filling.len());
    assert(s.subrange(4, 4 + len) =~= value);
    assert(s.skip(4 + len + padding(len)) =~= rest);
}

/// Nothing is read as no attributes. Bytes that end within the head of an attribute, its value or
/// its filling are no attributes.
pub proof fn cut_attributes_are_not_read(s: Seq<u8>)
    ensures
        s.len() == 0 ==> read_attributes(s) == Some(Seq::<(u16, Seq<u8>)>::empty()),
        0 < s.len() < 4 ==> read_attributes(s) is None,
        4 <= s.len() < 4 + (s[2] * 256 + s[3] + 3) / 4 * 4 ==> read_attributes(s) is None,
{
}

/// A message is framed where it has a header, at most the bytes that the header announces, and at
/// least half of them.
pub proof fn frame_of_message(m: Seq<u8>)
    ensures
        is_framed(m) <==> {
            &&& m.len() >= 20
            &&& m[0] < 0x40
            &&& m[4] == 0x21 && m[5] == 0x12 && m[6] == 0xa4 && m[7] == 0x42
            &&& m.len() - 20 <= m[2] * 256 + m[3] <= 2 * (m.len() - 20)
        },
{
    if m.len() >= 20 {
        assert(m.subrange(4, 8) == cookie() <==> m[4] == 0x21 && m[5] == 0x12 && m[6] == 0xa4
            && m[7] == 0x42) by {
            let s = m.subrange(4, 8);
            assert(s[0] == m[4] && s[1] == m[5] && s[2] == m[6] && s[3] == m[7]);
            if m[4] == 0x21 && m[5] == 0x12 && m[6] == 0xa4 && m[7] == 0x42 {
                assert(s =~= cookie());
            }
            if s == cookie() {
                assert(cookie()[0] == 0x21 && cookie()[1] == 0x12 && cookie()[2] == 0xa4
                    && cookie()[3] == 0x42);
            }
        }
    }
}

/// A message is whole where it is framed, no announced byte is missing, and what follows the
/// header can be read as attributes.
pub proof fn whole_message(m: Seq<u8>)
    ensures
        is_whole(m) <==> is_framed(m) && m[2] * 256 + m[3] == m.len() - 20 && read_attributes(
            m.subrange(20, m.len() as int),
        ) is Some,
        is_whole(m) ==> read_attributes(m.subrange(20, m.len() as int)) == Some(attributes_of(m)),
{
    if m.len() >= 20 {
        assert(m.skip(20) =~= m.subrange(20, m.len() as int));
    }
}

/// Which values can be read: an address of a family has the length of the family, an error is from
/// 300 to 599 with a reason in UTF-8, and a description is UTF-8 of fewer than 128 characters. All
/// other attributes can hold anything.
pub proof fn values_that_can_be_read(code: u16, value: Seq<u8>)
    ensures
        code == 0x0020 || code == 0x802b ==> (is_readable((code, value)) <==> (value.len() == 8
            && value[1] == 1) || (value.len() == 20 && value[1] == 2)),
        code == 0x0009 ==> (is_readable((code, value)) <==> value.len() >= 4 && 300 <= value[2] % 8
            * 100 + value[3] && value[2] % 8 <= 5 && value[3] < 100 && vstd::utf8::valid_utf8(
            value.subrange(4, value.len() as int),
        )),
        code == 0x8022 ==> (is_readable((code, value)) <==> vstd::utf8::valid_utf8(value)
            && vstd::utf8::decode_utf8(value).len() <= 127),
        code != 0x0009 && code != 0x0020 && code != 0x8022 && code != 0x802b ==> is_readable(
            (code, value),
        ),
{
    if value.len() >= 4 {
        assert(value.skip(4) =~= value.subrange(4, value.len() as int));
    }
}

/// Attributes are written one after the other: type, length, value, and zeros up to a multiple of
/// four bytes.
pub proof fn attribute_is_written_last(
    others: Seq<(u16, Seq<u8>)>,
    code: u16,
    value: Seq<u8>,
    zeros: Seq<u8>,
)
    requires
        value.len() < 0x10000,
        zeros.len() < 4,
        (value.len() + zeros.len()) % 4 == 0,
        forall|i: int| 0 <= i < zeros.len() ==> zeros[i] == 0,
    ensures
        attributes_bytes(Seq::empty()) == Seq::<u8>::empty(),
        attributes_bytes(others.push((code, value))) == attributes_bytes(others) + seq![
            (code / 256) as u8,
            (code % 256) as u8,
            (value.len() as int / 256) as u8,
            (value.len() as int % 256) as u8,
        ] + value + zeros,
{
    let all = others.push((code, value));
    assert(all.drop_last() =~= others);
    assert(all.last() == (code, value));
    assert(padding(value.len() as int) == zeros.len());
    assert(attributes_bytes(all) =~= attributes_bytes(others) + seq![
        (code / 256) as u8,
        (code % 256) as u8,
        (value.len() as int / 256) as u8,
        (value.len() as int % 256) as u8,
    ] + value + zeros);
}

} // verus!
