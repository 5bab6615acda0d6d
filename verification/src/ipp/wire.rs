use vstd::prelude::*;
use vstd::utf8::encode_utf8;
use crate::ipp::types::{ValueV, AttrV, GroupV, ResponseV, spec_value_tag, spec_value_bytes, delimiter_byte, status_code};

verus! {

/// Big-endian bytes of a 16-bit unsigned integer.
pub open spec fn be_u16_bytes(v: u16) -> Seq<u8> {
    seq![(v / 256) as u8, (v % 256) as u8]
}

/// Big-endian bytes of a 32-bit unsigned integer.
pub open spec fn be_u32_bytes(v: u32) -> Seq<u8> {
    seq![
        (v / 0x100_0000) as u8,
        ((v / 0x1_0000) % 256) as u8,
        ((v / 256) % 256) as u8,
        (v % 256) as u8,
    ]
}

/// Big-endian bytes of a 32-bit signed integer in two's complement.
pub open spec fn be_i32_bytes(v: i32) -> Seq<u8> {
    be_u32_bytes(v as u32)
}

/// The 16-bit unsigned integer that two big-endian bytes hold.
pub open spec fn u16_of(b0: u8, b1: u8) -> u16 {
    (b0 * 256 + b1) as u16
}

/// The 32-bit unsigned integer that four big-endian bytes hold.
pub open spec fn u32_of(b0: u8, b1: u8, b2: u8, b3: u8) -> u32 {
    (b0 * 0x100_0000 + b1 * 0x1_0000 + b2 * 256 + b3) as u32
}

/// The 32-bit signed integer that four big-endian bytes hold.
pub open spec fn i32_of(b0: u8, b1: u8, b2: u8, b3: u8) -> i32 {
    u32_of(b0, b1, b2, b3) as i32
}

/// Appends the big-endian bytes of `v`.
pub fn push_be_u16(buf: &mut Vec<u8>, v: u16)
    ensures
        final(buf)@ == old(buf)@ + be_u16_bytes(v),
{
    buf.push((v / 256) as u8);
    buf.push((v % 256) as u8);
    assert(final(buf)@ =~= old(buf)@ + be_u16_bytes(v));
}

/// Appends the big-endian bytes of `v`.
pub fn push_be_u32(buf: &mut Vec<u8>, v: u32)
    ensures
        final(buf)@ == old(buf)@ + be_u32_bytes(v),
{
    buf.push((v / 0x100_0000) as u8);
    buf.push(((v / 0x1_0000) % 256) as u8);
    buf.push(((v / 256) % 256) as u8);
    buf.push((v % 256) as u8);
    assert(final(buf)@ =~= old(buf)@ + be_u32_bytes(v));
}

/// Appends the big-endian two's-complement bytes of `v`.
pub fn push_be_i32(buf: &mut Vec<u8>, v: i32)
    ensures
        final(buf)@ == old(buf)@ + be_i32_bytes(v),
{
    push_be_u32(buf, v as u32);
}

/// Reading back the bytes of a 16-bit integer gives the integer.
pub proof fn lemma_u16_roundtrip(v: u16)
    ensures
        u16_of(be_u16_bytes(v)[0], be_u16_bytes(v)[1]) == v,
{
}

/// Reading back the bytes of a 32-bit integer gives the integer.
pub proof fn lemma_u32_roundtrip(v: u32)
    ensures
        u32_of(be_u32_bytes(v)[0], be_u32_bytes(v)[1], be_u32_bytes(v)[2], be_u32_bytes(v)[3])
            == v,
{
    let b = be_u32_bytes(v);
    assert((v / 0x100_0000) * 0x100_0000 + ((v / 0x1_0000) % 256) * 0x1_0000 + ((v / 256) % 256)
        * 256 + v % 256 == v) by (nonlinear_arith);
}

/// Reading back the bytes of a signed 32-bit integer gives the integer.
pub proof fn lemma_i32_roundtrip(v: i32)
    ensures
        i32_of(be_i32_bytes(v)[0], be_i32_bytes(v)[1], be_i32_bytes(v)[2], be_i32_bytes(v)[3])
            == v,
{
    lemma_u32_roundtrip(v as u32);
    let u = v as u32;
    assert((u as i32) == v) by (bit_vector)
        requires
            u == v as u32,
    ;
}

} // verus!

verus! {

/// The two length-prefixed fields of an attribute encoding: name, then value.
pub open spec fn name_value_bytes(name: Seq<u8>, value: Seq<u8>) -> Seq<u8> {
    be_u16_bytes(name.len() as u16) + name + be_u16_bytes(value.len() as u16) + value
}

/// The bytes a value is written as, under the given attribute name (empty for
/// additional values and for collection members).
pub open spec fn value_encoding(name: Seq<u8>, v: ValueV) -> Seq<u8>
    decreases v,
{
    match v {
        ValueV::Collection(ms) => seq![0x34u8] + name_value_bytes(name, Seq::empty())
            + members_encoding(ms) + seq![0x37u8] + name_value_bytes(Seq::empty(), Seq::empty()),
        _ => seq![spec_value_tag(v)] + name_value_bytes(name, spec_value_bytes(v)),
    }
}

/// The bytes the members of a collection are written as.
pub open spec fn members_encoding(ms: Seq<(Seq<char>, ValueV)>) -> Seq<u8>
    decreases ms,
{
    if ms.len() == 0 {
        Seq::empty()
    } else {
        members_encoding(ms.drop_last()) + seq![0x4Au8] + name_value_bytes(
            Seq::empty(),
            encode_utf8(ms.last().0),
        ) + value_encoding(Seq::empty(), ms.last().1)
    }
}

/// The bytes the values of one attribute are written as: the first under the name,
/// the others under an empty name.
pub open spec fn attr_values_encoding(name: Seq<u8>, vals: Seq<ValueV>) -> Seq<u8>
    decreases vals.len(),
{
    if vals.len() == 0 {
        Seq::empty()
    } else {
        attr_values_encoding(name, vals.drop_last()) + value_encoding(
            if vals.len() == 1 {
                name
            } else {
                Seq::empty()
            },
            vals.last(),
        )
    }
}

/// The bytes an attribute is written as.
pub open spec fn attr_encoding(a: AttrV) -> Seq<u8> {
    attr_values_encoding(encode_utf8(a.name), a.values)
}

/// The bytes a sequence of attributes is written as.
pub open spec fn attrs_encoding(attrs: Seq<AttrV>) -> Seq<u8>
    decreases attrs.len(),
{
    if attrs.len() == 0 {
        Seq::empty()
    } else {
        attrs_encoding(attrs.drop_last()) + attr_encoding(attrs.last())
    }
}

/// The bytes a group is written as: its delimiter, then its attributes.
pub open spec fn group_encoding(g: GroupV) -> Seq<u8> {
    seq![delimiter_byte(g.delimiter)] + attrs_encoding(g.attributes)
}

/// The bytes a sequence of groups is written as.
pub open spec fn groups_encoding(groups: Seq<GroupV>) -> Seq<u8>
    decreases groups.len(),
{
    if groups.len() == 0 {
        Seq::empty()
    } else {
        groups_encoding(groups.drop_last()) + group_encoding(groups.last())
    }
}

/// The bytes a response is written as: version, status code, request id, the groups,
/// and the end-of-attributes tag.
pub open spec fn response_encoding(r: ResponseV) -> Seq<u8> {
    seq![r.version.major, r.version.minor] + be_u16_bytes(status_code(r.status_code))
        + be_u32_bytes(r.request_id) + groups_encoding(r.attribute_groups) + seq![0x03u8]
}

} // verus!

verus! {

/// A collection value is written as IPP's begCollection, the members and endCollection
/// (RFC 8010, 3.1.6): a 0x34 item under the attribute's name with an empty value, then each
/// member in order as a memberAttrName item (tag 0x4A, an empty name, the member's name as
/// the value) followed by the member's value under an empty name, then a 0x37 item with an
/// empty name and value.
pub proof fn lemma_collection_encoding(
    name: Seq<u8>,
    ms: Seq<(Seq<char>, ValueV)>,
    m: Seq<char>,
    v: ValueV,
)
    requires
        name.len() <= 0xFFFF,
        encode_utf8(m).len() <= 0xFFFF,
    ensures
        value_encoding(name, ValueV::Collection(ms)) == seq![0x34u8] + be_u16_bytes(
            name.len() as u16,
        ) + name + seq![0u8, 0u8] + members_encoding(ms) + seq![0x37u8, 0u8, 0u8, 0u8, 0u8],
        members_encoding(Seq::empty()) == Seq::<u8>::empty(),
        members_encoding(ms.push((m, v))) == members_encoding(ms) + seq![0x4Au8, 0u8, 0u8]
            + be_u16_bytes(encode_utf8(m).len() as u16) + encode_utf8(m) + value_encoding(
            Seq::empty(),
            v,
        ),
{
    let msp = ms.push((m, v));
    assert(msp.drop_last() =~= ms);
    assert(be_u16_bytes(0u16) =~= seq![0u8, 0u8]);
    assert(value_encoding(name, ValueV::Collection(ms)) =~= seq![0x34u8] + be_u16_bytes(
        name.len() as u16,
    ) + name + seq![0u8, 0u8] + members_encoding(ms) + seq![0x37u8, 0u8, 0u8, 0u8, 0u8]);
    assert(members_encoding(msp) =~= members_encoding(ms) + seq![0x4Au8, 0u8, 0u8]
        + be_u16_bytes(encode_utf8(m).len() as u16) + encode_utf8(m) + value_encoding(
        Seq::empty(),
        v,
    ));
}

} // verus!
