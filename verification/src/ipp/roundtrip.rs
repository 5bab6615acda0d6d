use vstd::prelude::*;
use vstd::utf8::{
    decode_utf8, encode_utf8, encode_utf8_decode_utf8, encode_utf8_valid_utf8, valid_utf8,
};
use crate::ipp::types::{
    AttrV, DelimiterTag, GroupV, IppVersion, RequestV, ResponseV, ValueV, delimiter_byte,
    delimiter_from_byte, operation_from_code, spec_value_bytes, spec_value_tag, status_code,
};
use crate::ipp::wire::{
    attr_encoding, attr_values_encoding, attrs_encoding, be_i32_bytes, be_u16_bytes,
    be_u32_bytes, group_encoding, groups_encoding, i32_of, lemma_i32_roundtrip,
    lemma_u16_roundtrip, lemma_u32_roundtrip, name_value_bytes, response_encoding, u16_of,
    u32_of, value_encoding,
};
use crate::ipp::parser::{
    add_parsed, spec_parse_attrs, spec_parse_groups, spec_parse_request, spec_parse_request_at,
    spec_parse_value, string_value,
};

verus! {

/// A value that the wire format carries back unchanged: no collection, and a value field
/// that fits its 16-bit length.
pub open spec fn value_wire_ok(v: ValueV) -> bool {
    &&& !(v is Collection)
    &&& spec_value_bytes(v).len() <= 0xFFFF
}

/// An attribute that the wire format carries back unchanged: a non-empty name that fits
/// its 16-bit length, at least one value, and values that are carried back unchanged.
pub open spec fn attr_wire_ok(a: AttrV) -> bool {
    &&& a.name.len() > 0
    &&& encode_utf8(a.name).len() <= 0xFFFF
    &&& a.values.len() > 0
    &&& forall|i: int| 0 <= i < a.values.len() ==> value_wire_ok(#[trigger] a.values[i])
}

/// A group that the wire format carries back unchanged: not delimited by end-of-attributes,
/// and attributes that are carried back unchanged.
pub open spec fn group_wire_ok(g: GroupV) -> bool {
    &&& g.delimiter != DelimiterTag::EndOfAttributes
    &&& forall|i: int| 0 <= i < g.attributes.len() ==> attr_wire_ok(#[trigger] g.attributes[i])
}

/// A response whose groups the wire format carries back unchanged.
pub open spec fn response_wire_ok(r: ResponseV) -> bool {
    forall|i: int| 0 <= i < r.attribute_groups.len() ==> group_wire_ok(#[trigger] r.attribute_groups[i])
}

/// Decoding the value field of a value that the wire format carries gives the value back.
pub proof fn lemma_value_roundtrip(v: ValueV)
    requires
        !(v is Collection),
    ensures
        spec_parse_value(spec_value_tag(v), spec_value_bytes(v)) == Ok::<ValueV, crate::ipp::types::ErrorKind>(v),
{
    broadcast use encode_utf8_valid_utf8, encode_utf8_decode_utf8;

    match v {
        ValueV::Integer(i) => {
            lemma_i32_roundtrip(i);
        },
        ValueV::Enum(i) => {
            lemma_i32_roundtrip(i);
        },
        ValueV::DateTime { year, .. } => {
            lemma_u16_roundtrip(year);
        },
        ValueV::Resolution { cross_feed, feed, .. } => {
            lemma_i32_roundtrip(cross_feed);
            lemma_i32_roundtrip(feed);
        },
        ValueV::RangeOfInteger { lower, upper } => {
            lemma_i32_roundtrip(lower);
            lemma_i32_roundtrip(upper);
        },
        _ => {},
    }
}

} // verus!

verus! {

/// `e` stands in `data` from `pos` on.
pub open spec fn occurs_at(data: Seq<u8>, pos: int, e: Seq<u8>) -> bool {
    0 <= pos && pos + e.len() <= data.len() && data.subrange(pos, pos + e.len()) == e
}

/// Where `e` stands in `data`, each byte of `data` there is the byte of `e`.
proof fn lemma_occurs_index(data: Seq<u8>, pos: int, e: Seq<u8>)
    requires
        occurs_at(data, pos, e),
    ensures
        forall|k: int| 0 <= k < e.len() ==> data[pos + k] == #[trigger] e[k],
{
    assert forall|k: int| 0 <= k < e.len() implies data[pos + k] == #[trigger] e[k] by {
        assert(data.subrange(pos, pos + e.len())[k] == data[pos + k]);
    }
}

/// Where `a + b` stands in `data`, `a` stands there and `b` right after it.
proof fn lemma_occurs_split(data: Seq<u8>, pos: int, a: Seq<u8>, b: Seq<u8>)
    requires
        occurs_at(data, pos, a + b),
    ensures
        occurs_at(data, pos, a),
        occurs_at(data, pos + a.len(), b),
{
    lemma_occurs_index(data, pos, a + b);
    assert(data.subrange(pos, pos + a.len()) =~= a) by {
        assert forall|k: int| 0 <= k < a.len() implies data.subrange(pos, pos + a.len())[k]
            == a[k] by {
            assert((a + b)[k] == a[k]);
        }
    }
    assert(data.subrange(pos + a.len(), pos + a.len() + b.len()) =~= b) by {
        assert forall|k: int| 0 <= k < b.len() implies data.subrange(
            pos + a.len(),
            pos + a.len() + b.len(),
        )[k] == b[k] by {
            assert((a + b)[a.len() + k] == b[k]);
        }
    }
}

/// Every value tag is above the delimiter range.
proof fn lemma_value_tag_not_delimiter(v: ValueV)
    ensures
        spec_value_tag(v) > 0x0F,
{
}

/// Parsing one encoded value under a name (empty for an additional value) records it and
/// moves past it.
proof fn lemma_parse_one(data: Seq<u8>, pos: int, acc: Seq<AttrV>, nb: Seq<u8>, v: ValueV)
    requires
        valid_utf8(nb),
        nb.len() <= 0xFFFF,
        value_wire_ok(v),
        occurs_at(data, pos, value_encoding(nb, v)),
    ensures
        spec_parse_attrs(data, pos, acc) == spec_parse_attrs(
            data,
            pos + value_encoding(nb, v).len(),
            add_parsed(acc, decode_utf8(nb), v),
        ),
{
    reveal(spec_parse_attrs);
    let vb = spec_value_bytes(v);
    let tag = spec_value_tag(v);
    let e = value_encoding(nb, v);
    let lb = be_u16_bytes(nb.len() as u16);
    let lv = be_u16_bytes(vb.len() as u16);
    assert(e =~= seq![tag] + lb + nb + lv + vb);
    lemma_u16_roundtrip(nb.len() as u16);
    lemma_u16_roundtrip(vb.len() as u16);
    lemma_value_roundtrip(v);
    lemma_value_tag_not_delimiter(v);
    lemma_occurs_index(data, pos, e);
    let p1 = pos + 1;
    let p2 = p1 + 2;
    let p3 = p2 + nb.len();
    let p4 = p3 + 2;
    assert(data[pos] == tag) by {
        assert(e[0] == tag);
    }
    assert(data[p1] == lb[0] && data[p1 + 1] == lb[1]) by {
        assert(e[1] == lb[0]);
        assert(e[2] == lb[1]);
    }
    assert(data.subrange(p2, p2 + nb.len()) =~= nb) by {
        assert forall|k: int| 0 <= k < nb.len() implies data.subrange(p2, p2 + nb.len())[k]
            == nb[k] by {
            assert(e[3 + k] == nb[k]);
        }
    }
    assert(data[p3] == lv[0] && data[p3 + 1] == lv[1]) by {
        assert(e[3 + nb.len() as int] == lv[0]);
        assert(e[3 + nb.len() as int + 1] == lv[1]);
    }
    assert(data.subrange(p4, p4 + vb.len()) =~= vb) by {
        assert forall|k: int| 0 <= k < vb.len() implies data.subrange(p4, p4 + vb.len())[k]
            == vb[k] by {
            assert(e[5 + nb.len() + k] == vb[k]);
        }
    }
    assert(p4 + vb.len() == pos + e.len());
}

} // verus!

verus! {

/// Adding a further value under an empty name extends the attribute just started.
proof fn lemma_add_further_value(acc: Seq<AttrV>, name: Seq<char>, init: Seq<ValueV>, last: ValueV)
    ensures
        add_parsed(acc.push(AttrV { name, values: init }), Seq::empty(), last) == acc.push(
            AttrV { name, values: init.push(last) },
        ),
{
    let acc1 = acc.push(AttrV { name, values: init });
    assert(acc1.drop_last() =~= acc);
    assert(add_parsed(acc1, Seq::empty(), last) =~= acc.push(AttrV { name, values: init.push(last) }));
}

/// The empty byte string is valid UTF-8 and decodes to no characters.
proof fn lemma_empty_utf8()
    ensures
        valid_utf8(Seq::<u8>::empty()),
        decode_utf8(Seq::<u8>::empty()) == Seq::<char>::empty(),
{
    assert(decode_utf8(Seq::<u8>::empty()) =~= Seq::<char>::empty());
}

/// Parsing the encoded values of one attribute records the attribute and moves past it.
#[verifier::spinoff_prover]
proof fn lemma_parse_attr_values(
    data: Seq<u8>,
    pos: int,
    acc: Seq<AttrV>,
    name: Seq<char>,
    vals: Seq<ValueV>,
)
    requires
        name.len() > 0,
        encode_utf8(name).len() <= 0xFFFF,
        vals.len() > 0,
        forall|i: int| 0 <= i < vals.len() ==> value_wire_ok(#[trigger] vals[i]),
        occurs_at(data, pos, attr_values_encoding(encode_utf8(name), vals)),
    ensures
        spec_parse_attrs(data, pos, acc) == spec_parse_attrs(
            data,
            pos + attr_values_encoding(encode_utf8(name), vals).len(),
            acc.push(AttrV { name, values: vals }),
        ),
    decreases vals.len(),
{
    let nb = encode_utf8(name);
    let last = vals.last();
    assert(value_wire_ok(vals[vals.len() - 1]));
    if vals.len() == 1 {
        encode_utf8_valid_utf8(name);
        encode_utf8_decode_utf8(name);
        assert(vals.drop_last().len() == 0);
        assert(attr_values_encoding(nb, vals.drop_last()) == Seq::<u8>::empty());
        assert(attr_values_encoding(nb, vals) =~= value_encoding(nb, last));
        lemma_parse_one(data, pos, acc, nb, last);
        assert(seq![last] =~= vals);
    } else {
        let init = vals.drop_last();
        let e0 = attr_values_encoding(nb, init);
        let e1 = value_encoding(Seq::empty(), last);
        assert(attr_values_encoding(nb, vals) == e0 + e1);
        lemma_occurs_split(data, pos, e0, e1);
        assert forall|i: int| 0 <= i < init.len() implies value_wire_ok(#[trigger] init[i]) by {
            assert(init[i] == vals[i]);
        }
        lemma_parse_attr_values(data, pos, acc, name, init);
        let acc1 = acc.push(AttrV { name, values: init });
        lemma_empty_utf8();
        lemma_parse_one(data, pos + e0.len(), acc1, Seq::empty(), last);
        lemma_add_further_value(acc, name, init, last);
        assert(init.push(last) =~= vals);
    }
}

/// Parsing encoded attributes records them and moves past them.
proof fn lemma_parse_attrs_encoded(data: Seq<u8>, pos: int, acc: Seq<AttrV>, attrs: Seq<AttrV>)
    requires
        forall|i: int| 0 <= i < attrs.len() ==> attr_wire_ok(#[trigger] attrs[i]),
        occurs_at(data, pos, attrs_encoding(attrs)),
    ensures
        spec_parse_attrs(data, pos, acc) == spec_parse_attrs(
            data,
            pos + attrs_encoding(attrs).len(),
            acc + attrs,
        ),
    decreases attrs.len(),
{
    if attrs.len() == 0 {
        assert(acc + attrs =~= acc);
    } else {
        let init = attrs.drop_last();
        let last = attrs.last();
        let e0 = attrs_encoding(init);
        let e1 = attr_encoding(last);
        lemma_occurs_split(data, pos, e0, e1);
        assert forall|i: int| 0 <= i < init.len() implies attr_wire_ok(#[trigger] init[i]) by {
            assert(init[i] == attrs[i]);
        }
        lemma_parse_attrs_encoded(data, pos, acc, init);
        assert(attr_wire_ok(attrs[attrs.len() - 1]));
        lemma_parse_attr_values(data, pos + e0.len(), acc + init, last.name, last.values);
        assert((acc + init).push(AttrV { name: last.name, values: last.values }) =~= acc + attrs);
    }
}

/// Parsing encoded groups, followed by a byte that is no value tag, records them and moves
/// past them.
proof fn lemma_parse_groups_encoded(data: Seq<u8>, pos: int, acc: Seq<GroupV>, groups: Seq<GroupV>)
    requires
        forall|i: int| 0 <= i < groups.len() ==> group_wire_ok(#[trigger] groups[i]),
        occurs_at(data, pos, groups_encoding(groups)),
        pos + groups_encoding(groups).len() < data.len(),
        data[pos + groups_encoding(groups).len()] <= 0x0F,
    ensures
        spec_parse_groups(data, pos, acc) == spec_parse_groups(
            data,
            pos + groups_encoding(groups).len(),
            acc + groups,
        ),
    decreases groups.len(),
{
    if groups.len() == 0 {
        assert(acc + groups =~= acc);
    } else {
        let init = groups.drop_last();
        let g = groups.last();
        let e0 = groups_encoding(init);
        let e1 = group_encoding(g);
        let q = pos + e0.len();
        let ea = attrs_encoding(g.attributes);
        lemma_occurs_split(data, pos, e0, e1);
        assert(e1 == seq![delimiter_byte(g.delimiter)] + ea);
        lemma_occurs_split(data, q, seq![delimiter_byte(g.delimiter)], ea);
        lemma_occurs_index(data, q, seq![delimiter_byte(g.delimiter)]);
        assert(data[q] == delimiter_byte(g.delimiter)) by {
            assert(seq![delimiter_byte(g.delimiter)][0] == delimiter_byte(g.delimiter));
        }
        assert forall|i: int| 0 <= i < init.len() implies group_wire_ok(#[trigger] init[i]) by {
            assert(init[i] == groups[i]);
        }
        assert(group_wire_ok(groups[groups.len() - 1]));
        lemma_parse_groups_encoded(data, pos, acc, init);
        lemma_parse_attrs_encoded(data, q + 1, Seq::empty(), g.attributes);
        assert(Seq::<AttrV>::empty() + g.attributes =~= g.attributes);
        let end = q + 1 + ea.len();
        assert(end == pos + groups_encoding(groups).len());
        reveal(spec_parse_attrs);
        assert(spec_parse_attrs(data, end, g.attributes) == Ok::<
            (Seq<AttrV>, int),
            crate::ipp::types::ErrorKind,
        >((g.attributes, end)));
        assert(delimiter_from_byte(delimiter_byte(g.delimiter)) == Some(g.delimiter));
        assert((acc + init).push(g) =~= acc + groups);
    }
}

/// Parsing the bytes of a serialized response, read as a request, gives back its version,
/// its status code in the operation-id field, its request id and its attribute groups,
/// with no document data — for every response whose groups the wire format carries:
/// no collection values, no end-of-attributes group, and no empty, value-less or
/// over-long attribute.
pub proof fn lemma_serialize_parse_roundtrip(r: ResponseV)
    requires
        response_wire_ok(r),
    ensures
        spec_parse_request(response_encoding(r)) == Ok::<RequestV, crate::ipp::types::ErrorKind>(
            RequestV {
                version: r.version,
                operation_id: operation_from_code(status_code(r.status_code)),
                request_id: r.request_id,
                attribute_groups: r.attribute_groups,
                document_data: Seq::empty(),
            },
        ),
{
    let data = response_encoding(r);
    let sb = be_u16_bytes(status_code(r.status_code));
    let ib = be_u32_bytes(r.request_id);
    let head = seq![r.version.major, r.version.minor] + sb + ib;
    let ge = groups_encoding(r.attribute_groups);
    assert(data =~= head + ge + seq![0x03u8]);
    assert(head.len() == 8);
    lemma_u16_roundtrip(status_code(r.status_code));
    lemma_u32_roundtrip(r.request_id);
    assert(data.subrange(8, 8 + ge.len() as int) =~= ge);
    assert(data[8 + ge.len() as int] == 0x03u8);
    lemma_parse_groups_encoded(data, 8, Seq::empty(), r.attribute_groups);
    assert(Seq::<GroupV>::empty() + r.attribute_groups =~= r.attribute_groups);
    assert(data.subrange(data.len() as int, data.len() as int) =~= Seq::<u8>::empty());
    assert(data[2] == sb[0] && data[3] == sb[1]);
    assert(data[4] == ib[0] && data[5] == ib[1] && data[6] == ib[2] && data[7] == ib[3]);
}

} // verus!
