use vstd::prelude::*;
use vstd::utf8::{decode_utf8, valid_utf8};
use vstd::slice::{slice_subrange, slice_to_vec};
use crate::ipp::types::{
    AttrV, DelimiterTag, ErrorKind, GroupV, IppAttribute, IppAttributeGroup, IppError,
    IppOperationId, IppRequest, IppValue, IppVersion, RequestV, ValueV, attrs_view,
    delimiter_from_byte, groups_view, operation_from_code, values_view,
};
use crate::ipp::wire::{i32_of, u16_of, u32_of};
use crate::text::string_from_utf8;

verus! {

/// Whether a value tag holds a character string.
pub open spec fn is_string_tag(tag: u8) -> bool {
    tag == 0x41 || tag == 0x42 || tag == 0x44 || tag == 0x45 || tag == 0x46 || tag == 0x47
        || tag == 0x48 || tag == 0x49
}

/// The string value of the kind that a string tag names.
pub open spec fn string_value(tag: u8, s: Seq<char>) -> ValueV {
    if tag == 0x41 {
        ValueV::TextWithoutLanguage(s)
    } else if tag == 0x42 {
        ValueV::NameWithoutLanguage(s)
    } else if tag == 0x44 {
        ValueV::Keyword(s)
    } else if tag == 0x45 {
        ValueV::Uri(s)
    } else if tag == 0x46 {
        ValueV::UriScheme(s)
    } else if tag == 0x47 {
        ValueV::Charset(s)
    } else if tag == 0x48 {
        ValueV::NaturalLanguage(s)
    } else {
        ValueV::MimeMediaType(s)
    }
}

/// The error for wanting `need` bytes where `have` remain.
pub open spec fn eof(need: int, have: int) -> ErrorKind {
    ErrorKind::UnexpectedEof { need: need as nat, have: have as nat }
}

/// The value that a value tag and the bytes of a value field decode to.
pub open spec fn spec_parse_value(tag: u8, vb: Seq<u8>) -> Result<ValueV, ErrorKind> {
    if tag == 0x21 {
        if vb.len() < 4 {
            Err(eof(4, vb.len() as int))
        } else {
            Ok(ValueV::Integer(i32_of(vb[0], vb[1], vb[2], vb[3])))
        }
    } else if tag == 0x22 {
        Ok(ValueV::Boolean(vb.len() > 0 && vb[0] != 0))
    } else if tag == 0x23 {
        if vb.len() < 4 {
            Err(eof(4, vb.len() as int))
        } else {
            Ok(ValueV::Enum(i32_of(vb[0], vb[1], vb[2], vb[3])))
        }
    } else if is_string_tag(tag) {
        if valid_utf8(vb) {
            Ok(string_value(tag, decode_utf8(vb)))
        } else {
            Err(ErrorKind::InvalidUtf8)
        }
    } else if tag == 0x30 {
        Ok(ValueV::OctetString(vb))
    } else if tag == 0x31 {
        if vb.len() < 11 {
            Err(eof(11, vb.len() as int))
        } else {
            Ok(
                ValueV::DateTime {
                    year: u16_of(vb[0], vb[1]),
                    month: vb[2],
                    day: vb[3],
                    hour: vb[4],
                    minutes: vb[5],
                    seconds: vb[6],
                    deci_seconds: vb[7],
                    direction_from_utc: vb[8],
                    hours_from_utc: vb[9],
                    minutes_from_utc: vb[10],
                },
            )
        }
    } else if tag == 0x32 {
        if vb.len() < 9 {
            Err(eof(9, vb.len() as int))
        } else {
            Ok(
                ValueV::Resolution {
                    cross_feed: i32_of(vb[0], vb[1], vb[2], vb[3]),
                    feed: i32_of(vb[4], vb[5], vb[6], vb[7]),
                    units: vb[8],
                },
            )
        }
    } else if tag == 0x33 {
        if vb.len() < 8 {
            Err(eof(8, vb.len() as int))
        } else {
            Ok(
                ValueV::RangeOfInteger {
                    lower: i32_of(vb[0], vb[1], vb[2], vb[3]),
                    upper: i32_of(vb[4], vb[5], vb[6], vb[7]),
                },
            )
        }
    } else if tag == 0x13 {
        Ok(ValueV::NoValue)
    } else if tag == 0x10 {
        Ok(ValueV::Unsupported)
    } else {
        Ok(ValueV::Unknown(vb))
    }
}

/// The attributes after one more parsed (name, value): an empty name adds the value to
/// the last attribute (dropped when there is none), another name starts an attribute.
pub open spec fn add_parsed(acc: Seq<AttrV>, name: Seq<char>, v: ValueV) -> Seq<AttrV> {
    if name.len() == 0 {
        if acc.len() > 0 {
            acc.drop_last().push(AttrV { name: acc.last().name, values: acc.last().values.push(v) })
        } else {
            acc
        }
    } else {
        acc.push(AttrV { name, values: seq![v] })
    }
}

/// Parsing the attributes of a group from `pos`, with `acc` parsed already: the attributes
/// and the position of the tag that ends them (a tag of at most 0x0F).
#[verifier::opaque]
pub open spec fn spec_parse_attrs(data: Seq<u8>, pos: int, acc: Seq<AttrV>) -> Result<
    (Seq<AttrV>, int),
    ErrorKind,
>
    decreases data.len() - pos,
{
    if pos < 0 || pos >= data.len() {
        Err(eof(1, 0))
    } else if data[pos] <= 0x0F {
        Ok((acc, pos))
    } else {
        let tag = data[pos];
        let p1 = pos + 1;
        if data.len() - p1 < 2 {
            Err(eof(2, data.len() - p1))
        } else {
            let name_len = u16_of(data[p1], data[p1 + 1]) as int;
            let p2 = p1 + 2;
            if data.len() - p2 < name_len {
                Err(eof(name_len, data.len() - p2))
            } else {
                let nb = data.subrange(p2, p2 + name_len);
                if !valid_utf8(nb) {
                    Err(ErrorKind::InvalidUtf8)
                } else {
                    let p3 = p2 + name_len;
                    if data.len() - p3 < 2 {
                        Err(eof(2, data.len() - p3))
                    } else {
                        let value_len = u16_of(data[p3], data[p3 + 1]) as int;
                        let p4 = p3 + 2;
                        if data.len() - p4 < value_len {
                            Err(eof(value_len, data.len() - p4))
                        } else {
                            match spec_parse_value(tag, data.subrange(p4, p4 + value_len)) {
                                Err(e) => Err(e),
                                Ok(v) => spec_parse_attrs(
                                    data,
                                    p4 + value_len,
                                    add_parsed(acc, decode_utf8(nb), v),
                                ),
                            }
                        }
                    }
                }
            }
        }
    }
}

/// Parsing the attributes of a group ends at or after where it starts, within the data.
pub proof fn lemma_parse_attrs_advances(data: Seq<u8>, pos: int, acc: Seq<AttrV>)
    ensures
        spec_parse_attrs(data, pos, acc) matches Ok((_, p)) ==> pos <= p < data.len(),
    decreases data.len() - pos,
{
    reveal(spec_parse_attrs);
    if 0 <= pos < data.len() && data[pos] > 0x0F {
        let p1 = pos + 1;
        if data.len() - p1 >= 2 {
            let name_len = u16_of(data[p1], data[p1 + 1]) as int;
            let p2 = p1 + 2;
            if data.len() - p2 >= name_len {
                let nb = data.subrange(p2, p2 + name_len);
                let p3 = p2 + name_len;
                if data.len() - p3 >= 2 {
                    let value_len = u16_of(data[p3], data[p3 + 1]) as int;
                    let p4 = p3 + 2;
                    if data.len() - p4 >= value_len {
                        match spec_parse_value(data[pos], data.subrange(p4, p4 + value_len)) {
                            Err(e) => {},
                            Ok(v) => {
                                lemma_parse_attrs_advances(
                                    data,
                                    p4 + value_len,
                                    add_parsed(acc, decode_utf8(nb), v),
                                );
                            },
                        }
                    }
                }
            }
        }
    }
}

/// Parsing the groups from `pos`, with `acc` parsed already: the groups and the position
/// just after the end-of-attributes tag (or of the first byte that is no delimiter).
pub open spec fn spec_parse_groups(data: Seq<u8>, pos: int, acc: Seq<GroupV>) -> Result<
    (Seq<GroupV>, int),
    ErrorKind,
>
    decreases data.len() - pos,
{
    if pos < 0 || pos >= data.len() {
        Err(eof(1, 0))
    } else if data[pos] == 0x03 {
        Ok((acc, pos + 1))
    } else if 0x01 <= data[pos] <= 0x05 {
        match spec_parse_attrs(data, pos + 1, Seq::empty()) {
            Err(e) => Err(e),
            Ok((attrs, p)) => {
                proof {
                    lemma_parse_attrs_advances(data, pos + 1, Seq::empty());
                }
                spec_parse_groups(
                    data,
                    p,
                    acc.push(GroupV { delimiter: delimiter_from_byte(data[pos]).unwrap(), attributes: attrs }),
                )
            },
        }
    } else {
        Ok((acc, pos))
    }
}

/// Parsing a whole request from `start`: the header, the groups, and what follows them
/// as document data.
pub open spec fn spec_parse_request_at(data: Seq<u8>, start: int) -> Result<RequestV, ErrorKind> {
    let len = data.len() as int;
    if len - start < 1 {
        Err(eof(1, len - start))
    } else if len - (start + 1) < 1 {
        Err(eof(1, len - (start + 1)))
    } else if len - (start + 2) < 2 {
        Err(eof(2, len - (start + 2)))
    } else if len - (start + 4) < 4 {
        Err(eof(4, len - (start + 4)))
    } else {
        match spec_parse_groups(data, start + 8, Seq::empty()) {
            Err(e) => Err(e),
            Ok((groups, p)) => Ok(
                RequestV {
                    version: IppVersion { major: data[start], minor: data[start + 1] },
                    operation_id: operation_from_code(u16_of(data[start + 2], data[start + 3])),
                    request_id: u32_of(
                        data[start + 4],
                        data[start + 5],
                        data[start + 6],
                        data[start + 7],
                    ),
                    attribute_groups: groups,
                    document_data: data.subrange(p, len),
                },
            ),
        }
    }
}

/// Parsing a whole request.
pub open spec fn spec_parse_request(data: Seq<u8>) -> Result<RequestV, ErrorKind> {
    spec_parse_request_at(data, 0)
}

} // verus!

verus! {

/// Reads an IPP request from bytes, front to back.
pub struct IppParser<'a> {
    data: &'a [u8],
    pos: usize,
}

impl<'a> IppParser<'a> {
    #[verifier::type_invariant]
    spec fn inv(self) -> bool {
        self.pos <= self.data@.len()
    }

    /// The bytes being read.
    pub closed spec fn input(self) -> Seq<u8> {
        self.data@
    }

    /// How many bytes have been read.
    pub closed spec fn position(self) -> int {
        self.pos as int
    }

    /// A parser at the start of `data`.
    pub fn new(data: &'a [u8]) -> (p: Self)
        ensures
            p.input() == data@,
            p.position() == 0,
    {
        Self { data, pos: 0 }
    }

    fn remaining(&self) -> (r: usize)
        ensures
            r == self.data@.len() - self.pos,
    {
        proof {
            use_type_invariant(self);
        }
        self.data.len() - self.pos
    }

    fn read_u8(&mut self) -> (r: Result<u8, IppError>)
        ensures
            final(self).data == old(self).data,
            old(self).data@.len() - old(self).pos >= 1 ==> r == Ok::<u8, IppError>(
                old(self).data@[old(self).pos as int],
            ) && final(self).pos == old(self).pos + 1,
            old(self).data@.len() - old(self).pos < 1 ==> final(self).pos == old(self).pos && (
            r matches Err(e) && e@ == eof(1, old(self).data@.len() - old(self).pos)),
    {
        proof {
            use_type_invariant(&*self);
        }
        if self.remaining() < 1 {
            return Err(IppError::UnexpectedEof { need: 1, have: self.remaining() });
        }
        let v = self.data[self.pos];
        self.pos = self.pos + 1;
        Ok(v)
    }

    fn read_u16(&mut self) -> (r: Result<u16, IppError>)
        ensures
            final(self).data == old(self).data,
            old(self).data@.len() - old(self).pos >= 2 ==> r == Ok::<u16, IppError>(
                u16_of(old(self).data@[old(self).pos as int], old(self).data@[old(self).pos + 1]),
            ) && final(self).pos == old(self).pos + 2,
            old(self).data@.len() - old(self).pos < 2 ==> final(self).pos == old(self).pos && (
            r matches Err(e) && e@ == eof(2, old(self).data@.len() - old(self).pos)),
    {
        proof {
            use_type_invariant(&*self);
        }
        if self.remaining() < 2 {
            return Err(IppError::UnexpectedEof { need: 2, have: self.remaining() });
        }
        let b0 = self.data[self.pos];
        let b1 = self.data[self.pos + 1];
        let v: u16 = (b0 as u16) * 256 + (b1 as u16);
        self.pos = self.pos + 2;
        Ok(v)
    }

    fn read_u32(&mut self) -> (r: Result<u32, IppError>)
        ensures
            final(self).data == old(self).data,
            old(self).data@.len() - old(self).pos >= 4 ==> r == Ok::<u32, IppError>(
                u32_of(
                    old(self).data@[old(self).pos as int],
                    old(self).data@[old(self).pos + 1],
                    old(self).data@[old(self).pos + 2],
                    old(self).data@[old(self).pos + 3],
                ),
            ) && final(self).pos == old(self).pos + 4,
            old(self).data@.len() - old(self).pos < 4 ==> final(self).pos == old(self).pos && (
            r matches Err(e) && e@ == eof(4, old(self).data@.len() - old(self).pos)),
    {
        proof {
            use_type_invariant(&*self);
        }
        if self.remaining() < 4 {
            return Err(IppError::UnexpectedEof { need: 4, have: self.remaining() });
        }
        let v = u32_from_bytes(
            self.data[self.pos],
            self.data[self.pos + 1],
            self.data[self.pos + 2],
            self.data[self.pos + 3],
        );
        self.pos = self.pos + 4;
        Ok(v)
    }

    fn read_bytes(&mut self, n: usize) -> (r: Result<&'a [u8], IppError>)
        ensures
            final(self).data == old(self).data,
            old(self).data@.len() - old(self).pos >= n ==> (r matches Ok(s) && s@
                == old(self).data@.subrange(old(self).pos as int, old(self).pos + n))
                && final(self).pos == old(self).pos + n,
            old(self).data@.len() - old(self).pos < n ==> final(self).pos == old(self).pos && (
            r matches Err(e) && e@ == eof(n as int, old(self).data@.len() - old(self).pos)),
    {
        proof {
            use_type_invariant(&*self);
        }
        if self.remaining() < n {
            return Err(IppError::UnexpectedEof { need: n, have: self.remaining() });
        }
        let len = self.data.len();
        let s = slice_subrange(self.data, self.pos, self.pos + n);
        self.pos = self.pos + n;
        Ok(s)
    }

    fn peek_u8(&self) -> (r: Result<u8, IppError>)
        ensures
            self.pos < self.data@.len() ==> r == Ok::<u8, IppError>(self.data@[self.pos as int]),
            self.pos >= self.data@.len() ==> (r matches Err(e) && e@ == eof(1, 0)),
    {
        proof {
            use_type_invariant(self);
        }
        if self.remaining() < 1 {
            return Err(IppError::UnexpectedEof { need: 1, have: 0 });
        }
        Ok(self.data[self.pos])
    }
}

/// The 32-bit unsigned integer of four big-endian bytes.
fn u32_from_bytes(b0: u8, b1: u8, b2: u8, b3: u8) -> (v: u32)
    ensures
        v == u32_of(b0, b1, b2, b3),
{
    (b0 as u32) * 0x100_0000 + (b1 as u32) * 0x1_0000 + (b2 as u32) * 256 + (b3 as u32)
}

/// The 32-bit signed integer of four big-endian bytes.
fn i32_from_bytes(b0: u8, b1: u8, b2: u8, b3: u8) -> (v: i32)
    ensures
        v == i32_of(b0, b1, b2, b3),
{
    u32_from_bytes(b0, b1, b2, b3) as i32
}

} // verus!

verus! {

/// Whether an exec result stands for a spec result.
pub open spec fn same_result<T: View>(r: Result<T, IppError>, s: Result<T::V, ErrorKind>) -> bool {
    match s {
        Ok(v) => r matches Ok(x) && x@ == v,
        Err(e) => r matches Err(x) && x@ == e,
    }
}

/// Decodes a string value of the kind that a string tag names.
fn parse_string_value(tag: u8, value_bytes: &[u8]) -> (r: Result<IppValue, IppError>)
    requires
        is_string_tag(tag),
    ensures
        same_result(r, spec_parse_value(tag, value_bytes@)),
{
    match string_from_utf8(slice_to_vec(value_bytes)) {
        Err(e) => Err(IppError::InvalidUtf8(e)),
        Ok(s) => {
            if tag == 0x41 {
                Ok(IppValue::TextWithoutLanguage(s))
            } else if tag == 0x42 {
                Ok(IppValue::NameWithoutLanguage(s))
            } else if tag == 0x44 {
                Ok(IppValue::Keyword(s))
            } else if tag == 0x45 {
                Ok(IppValue::Uri(s))
            } else if tag == 0x46 {
                Ok(IppValue::UriScheme(s))
            } else if tag == 0x47 {
                Ok(IppValue::Charset(s))
            } else if tag == 0x48 {
                Ok(IppValue::NaturalLanguage(s))
            } else {
                Ok(IppValue::MimeMediaType(s))
            }
        },
    }
}

impl<'a> IppParser<'a> {
    fn parse_value(&self, tag: u8, value_bytes: &[u8]) -> (r: Result<IppValue, IppError>)
        ensures
            same_result(r, spec_parse_value(tag, value_bytes@)),
    {
        let vb = value_bytes;
        if tag == 0x21 {
            // Integer (4 bytes big-endian signed)
            if vb.len() < 4 {
                return Err(IppError::UnexpectedEof { need: 4, have: vb.len() });
            }
            Ok(IppValue::Integer(i32_from_bytes(vb[0], vb[1], vb[2], vb[3])))
        } else if tag == 0x22 {
            // Boolean (1 byte)
            Ok(IppValue::Boolean(vb.len() > 0 && vb[0] != 0))
        } else if tag == 0x23 {
            // Enum (4 bytes big-endian signed)
            if vb.len() < 4 {
                return Err(IppError::UnexpectedEof { need: 4, have: vb.len() });
            }
            Ok(IppValue::Enum(i32_from_bytes(vb[0], vb[1], vb[2], vb[3])))
        } else if tag == 0x41 || tag == 0x42 || tag == 0x44 || tag == 0x45 || tag == 0x46 || tag
            == 0x47 || tag == 0x48 || tag == 0x49 {
            parse_string_value(tag, vb)
        } else if tag == 0x30 {
            Ok(IppValue::OctetString(slice_to_vec(vb)))
        } else if tag == 0x31 {
            // DateTime: year(2) month(1) day(1) hour(1) min(1) sec(1) dsec(1) dir(1) utch(1) utcm(1)
            if vb.len() < 11 {
                return Err(IppError::UnexpectedEof { need: 11, have: vb.len() });
            }
            Ok(
                IppValue::DateTime {
                    year: (vb[0] as u16) * 256 + (vb[1] as u16),
                    month: vb[2],
                    day: vb[3],
                    hour: vb[4],
                    minutes: vb[5],
                    seconds: vb[6],
                    deci_seconds: vb[7],
                    direction_from_utc: vb[8],
                    hours_from_utc: vb[9],
                    minutes_from_utc: vb[10],
                },
            )
        } else if tag == 0x32 {
            // Resolution: cross_feed(4) feed(4) units(1)
            if vb.len() < 9 {
                return Err(IppError::UnexpectedEof { need: 9, have: vb.len() });
            }
            Ok(
                IppValue::Resolution {
                    cross_feed: i32_from_bytes(vb[0], vb[1], vb[2], vb[3]),
                    feed: i32_from_bytes(vb[4], vb[5], vb[6], vb[7]),
                    units: vb[8],
                },
            )
        } else if tag == 0x33 {
            // RangeOfInteger: lower(4) upper(4)
            if vb.len() < 8 {
                return Err(IppError::UnexpectedEof { need: 8, have: vb.len() });
            }
            Ok(
                IppValue::RangeOfInteger {
                    lower: i32_from_bytes(vb[0], vb[1], vb[2], vb[3]),
                    upper: i32_from_bytes(vb[4], vb[5], vb[6], vb[7]),
                },
            )
        } else if tag == 0x13 {
            Ok(IppValue::NoValue)
        } else if tag == 0x10 {
            Ok(IppValue::Unsupported)
        } else {
            Ok(IppValue::Unknown(slice_to_vec(vb)))
        }
    }
}

} // verus!

verus! {

impl<'a> IppParser<'a> {
    fn parse_attribute_group(&mut self, delimiter: DelimiterTag) -> (r: Result<
        IppAttributeGroup,
        IppError,
    >)
        ensures
            final(self).data == old(self).data,
            match spec_parse_attrs(old(self).data@, old(self).pos as int, Seq::empty()) {
                Ok((attrs, p)) => (r matches Ok(g) && g@ == GroupV {
                    delimiter,
                    attributes: attrs,
                }) && final(self).pos == p,
                Err(e) => r matches Err(x) && x@ == e,
            },
    {
        let mut group = IppAttributeGroup::new(delimiter);
        let ghost data = self.data@;
        let ghost start = self.pos as int;
        let ghost data_ref = self.data;
        loop
            invariant
                data_ref == old(self).data,
                start == old(self).pos,
                self.data == data_ref,
                self.data@ == data,
                group@.delimiter == delimiter,
                spec_parse_attrs(data, start, Seq::empty()) == spec_parse_attrs(
                    data,
                    self.pos as int,
                    group@.attributes,
                ),
            ensures
                self.data == data_ref,
                group@.delimiter == delimiter,
                spec_parse_attrs(data, start, Seq::empty()) == Ok::<(Seq<AttrV>, int), ErrorKind>(
                    (group@.attributes, self.pos as int),
                ),
            decreases data.len() - self.pos,
        {
            proof {
                use_type_invariant(&*self);
                reveal(spec_parse_attrs);
            }
            // Peek at the next tag
            let tag = match self.peek_u8() {
                Ok(t) => t,
                Err(e) => return Err(e),
            };
            // If it's a delimiter tag (0x01-0x05), the next group starts (or end-of-attrs)
            if tag <= 0x0F {
                break ;
            }
            // Consume the tag
            let _ = self.read_u8();
            // Name length
            let name_len = match self.read_u16() {
                Ok(n) => n,
                Err(e) => return Err(e),
            };
            let name_bytes = match self.read_bytes(name_len as usize) {
                Ok(b) => b,
                Err(e) => return Err(e),
            };
            let name = match string_from_utf8(slice_to_vec(name_bytes)) {
                Ok(s) => s,
                Err(e) => return Err(IppError::InvalidUtf8(e)),
            };
            // Value length + value
            let value_len = match self.read_u16() {
                Ok(n) => n,
                Err(e) => return Err(e),
            };
            let value_bytes = match self.read_bytes(value_len as usize) {
                Ok(b) => slice_to_vec(b),
                Err(e) => return Err(e),
            };
            let value = match self.parse_value(tag, value_bytes.as_slice()) {
                Ok(v) => v,
                Err(e) => return Err(e),
            };
            let ghost before = group@.attributes;
            let ghost vv = value@;
            if name.as_str().is_empty() {
                // Additional value for the previous attribute (1setOf)
                if group.attributes.len() > 0 {
                    let mut last = group.attributes.pop().unwrap();
                    let ghost mid = group.attributes@;
                    let ghost last_old = last@;
                    last.values.push(value);
                    proof {
                        assert(values_view(last.values@) =~= last_old.values.push(vv));
                    }
                    group.attributes.push(last);
                    proof {
                        assert(attrs_view(mid) =~= before.drop_last());
                        assert(group@.attributes =~= before.drop_last().push(
                            AttrV { name: before.last().name, values: before.last().values.push(vv) },
                        ));
                    }
                }
            } else {
                let values = vec![value];
                let attr = IppAttribute { name, values };
                proof {
                    assert(values_view(attr.values@) =~= seq![vv]);
                }
                group.attributes.push(attr);
                proof {
                    assert(group@.attributes =~= before.push(attr@));
                }
            }
            proof {
                assert(group@.attributes == add_parsed(before, decode_utf8(name_bytes@), vv));
            }
        }
        Ok(group)
    }

    /// Parses the request: header, attribute groups up to end-of-attributes, and the remaining
    /// bytes as document data.
    pub fn parse(self) -> (r: Result<IppRequest, IppError>)
        ensures
            same_result(r, spec_parse_request_at(self.input(), self.position())),
    {
        let mut p = self;
        proof {
            use_type_invariant(&p);
        }
        let ghost data = p.data@;
        let ghost start = p.pos as int;
        let ghost data_ref = p.data;
        // Header: version(2) + operation-id(2) + request-id(4) = 8 bytes
        let major = match p.read_u8() {
            Ok(v) => v,
            Err(e) => return Err(e),
        };
        let minor = match p.read_u8() {
            Ok(v) => v,
            Err(e) => return Err(e),
        };
        let version = IppVersion { major, minor };
        let operation_raw = match p.read_u16() {
            Ok(v) => v,
            Err(e) => return Err(e),
        };
        let operation_id = IppOperationId::from(operation_raw);
        let request_id = match p.read_u32() {
            Ok(v) => v,
            Err(e) => return Err(e),
        };
        // Parse attribute groups
        let mut attribute_groups: Vec<IppAttributeGroup> = Vec::new();
        proof {
            assert(groups_view(attribute_groups@) =~= Seq::<GroupV>::empty());
        }
        loop
            invariant_except_break
                spec_parse_groups(data, start + 8, Seq::empty()) == spec_parse_groups(
                    data,
                    p.pos as int,
                    groups_view(attribute_groups@),
                ),
            invariant
                data == self.input(),
                start == self.position(),
                0 <= start,
                start + 8 <= data.len(),
                p.data == data_ref,
                p.data@ == data,
            ensures
                p.data == data_ref,
                spec_parse_groups(data, start + 8, Seq::empty()) == Ok::<
                    (Seq<GroupV>, int),
                    ErrorKind,
                >((groups_view(attribute_groups@), p.pos as int)),
            decreases data.len() - p.pos,
        {
            proof {
                use_type_invariant(&p);
            }
            let tag = match p.peek_u8() {
                Ok(t) => t,
                Err(e) => return Err(e),
            };
            if tag == 0x03 {
                // end-of-attributes-tag — consume and stop
                let _ = p.read_u8();
                break ;
            } else if 0x01 <= tag && tag <= 0x05 {
                let _ = p.read_u8();
                let delimiter = match DelimiterTag::try_from(tag) {
                    Ok(d) => d,
                    Err(e) => return Err(e),
                };
                proof {
                    lemma_parse_attrs_advances(data, p.pos as int, Seq::empty());
                }
                let group = match p.parse_attribute_group(delimiter) {
                    Ok(g) => g,
                    Err(e) => return Err(e),
                };
                let ghost before = groups_view(attribute_groups@);
                attribute_groups.push(group);
                proof {
                    assert(groups_view(attribute_groups@) =~= before.push(group@));
                }
            } else {
                // Treat unexpected byte as end of attribute section
                break ;
            }
        }
        proof {
            use_type_invariant(&p);
        }
        // Remaining bytes are document data
        let len = p.data.len();
        let document_data = slice_to_vec(slice_subrange(p.data, p.pos, len));
        Ok(IppRequest { version, operation_id, request_id, attribute_groups, document_data })
    }
}

/// Parses an IPP request from bytes.
pub fn parse_ipp_request(data: &[u8]) -> (r: Result<IppRequest, IppError>)
    ensures
        same_result(r, spec_parse_request(data@)),
{
    IppParser::new(data).parse()
}

} // verus!

verus! {

/// Attributes as the parser gives them: each with a non-empty name and at least one value.
pub open spec fn attrs_well_formed(attrs: Seq<AttrV>) -> bool {
    forall|i: int|
        0 <= i < attrs.len() ==> (#[trigger] attrs[i]).name.len() > 0 && attrs[i].values.len() >= 1
}

/// Groups as the parser gives them: none delimited by end-of-attributes, and their
/// attributes well formed.
pub open spec fn groups_well_formed(groups: Seq<GroupV>) -> bool {
    forall|i: int|
        0 <= i < groups.len() ==> (#[trigger] groups[i]).delimiter != DelimiterTag::EndOfAttributes
            && attrs_well_formed(groups[i].attributes)
}

/// Adding a parsed (name, value) keeps attributes well formed.
proof fn lemma_add_parsed_well_formed(acc: Seq<AttrV>, name: Seq<char>, v: ValueV)
    requires
        attrs_well_formed(acc),
    ensures
        attrs_well_formed(add_parsed(acc, name, v)),
{
    let r = add_parsed(acc, name, v);
    assert forall|i: int| 0 <= i < r.len() implies (#[trigger] r[i]).name.len() > 0
        && r[i].values.len() >= 1 by {
        if name.len() == 0 && acc.len() > 0 && i == acc.len() - 1 {
            assert(acc[i] == acc.last());
        } else if i < acc.len() {
            assert(r[i] == acc[i]);
        }
    }
}

/// Parsing the attributes of a group keeps them well formed.
proof fn lemma_parse_attrs_well_formed(data: Seq<u8>, pos: int, acc: Seq<AttrV>)
    requires
        attrs_well_formed(acc),
    ensures
        spec_parse_attrs(data, pos, acc) matches Ok((attrs, _)) ==> attrs_well_formed(attrs),
    decreases data.len() - pos,
{
    reveal(spec_parse_attrs);
    if 0 <= pos < data.len() && data[pos] > 0x0F {
        let p1 = pos + 1;
        if data.len() - p1 >= 2 {
            let name_len = u16_of(data[p1], data[p1 + 1]) as int;
            let p2 = p1 + 2;
            if data.len() - p2 >= name_len {
                let nb = data.subrange(p2, p2 + name_len);
                let p3 = p2 + name_len;
                if data.len() - p3 >= 2 {
                    let value_len = u16_of(data[p3], data[p3 + 1]) as int;
                    let p4 = p3 + 2;
                    if data.len() - p4 >= value_len {
                        match spec_parse_value(data[pos], data.subrange(p4, p4 + value_len)) {
                            Err(e) => {},
                            Ok(v) => {
                                lemma_add_parsed_well_formed(acc, decode_utf8(nb), v);
                                lemma_parse_attrs_well_formed(
                                    data,
                                    p4 + value_len,
                                    add_parsed(acc, decode_utf8(nb), v),
                                );
                            },
                        }
                    }
                }
            }
        }
    }
}

/// Parsing the groups keeps them well formed, and ends within the data.
proof fn lemma_parse_groups_well_formed(data: Seq<u8>, pos: int, acc: Seq<GroupV>)
    requires
        groups_well_formed(acc),
    ensures
        spec_parse_groups(data, pos, acc) matches Ok((groups, p)) ==> groups_well_formed(groups)
            && pos <= p <= data.len(),
    decreases data.len() - pos,
{
    if 0 <= pos < data.len() && data[pos] != 0x03 && 0x01 <= data[pos] <= 0x05 {
        lemma_parse_attrs_advances(data, pos + 1, Seq::empty());
        lemma_parse_attrs_well_formed(data, pos + 1, Seq::empty());
        match spec_parse_attrs(data, pos + 1, Seq::empty()) {
            Err(e) => {},
            Ok((attrs, p)) => {
                let g = GroupV { delimiter: delimiter_from_byte(data[pos]).unwrap(), attributes: attrs };
                let acc2 = acc.push(g);
                assert(groups_well_formed(acc2)) by {
                    assert forall|i: int| 0 <= i < acc2.len() implies (#[trigger] acc2[i]).delimiter
                        != DelimiterTag::EndOfAttributes && attrs_well_formed(acc2[i].attributes) by {
                        if i < acc.len() {
                            assert(acc2[i] == acc[i]);
                        }
                    }
                }
                lemma_parse_groups_well_formed(data, p, acc2);
            },
        }
    }
}

/// What the parser gives back is well formed: every group is delimited by an operation,
/// job, printer or unsupported-attributes tag, every attribute has a non-empty name and at
/// least one value, and the document data is what follows the attributes, to the end of
/// the input.
pub proof fn lemma_parsed_request_well_formed(data: Seq<u8>)
    ensures
        spec_parse_request(data) matches Ok(r) ==> {
            &&& groups_well_formed(r.attribute_groups)
            &&& r.document_data.len() <= data.len()
            &&& r.document_data == data.subrange(data.len() - r.document_data.len(), data.len() as int)
        },
{
    lemma_parse_groups_well_formed(data, 8, Seq::empty());
}

} // verus!
