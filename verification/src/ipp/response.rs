use vstd::prelude::*;
use vstd::utf8::encode_utf8;
use crate::ipp::types::{
    AttrV, DelimiterTag, GroupV, IppAttribute, IppAttributeGroup, IppResponse, IppStatusCode,
    IppValue, IppVersion, ResponseV, ValueV, attrs_view, groups_view, members_view, values_view,
};
use vstd::string::StringExecFns;
use crate::ipp::wire::{
    attr_encoding, attr_values_encoding, attrs_encoding, group_encoding, groups_encoding,
    members_encoding, name_value_bytes, push_be_u16, push_be_u32, response_encoding,
    value_encoding,
};

verus! {

/// Builds an [`IppResponse`] step by step.
pub struct IppResponseBuilder {
    version: IppVersion,
    status_code: IppStatusCode,
    request_id: u32,
    groups: Vec<IppAttributeGroup>,
}

impl View for IppResponseBuilder {
    type V = ResponseV;

    /// The response that `build` would give now.
    closed spec fn view(&self) -> ResponseV {
        ResponseV {
            version: self.version,
            status_code: self.status_code,
            request_id: self.request_id,
            attribute_groups: groups_view(self.groups@),
        }
    }
}

/// One call on a builder: setting the version, or appending a group.
pub enum BuildStep {
    Version(IppVersion),
    AddGroup(GroupV),
}

/// The response a builder holds after one more call.
pub open spec fn apply_step(b: ResponseV, step: BuildStep) -> ResponseV {
    match step {
        BuildStep::Version(v) => ResponseV { version: v, ..b },
        BuildStep::AddGroup(g) => ResponseV { attribute_groups: b.attribute_groups.push(g), ..b },
    }
}

/// The response a builder holds after the calls `steps`, in order.
pub open spec fn apply_steps(b: ResponseV, steps: Seq<BuildStep>) -> ResponseV
    decreases steps.len(),
{
    if steps.len() == 0 {
        b
    } else {
        apply_step(apply_steps(b, steps.drop_last()), steps.last())
    }
}

/// The last version set among the calls, or `default` when none sets one.
pub open spec fn last_version(steps: Seq<BuildStep>, default: IppVersion) -> IppVersion
    decreases steps.len(),
{
    if steps.len() == 0 {
        default
    } else {
        match steps.last() {
            BuildStep::Version(v) => v,
            BuildStep::AddGroup(_) => last_version(steps.drop_last(), default),
        }
    }
}

/// The groups appended by the calls, in call order.
pub open spec fn added_groups(steps: Seq<BuildStep>) -> Seq<GroupV>
    decreases steps.len(),
{
    if steps.len() == 0 {
        Seq::empty()
    } else {
        added_groups(steps.drop_last()) + match steps.last() {
            BuildStep::Version(_) => Seq::empty(),
            BuildStep::AddGroup(g) => seq![g],
        }
    }
}

/// A builder made with `new(status, id)` and then given any calls of `version` and
/// `add_group` builds the response with the last version set (2.0 if none), that status and
/// id, and the groups in the order they were added.
pub proof fn lemma_builder_steps(status: IppStatusCode, request_id: u32, steps: Seq<BuildStep>)
    ensures
        apply_steps(
            ResponseV {
                version: IppVersion { major: 2, minor: 0 },
                status_code: status,
                request_id,
                attribute_groups: Seq::empty(),
            },
            steps,
        ) == (ResponseV {
            version: last_version(steps, IppVersion { major: 2, minor: 0 }),
            status_code: status,
            request_id,
            attribute_groups: added_groups(steps),
        }),
    decreases steps.len(),
{
    if steps.len() > 0 {
        lemma_builder_steps(status, request_id, steps.drop_last());
        match steps.last() {
            BuildStep::Version(_) => {
                assert(added_groups(steps) =~= added_groups(steps.drop_last()));
            },
            BuildStep::AddGroup(g) => {
                assert(added_groups(steps) =~= added_groups(steps.drop_last()).push(g));
            },
        }
    }
}

impl IppResponseBuilder {
    /// A builder for an IPP/2.0 response with no groups.
    pub fn new(status_code: IppStatusCode, request_id: u32) -> (b: Self)
        ensures
            b@ == (ResponseV {
                version: IppVersion { major: 2, minor: 0 },
                status_code,
                request_id,
                attribute_groups: Seq::empty(),
            }),
    {
        let b = IppResponseBuilder {
            version: IppVersion::ipp_2_0(),
            status_code,
            request_id,
            groups: Vec::new(),
        };
        proof {
            assert(groups_view(b.groups@) =~= Seq::<GroupV>::empty());
        }
        b
    }

    /// Sets the version.
    pub fn version(self, v: IppVersion) -> (b: Self)
        ensures
            b@ == apply_step(self@, BuildStep::Version(v)),
    {
        IppResponseBuilder { version: v, ..self }
    }

    /// Appends a group.
    pub fn add_group(self, group: IppAttributeGroup) -> (b: Self)
        ensures
            b@ == apply_step(self@, BuildStep::AddGroup(group@)),
    {
        let mut s = self;
        let ghost old_groups = s.groups@;
        s.groups.push(group);
        proof {
            assert(groups_view(s.groups@) =~= groups_view(old_groups).push(group@));
        }
        s
    }

    /// The response built so far.
    pub fn build(self) -> (r: IppResponse)
        ensures
            r@ == self@,
    {
        IppResponse {
            version: self.version,
            status_code: self.status_code,
            request_id: self.request_id,
            attribute_groups: self.groups,
        }
    }
}

/// Appends the bytes of a slice.
fn extend_bytes(buf: &mut Vec<u8>, s: &[u8])
    ensures
        final(buf)@ == old(buf)@ + s@,
{
    buf.extend_from_slice(s);
    proof {
        assert(final(buf)@ =~= old(buf)@ + s@);
    }
}

/// Write (name_len name value_len value) — the two length-prefixed fields of an IPP TLV.
fn write_name_value(buf: &mut Vec<u8>, name: &[u8], value: &[u8])
    ensures
        final(buf)@ == old(buf)@ + name_value_bytes(name@, value@),
{
    push_be_u16(buf, name.len() as u16);
    extend_bytes(buf, name);
    push_be_u16(buf, value.len() as u16);
    extend_bytes(buf, value);
    proof {
        assert(final(buf)@ =~= old(buf)@ + name_value_bytes(name@, value@));
    }
}

/// Serialize one value with its attribute name into `buf`.
/// `attr_name` is empty for additional set-of values and for collection members.
/// Collections are written as begCollection, then memberAttrName and value per member,
/// then endCollection.
fn serialize_value(buf: &mut Vec<u8>, attr_name: &[u8], value: &IppValue)
    ensures
        final(buf)@ == old(buf)@ + value_encoding(attr_name@, value@),
    decreases value,
{
    let empty: Vec<u8> = Vec::new();
    match value {
        IppValue::Collection(members) => {
            let ghost start = buf@;
            buf.push(0x34);
            write_name_value(buf, attr_name, empty.as_slice());
            let ghost head = buf@;
            let mut i: usize = 0;
            while i < members.len()
                invariant
                    *value == IppValue::Collection(*members),
                    empty@ == Seq::<u8>::empty(),
                    i <= members@.len(),
                    buf@ == head + members_encoding(members_view(members@.take(i as int))),
                decreases members@.len() - i,
            {
                proof {
                    let m = members@[i as int];
                    assert(decreases_to!(*value => value->Collection_0));
                    assert(decreases_to!(*value => *members));
                    assert(decreases_to!(*members => members@));
                    assert(decreases_to!(members@ => m));
                    assert(decreases_to!(m => m.1));
                }
                let ghost before = buf@;
                buf.push(0x4A);
                write_name_value(buf, empty.as_slice(), members[i].0.as_str().as_bytes());
                serialize_value(buf, empty.as_slice(), &members[i].1);
                proof {
                    let prev = members_view(members@.take(i as int));
                    let m = members@[i as int];
                    assert(members@.take(i + 1).drop_last() =~= members@.take(i as int));
                    let next = members_view(members@.take(i + 1));
                    assert(next == prev.push((m.0@, m.1@)));
                    assert(next.drop_last() =~= prev);
                    assert(buf@ =~= head + members_encoding(next));
                }
                i = i + 1;
            }
            proof {
                assert(members@.take(members@.len() as int) =~= members@);
            }
            buf.push(0x37);
            write_name_value(buf, empty.as_slice(), empty.as_slice());
            proof {
                assert(buf@ =~= start + value_encoding(attr_name@, value@));
            }
        },
        _ => {
            let ghost start = buf@;
            buf.push(value.value_tag());
            let vb = value.serialized_value();
            write_name_value(buf, attr_name, vb.as_slice());
            proof {
                assert(buf@ =~= start + value_encoding(attr_name@, value@));
            }
        },
    }
}

/// Serialize one attribute: its first value under its name, the others under an empty name.
fn serialize_attribute(buf: &mut Vec<u8>, attr: &IppAttribute)
    ensures
        final(buf)@ == old(buf)@ + attr_encoding(attr@),
{
    let ghost start = buf@;
    let name = attr.name.as_str().as_bytes();
    let empty: Vec<u8> = Vec::new();
    let ghost vv = values_view(attr.values@);
    let mut i: usize = 0;
    while i < attr.values.len()
        invariant
            name@ == encode_utf8(attr.name@),
            empty@ == Seq::<u8>::empty(),
            vv == values_view(attr.values@),
            i <= attr.values@.len(),
            buf@ == start + attr_values_encoding(name@, vv.take(i as int)),
        decreases attr.values@.len() - i,
    {
        if i == 0 {
            serialize_value(buf, name, &attr.values[i]);
        } else {
            serialize_value(buf, empty.as_slice(), &attr.values[i]);
        }
        proof {
            assert(vv.take(i + 1).drop_last() =~= vv.take(i as int));
            assert(vv.take(i + 1).last() == attr.values@[i as int]@);
            assert(buf@ =~= start + attr_values_encoding(name@, vv.take(i + 1)));
        }
        i = i + 1;
    }
    proof {
        assert(vv.take(attr.values@.len() as int) =~= vv);
    }
}

/// Serialize one group: its delimiter, then its attributes.
fn serialize_group(buf: &mut Vec<u8>, group: &IppAttributeGroup)
    ensures
        final(buf)@ == old(buf)@ + group_encoding(group@),
{
    let ghost start = buf@;
    buf.push(group.delimiter.byte());
    let ghost av = attrs_view(group.attributes@);
    let mut i: usize = 0;
    while i < group.attributes.len()
        invariant
            av == attrs_view(group.attributes@),
            i <= group.attributes@.len(),
            buf@ == start + seq![crate::ipp::types::delimiter_byte(group.delimiter)]
                + attrs_encoding(av.take(i as int)),
        decreases group.attributes@.len() - i,
    {
        serialize_attribute(buf, &group.attributes[i]);
        proof {
            assert(av.take(i + 1).drop_last() =~= av.take(i as int));
            assert(av.take(i + 1).last() == group.attributes@[i as int]@);
            assert(buf@ =~= start + seq![crate::ipp::types::delimiter_byte(group.delimiter)]
                + attrs_encoding(av.take(i + 1)));
        }
        i = i + 1;
    }
    proof {
        assert(av.take(group.attributes@.len() as int) =~= av);
        assert(buf@ =~= start + group_encoding(group@));
    }
}

/// Serialize an IppResponse to bytes
pub fn serialize_response(resp: &IppResponse) -> (bytes: Vec<u8>)
    ensures
        bytes@ == response_encoding(resp@),
{
    let mut buf: Vec<u8> = Vec::new();
    buf.push(resp.version.major);
    buf.push(resp.version.minor);
    push_be_u16(&mut buf, resp.status_code.code());
    push_be_u32(&mut buf, resp.request_id);
    let ghost head = buf@;
    let ghost gv = groups_view(resp.attribute_groups@);
    let mut i: usize = 0;
    while i < resp.attribute_groups.len()
        invariant
            gv == groups_view(resp.attribute_groups@),
            i <= resp.attribute_groups@.len(),
            buf@ == head + groups_encoding(gv.take(i as int)),
        decreases resp.attribute_groups@.len() - i,
    {
        serialize_group(&mut buf, &resp.attribute_groups[i]);
        proof {
            assert(gv.take(i + 1).drop_last() =~= gv.take(i as int));
            assert(gv.take(i + 1).last() == resp.attribute_groups@[i as int]@);
            assert(buf@ =~= head + groups_encoding(gv.take(i + 1)));
        }
        i = i + 1;
    }
    buf.push(0x03);
    proof {
        assert(gv.take(resp.attribute_groups@.len() as int) =~= gv);
        assert(buf@ =~= response_encoding(resp@));
    }
    buf
}

/// The operation-attributes group every response starts with: charset utf-8, language en.
pub open spec fn standard_operation_group() -> GroupV {
    GroupV {
        delimiter: DelimiterTag::OperationAttributes,
        attributes: seq![
            AttrV { name: "attributes-charset"@, values: seq![ValueV::Charset("utf-8"@)] },
            AttrV {
                name: "attributes-natural-language"@,
                values: seq![ValueV::NaturalLanguage("en"@)],
            },
        ],
    }
}

/// Helper: build a minimal operation-attributes group for responses
pub fn standard_operation_attrs(request_id: u32) -> (g: IppAttributeGroup)
    ensures
        g@ == standard_operation_group(),
{
    let _ = request_id;
    let mut group = IppAttributeGroup::new(DelimiterTag::OperationAttributes);
    group.add(
        IppAttribute::new("attributes-charset", IppValue::Charset(String::from_str("utf-8"))),
    );
    group.add(
        IppAttribute::new(
            "attributes-natural-language",
            IppValue::NaturalLanguage(String::from_str("en")),
        ),
    );
    proof {
        assert(group@.attributes =~= standard_operation_group().attributes);
    }
    group
}

} // verus!
