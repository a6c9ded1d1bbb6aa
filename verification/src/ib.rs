//! The blocks that messages are made of, and the meaning of a write to a
//! list attribute.

use vstd::prelude::*;
use crate::codec::{
    after_field, field, lemma_encode_decode, lemma_field_round_trip, lemma_tags_from, prepend_opt,
    push_opt, FieldCursor, FromTLV, Nullable, ToTLV,
};
use crate::error::Error;
use crate::objects::{AttrDetails, EncodeValue};
use crate::path::{AttrId, ClusterId, EndptId, GenericPath};
use crate::status::IMStatusCode;
use crate::tlv::{ElementType, ElementView, TLVElement, TagType, ValueView};
use crate::writer::{group_writer, TLVWriter};

verus! {

broadcast use group_writer;

/// A protocol status with a cluster-specific code beside it.
#[derive(Clone, Copy, Debug, PartialEq, Eq, Structural)]
pub struct Status {
    pub status: IMStatusCode,
    pub cluster_status: u16,
}

impl Status {
    pub fn new(status: IMStatusCode, cluster_status: u16) -> (s: Status)
        ensures
            s == (Status { status, cluster_status }),
    {
        Status { status, cluster_status }
    }

    /// The members of the structure that is written for the status.
    pub open spec fn fields(self) -> Seq<ElementView> {
        let s = Seq::<ElementView>::empty();
        let s = push_opt(s, <IMStatusCode as ToTLV>::encoded(self.status, TagType::Context(0)));
        push_opt(s, <u16 as ToTLV>::encoded(self.cluster_status, TagType::Context(1)))
    }

    /// What the members of a structure decode to.
    pub open spec fn from_fields(items: Seq<ElementView>) -> Result<Status, Error> {
        let p = 0int;
        let status = field::<IMStatusCode>(items, p, 0);
        let p = after_field(items, p, 0);
        let cluster_status = field::<u16>(items, p, 1);
        match (status, cluster_status) {
            (Ok(status), Ok(cluster_status)) => Ok(Status { status, cluster_status }),
            (Err(err), _) => Err(err),
            (_, Err(err)) => Err(err),
        }
    }
}

impl ToTLV for Status {
    type Model = Status;

    open spec fn model(&self) -> Status {
        *self
    }

    open spec fn present(m: Status) -> bool {
        true
    }

    open spec fn encoded(m: Status, tag: TagType) -> Option<ElementView> {
        Some(ElementView { tag, value: ValueView::Struct(m.fields()) })
    }

    fn to_tlv(&self, tw: &mut TLVWriter, tag: TagType) -> (r: Result<(), Error>) {
        let _ = tw.start_struct(tag);
        let _ = self.status.to_tlv(tw, TagType::Context(0));
        let _ = self.cluster_status.to_tlv(tw, TagType::Context(1));
        tw.end_container()
    }

    proof fn lemma_encoded(m: Status, tag: TagType) {
    }
}

impl<'a> FromTLV<'a> for Status {
    open spec fn decoded(e: ElementView) -> Result<Status, Error> {
        match e.value {
            ValueView::Struct(items) => Status::from_fields(items),
            _ => Err(Error::TLVTypeMismatch),
        }
    }

    open spec fn absent() -> Result<Status, Error> {
        Err(Error::TLVNotFound)
    }

    open spec fn accepted(m: Status) -> bool {
        true
    }

    fn from_tlv(e: &'a TLVElement) -> (r: Result<Self, Error>) {
        let mut c = FieldCursor::new(e.struct_members()?);
        let status = c.field::<IMStatusCode>(0)?;
        let cluster_status = c.field::<u16>(1)?;
        Ok(Status { status, cluster_status })
    }

    fn tlv_not_found() -> (r: Result<Self, Error>) {
        Err(Error::TLVNotFound)
    }

    proof fn lemma_round_trip(m: Status, tag: TagType) {
    }
}

/// The path of an attribute, or with wildcards of many. The list index tells
/// three ways of addressing apart: absent, null, and a given entry.
#[derive(Clone, Copy, Debug, PartialEq, Eq)]
pub struct AttrPath {
    pub tag_compression: Option<bool>,
    pub node: Option<u64>,
    pub endpoint: Option<EndptId>,
    pub cluster: Option<ClusterId>,
    pub attr: Option<AttrId>,
    pub list_index: Option<Nullable<u16>>,
}

impl Default for AttrPath {
    fn default() -> (p: Self)
        ensures
            p == (AttrPath {
                tag_compression: None,
                node: None,
                endpoint: None,
                cluster: None,
                attr: None,
                list_index: None,
            }),
    {
        AttrPath {
            tag_compression: None,
            node: None,
            endpoint: None,
            cluster: None,
            attr: None,
            list_index: None,
        }
    }
}

/// The low 16 bits of a leaf, which is the attribute that it names.
pub open spec fn attr_of_leaf(leaf: u32) -> AttrId {
    (leaf % 0x1_0000) as u16
}

impl AttrPath {
    /// The attribute path that a generic path projects to: endpoint and
    /// cluster as they are, the leaf narrowed to its low 16 bits, and
    /// everything else unset.
    pub open spec fn of_gp(path: GenericPath) -> AttrPath {
        AttrPath {
            tag_compression: None,
            node: None,
            endpoint: path.endpoint,
            cluster: path.cluster,
            attr: match path.leaf {
                Some(leaf) => Some(attr_of_leaf(leaf)),
                None => None,
            },
            list_index: None,
        }
    }

    /// The generic path that the attribute path widens to.
    pub open spec fn gp(self) -> GenericPath {
        GenericPath {
            endpoint: self.endpoint,
            cluster: self.cluster,
            leaf: match self.attr {
                Some(attr) => Some(attr as u32),
                None => None,
            },
        }
    }

    pub fn new(path: &GenericPath) -> (p: Self)
        ensures
            p == AttrPath::of_gp(*path),
    {
        let attr = match path.leaf {
            Some(leaf) => {
                let low: u32 = leaf & 0xffff;
                assert(low == leaf % 0x1_0000) by (bit_vector)
                    requires
                        low == leaf & 0xffff,
                ;
                Some(low as u16)
            },
            None => None,
        };
        AttrPath {
            tag_compression: None,
            node: None,
            endpoint: path.endpoint,
            cluster: path.cluster,
            attr,
            list_index: None,
        }
    }

    pub fn to_gp(&self) -> (p: GenericPath)
        ensures
            p == self.gp(),
    {
        let leaf = match self.attr {
            Some(attr) => Some(attr as u32),
            None => None,
        };
        GenericPath::new(self.endpoint, self.cluster, leaf)
    }

    /// The members of the list that is written for the path.
    pub open spec fn fields(self) -> Seq<ElementView> {
        let s = Seq::<ElementView>::empty();
        let s = push_opt(s, <Option<bool> as ToTLV>::encoded(self.tag_compression, TagType::Context(0)));
        let s = push_opt(s, <Option<u64> as ToTLV>::encoded(self.node, TagType::Context(1)));
        let s = push_opt(s, <Option<u16> as ToTLV>::encoded(self.endpoint, TagType::Context(2)));
        let s = push_opt(s, <Option<u32> as ToTLV>::encoded(self.cluster, TagType::Context(3)));
        let s = push_opt(s, <Option<u16> as ToTLV>::encoded(self.attr, TagType::Context(4)));
        push_opt(s, <Option<Nullable<u16>> as ToTLV>::encoded(self.list_index, TagType::Context(5)))
    }

    /// What the members of a list decode to.
    pub open spec fn from_fields(items: Seq<ElementView>) -> Result<AttrPath, Error> {
        let p = 0int;
        let tag_compression = field::<Option<bool>>(items, p, 0);
        let p = after_field(items, p, 0);
        let node = field::<Option<u64>>(items, p, 1);
        let p = after_field(items, p, 1);
        let endpoint = field::<Option<u16>>(items, p, 2);
        let p = after_field(items, p, 2);
        let cluster = field::<Option<u32>>(items, p, 3);
        let p = after_field(items, p, 3);
        let attr = field::<Option<u16>>(items, p, 4);
        let p = after_field(items, p, 4);
        let list_index = field::<Option<Nullable<u16>>>(items, p, 5);
        match (tag_compression, node, endpoint, cluster, attr, list_index) {
            (Ok(tag_compression), Ok(node), Ok(endpoint), Ok(cluster), Ok(attr), Ok(list_index)) => Ok(
                AttrPath { tag_compression, node, endpoint, cluster, attr, list_index },
            ),
            (Err(err), _, _, _, _, _) => Err(err),
            (_, Err(err), _, _, _, _) => Err(err),
            (_, _, Err(err), _, _, _) => Err(err),
            (_, _, _, Err(err), _, _) => Err(err),
            (_, _, _, _, Err(err), _) => Err(err),
            (_, _, _, _, _, Err(err)) => Err(err),
        }
    }
}

/// Projecting a generic path whose leaf fits in 16 bits to an attribute path
/// and widening it again gives the path back.
pub proof fn lemma_attr_path_round_trip(path: GenericPath)
    requires
        path.leaf matches Some(leaf) ==> leaf <= 0xffff,
    ensures
        AttrPath::of_gp(path).gp() == path,
{
}

/// Whatever the leaf, the attribute path keeps endpoint and cluster and the
/// low 16 bits of the leaf.
pub proof fn lemma_attr_path_narrows(path: GenericPath)
    ensures
        AttrPath::of_gp(path).gp().endpoint == path.endpoint,
        AttrPath::of_gp(path).gp().cluster == path.cluster,
        path.leaf is None ==> AttrPath::of_gp(path).gp().leaf is None,
        path.leaf matches Some(leaf) ==> AttrPath::of_gp(path).gp().leaf == Some(
            (leaf % 0x1_0000) as u32,
        ),
{
}

impl ToTLV for AttrPath {
    type Model = AttrPath;

    open spec fn model(&self) -> AttrPath {
        *self
    }

    open spec fn present(m: AttrPath) -> bool {
        true
    }

    open spec fn encoded(m: AttrPath, tag: TagType) -> Option<ElementView> {
        Some(ElementView { tag, value: ValueView::List(m.fields()) })
    }

    fn to_tlv(&self, tw: &mut TLVWriter, tag: TagType) -> (r: Result<(), Error>) {
        let _ = tw.start_list(tag);
        let _ = self.tag_compression.to_tlv(tw, TagType::Context(0));
        let _ = self.node.to_tlv(tw, TagType::Context(1));
        let _ = self.endpoint.to_tlv(tw, TagType::Context(2));
        let _ = self.cluster.to_tlv(tw, TagType::Context(3));
        let _ = self.attr.to_tlv(tw, TagType::Context(4));
        let _ = self.list_index.to_tlv(tw, TagType::Context(5));
        tw.end_container()
    }

    proof fn lemma_encoded(m: AttrPath, tag: TagType) {
    }
}

impl<'a> FromTLV<'a> for AttrPath {
    open spec fn decoded(e: ElementView) -> Result<AttrPath, Error> {
        match e.value {
            ValueView::List(items) => AttrPath::from_fields(items),
            _ => Err(Error::TLVTypeMismatch),
        }
    }

    open spec fn absent() -> Result<AttrPath, Error> {
        Err(Error::TLVNotFound)
    }

    open spec fn accepted(m: AttrPath) -> bool {
        true
    }

    fn from_tlv(e: &'a TLVElement) -> (r: Result<Self, Error>) {
        let mut c = FieldCursor::new(e.list_members()?);
        let tag_compression = c.field::<Option<bool>>(0)?;
        let node = c.field::<Option<u64>>(1)?;
        let endpoint = c.field::<Option<u16>>(2)?;
        let cluster = c.field::<Option<u32>>(3)?;
        let attr = c.field::<Option<u16>>(4)?;
        let list_index = c.field::<Option<Nullable<u16>>>(5)?;
        Ok(AttrPath { tag_compression, node, endpoint, cluster, attr, list_index })
    }

    fn tlv_not_found() -> (r: Result<Self, Error>) {
        Err(Error::TLVNotFound)
    }

    proof fn lemma_round_trip(m: AttrPath, tag: TagType) {
        let o0 = <Option<bool> as ToTLV>::encoded(m.tag_compression, TagType::Context(0));
        let o1 = <Option<u64> as ToTLV>::encoded(m.node, TagType::Context(1));
        let o2 = <Option<u16> as ToTLV>::encoded(m.endpoint, TagType::Context(2));
        let o3 = <Option<u32> as ToTLV>::encoded(m.cluster, TagType::Context(3));
        let o4 = <Option<u16> as ToTLV>::encoded(m.attr, TagType::Context(4));
        let o5 = <Option<Nullable<u16>> as ToTLV>::encoded(m.list_index, TagType::Context(5));
        let r6 = Seq::<ElementView>::empty();
        let r5 = prepend_opt(o5, r6);
        let r4 = prepend_opt(o4, r5);
        let r3 = prepend_opt(o3, r4);
        let r2 = prepend_opt(o2, r3);
        let r1 = prepend_opt(o1, r2);
        let items = prepend_opt(o0, r1);
        lemma_tags_from::<Option<Nullable<u16>>>(m.list_index, 5, r6);
        lemma_tags_from::<Option<u16>>(m.attr, 4, r5);
        lemma_tags_from::<Option<u32>>(m.cluster, 3, r4);
        lemma_tags_from::<Option<u16>>(m.endpoint, 2, r3);
        lemma_tags_from::<Option<u64>>(m.node, 1, r2);
        let s0 = Seq::<ElementView>::empty();
        assert(items =~= s0 + items);
        lemma_field_round_trip::<Option<bool>>(items, s0, m.tag_compression, 0, r1);
        let s1 = push_opt(s0, o0);
        lemma_field_round_trip::<Option<u64>>(items, s1, m.node, 1, r2);
        let s2 = push_opt(s1, o1);
        lemma_field_round_trip::<Option<u16>>(items, s2, m.endpoint, 2, r3);
        let s3 = push_opt(s2, o2);
        lemma_field_round_trip::<Option<u32>>(items, s3, m.cluster, 3, r4);
        let s4 = push_opt(s3, o3);
        lemma_field_round_trip::<Option<u16>>(items, s4, m.attr, 4, r5);
        let s5 = push_opt(s4, o4);
        lemma_field_round_trip::<Option<Nullable<u16>>>(items, s5, m.list_index, 5, r6);
        assert(items =~= m.fields());
    }
}


/// The path of a command. The command itself is never a wildcard: a path
/// without one is refused when it is decoded.
#[derive(Clone, Copy, Debug, PartialEq, Eq, Structural)]
pub struct CmdPath {
    pub path: GenericPath,
}

impl Default for CmdPath {
    fn default() -> (p: Self)
        ensures
            p.path == (GenericPath { endpoint: None, cluster: None, leaf: None }),
    {
        CmdPath { path: GenericPath { endpoint: None, cluster: None, leaf: None } }
    }
}

impl CmdPath {
    pub fn new(endpoint: Option<EndptId>, cluster: Option<ClusterId>, command: Option<u16>) -> (p: Self)
        ensures
            p.path.endpoint == endpoint,
            p.path.cluster == cluster,
            p.path.leaf == (match command {
                Some(c) => Some(c as u32),
                None => None,
            }),
    {
        let leaf = match command {
            Some(c) => Some(c as u32),
            None => None,
        };
        CmdPath { path: GenericPath { endpoint, cluster, leaf } }
    }
}

/// A command path is written as its generic path.
impl ToTLV for CmdPath {
    type Model = CmdPath;

    open spec fn model(&self) -> CmdPath {
        *self
    }

    open spec fn present(m: CmdPath) -> bool {
        true
    }

    open spec fn encoded(m: CmdPath, tag: TagType) -> Option<ElementView> {
        <GenericPath as ToTLV>::encoded(m.path, tag)
    }

    fn to_tlv(&self, tw: &mut TLVWriter, tag: TagType) -> (r: Result<(), Error>) {
        self.path.to_tlv(tw, tag)
    }

    proof fn lemma_encoded(m: CmdPath, tag: TagType) {
    }
}

impl<'a> FromTLV<'a> for CmdPath {
    open spec fn decoded(e: ElementView) -> Result<CmdPath, Error> {
        match <GenericPath as FromTLV>::decoded(e) {
            Ok(path) => if path.leaf is None {
                Err(Error::CommandNotFound)
            } else {
                Ok(CmdPath { path })
            },
            Err(err) => Err(err),
        }
    }

    open spec fn absent() -> Result<CmdPath, Error> {
        Err(Error::TLVNotFound)
    }

    open spec fn accepted(m: CmdPath) -> bool {
        m.path.leaf is Some
    }

    fn from_tlv(e: &'a TLVElement) -> (r: Result<Self, Error>) {
        let c = CmdPath { path: GenericPath::from_tlv(e)? };
        if c.path.leaf.is_none() {
            Err(Error::CommandNotFound)
        } else {
            Ok(c)
        }
    }

    fn tlv_not_found() -> (r: Result<Self, Error>) {
        Err(Error::TLVNotFound)
    }

    proof fn lemma_round_trip(m: CmdPath, tag: TagType) {
        <GenericPath as FromTLV>::lemma_round_trip(m.path, tag);
    }
}

/// A command path written without a command is refused as naming no
/// command, whatever its endpoint and cluster and whatever tag it is under.
pub proof fn lemma_cmd_path_needs_command(
    endpoint: Option<EndptId>,
    cluster: Option<ClusterId>,
    tag: TagType,
)
    ensures
        <GenericPath as ToTLV>::encoded(GenericPath { endpoint, cluster, leaf: None }, tag) matches Some(e)
            && <CmdPath as FromTLV>::decoded(e) == Err::<CmdPath, Error>(Error::CommandNotFound),
{
    let path = GenericPath { endpoint, cluster, leaf: None };
    lemma_encode_decode::<GenericPath>(path, tag);
}

/// The path of a cluster, without wildcards.
#[derive(Clone, Copy, Debug, PartialEq, Eq, Structural)]
pub struct ClusterPath {
    pub node: Option<u64>,
    pub endpoint: EndptId,
    pub cluster: ClusterId,
}

impl ClusterPath {
    /// The members of the structure that is written for the value.
    pub open spec fn fields(self) -> Seq<ElementView> {
        let s = Seq::<ElementView>::empty();
        let s = push_opt(s, <Option<u64> as ToTLV>::encoded(self.node, TagType::Context(0)));
        let s = push_opt(s, <u16 as ToTLV>::encoded(self.endpoint, TagType::Context(1)));
        push_opt(s, <u32 as ToTLV>::encoded(self.cluster, TagType::Context(2)))
    }

    /// What the members of a structure decode to, read in order.
    pub open spec fn from_fields(items: Seq<ElementView>) -> Result<ClusterPath, Error> {
        let p = 0int;
        let node = field::<Option<u64>>(items, p, 0);
        let p = after_field(items, p, 0);
        let endpoint = field::<u16>(items, p, 1);
        let p = after_field(items, p, 1);
        let cluster = field::<u32>(items, p, 2);
        match (node, endpoint, cluster) {
            (Ok(node), Ok(endpoint), Ok(cluster)) => Ok(ClusterPath { node, endpoint, cluster }),
            (Err(err), _, _) => Err(err),
            (_, Err(err), _) => Err(err),
            (_, _, Err(err)) => Err(err),
        }
    }
}

impl ToTLV for ClusterPath {
    type Model = ClusterPath;

    open spec fn model(&self) -> ClusterPath {
        *self
    }

    open spec fn present(m: ClusterPath) -> bool {
        true
    }

    open spec fn encoded(m: ClusterPath, tag: TagType) -> Option<ElementView> {
        Some(ElementView { tag, value: ValueView::Struct(m.fields()) })
    }

    fn to_tlv(&self, tw: &mut TLVWriter, tag: TagType) -> (r: Result<(), Error>) {
        let _ = tw.start_struct(tag);
        let _ = self.node.to_tlv(tw, TagType::Context(0));
        let _ = self.endpoint.to_tlv(tw, TagType::Context(1));
        let _ = self.cluster.to_tlv(tw, TagType::Context(2));
        tw.end_container()
    }

    proof fn lemma_encoded(m: ClusterPath, tag: TagType) {
    }
}

impl<'a> FromTLV<'a> for ClusterPath {
    open spec fn decoded(e: ElementView) -> Result<ClusterPath, Error> {
        match e.value {
            ValueView::Struct(items) => ClusterPath::from_fields(items),
            _ => Err(Error::TLVTypeMismatch),
        }
    }

    open spec fn absent() -> Result<ClusterPath, Error> {
        Err(Error::TLVNotFound)
    }

    open spec fn accepted(m: ClusterPath) -> bool {
        true
    }

    fn from_tlv(e: &'a TLVElement) -> (r: Result<Self, Error>) {
        let mut c = FieldCursor::new(e.struct_members()?);
        let node = c.field::<Option<u64>>(0)?;
        let endpoint = c.field::<u16>(1)?;
        let cluster = c.field::<u32>(2)?;
        Ok(ClusterPath { node, endpoint, cluster })
    }

    fn tlv_not_found() -> (r: Result<Self, Error>) {
        Err(Error::TLVNotFound)
    }

    proof fn lemma_round_trip(m: ClusterPath, tag: TagType) {
        let o0 = <Option<u64> as ToTLV>::encoded(m.node, TagType::Context(0));
        let o1 = <u16 as ToTLV>::encoded(m.endpoint, TagType::Context(1));
        let o2 = <u32 as ToTLV>::encoded(m.cluster, TagType::Context(2));
        let r3 = Seq::<ElementView>::empty();
        let r2 = prepend_opt(o2, r3);
        lemma_tags_from::<u32>(m.cluster, 2, r3);
        let r1 = prepend_opt(o1, r2);
        lemma_tags_from::<u16>(m.endpoint, 1, r2);
        let r0 = prepend_opt(o0, r1);
        lemma_tags_from::<Option<u64>>(m.node, 0, r1);
        let items = r0;
        let s0 = Seq::<ElementView>::empty();
        assert(items =~= s0 + r0);
        lemma_field_round_trip::<Option<u64>>(items, s0, m.node, 0, r1);
        let s1 = push_opt(s0, o0);
        lemma_field_round_trip::<u16>(items, s1, m.endpoint, 1, r2);
        let s2 = push_opt(s1, o1);
        lemma_field_round_trip::<u32>(items, s2, m.cluster, 2, r3);
        let s3 = push_opt(s2, o2);
        assert(items =~= m.fields());
    }
}
/// Tells a reader's cached version of a cluster's data.
#[derive(Clone, Copy, Debug, PartialEq, Eq, Structural)]
pub struct DataVersionFilter {
    pub path: ClusterPath,
    pub data_ver: u32,
}

impl DataVersionFilter {
    /// The members of the structure that is written for the value.
    pub open spec fn fields(self) -> Seq<ElementView> {
        let s = Seq::<ElementView>::empty();
        let s = push_opt(s, <ClusterPath as ToTLV>::encoded(self.path, TagType::Context(0)));
        push_opt(s, <u32 as ToTLV>::encoded(self.data_ver, TagType::Context(1)))
    }

    /// What the members of a structure decode to, read in order.
    pub open spec fn from_fields(items: Seq<ElementView>) -> Result<DataVersionFilter, Error> {
        let p = 0int;
        let path = field::<ClusterPath>(items, p, 0);
        let p = after_field(items, p, 0);
        let data_ver = field::<u32>(items, p, 1);
        match (path, data_ver) {
            (Ok(path), Ok(data_ver)) => Ok(DataVersionFilter { path, data_ver }),
            (Err(err), _) => Err(err),
            (_, Err(err)) => Err(err),
        }
    }
}

impl ToTLV for DataVersionFilter {
    type Model = DataVersionFilter;

    open spec fn model(&self) -> DataVersionFilter {
        *self
    }

    open spec fn present(m: DataVersionFilter) -> bool {
        true
    }

    open spec fn encoded(m: DataVersionFilter, tag: TagType) -> Option<ElementView> {
        Some(ElementView { tag, value: ValueView::Struct(m.fields()) })
    }

    fn to_tlv(&self, tw: &mut TLVWriter, tag: TagType) -> (r: Result<(), Error>) {
        let _ = tw.start_struct(tag);
        let _ = self.path.to_tlv(tw, TagType::Context(0));
        let _ = self.data_ver.to_tlv(tw, TagType::Context(1));
        tw.end_container()
    }

    proof fn lemma_encoded(m: DataVersionFilter, tag: TagType) {
    }
}

impl<'a> FromTLV<'a> for DataVersionFilter {
    open spec fn decoded(e: ElementView) -> Result<DataVersionFilter, Error> {
        match e.value {
            ValueView::Struct(items) => DataVersionFilter::from_fields(items),
            _ => Err(Error::TLVTypeMismatch),
        }
    }

    open spec fn absent() -> Result<DataVersionFilter, Error> {
        Err(Error::TLVNotFound)
    }

    open spec fn accepted(m: DataVersionFilter) -> bool {
        true
    }

    fn from_tlv(e: &'a TLVElement) -> (r: Result<Self, Error>) {
        let mut c = FieldCursor::new(e.struct_members()?);
        let path = c.field::<ClusterPath>(0)?;
        let data_ver = c.field::<u32>(1)?;
        Ok(DataVersionFilter { path, data_ver })
    }

    fn tlv_not_found() -> (r: Result<Self, Error>) {
        Err(Error::TLVNotFound)
    }

    proof fn lemma_round_trip(m: DataVersionFilter, tag: TagType) {
        let o0 = <ClusterPath as ToTLV>::encoded(m.path, TagType::Context(0));
        let o1 = <u32 as ToTLV>::encoded(m.data_ver, TagType::Context(1));
        let r2 = Seq::<ElementView>::empty();
        let r1 = prepend_opt(o1, r2);
        lemma_tags_from::<u32>(m.data_ver, 1, r2);
        let r0 = prepend_opt(o0, r1);
        lemma_tags_from::<ClusterPath>(m.path, 0, r1);
        let items = r0;
        let s0 = Seq::<ElementView>::empty();
        assert(items =~= s0 + r0);
        lemma_field_round_trip::<ClusterPath>(items, s0, m.path, 0, r1);
        let s1 = push_opt(s0, o0);
        lemma_field_round_trip::<u32>(items, s1, m.data_ver, 1, r2);
        let s2 = push_opt(s1, o1);
        assert(items =~= m.fields());
    }
}
/// The path of an event, or with wildcards of many.
#[derive(Clone, Copy, Debug, PartialEq, Eq, Structural)]
pub struct EventPath {
    pub node: Option<u64>,
    pub endpoint: Option<EndptId>,
    pub cluster: Option<ClusterId>,
    pub event: Option<u32>,
    pub is_urgent: Option<bool>,
}

impl EventPath {
    /// The members of the list that is written for the value.
    pub open spec fn fields(self) -> Seq<ElementView> {
        let s = Seq::<ElementView>::empty();
        let s = push_opt(s, <Option<u64> as ToTLV>::encoded(self.node, TagType::Context(0)));
        let s = push_opt(s, <Option<u16> as ToTLV>::encoded(self.endpoint, TagType::Context(1)));
        let s = push_opt(s, <Option<u32> as ToTLV>::encoded(self.cluster, TagType::Context(2)));
        let s = push_opt(s, <Option<u32> as ToTLV>::encoded(self.event, TagType::Context(3)));
        push_opt(s, <Option<bool> as ToTLV>::encoded(self.is_urgent, TagType::Context(4)))
    }

    /// What the members of a list decode to, read in order.
    pub open spec fn from_fields(items: Seq<ElementView>) -> Result<EventPath, Error> {
        let p = 0int;
        let node = field::<Option<u64>>(items, p, 0);
        let p = after_field(items, p, 0);
        let endpoint = field::<Option<u16>>(items, p, 1);
        let p = after_field(items, p, 1);
        let cluster = field::<Option<u32>>(items, p, 2);
        let p = after_field(items, p, 2);
        let event = field::<Option<u32>>(items, p, 3);
        let p = after_field(items, p, 3);
        let is_urgent = field::<Option<bool>>(items, p, 4);
        match (node, endpoint, cluster, event, is_urgent) {
            (Ok(node), Ok(endpoint), Ok(cluster), Ok(event), Ok(is_urgent)) => Ok(
                EventPath { node, endpoint, cluster, event, is_urgent },
            ),
            (Err(err), _, _, _, _) => Err(err),
            (_, Err(err), _, _, _) => Err(err),
            (_, _, Err(err), _, _) => Err(err),
            (_, _, _, Err(err), _) => Err(err),
            (_, _, _, _, Err(err)) => Err(err),
        }
    }
}

impl ToTLV for EventPath {
    type Model = EventPath;

    open spec fn model(&self) -> EventPath {
        *self
    }

    open spec fn present(m: EventPath) -> bool {
        true
    }

    open spec fn encoded(m: EventPath, tag: TagType) -> Option<ElementView> {
        Some(ElementView { tag, value: ValueView::List(m.fields()) })
    }

    fn to_tlv(&self, tw: &mut TLVWriter, tag: TagType) -> (r: Result<(), Error>) {
        let _ = tw.start_list(tag);
        let _ = self.node.to_tlv(tw, TagType::Context(0));
        let _ = self.endpoint.to_tlv(tw, TagType::Context(1));
        let _ = self.cluster.to_tlv(tw, TagType::Context(2));
        let _ = self.event.to_tlv(tw, TagType::Context(3));
        let _ = self.is_urgent.to_tlv(tw, TagType::Context(4));
        tw.end_container()
    }

    proof fn lemma_encoded(m: EventPath, tag: TagType) {
    }
}

impl<'a> FromTLV<'a> for EventPath {
    open spec fn decoded(e: ElementView) -> Result<EventPath, Error> {
        match e.value {
            ValueView::List(items) => EventPath::from_fields(items),
            _ => Err(Error::TLVTypeMismatch),
        }
    }

    open spec fn absent() -> Result<EventPath, Error> {
        Err(Error::TLVNotFound)
    }

    open spec fn accepted(m: EventPath) -> bool {
        true
    }

    fn from_tlv(e: &'a TLVElement) -> (r: Result<Self, Error>) {
        let mut c = FieldCursor::new(e.list_members()?);
        let node = c.field::<Option<u64>>(0)?;
        let endpoint = c.field::<Option<u16>>(1)?;
        let cluster = c.field::<Option<u32>>(2)?;
        let event = c.field::<Option<u32>>(3)?;
        let is_urgent = c.field::<Option<bool>>(4)?;
        Ok(EventPath { node, endpoint, cluster, event, is_urgent })
    }

    fn tlv_not_found() -> (r: Result<Self, Error>) {
        Err(Error::TLVNotFound)
    }

    proof fn lemma_round_trip(m: EventPath, tag: TagType) {
        let o0 = <Option<u64> as ToTLV>::encoded(m.node, TagType::Context(0));
        let o1 = <Option<u16> as ToTLV>::encoded(m.endpoint, TagType::Context(1));
        let o2 = <Option<u32> as ToTLV>::encoded(m.cluster, TagType::Context(2));
        let o3 = <Option<u32> as ToTLV>::encoded(m.event, TagType::Context(3));
        let o4 = <Option<bool> as ToTLV>::encoded(m.is_urgent, TagType::Context(4));
        let r5 = Seq::<ElementView>::empty();
        let r4 = prepend_opt(o4, r5);
        lemma_tags_from::<Option<bool>>(m.is_urgent, 4, r5);
        let r3 = prepend_opt(o3, r4);
        lemma_tags_from::<Option<u32>>(m.event, 3, r4);
        let r2 = prepend_opt(o2, r3);
        lemma_tags_from::<Option<u32>>(m.cluster, 2, r3);
        let r1 = prepend_opt(o1, r2);
        lemma_tags_from::<Option<u16>>(m.endpoint, 1, r2);
        let r0 = prepend_opt(o0, r1);
        lemma_tags_from::<Option<u64>>(m.node, 0, r1);
        let items = r0;
        let s0 = Seq::<ElementView>::empty();
        assert(items =~= s0 + r0);
        lemma_field_round_trip::<Option<u64>>(items, s0, m.node, 0, r1);
        let s1 = push_opt(s0, o0);
        lemma_field_round_trip::<Option<u16>>(items, s1, m.endpoint, 1, r2);
        let s2 = push_opt(s1, o1);
        lemma_field_round_trip::<Option<u32>>(items, s2, m.cluster, 2, r3);
        let s3 = push_opt(s2, o2);
        lemma_field_round_trip::<Option<u32>>(items, s3, m.event, 3, r4);
        let s4 = push_opt(s3, o3);
        lemma_field_round_trip::<Option<bool>>(items, s4, m.is_urgent, 4, r5);
        let s5 = push_opt(s4, o4);
        assert(items =~= m.fields());
    }
}
/// Limits the events reported to those from a given number on.
#[derive(Clone, Copy, Debug, PartialEq, Eq, Structural)]
pub struct EventFilter {
    pub node: Option<u64>,
    pub event_min: Option<u64>,
}

impl EventFilter {
    /// The members of the structure that is written for the value.
    pub open spec fn fields(self) -> Seq<ElementView> {
        let s = Seq::<ElementView>::empty();
        let s = push_opt(s, <Option<u64> as ToTLV>::encoded(self.node, TagType::Context(0)));
        push_opt(s, <Option<u64> as ToTLV>::encoded(self.event_min, TagType::Context(1)))
    }

    /// What the members of a structure decode to, read in order.
    pub open spec fn from_fields(items: Seq<ElementView>) -> Result<EventFilter, Error> {
        let p = 0int;
        let node = field::<Option<u64>>(items, p, 0);
        let p = after_field(items, p, 0);
        let event_min = field::<Option<u64>>(items, p, 1);
        match (node, event_min) {
            (Ok(node), Ok(event_min)) => Ok(EventFilter { node, event_min }),
            (Err(err), _) => Err(err),
            (_, Err(err)) => Err(err),
        }
    }
}

impl ToTLV for EventFilter {
    type Model = EventFilter;

    open spec fn model(&self) -> EventFilter {
        *self
    }

    open spec fn present(m: EventFilter) -> bool {
        true
    }

    open spec fn encoded(m: EventFilter, tag: TagType) -> Option<ElementView> {
        Some(ElementView { tag, value: ValueView::Struct(m.fields()) })
    }

    fn to_tlv(&self, tw: &mut TLVWriter, tag: TagType) -> (r: Result<(), Error>) {
        let _ = tw.start_struct(tag);
        let _ = self.node.to_tlv(tw, TagType::Context(0));
        let _ = self.event_min.to_tlv(tw, TagType::Context(1));
        tw.end_container()
    }

    proof fn lemma_encoded(m: EventFilter, tag: TagType) {
    }
}

impl<'a> FromTLV<'a> for EventFilter {
    open spec fn decoded(e: ElementView) -> Result<EventFilter, Error> {
        match e.value {
            ValueView::Struct(items) => EventFilter::from_fields(items),
            _ => Err(Error::TLVTypeMismatch),
        }
    }

    open spec fn absent() -> Result<EventFilter, Error> {
        Err(Error::TLVNotFound)
    }

    open spec fn accepted(m: EventFilter) -> bool {
        true
    }

    fn from_tlv(e: &'a TLVElement) -> (r: Result<Self, Error>) {
        let mut c = FieldCursor::new(e.struct_members()?);
        let node = c.field::<Option<u64>>(0)?;
        let event_min = c.field::<Option<u64>>(1)?;
        Ok(EventFilter { node, event_min })
    }

    fn tlv_not_found() -> (r: Result<Self, Error>) {
        Err(Error::TLVNotFound)
    }

    proof fn lemma_round_trip(m: EventFilter, tag: TagType) {
        let o0 = <Option<u64> as ToTLV>::encoded(m.node, TagType::Context(0));
        let o1 = <Option<u64> as ToTLV>::encoded(m.event_min, TagType::Context(1));
        let r2 = Seq::<ElementView>::empty();
        let r1 = prepend_opt(o1, r2);
        lemma_tags_from::<Option<u64>>(m.event_min, 1, r2);
        let r0 = prepend_opt(o0, r1);
        lemma_tags_from::<Option<u64>>(m.node, 0, r1);
        let items = r0;
        let s0 = Seq::<ElementView>::empty();
        assert(items =~= s0 + r0);
        lemma_field_round_trip::<Option<u64>>(items, s0, m.node, 0, r1);
        let s1 = push_opt(s0, o0);
        lemma_field_round_trip::<Option<u64>>(items, s1, m.event_min, 1, r2);
        let s2 = push_opt(s1, o1);
        assert(items =~= m.fields());
    }
}
/// The status of one attribute of a request.
#[derive(Clone, Copy, Debug, PartialEq, Eq)]
pub struct AttrStatus {
    pub path: AttrPath,
    pub status: Status,
}

impl AttrStatus {
    pub fn new(path: &GenericPath, status: IMStatusCode, cluster_status: u16) -> (s: Self)
        ensures
            s.path == AttrPath::of_gp(*path),
            s.status == (Status { status, cluster_status }),
    {
        AttrStatus { path: AttrPath::new(path), status: Status::new(status, cluster_status) }
    }
}

impl AttrStatus {
    /// The members of the structure that is written for the value.
    pub open spec fn fields(self) -> Seq<ElementView> {
        let s = Seq::<ElementView>::empty();
        let s = push_opt(s, <AttrPath as ToTLV>::encoded(self.path, TagType::Context(0)));
        push_opt(s, <Status as ToTLV>::encoded(self.status, TagType::Context(1)))
    }

    /// What the members of a structure decode to, read in order.
    pub open spec fn from_fields(items: Seq<ElementView>) -> Result<AttrStatus, Error> {
        let p = 0int;
        let path = field::<AttrPath>(items, p, 0);
        let p = after_field(items, p, 0);
        let status = field::<Status>(items, p, 1);
        match (path, status) {
            (Ok(path), Ok(status)) => Ok(AttrStatus { path, status }),
            (Err(err), _) => Err(err),
            (_, Err(err)) => Err(err),
        }
    }
}

impl ToTLV for AttrStatus {
    type Model = AttrStatus;

    open spec fn model(&self) -> AttrStatus {
        *self
    }

    open spec fn present(m: AttrStatus) -> bool {
        true
    }

    open spec fn encoded(m: AttrStatus, tag: TagType) -> Option<ElementView> {
        Some(ElementView { tag, value: ValueView::Struct(m.fields()) })
    }

    fn to_tlv(&self, tw: &mut TLVWriter, tag: TagType) -> (r: Result<(), Error>) {
        let _ = tw.start_struct(tag);
        let _ = self.path.to_tlv(tw, TagType::Context(0));
        let _ = self.status.to_tlv(tw, TagType::Context(1));
        tw.end_container()
    }

    proof fn lemma_encoded(m: AttrStatus, tag: TagType) {
    }
}

impl<'a> FromTLV<'a> for AttrStatus {
    open spec fn decoded(e: ElementView) -> Result<AttrStatus, Error> {
        match e.value {
            ValueView::Struct(items) => AttrStatus::from_fields(items),
            _ => Err(Error::TLVTypeMismatch),
        }
    }

    open spec fn absent() -> Result<AttrStatus, Error> {
        Err(Error::TLVNotFound)
    }

    open spec fn accepted(m: AttrStatus) -> bool {
        true
    }

    fn from_tlv(e: &'a TLVElement) -> (r: Result<Self, Error>) {
        let mut c = FieldCursor::new(e.struct_members()?);
        let path = c.field::<AttrPath>(0)?;
        let status = c.field::<Status>(1)?;
        Ok(AttrStatus { path, status })
    }

    fn tlv_not_found() -> (r: Result<Self, Error>) {
        Err(Error::TLVNotFound)
    }

    proof fn lemma_round_trip(m: AttrStatus, tag: TagType) {
        let o0 = <AttrPath as ToTLV>::encoded(m.path, TagType::Context(0));
        let o1 = <Status as ToTLV>::encoded(m.status, TagType::Context(1));
        let r2 = Seq::<ElementView>::empty();
        let r1 = prepend_opt(o1, r2);
        lemma_tags_from::<Status>(m.status, 1, r2);
        let r0 = prepend_opt(o0, r1);
        lemma_tags_from::<AttrPath>(m.path, 0, r1);
        let items = r0;
        let s0 = Seq::<ElementView>::empty();
        assert(items =~= s0 + r0);
        lemma_field_round_trip::<AttrPath>(items, s0, m.path, 0, r1);
        let s1 = push_opt(s0, o0);
        lemma_field_round_trip::<Status>(items, s1, m.status, 1, r2);
        let s2 = push_opt(s1, o1);
        assert(items =~= m.fields());
    }
}
/// The status of one command of a request.
#[derive(Clone, Copy, Debug, PartialEq, Eq, Structural)]
pub struct CmdStatus {
    pub path: CmdPath,
    pub status: Status,
}

impl CmdStatus {
    pub fn new(path: CmdPath, status: IMStatusCode, cluster_status: u16) -> (s: Self)
        ensures
            s == (CmdStatus { path, status: Status { status, cluster_status } }),
    {
        CmdStatus { path, status: Status { status, cluster_status } }
    }
}

impl CmdStatus {
    /// The members of the structure that is written for the value.
    pub open spec fn fields(self) -> Seq<ElementView> {
        let s = Seq::<ElementView>::empty();
        let s = push_opt(s, <CmdPath as ToTLV>::encoded(self.path, TagType::Context(0)));
        push_opt(s, <Status as ToTLV>::encoded(self.status, TagType::Context(1)))
    }

    /// What the members of a structure decode to, read in order.
    pub open spec fn from_fields(items: Seq<ElementView>) -> Result<CmdStatus, Error> {
        let p = 0int;
        let path = field::<CmdPath>(items, p, 0);
        let p = after_field(items, p, 0);
        let status = field::<Status>(items, p, 1);
        match (path, status) {
            (Ok(path), Ok(status)) => Ok(CmdStatus { path, status }),
            (Err(err), _) => Err(err),
            (_, Err(err)) => Err(err),
        }
    }
}

impl ToTLV for CmdStatus {
    type Model = CmdStatus;

    open spec fn model(&self) -> CmdStatus {
        *self
    }

    open spec fn present(m: CmdStatus) -> bool {
        true
    }

    open spec fn encoded(m: CmdStatus, tag: TagType) -> Option<ElementView> {
        Some(ElementView { tag, value: ValueView::Struct(m.fields()) })
    }

    fn to_tlv(&self, tw: &mut TLVWriter, tag: TagType) -> (r: Result<(), Error>) {
        let _ = tw.start_struct(tag);
        let _ = self.path.to_tlv(tw, TagType::Context(0));
        let _ = self.status.to_tlv(tw, TagType::Context(1));
        tw.end_container()
    }

    proof fn lemma_encoded(m: CmdStatus, tag: TagType) {
    }
}

impl<'a> FromTLV<'a> for CmdStatus {
    open spec fn decoded(e: ElementView) -> Result<CmdStatus, Error> {
        match e.value {
            ValueView::Struct(items) => CmdStatus::from_fields(items),
            _ => Err(Error::TLVTypeMismatch),
        }
    }

    open spec fn absent() -> Result<CmdStatus, Error> {
        Err(Error::TLVNotFound)
    }

    open spec fn accepted(m: CmdStatus) -> bool {
        <CmdPath as FromTLV>::accepted(m.path)
    }

    fn from_tlv(e: &'a TLVElement) -> (r: Result<Self, Error>) {
        let mut c = FieldCursor::new(e.struct_members()?);
        let path = c.field::<CmdPath>(0)?;
        let status = c.field::<Status>(1)?;
        Ok(CmdStatus { path, status })
    }

    fn tlv_not_found() -> (r: Result<Self, Error>) {
        Err(Error::TLVNotFound)
    }

    proof fn lemma_round_trip(m: CmdStatus, tag: TagType) {
        let o0 = <CmdPath as ToTLV>::encoded(m.path, TagType::Context(0));
        let o1 = <Status as ToTLV>::encoded(m.status, TagType::Context(1));
        let r2 = Seq::<ElementView>::empty();
        let r1 = prepend_opt(o1, r2);
        lemma_tags_from::<Status>(m.status, 1, r2);
        let r0 = prepend_opt(o0, r1);
        lemma_tags_from::<CmdPath>(m.path, 0, r1);
        let items = r0;
        let s0 = Seq::<ElementView>::empty();
        assert(items =~= s0 + r0);
        lemma_field_round_trip::<CmdPath>(items, s0, m.path, 0, r1);
        let s1 = push_opt(s0, o0);
        lemma_field_round_trip::<Status>(items, s1, m.status, 1, r2);
        let s2 = push_opt(s1, o1);
        assert(items =~= m.fields());
    }
}
/// A command with its payload.
#[derive(Clone, Copy)]
pub struct CmdData<'a> {
    pub path: CmdPath,
    pub data: EncodeValue<'a>,
}

/// Mathematical model of a command with its payload.
pub struct CmdDataModel {
    pub path: CmdPath,
    pub data: ValueView,
}

impl<'a> CmdData<'a> {
    pub fn new(path: CmdPath, data: EncodeValue<'a>) -> (c: Self)
        ensures
            c.path == path,
            c.data == data,
    {
        CmdData { path, data }
    }
}

impl CmdDataModel {
    /// The members of the structure that is written for the value.
    pub open spec fn fields(self) -> Seq<ElementView> {
        let s = Seq::<ElementView>::empty();
        let s = push_opt(s, <CmdPath as ToTLV>::encoded(self.path, TagType::Context(0)));
        push_opt(s, <EncodeValue<'static> as ToTLV>::encoded(self.data, TagType::Context(1)))
    }

    /// What the members of a structure decode to, read in order.
    pub open spec fn from_fields(items: Seq<ElementView>) -> Result<CmdDataModel, Error> {
        let p = 0int;
        let path = field::<CmdPath>(items, p, 0);
        let p = after_field(items, p, 0);
        let data = field::<EncodeValue<'static>>(items, p, 1);
        match (path, data) {
            (Ok(path), Ok(data)) => Ok(CmdDataModel { path, data }),
            (Err(err), _) => Err(err),
            (_, Err(err)) => Err(err),
        }
    }
}

impl<'a> ToTLV for CmdData<'a> {
    type Model = CmdDataModel;

    open spec fn model(&self) -> CmdDataModel {
        CmdDataModel { path: self.path.model(), data: self.data.model() }
    }

    open spec fn present(m: CmdDataModel) -> bool {
        true
    }

    open spec fn encoded(m: CmdDataModel, tag: TagType) -> Option<ElementView> {
        Some(ElementView { tag, value: ValueView::Struct(m.fields()) })
    }

    fn to_tlv(&self, tw: &mut TLVWriter, tag: TagType) -> (r: Result<(), Error>) {
        let _ = tw.start_struct(tag);
        let _ = self.path.to_tlv(tw, TagType::Context(0));
        let _ = self.data.to_tlv(tw, TagType::Context(1));
        tw.end_container()
    }

    proof fn lemma_encoded(m: CmdDataModel, tag: TagType) {
    }
}

impl<'a> FromTLV<'a> for CmdData<'a> {
    open spec fn decoded(e: ElementView) -> Result<CmdDataModel, Error> {
        match e.value {
            ValueView::Struct(items) => CmdDataModel::from_fields(items),
            _ => Err(Error::TLVTypeMismatch),
        }
    }

    open spec fn absent() -> Result<CmdDataModel, Error> {
        Err(Error::TLVNotFound)
    }

    open spec fn accepted(m: CmdDataModel) -> bool {
        <CmdPath as FromTLV>::accepted(m.path)
    }

    fn from_tlv(e: &'a TLVElement) -> (r: Result<Self, Error>) {
        let mut c = FieldCursor::new(e.struct_members()?);
        let path = c.field::<CmdPath>(0)?;
        let data = c.field::<EncodeValue<'a>>(1)?;
        Ok(CmdData { path, data })
    }

    fn tlv_not_found() -> (r: Result<Self, Error>) {
        Err(Error::TLVNotFound)
    }

    proof fn lemma_round_trip(m: CmdDataModel, tag: TagType) {
        let o0 = <CmdPath as ToTLV>::encoded(m.path, TagType::Context(0));
        let o1 = <EncodeValue<'static> as ToTLV>::encoded(m.data, TagType::Context(1));
        let r2 = Seq::<ElementView>::empty();
        let r1 = prepend_opt(o1, r2);
        lemma_tags_from::<EncodeValue<'static>>(m.data, 1, r2);
        let r0 = prepend_opt(o0, r1);
        lemma_tags_from::<CmdPath>(m.path, 0, r1);
        let items = r0;
        let s0 = Seq::<ElementView>::empty();
        assert(items =~= s0 + r0);
        lemma_field_round_trip::<CmdPath>(items, s0, m.path, 0, r1);
        let s1 = push_opt(s0, o0);
        lemma_field_round_trip::<EncodeValue<'static>>(items, s1, m.data, 1, r2);
        let s2 = push_opt(s1, o1);
        assert(items =~= m.fields());
    }
}
/// The data of an attribute, with the version of the cluster's data.
#[derive(Clone, Copy)]
pub struct AttrData<'a> {
    pub data_ver: Option<u32>,
    pub path: AttrPath,
    pub data: EncodeValue<'a>,
}

/// Mathematical model of the data of an attribute.
pub struct AttrDataModel {
    pub data_ver: Option<u32>,
    pub path: AttrPath,
    pub data: ValueView,
}

impl<'a> AttrData<'a> {
    pub fn new(data_ver: Option<u32>, path: AttrPath, data: EncodeValue<'a>) -> (d: Self)
        ensures
            d.data_ver == data_ver,
            d.path == path,
            d.data == data,
    {
        AttrData { data_ver, path, data }
    }
}

impl AttrDataModel {
    /// The members of the structure that is written for the value.
    pub open spec fn fields(self) -> Seq<ElementView> {
        let s = Seq::<ElementView>::empty();
        let s = push_opt(s, <Option<u32> as ToTLV>::encoded(self.data_ver, TagType::Context(0)));
        let s = push_opt(s, <AttrPath as ToTLV>::encoded(self.path, TagType::Context(1)));
        push_opt(s, <EncodeValue<'static> as ToTLV>::encoded(self.data, TagType::Context(2)))
    }

    /// What the members of a structure decode to, read in order.
    pub open spec fn from_fields(items: Seq<ElementView>) -> Result<AttrDataModel, Error> {
        let p = 0int;
        let data_ver = field::<Option<u32>>(items, p, 0);
        let p = after_field(items, p, 0);
        let path = field::<AttrPath>(items, p, 1);
        let p = after_field(items, p, 1);
        let data = field::<EncodeValue<'static>>(items, p, 2);
        match (data_ver, path, data) {
            (Ok(data_ver), Ok(path), Ok(data)) => Ok(AttrDataModel { data_ver, path, data }),
            (Err(err), _, _) => Err(err),
            (_, Err(err), _) => Err(err),
            (_, _, Err(err)) => Err(err),
        }
    }
}

impl<'a> ToTLV for AttrData<'a> {
    type Model = AttrDataModel;

    open spec fn model(&self) -> AttrDataModel {
        AttrDataModel {
            data_ver: self.data_ver.model(),
            path: self.path.model(),
            data: self.data.model(),
        }
    }

    open spec fn present(m: AttrDataModel) -> bool {
        true
    }

    open spec fn encoded(m: AttrDataModel, tag: TagType) -> Option<ElementView> {
        Some(ElementView { tag, value: ValueView::Struct(m.fields()) })
    }

    fn to_tlv(&self, tw: &mut TLVWriter, tag: TagType) -> (r: Result<(), Error>) {
        let _ = tw.start_struct(tag);
        let _ = self.data_ver.to_tlv(tw, TagType::Context(0));
        let _ = self.path.to_tlv(tw, TagType::Context(1));
        let _ = self.data.to_tlv(tw, TagType::Context(2));
        tw.end_container()
    }

    proof fn lemma_encoded(m: AttrDataModel, tag: TagType) {
    }
}

impl<'a> FromTLV<'a> for AttrData<'a> {
    open spec fn decoded(e: ElementView) -> Result<AttrDataModel, Error> {
        match e.value {
            ValueView::Struct(items) => AttrDataModel::from_fields(items),
            _ => Err(Error::TLVTypeMismatch),
        }
    }

    open spec fn absent() -> Result<AttrDataModel, Error> {
        Err(Error::TLVNotFound)
    }

    open spec fn accepted(m: AttrDataModel) -> bool {
        true
    }

    fn from_tlv(e: &'a TLVElement) -> (r: Result<Self, Error>) {
        let mut c = FieldCursor::new(e.struct_members()?);
        let data_ver = c.field::<Option<u32>>(0)?;
        let path = c.field::<AttrPath>(1)?;
        let data = c.field::<EncodeValue<'a>>(2)?;
        Ok(AttrData { data_ver, path, data })
    }

    fn tlv_not_found() -> (r: Result<Self, Error>) {
        Err(Error::TLVNotFound)
    }

    proof fn lemma_round_trip(m: AttrDataModel, tag: TagType) {
        let o0 = <Option<u32> as ToTLV>::encoded(m.data_ver, TagType::Context(0));
        let o1 = <AttrPath as ToTLV>::encoded(m.path, TagType::Context(1));
        let o2 = <EncodeValue<'static> as ToTLV>::encoded(m.data, TagType::Context(2));
        let r3 = Seq::<ElementView>::empty();
        let r2 = prepend_opt(o2, r3);
        lemma_tags_from::<EncodeValue<'static>>(m.data, 2, r3);
        let r1 = prepend_opt(o1, r2);
        lemma_tags_from::<AttrPath>(m.path, 1, r2);
        let r0 = prepend_opt(o0, r1);
        lemma_tags_from::<Option<u32>>(m.data_ver, 0, r1);
        let items = r0;
        let s0 = Seq::<ElementView>::empty();
        assert(items =~= s0 + r0);
        lemma_field_round_trip::<Option<u32>>(items, s0, m.data_ver, 0, r1);
        let s1 = push_opt(s0, o0);
        lemma_field_round_trip::<AttrPath>(items, s1, m.path, 1, r2);
        let s2 = push_opt(s1, o1);
        lemma_field_round_trip::<EncodeValue<'static>>(items, s2, m.data, 2, r3);
        let s3 = push_opt(s2, o2);
        assert(items =~= m.fields());
    }
}

/// The answer to one command: its data, or a status.
#[derive(Clone, Copy)]
pub enum InvResp<'a> {
    Cmd(CmdData<'a>),
    Status(CmdStatus),
}

/// Mathematical model of the answer to one command.
pub enum InvRespModel {
    Cmd(CmdDataModel),
    Status(CmdStatus),
}

impl InvRespModel {
    /// The one member of the structure that is written for the answer: the
    /// variant's content under the variant's context tag.
    pub open spec fn fields(self) -> Seq<ElementView> {
        push_opt(
            Seq::<ElementView>::empty(),
            match self {
                InvRespModel::Cmd(c) => <CmdData<'static> as ToTLV>::encoded(c, TagType::Context(0)),
                InvRespModel::Status(s) => <CmdStatus as ToTLV>::encoded(s, TagType::Context(1)),
            },
        )
    }

    /// What the members of a structure decode to: the first member picks
    /// the variant by its context tag.
    pub open spec fn from_fields(items: Seq<ElementView>) -> Result<InvRespModel, Error> {
        if items.len() == 0 {
            Err(Error::Invalid)
        } else {
            match items[0].tag {
                TagType::Context(t) => if t == 0 {
                    match <CmdData<'static> as FromTLV>::decoded(items[0]) {
                        Ok(c) => Ok(InvRespModel::Cmd(c)),
                        Err(err) => Err(err),
                    }
                } else if t == 1 {
                    match <CmdStatus as FromTLV>::decoded(items[0]) {
                        Ok(s) => Ok(InvRespModel::Status(s)),
                        Err(err) => Err(err),
                    }
                } else {
                    Err(Error::Invalid)
                },
                _ => Err(Error::TLVTypeMismatch),
            }
        }
    }
}

impl<'a> InvResp<'a> {
    /// The answer that carries the data of a command.
    pub fn cmd_new(endpoint: EndptId, cluster: ClusterId, cmd: u16, data: EncodeValue<'a>) -> (r: Self)
        ensures
            r matches InvResp::Cmd(c) && c.data == data && c.path.path == (GenericPath {
                endpoint: Some(endpoint),
                cluster: Some(cluster),
                leaf: Some(cmd as u32),
            }),
    {
        InvResp::Cmd(CmdData::new(CmdPath::new(Some(endpoint), Some(cluster), Some(cmd)), data))
    }

    /// The answer that reports a status for the command at `cmd_path`.
    pub fn status_new(cmd_path: CmdPath, status: IMStatusCode, cluster_status: u16) -> (r: Self)
        ensures
            r == InvResp::Status(
                CmdStatus { path: cmd_path, status: Status { status, cluster_status } },
            ),
    {
        InvResp::Status(CmdStatus { path: cmd_path, status: Status::new(status, cluster_status) })
    }
}

impl<'a> ToTLV for InvResp<'a> {
    type Model = InvRespModel;

    open spec fn model(&self) -> InvRespModel {
        match self {
            InvResp::Cmd(c) => InvRespModel::Cmd(c.model()),
            InvResp::Status(s) => InvRespModel::Status(*s),
        }
    }

    open spec fn present(m: InvRespModel) -> bool {
        true
    }

    open spec fn encoded(m: InvRespModel, tag: TagType) -> Option<ElementView> {
        Some(ElementView { tag, value: ValueView::Struct(m.fields()) })
    }

    fn to_tlv(&self, tw: &mut TLVWriter, tag: TagType) -> (r: Result<(), Error>) {
        let _ = tw.start_struct(tag);
        match self {
            InvResp::Cmd(c) => {
                let _ = c.to_tlv(tw, TagType::Context(0));
            },
            InvResp::Status(s) => {
                let _ = s.to_tlv(tw, TagType::Context(1));
            },
        }
        tw.end_container()
    }

    proof fn lemma_encoded(m: InvRespModel, tag: TagType) {
    }
}

impl<'a> FromTLV<'a> for InvResp<'a> {
    open spec fn decoded(e: ElementView) -> Result<InvRespModel, Error> {
        match e.value {
            ValueView::Struct(items) => InvRespModel::from_fields(items),
            _ => Err(Error::TLVTypeMismatch),
        }
    }

    open spec fn absent() -> Result<InvRespModel, Error> {
        Err(Error::TLVNotFound)
    }

    open spec fn accepted(m: InvRespModel) -> bool {
        match m {
            InvRespModel::Cmd(c) => <CmdData<'static> as FromTLV>::accepted(c),
            InvRespModel::Status(s) => <CmdStatus as FromTLV>::accepted(s),
        }
    }

    fn from_tlv(e: &'a TLVElement) -> (r: Result<Self, Error>) {
        let items = e.struct_members()?;
        if items.len() == 0 {
            return Err(Error::Invalid);
        }
        let item = &items[0];
        match item.get_tag() {
            TagType::Context(t) => {
                if t == 0 {
                    Ok(InvResp::Cmd(CmdData::from_tlv(item)?))
                } else if t == 1 {
                    Ok(InvResp::Status(CmdStatus::from_tlv(item)?))
                } else {
                    Err(Error::Invalid)
                }
            },
            _ => Err(Error::TLVTypeMismatch),
        }
    }

    fn tlv_not_found() -> (r: Result<Self, Error>) {
        Err(Error::TLVNotFound)
    }

    proof fn lemma_round_trip(m: InvRespModel, tag: TagType) {
        match m {
            InvRespModel::Cmd(c) => {
                lemma_encode_decode::<CmdData<'static>>(c, TagType::Context(0));
            },
            InvRespModel::Status(s) => {
                lemma_encode_decode::<CmdStatus>(s, TagType::Context(1));
            },
        }
    }
}

/// The answer to the read of one attribute: a status, or its data.
#[derive(Clone, Copy)]
pub enum AttrResp<'a> {
    Status(AttrStatus),
    Data(AttrData<'a>),
}

/// Mathematical model of the answer to the read of one attribute.
pub enum AttrRespModel {
    Status(AttrStatus),
    Data(AttrDataModel),
}

impl AttrRespModel {
    /// The one member of the structure that is written for the answer: the
    /// variant's content under the variant's context tag.
    pub open spec fn fields(self) -> Seq<ElementView> {
        push_opt(
            Seq::<ElementView>::empty(),
            match self {
                AttrRespModel::Status(s) => <AttrStatus as ToTLV>::encoded(s, TagType::Context(0)),
                AttrRespModel::Data(d) => <AttrData<'static> as ToTLV>::encoded(d, TagType::Context(1)),
            },
        )
    }

    /// What the members of a structure decode to: the first member picks
    /// the variant by its context tag.
    pub open spec fn from_fields(items: Seq<ElementView>) -> Result<AttrRespModel, Error> {
        if items.len() == 0 {
            Err(Error::Invalid)
        } else {
            match items[0].tag {
                TagType::Context(t) => if t == 0 {
                    match <AttrStatus as FromTLV>::decoded(items[0]) {
                        Ok(s) => Ok(AttrRespModel::Status(s)),
                        Err(err) => Err(err),
                    }
                } else if t == 1 {
                    match <AttrData<'static> as FromTLV>::decoded(items[0]) {
                        Ok(d) => Ok(AttrRespModel::Data(d)),
                        Err(err) => Err(err),
                    }
                } else {
                    Err(Error::Invalid)
                },
                _ => Err(Error::TLVTypeMismatch),
            }
        }
    }
}

impl<'a> AttrResp<'a> {
    /// The answer that carries the data of the attribute at `path`, stamped
    /// with the data version.
    pub fn new(data_ver: u32, path: &AttrPath, data: EncodeValue<'a>) -> (r: Self)
        ensures
            r matches AttrResp::Data(d) && d.data_ver == Some(data_ver) && d.path == *path && d.data
                == data,
    {
        AttrResp::Data(AttrData::new(Some(data_ver), *path, data))
    }

    /// The data of an answer that carries data. An answer that is a status
    /// has none, and the call is not allowed on it.
    pub fn unwrap_data(self) -> (d: AttrData<'a>)
        requires
            self is Data,
        ensures
            self == AttrResp::Data(d),
    {
        match self {
            AttrResp::Data(d) => d,
            AttrResp::Status(_) => {
                proof {
                    assert(false);
                }
                unreached()
            },
        }
    }
}

impl<'a> ToTLV for AttrResp<'a> {
    type Model = AttrRespModel;

    open spec fn model(&self) -> AttrRespModel {
        match self {
            AttrResp::Status(s) => AttrRespModel::Status(*s),
            AttrResp::Data(d) => AttrRespModel::Data(d.model()),
        }
    }

    open spec fn present(m: AttrRespModel) -> bool {
        true
    }

    open spec fn encoded(m: AttrRespModel, tag: TagType) -> Option<ElementView> {
        Some(ElementView { tag, value: ValueView::Struct(m.fields()) })
    }

    fn to_tlv(&self, tw: &mut TLVWriter, tag: TagType) -> (r: Result<(), Error>) {
        let _ = tw.start_struct(tag);
        match self {
            AttrResp::Status(s) => {
                let _ = s.to_tlv(tw, TagType::Context(0));
            },
            AttrResp::Data(d) => {
                let _ = d.to_tlv(tw, TagType::Context(1));
            },
        }
        tw.end_container()
    }

    proof fn lemma_encoded(m: AttrRespModel, tag: TagType) {
    }
}

impl<'a> FromTLV<'a> for AttrResp<'a> {
    open spec fn decoded(e: ElementView) -> Result<AttrRespModel, Error> {
        match e.value {
            ValueView::Struct(items) => AttrRespModel::from_fields(items),
            _ => Err(Error::TLVTypeMismatch),
        }
    }

    open spec fn absent() -> Result<AttrRespModel, Error> {
        Err(Error::TLVNotFound)
    }

    open spec fn accepted(m: AttrRespModel) -> bool {
        true
    }

    fn from_tlv(e: &'a TLVElement) -> (r: Result<Self, Error>) {
        let items = e.struct_members()?;
        if items.len() == 0 {
            return Err(Error::Invalid);
        }
        let item = &items[0];
        match item.get_tag() {
            TagType::Context(t) => {
                if t == 0 {
                    Ok(AttrResp::Status(AttrStatus::from_tlv(item)?))
                } else if t == 1 {
                    Ok(AttrResp::Data(AttrData::from_tlv(item)?))
                } else {
                    Err(Error::Invalid)
                }
            },
            _ => Err(Error::TLVTypeMismatch),
        }
    }

    fn tlv_not_found() -> (r: Result<Self, Error>) {
        Err(Error::TLVNotFound)
    }

    proof fn lemma_round_trip(m: AttrRespModel, tag: TagType) {
        match m {
            AttrRespModel::Status(s) => {
                lemma_encode_decode::<AttrStatus>(s, TagType::Context(0));
            },
            AttrRespModel::Data(d) => {
                lemma_encode_decode::<AttrData<'static>>(d, TagType::Context(1));
            },
        }
    }
}

/// The edits that a write can make to a list attribute.
#[derive(Clone, Copy, Debug, PartialEq, Eq, Structural)]
pub enum ListOperation {
    /// Append an item to the list.
    AddItem,
    /// Replace the item at an index.
    EditItem(u16),
    /// Remove the item at an index.
    DeleteItem(u16),
    /// Remove every item.
    DeleteList,
}

/// The edits that a write of `data` to a list attribute stands for, each
/// with the element it is applied with, in the order in which they are made.
///
/// With an index that is not null, one item is addressed: a null payload
/// deletes it, any other payload replaces it. Otherwise the whole list is
/// addressed: an array replaces it, by clearing the list and then adding the
/// members of the array in order; any other payload is added as one item.
pub open spec fn list_write_effects(list_index: Option<Nullable<u16>>, data: TLVElement) -> Seq<
    (ListOperation, TLVElement),
> {
    match list_index {
        Some(Nullable::NotNull(index)) => if data.value is Null {
            seq![(ListOperation::DeleteItem(index), data)]
        } else {
            seq![(ListOperation::EditItem(index), data)]
        },
        _ => match data.value {
            ElementType::Array(items) => seq![(ListOperation::DeleteList, data)] + Seq::new(
                items@.len(),
                |i: int| (ListOperation::AddItem, items@[i]),
            ),
            _ => seq![(ListOperation::AddItem, data)],
        },
    }
}

/// The edits that a write of `data` to a list attribute stands for, in
/// the order in which they are made, each with the element it is applied
/// with.
pub fn list_operations<'a>(attr: &AttrDetails, data: &'a TLVElement) -> (plan: Vec<
    (ListOperation, &'a TLVElement),
>)
    ensures
        plan@.len() == list_write_effects(attr.list_index, *data).len(),
        forall|i: int|
            0 <= i < plan@.len() ==> (#[trigger] plan@[i]).0 == list_write_effects(
                attr.list_index,
                *data,
            )[i].0 && *plan@[i].1 == list_write_effects(attr.list_index, *data)[i].1,
{
    let mut plan: Vec<(ListOperation, &'a TLVElement)> = Vec::new();
    if let Some(Nullable::NotNull(index)) = attr.list_index {
        if data.null().is_ok() {
            plan.push((ListOperation::DeleteItem(index), data));
        } else {
            plan.push((ListOperation::EditItem(index), data));
        }
    } else {
        match data.array_members() {
            Ok(items) => {
                plan.push((ListOperation::DeleteList, data));
                let mut i: usize = 0;
                while i < items.len()
                    invariant
                        i <= items.len(),
                        plan@.len() == i + 1,
                        plan@[0] == (ListOperation::DeleteList, data),
                        forall|j: int|
                            0 <= j < i ==> #[trigger] plan@[j + 1] == (ListOperation::AddItem, &items@[j]),
                    decreases items.len() - i,
                {
                    plan.push((ListOperation::AddItem, &items[i]));
                    i = i + 1;
                }
                assert forall|k: int| 0 <= k < plan@.len() implies (#[trigger] plan@[k]).0
                    == list_write_effects(attr.list_index, *data)[k].0 && *plan@[k].1
                    == list_write_effects(attr.list_index, *data)[k].1 by {
                    if k > 0 {
                        assert(plan@[(k - 1) + 1] == (ListOperation::AddItem, &items@[k - 1]));
                    }
                }
            },
            Err(_) => {
                plan.push((ListOperation::AddItem, data));
            },
        }
    }
    plan
}

/// What a write to a list attribute stands for, by the way the list is
/// addressed and by the shape of the payload.
pub proof fn lemma_list_write_table(list_index: Option<Nullable<u16>>, data: TLVElement)
    ensures
        (list_index matches Some(Nullable::NotNull(index)) && data.value is Null)
            ==> list_write_effects(list_index, data) == seq![
            (ListOperation::DeleteItem(list_index->0->0), data),
        ],
        (list_index matches Some(Nullable::NotNull(index)) && !(data.value is Null))
            ==> list_write_effects(list_index, data) == seq![
            (ListOperation::EditItem(list_index->0->0), data),
        ],
        (!(list_index matches Some(Nullable::NotNull(index))) && data.value is Array) ==> {
            let effects = list_write_effects(list_index, data);
            let items = data.value->Array_0@;
            &&& effects.len() == items.len() + 1
            &&& effects[0] == (ListOperation::DeleteList, data)
            &&& forall|k: int|
                0 <= k < items.len() ==> #[trigger] effects[k + 1] == (ListOperation::AddItem, items[k])
        },
        (!(list_index matches Some(Nullable::NotNull(index))) && !(data.value is Array))
            ==> list_write_effects(list_index, data) == seq![(ListOperation::AddItem, data)],
{
}

/// Whether the callback may be called with an edit.
pub open spec fn takes<F: FnMut(ListOperation, &TLVElement) -> Result<(), IMStatusCode>>(
    f: F,
    effect: (ListOperation, TLVElement),
) -> bool {
    call_requires(f, (effect.0, &effect.1))
}

/// Whether `r` is an answer of the callback to an edit.
pub open spec fn answers<F: FnMut(ListOperation, &TLVElement) -> Result<(), IMStatusCode>>(
    f: F,
    effect: (ListOperation, TLVElement),
    r: Result<(), IMStatusCode>,
) -> bool {
    call_ensures(f, (effect.0, &effect.1), r)
}

/// Whether the callback accepted each of the first `n` edits.
pub open spec fn accepted_first<F: FnMut(ListOperation, &TLVElement) -> Result<(), IMStatusCode>>(
    f: F,
    effects: Seq<(ListOperation, TLVElement)>,
    n: int,
) -> bool {
    forall|i: int| 0 <= i < n ==> answers(f, #[trigger] effects[i], Ok(()))
}

/// Whether the callback accepted the edits before the one at `k` and
/// refused that one with `status`.
pub open spec fn refused_at<F: FnMut(ListOperation, &TLVElement) -> Result<(), IMStatusCode>>(
    f: F,
    effects: Seq<(ListOperation, TLVElement)>,
    k: int,
    status: IMStatusCode,
) -> bool {
    0 <= k < effects.len() && accepted_first(f, effects, k) && answers(f, effects[k], Err(status))
}

/// Applies the write of `data` to a list attribute: hands the edits that it
/// stands for to `f`, one by one and in order, and stops at the first that
/// `f` refuses. The result is `Ok` when `f` accepted every edit, and else
/// the status with which `f` refused the first one it did not accept; the
/// edits before that one were made.
#[verifier::loop_isolation(false)]
pub fn attr_list_write<F>(attr: &AttrDetails, data: &TLVElement, mut f: F) -> (r: Result<
    (),
    IMStatusCode,
>) where F: FnMut(ListOperation, &TLVElement) -> Result<(), IMStatusCode>
    requires
        forall|i: int|
            0 <= i < list_write_effects(attr.list_index, *data).len() ==> takes(
                f,
                #[trigger] list_write_effects(attr.list_index, *data)[i],
            ),
    ensures
        match r {
            Ok(()) => accepted_first(
                f,
                list_write_effects(attr.list_index, *data),
                list_write_effects(attr.list_index, *data).len() as int,
            ),
            Err(status) => exists|k: int|
                #[trigger] refused_at(f, list_write_effects(attr.list_index, *data), k, status),
        },
{
    let ghost effects = list_write_effects(attr.list_index, *data);
    let ghost callback = f;
    let plan = list_operations(attr, data);
    let mut i: usize = 0;
    while i < plan.len()
        invariant
            i <= plan.len(),
            f == callback,
            accepted_first(f, effects, i as int),
        decreases plan.len() - i,
    {
        let (op, element) = plan[i];
        assert(effects[i as int] == (op, *element));
        assert(takes(f, effects[i as int]));
        let answer = f(op, element);
        assert(answers(f, effects[i as int], answer));
        match answer {
            Ok(done) => {
                assert(done == ());
            },
            Err(status) => {
                assert(refused_at(f, effects, i as int, status));
                return Err(status);
            },
        }
        i = i + 1;
    }
    Ok(())
}

} // verus!
