//! What clusters are made of, and the payloads and encoders through which
//! they answer.

use vstd::prelude::*;
use crate::codec::{FromTLV, Nullable, ToTLV};
use crate::error::Error;
use crate::path::{AttrId, ClusterId};
use crate::status::IMStatusCode;
use crate::tlv::{ElementView, TLVElement, TagType, ValueView};
use crate::writer::TLVWriter;

verus! {

/// How one attribute is addressed within its cluster by a read or a write.
#[derive(Clone, Copy, Debug, PartialEq, Eq)]
pub struct AttrDetails {
    /// The attribute.
    pub attr_id: AttrId,
    /// The entry of a list attribute that is addressed: absent, null, or an index.
    pub list_index: Option<Nullable<u16>>,
    /// The fabric on whose behalf the attribute is accessed.
    pub fab_idx: u8,
    /// Whether fabric-scoped data is limited to that fabric.
    pub fab_filter: bool,
}

/// Produces the content of an attribute or a command on demand, straight
/// into the writer that serialises the enclosing block.
pub trait EncodeProvider {
    /// The content that the provider writes.
    spec fn value(&self) -> ValueView;

    /// Writes the content as one element under `tag`. Every container that
    /// the provider starts is ended when it returns.
    fn encode(&self, tag: TagType, tw: &mut TLVWriter)
        ensures
            final(tw)@ == old(tw)@.put(ElementView { tag, value: self.value() }),
    ;
}

/// The payload of a block: an element that is already at hand, or a
/// provider that writes the content when the block is serialised.
#[derive(Clone, Copy)]
pub enum EncodeValue<'a> {
    Tlv(&'a TLVElement),
    Provider(&'a dyn EncodeProvider),
}

impl<'a> EncodeValue<'a> {
    /// The content of the payload.
    pub open spec fn content(self) -> ValueView {
        match self {
            EncodeValue::Tlv(e) => e@.value,
            EncodeValue::Provider(p) => p.value(),
        }
    }

    /// The element of a payload that is at hand. A provider has none.
    pub fn unwrap_tlv(self) -> (r: Option<&'a TLVElement>)
        ensures
            r == (match self {
                EncodeValue::Tlv(e) => Some(e),
                EncodeValue::Provider(_) => None,
            }),
    {
        match self {
            EncodeValue::Tlv(e) => Some(e),
            EncodeValue::Provider(_) => None,
        }
    }
}

/// A payload is written as its content under the tag asked for; a provider
/// is run once, at this point.
impl<'a> ToTLV for EncodeValue<'a> {
    type Model = ValueView;

    open spec fn model(&self) -> ValueView {
        self.content()
    }

    open spec fn present(m: ValueView) -> bool {
        true
    }

    open spec fn encoded(m: ValueView, tag: TagType) -> Option<ElementView> {
        Some(ElementView { tag, value: m })
    }

    fn to_tlv(&self, tw: &mut TLVWriter, tag: TagType) -> (r: Result<(), Error>) {
        match self {
            EncodeValue::Tlv(e) => {
                tw.put(e.retagged(tag));
            },
            EncodeValue::Provider(p) => {
                p.encode(tag, tw);
            },
        }
        Ok(())
    }

    proof fn lemma_encoded(m: ValueView, tag: TagType) {
    }
}

/// Any element is accepted as a payload and kept as it is.
impl<'a> FromTLV<'a> for EncodeValue<'a> {
    open spec fn decoded(e: ElementView) -> Result<ValueView, Error> {
        Ok(e.value)
    }

    open spec fn absent() -> Result<ValueView, Error> {
        Err(Error::TLVNotFound)
    }

    open spec fn accepted(m: ValueView) -> bool {
        true
    }

    fn from_tlv(e: &'a TLVElement) -> (r: Result<Self, Error>) {
        Ok(EncodeValue::Tlv(e))
    }

    fn tlv_not_found() -> (r: Result<Self, Error>) {
        Err(Error::TLVNotFound)
    }

    proof fn lemma_round_trip(m: ValueView, tag: TagType) {
    }
}

/// What an encoder was handed.
pub enum Emitted {
    Value(ValueView),
    Status(IMStatusCode, u16),
}

/// Receives what a cluster answers to a read of one attribute or to a command.
pub trait Encoder {
    /// Everything the encoder was handed so far, in order.
    spec fn emitted(&self) -> Seq<Emitted>;

    /// Takes the payload of the answer.
    fn encode(&mut self, value: EncodeValue<'_>)
        ensures
            final(self).emitted() == old(self).emitted().push(Emitted::Value(value.content())),
    ;

    /// Takes a status in place of a payload.
    fn encode_status(&mut self, status: IMStatusCode, cluster_status: u16)
        ensures
            final(self).emitted() == old(self).emitted().push(Emitted::Status(status, cluster_status)),
    ;
}


/// The most attributes that one cluster holds.
pub const ATTRS_PER_CLUSTER: usize = 10;

/// An attribute may be read.
pub const ACCESS_READ: u16 = 0x0001;

/// An attribute may be written.
pub const ACCESS_WRITE: u16 = 0x0002;

/// Reading or writing an attribute needs the view privilege.
pub const ACCESS_NEED_VIEW: u16 = 0x0010;

/// An attribute may be read by whoever has the view privilege.
pub const ACCESS_RV: u16 = 0x0011;

/// An attribute of no particular quality.
pub const QUALITY_NONE: u8 = 0x00;

/// The attribute that lists the features of a cluster.
pub const ATTR_FEATURE_MAP: AttrId = 0xfffc;

/// The attribute that lists the attributes of a cluster.
pub const ATTR_ATTRIBUTE_LIST: AttrId = 0xfffb;

/// The value that a cluster keeps for an attribute. A custom attribute
/// keeps none: the cluster produces its value when it is read.
#[derive(Clone, Copy, Debug, PartialEq, Eq, Structural)]
pub enum AttrValue {
    Int64(i64),
    Uint8(u8),
    Uint16(u16),
    Uint32(u32),
    Uint64(u64),
    Bool(bool),
    Custom,
}

/// One attribute of a cluster.
#[derive(Clone, Copy, Debug, PartialEq, Eq, Structural)]
pub struct Attribute {
    pub id: AttrId,
    pub value: AttrValue,
    pub quality: u8,
    pub access: u16,
}

impl Attribute {
    pub fn new(id: AttrId, value: AttrValue, access: u16, quality: u8) -> (a: Self)
        ensures
            a == (Attribute { id, value, quality, access }),
    {
        Attribute { id, value, quality, access }
    }
}

/// Mathematical model of a cluster.
pub struct ClusterView {
    pub id: ClusterId,
    pub attributes: Seq<Attribute>,
    pub data_ver: u32,
}

/// What every cluster has: its identifier, its attributes and the version
/// of its data.
pub struct Cluster {
    id: ClusterId,
    attributes: Vec<Attribute>,
    data_ver: u32,
}

impl View for Cluster {
    type V = ClusterView;

    closed spec fn view(&self) -> ClusterView {
        ClusterView { id: self.id, attributes: self.attributes@, data_ver: self.data_ver }
    }
}

/// The attributes that every cluster starts with.
pub open spec fn global_attributes() -> Seq<Attribute> {
    seq![
        Attribute {
            id: ATTR_FEATURE_MAP,
            value: AttrValue::Uint32(0),
            quality: QUALITY_NONE,
            access: ACCESS_RV,
        },
        Attribute {
            id: ATTR_ATTRIBUTE_LIST,
            value: AttrValue::Custom,
            quality: QUALITY_NONE,
            access: ACCESS_RV,
        },
    ]
}

impl Cluster {
    /// A cluster with the attributes that every cluster has.
    pub fn new(id: ClusterId) -> (r: Result<Cluster, Error>)
        ensures
            r matches Ok(c) && c@ == (ClusterView { id, attributes: global_attributes(), data_ver: 0 }),
    {
        let mut attributes: Vec<Attribute> = Vec::new();
        attributes.push(Attribute::new(ATTR_FEATURE_MAP, AttrValue::Uint32(0), ACCESS_RV, QUALITY_NONE));
        attributes.push(Attribute::new(ATTR_ATTRIBUTE_LIST, AttrValue::Custom, ACCESS_RV, QUALITY_NONE));
        assert(attributes@ =~= global_attributes());
        Ok(Cluster { id, attributes, data_ver: 0 })
    }

    pub fn id(&self) -> (id: ClusterId)
        ensures
            id == self@.id,
    {
        self.id
    }

    pub fn get_dataver(&self) -> (v: u32)
        ensures
            v == self@.data_ver,
    {
        self.data_ver
    }

    /// The attributes of the cluster, in the order in which they were added.
    pub fn attributes(&self) -> (a: &Vec<Attribute>)
        ensures
            a@ == self@.attributes,
    {
        &self.attributes
    }

    /// Adds the attributes, in order, if the cluster has room for all of
    /// them; else none is added.
    pub fn add_attributes(&mut self, attrs: &[Attribute]) -> (r: Result<(), Error>)
        ensures
            old(self)@.attributes.len() + attrs@.len() <= ATTRS_PER_CLUSTER ==> r is Ok && final(self)@
                == (ClusterView { attributes: old(self)@.attributes + attrs@, ..old(self)@ }),
            old(self)@.attributes.len() + attrs@.len() > ATTRS_PER_CLUSTER ==> r == Err::<(), Error>(
                Error::NoSpace,
            ) && final(self)@ == old(self)@,
    {
        if attrs.len() > ATTRS_PER_CLUSTER || self.attributes.len() > ATTRS_PER_CLUSTER - attrs.len() {
            return Err(Error::NoSpace);
        }
        let ghost before = self.attributes@;
        let mut i: usize = 0;
        while i < attrs.len()
            invariant
                i <= attrs.len(),
                self.id == old(self).id,
                self.data_ver == old(self).data_ver,
                self.attributes@ == before + attrs@.take(i as int),
            decreases attrs.len() - i,
        {
            self.attributes.push(attrs[i]);
            i = i + 1;
            assert(self.attributes@ =~= before + attrs@.take(i as int));
        }
        assert(attrs@.take(attrs.len() as int) =~= attrs@);
        Ok(())
    }
}

} // verus!
