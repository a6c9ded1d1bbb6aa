//! The cluster that describes the endpoint it is on.

use vstd::prelude::*;
use crate::codec::ToTLV;
use crate::error::Error;
use crate::node::{endpoint_hits, DeviceType, Node, NodeView};
use crate::objects::{
    global_attributes, AttrDetails, AttrValue, Attribute, Cluster, ClusterView, Emitted, EncodeProvider,
    EncodeValue, Encoder, ACCESS_RV, QUALITY_NONE,
};
use crate::path::{AttrId, ClusterId, EndptId, GenericPath};
use crate::tlv::{unsigned_value, ElementView, TagType, ValueView};
use crate::writer::{group_writer, ContainerKind, TLVWriter};

verus! {

broadcast use group_writer;

/// The identifier of the descriptor cluster.
pub const ID: ClusterId = 0x001D;

/// The attributes of the descriptor cluster.
#[derive(Clone, Copy, Debug, PartialEq, Eq, Structural)]
pub enum Attributes {
    DeviceTypeList,
    ServerList,
    ClientList,
    PartsList,
}

impl Attributes {
    /// The identifier of an attribute.
    pub open spec fn id_of(self) -> AttrId {
        match self {
            Attributes::DeviceTypeList => 0,
            Attributes::ServerList => 1,
            Attributes::ClientList => 2,
            Attributes::PartsList => 3,
        }
    }

    /// The attribute that an identifier names, if it names one.
    pub open spec fn of_id(id: AttrId) -> Option<Attributes> {
        if id == 0 {
            Some(Attributes::DeviceTypeList)
        } else if id == 1 {
            Some(Attributes::ServerList)
        } else if id == 2 {
            Some(Attributes::ClientList)
        } else if id == 3 {
            Some(Attributes::PartsList)
        } else {
            None
        }
    }

    pub fn id(self) -> (id: AttrId)
        ensures
            id == self.id_of(),
            Attributes::of_id(id) == Some(self),
    {
        match self {
            Attributes::DeviceTypeList => 0,
            Attributes::ServerList => 1,
            Attributes::ClientList => 2,
            Attributes::PartsList => 3,
        }
    }

    pub fn from_u16(id: u16) -> (r: Option<Attributes>)
        ensures
            r == Attributes::of_id(id),
            r matches Some(a) ==> a.id_of() == id,
    {
        match id {
            0 => Some(Attributes::DeviceTypeList),
            1 => Some(Attributes::ServerList),
            2 => Some(Attributes::ClientList),
            3 => Some(Attributes::PartsList),
            _ => None,
        }
    }
}

/// The attributes that the descriptor cluster adds to those of every
/// cluster, in the order in which it adds them.
pub open spec fn descriptor_attributes() -> Seq<Attribute> {
    seq![
        Attribute { id: 0, value: AttrValue::Custom, quality: QUALITY_NONE, access: ACCESS_RV },
        Attribute { id: 1, value: AttrValue::Custom, quality: QUALITY_NONE, access: ACCESS_RV },
        Attribute { id: 3, value: AttrValue::Custom, quality: QUALITY_NONE, access: ACCESS_RV },
        Attribute { id: 2, value: AttrValue::Custom, quality: QUALITY_NONE, access: ACCESS_RV },
    ]
}

/// The element that is written for a device type in a list.
pub open spec fn devtype_element(d: DeviceType) -> ElementView {
    ElementView { tag: TagType::Anonymous, value: ValueView::Struct(d.fields()) }
}

/// The element that is written for an identifier in a list.
pub open spec fn id_element(id: u64) -> ElementView {
    ElementView { tag: TagType::Anonymous, value: unsigned_value(id) }
}

/// The path of an endpoint, with every cluster and leaf.
pub open spec fn endpoint_path(endpoint: EndptId) -> GenericPath {
    GenericPath { endpoint: Some(endpoint), cluster: None, leaf: None }
}

/// The device types of the endpoint: the one type that the endpoint has,
/// or nothing where the node has no such endpoint.
pub open spec fn devtype_items(node: NodeView, endpoint: EndptId) -> Seq<ElementView> {
    match node.endpoint_matches(endpoint_path(endpoint)) {
        Ok(found) => Seq::new(found.len(), |i: int| devtype_element(found[i].1.dev_type)),
        Err(_) => Seq::empty(),
    }
}

/// The identifiers of the clusters of the endpoint, in order, or nothing
/// where the node has no such endpoint.
pub open spec fn server_items(node: NodeView, endpoint: EndptId) -> Seq<ElementView> {
    match node.cluster_matches(endpoint_path(endpoint)) {
        Ok(found) => Seq::new(found.len(), |i: int| id_element(found[i].1.id as u64)),
        Err(_) => Seq::empty(),
    }
}

/// The parts of the endpoint. For endpoint 0 they are the identifiers of
/// all the other endpoints of the node, in order. For any other endpoint
/// the list is empty.
pub open spec fn parts_items(node: NodeView, endpoint: EndptId) -> Seq<ElementView> {
    if endpoint == 0 && node.endpoints.len() > 0 {
        Seq::new((node.endpoints.len() - 1) as nat, |i: int| id_element((i + 1) as u64))
    } else {
        Seq::empty()
    }
}

/// The members of the array that is the value of an attribute of the
/// descriptor cluster of the endpoint. No clients are kept.
pub open spec fn list_items(node: NodeView, endpoint: EndptId, list: Attributes) -> Seq<ElementView> {
    match list {
        Attributes::DeviceTypeList => devtype_items(node, endpoint),
        Attributes::ServerList => server_items(node, endpoint),
        Attributes::ClientList => Seq::empty(),
        Attributes::PartsList => parts_items(node, endpoint),
    }
}

/// The cluster that describes the endpoint it is on: the type of the
/// device, the clusters it serves, and for endpoint 0 the other endpoints.
pub struct DescriptorCluster {
    base: Cluster,
    endpoint_id: EndptId,
}

impl DescriptorCluster {
    /// The endpoint that the cluster describes.
    pub closed spec fn endpoint(&self) -> EndptId {
        self.endpoint_id
    }

    /// The model of what the cluster has as every cluster does.
    pub closed spec fn base_view(&self) -> ClusterView {
        self.base@
    }

    /// The descriptor cluster of the endpoint, with its four list attributes.
    pub fn new(endpoint_id: EndptId) -> (r: Result<Box<Self>, Error>)
        ensures
            r matches Ok(c) && c.endpoint() == endpoint_id && c.base_view() == (ClusterView {
                id: ID,
                attributes: global_attributes() + descriptor_attributes(),
                data_ver: 0,
            }),
    {
        let mut base = Cluster::new(ID)?;
        let mut attrs: Vec<Attribute> = Vec::new();
        attrs.push(
            Attribute::new(Attributes::DeviceTypeList.id(), AttrValue::Custom, ACCESS_RV, QUALITY_NONE),
        );
        attrs.push(
            Attribute::new(Attributes::ServerList.id(), AttrValue::Custom, ACCESS_RV, QUALITY_NONE),
        );
        attrs.push(
            Attribute::new(Attributes::PartsList.id(), AttrValue::Custom, ACCESS_RV, QUALITY_NONE),
        );
        attrs.push(
            Attribute::new(Attributes::ClientList.id(), AttrValue::Custom, ACCESS_RV, QUALITY_NONE),
        );
        assert(attrs@ =~= descriptor_attributes());
        base.add_attributes(attrs.as_slice())?;
        Ok(Box::new(DescriptorCluster { base, endpoint_id }))
    }

    pub fn base(&self) -> (c: &Cluster)
        ensures
            c@ == self.base_view(),
    {
        &self.base
    }

    /// What the cluster has as every cluster does, for changing it.
    pub fn base_mut(&mut self) -> (c: &mut Cluster)
        ensures
            c@ == old(self).base_view(),
            final(self).base_view() == final(c)@,
            final(self).endpoint() == old(self).endpoint(),
    {
        &mut self.base
    }

    pub fn endpoint_id(&self) -> (e: EndptId)
        ensures
            e == self.endpoint(),
    {
        self.endpoint_id
    }

    /// Writes the device types of the endpoint as an array under `tag`.
    pub fn encode_devtype_list(&self, node: &Node, tag: TagType, tw: &mut TLVWriter)
        requires
            node@.wf(),
        ensures
            final(tw)@ == old(tw)@.put(
                ElementView { tag, value: ValueView::Array(devtype_items(node@, self.endpoint())) },
            ),
    {
        let ghost before = tw@;
        let ghost want = devtype_items(node@, self.endpoint());
        let path = GenericPath { endpoint: Some(self.endpoint_id), cluster: None, leaf: None };
        let _ = tw.start_array(tag);
        match node.endpoints(&path) {
            Ok(found) => {
                let mut i: usize = 0;
                assert(want.take(0) =~= Seq::empty());
                while i < found.len()
                    invariant
                        i <= found.len(),
                        want.len() == found.len(),
                        forall|j: int|
                            0 <= j < found.len() ==> #[trigger] want[j] == devtype_element(
                                found@[j].endpoint@.dev_type,
                            ),
                        tw@ == before.opened(tag, ContainerKind::Array, want.take(i as int)),
                    decreases found.len() - i,
                {
                    let dev_type = found[i].endpoint.get_dev_type();
                    let _ = dev_type.to_tlv(tw, TagType::Anonymous);
                    assert(want.take(i + 1) =~= want.take(i as int).push(want[i as int]));
                    i = i + 1;
                }
                assert(want.take(i as int) =~= want);
            },
            Err(_) => {},
        }
        let _ = tw.end_container();
    }

    /// Writes the identifiers of the clusters of the endpoint as an array
    /// under `tag`.
    pub fn encode_server_list(&self, node: &Node, tag: TagType, tw: &mut TLVWriter)
        requires
            node@.wf(),
        ensures
            final(tw)@ == old(tw)@.put(
                ElementView { tag, value: ValueView::Array(server_items(node@, self.endpoint())) },
            ),
    {
        let ghost before = tw@;
        let ghost want = server_items(node@, self.endpoint());
        let path = GenericPath { endpoint: Some(self.endpoint_id), cluster: None, leaf: None };
        let _ = tw.start_array(tag);
        match node.clusters(&path) {
            Ok(found) => {
                let mut i: usize = 0;
                assert(want.take(0) =~= Seq::empty());
                while i < found.len()
                    invariant
                        i <= found.len(),
                        want.len() == found.len(),
                        forall|j: int|
                            0 <= j < found.len() ==> #[trigger] want[j] == id_element(
                                found@[j].cluster@.id as u64,
                            ),
                        tw@ == before.opened(tag, ContainerKind::Array, want.take(i as int)),
                    decreases found.len() - i,
                {
                    let _ = tw.u32(TagType::Anonymous, found[i].cluster.id());
                    assert(want.take(i + 1) =~= want.take(i as int).push(want[i as int]));
                    i = i + 1;
                }
                assert(want.take(i as int) =~= want);
            },
            Err(_) => {},
        }
        let _ = tw.end_container();
    }

    /// Writes the parts of the endpoint as an array under `tag`.
    pub fn encode_parts_list(&self, node: &Node, tag: TagType, tw: &mut TLVWriter)
        requires
            node@.wf(),
        ensures
            final(tw)@ == old(tw)@.put(
                ElementView { tag, value: ValueView::Array(parts_items(node@, self.endpoint())) },
            ),
    {
        let ghost before = tw@;
        let ghost want = parts_items(node@, self.endpoint());
        let path = GenericPath { endpoint: None, cluster: None, leaf: None };
        let _ = tw.start_array(tag);
        if self.endpoint_id == 0 {
            match node.endpoints(&path) {
                Ok(found) => {
                    let mut i: usize = 0;
                    assert(want.take(0) =~= Seq::empty());
                    proof {
                        let hits = endpoint_hits(found@);
                        assert(hits.len() == found.len());
                        assert forall|j: int| 0 <= j < found.len() implies (#[trigger] found@[j]).path.endpoint
                            == Some(j as u16) by {
                            assert(hits[j].0 == found@[j].path);
                        }
                    }
                    while i < found.len()
                        invariant
                            i <= found.len(),
                            found.len() == node@.endpoints.len(),
                            found.len() <= 3,
                            want == parts_items(node@, 0),
                            forall|j: int|
                                0 <= j < found.len() ==> (#[trigger] found@[j]).path.endpoint == Some(
                                    j as u16,
                                ),
                            tw@ == before.opened(
                                tag,
                                ContainerKind::Array,
                                want.take(
                                    if i == 0 {
                                        0
                                    } else {
                                        i - 1
                                    },
                                ),
                            ),
                        decreases found.len() - i,
                    {
                        if let Some(endpoint_id) = found[i].path.endpoint {
                            if endpoint_id != 0 {
                                let _ = tw.u16(TagType::Anonymous, endpoint_id);
                                assert(want[i - 1] == id_element(endpoint_id as u64));
                                assert(want.take(i as int) =~= want.take(i - 1).push(want[i - 1]));
                            }
                        }
                        i = i + 1;
                    }
                    assert(found.len() > 0 ==> want.take(found.len() - 1) =~= want);
                    assert(found.len() == 0 ==> want.take(0) =~= want);
                },
                Err(_) => {},
            }
        }
        let _ = tw.end_container();
    }

    /// Writes the clients of the endpoint as an array under `tag`: none.
    pub fn encode_client_list(&self, tag: TagType, tw: &mut TLVWriter)
        ensures
            final(tw)@ == old(tw)@.put(ElementView { tag, value: ValueView::Array(Seq::empty()) }),
    {
        let _ = tw.start_array(tag);
        let _ = tw.end_container();
    }

    /// Answers the read of a custom attribute: hands the encoder a provider
    /// that writes the list when the answer is serialised. An attribute
    /// that the cluster does not have is handed nothing, and the result
    /// says so.
    pub fn read_custom_attribute<E: Encoder>(
        &self,
        node: &Node,
        encoder: &mut E,
        attr: &AttrDetails,
    ) -> (known: bool)
        requires
            node@.wf(),
        ensures
            known == (Attributes::of_id(attr.attr_id) is Some),
            match Attributes::of_id(attr.attr_id) {
                Some(list) => final(encoder).emitted() == old(encoder).emitted().push(
                    Emitted::Value(ValueView::Array(list_items(node@, self.endpoint(), list))),
                ),
                None => final(encoder).emitted() == old(encoder).emitted(),
            },
    {
        match Attributes::from_u16(attr.attr_id) {
            Some(list) => {
                let provider = DescriptorList::new(self, node, list);
                encoder.encode(EncodeValue::Provider(&provider));
                true
            },
            None => false,
        }
    }
}

/// Writes one list of a descriptor cluster from the node as it is when the
/// list is written.
pub struct DescriptorList<'a> {
    cluster: &'a DescriptorCluster,
    node: &'a Node,
    list: Attributes,
}

impl<'a> DescriptorList<'a> {
    #[verifier::type_invariant]
    spec fn inv(self) -> bool {
        self.node@.wf()
    }

    /// The members of the array that the provider writes.
    pub closed spec fn items(&self) -> Seq<ElementView> {
        list_items(self.node@, self.cluster.endpoint(), self.list)
    }

    pub fn new(cluster: &'a DescriptorCluster, node: &'a Node, list: Attributes) -> (p: Self)
        requires
            node@.wf(),
        ensures
            p.items() == list_items(node@, cluster.endpoint(), list),
            p.value() == ValueView::Array(list_items(node@, cluster.endpoint(), list)),
    {
        DescriptorList { cluster, node, list }
    }
}

impl<'a> EncodeProvider for DescriptorList<'a> {
    closed spec fn value(&self) -> ValueView {
        ValueView::Array(self.items())
    }

    fn encode(&self, tag: TagType, tw: &mut TLVWriter) {
        proof {
            use_type_invariant(self);
        }
        match self.list {
            Attributes::DeviceTypeList => self.cluster.encode_devtype_list(self.node, tag, tw),
            Attributes::ServerList => self.cluster.encode_server_list(self.node, tag, tw),
            Attributes::ClientList => self.cluster.encode_client_list(tag, tw),
            Attributes::PartsList => self.cluster.encode_parts_list(self.node, tag, tw),
        }
    }
}

} // verus!
