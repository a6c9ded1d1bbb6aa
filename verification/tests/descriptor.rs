use matter::codec::{FromTLV, ToTLV};
use matter::descriptor::{Attributes, DescriptorCluster, DescriptorList, ID};
use matter::encoder::AttrReadEncoder;
use matter::error::Error;
use matter::ib::AttrResp;
use matter::node::{DeviceType, Endpoint, Node, CLUSTERS_PER_ENDPT, ENDPTS_PER_ACC};
use matter::objects::{
    AttrDetails, AttrValue, Attribute, Cluster, EncodeProvider, EncodeValue, Encoder, ACCESS_RV,
    ATTRS_PER_CLUSTER, ATTR_ATTRIBUTE_LIST, ATTR_FEATURE_MAP, QUALITY_NONE,
};
use matter::path::GenericPath;
use matter::status::IMStatusCode;
use matter::tlv::{ElementType, TLVElement, TagType};
use matter::writer::TLVWriter;

fn el(tag: TagType, value: ElementType) -> TLVElement {
    TLVElement::new(tag, value)
}

fn endpoint(dtype: u16, clusters: &[u32]) -> Endpoint {
    let mut e = Endpoint::new(DeviceType { dtype, drev: 1 });
    for id in clusters {
        e.add_cluster(Cluster::new(*id).unwrap()).unwrap();
    }
    e
}

fn tree() -> Node {
    let mut n = Node::new();
    assert_eq!(n.add_endpoint(endpoint(0x16, &[ID, 0x28, 0x3e])), Ok(0));
    assert_eq!(n.add_endpoint(endpoint(0x100, &[ID, 6])), Ok(1));
    assert_eq!(n.add_endpoint(endpoint(0x101, &[ID, 6, 8])), Ok(2));
    n
}

fn details(attr_id: u16) -> AttrDetails {
    AttrDetails { attr_id, list_index: None, fab_idx: 1, fab_filter: false }
}

fn ids(values: &[u64]) -> ElementType {
    ElementType::Array(
        values
            .iter()
            .map(|v| {
                let value = if *v <= 0xff { ElementType::U8(*v as u8) } else { ElementType::U16(*v as u16) };
                el(TagType::Anonymous, value)
            })
            .collect(),
    )
}

#[test]
fn attribute_ids_are_fixed() {
    assert_eq!(ID, 0x1d);
    assert_eq!(Attributes::DeviceTypeList.id(), 0);
    assert_eq!(Attributes::ServerList.id(), 1);
    assert_eq!(Attributes::ClientList.id(), 2);
    assert_eq!(Attributes::PartsList.id(), 3);
    assert_eq!(Attributes::from_u16(0), Some(Attributes::DeviceTypeList));
    assert_eq!(Attributes::from_u16(1), Some(Attributes::ServerList));
    assert_eq!(Attributes::from_u16(2), Some(Attributes::ClientList));
    assert_eq!(Attributes::from_u16(3), Some(Attributes::PartsList));
    assert_eq!(Attributes::from_u16(4), None);
    assert_eq!(Attributes::from_u16(0xfffb), None);
}

#[test]
fn new_cluster_has_the_global_and_the_list_attributes() {
    let c = DescriptorCluster::new(2).unwrap();
    assert_eq!(c.endpoint_id(), 2);
    assert_eq!(c.base().id(), ID);
    assert_eq!(c.base().get_dataver(), 0);
    let custom = |id| Attribute::new(id, AttrValue::Custom, ACCESS_RV, QUALITY_NONE);
    assert_eq!(
        c.base().attributes(),
        &vec![
            Attribute::new(ATTR_FEATURE_MAP, AttrValue::Uint32(0), ACCESS_RV, QUALITY_NONE),
            custom(ATTR_ATTRIBUTE_LIST),
            custom(0),
            custom(1),
            custom(3),
            custom(2),
        ]
    );
}

#[test]
fn cluster_takes_attributes_up_to_its_room() {
    let mut c = Cluster::new(6).unwrap();
    assert_eq!(c.attributes().len(), 2);
    let a = Attribute::new(0, AttrValue::Bool(false), ACCESS_RV, QUALITY_NONE);
    assert_eq!(c.add_attributes(&[a; ATTRS_PER_CLUSTER - 1]), Err(Error::NoSpace));
    assert_eq!(c.attributes().len(), 2);
    assert_eq!(c.add_attributes(&[a; ATTRS_PER_CLUSTER - 2]), Ok(()));
    assert_eq!(c.attributes().len(), ATTRS_PER_CLUSTER);
    assert_eq!(c.add_attributes(&[a]), Err(Error::NoSpace));
    assert_eq!(c.add_attributes(&[]), Ok(()));
}

#[test]
fn node_and_endpoint_have_bounded_room() {
    let mut n = tree();
    assert_eq!(n.endpoint_count(), ENDPTS_PER_ACC);
    assert_eq!(n.add_endpoint(endpoint(1, &[])), Err(Error::NoSpace));
    assert_eq!(n.endpoint_count(), 3);
    let mut e = Endpoint::new(DeviceType { dtype: 1, drev: 1 });
    for id in 0..CLUSTERS_PER_ENDPT {
        assert_eq!(e.add_cluster(Cluster::new(id as u32).unwrap()), Ok(()));
    }
    assert_eq!(e.add_cluster(Cluster::new(99).unwrap()), Err(Error::NoSpace));
    assert_eq!(e.get_cluster_index(8), Some(8));
    assert_eq!(e.get_cluster_index(99), None);
    assert_eq!(e.get_dev_type(), DeviceType { dtype: 1, drev: 1 });
}

#[test]
fn endpoints_are_resolved_from_a_path() {
    let n = tree();
    let found = n.endpoints(&GenericPath::new(None, Some(6), Some(1))).unwrap();
    let paths: Vec<GenericPath> = found.iter().map(|m| m.path).collect();
    assert_eq!(
        paths,
        vec![
            GenericPath::new(Some(0), Some(6), Some(1)),
            GenericPath::new(Some(1), Some(6), Some(1)),
            GenericPath::new(Some(2), Some(6), Some(1)),
        ]
    );
    assert_eq!(found[1].endpoint.get_dev_type().dtype, 0x100);
    let one = n.endpoints(&GenericPath::new(Some(2), None, None)).unwrap();
    assert_eq!(one.len(), 1);
    assert_eq!(one[0].path, GenericPath::new(Some(2), None, None));
    assert_eq!(one[0].endpoint.get_dev_type().dtype, 0x101);
    assert_eq!(n.endpoints(&GenericPath::new(Some(3), None, None)).err(), Some(IMStatusCode::UnsupportedEndpoint));
    assert!(Node::new().endpoints(&GenericPath::default()).unwrap().is_empty());
}

#[test]
fn clusters_are_resolved_from_a_path() {
    let n = tree();
    let all: Vec<(GenericPath, u32)> =
        n.clusters(&GenericPath::default()).unwrap().iter().map(|m| (m.path, m.cluster.id())).collect();
    let want: Vec<(GenericPath, u32)> = [(0, ID), (0, 0x28), (0, 0x3e), (1, ID), (1, 6), (2, ID), (2, 6), (2, 8)]
        .iter()
        .map(|(e, c)| (GenericPath::new(Some(*e), Some(*c), None), *c))
        .collect();
    assert_eq!(all, want);
    let on_off: Vec<GenericPath> = n.clusters(&GenericPath::new(None, Some(6), Some(0))).unwrap().iter().map(|m| m.path).collect();
    assert_eq!(on_off, vec![GenericPath::new(Some(1), Some(6), Some(0)), GenericPath::new(Some(2), Some(6), Some(0))]);
    let of_one: Vec<u32> = n.clusters(&GenericPath::new(Some(1), None, None)).unwrap().iter().map(|m| m.cluster.id()).collect();
    assert_eq!(of_one, vec![ID, 6]);
    assert_eq!(n.clusters(&GenericPath::new(Some(1), Some(8), None)).err(), Some(IMStatusCode::UnsupportedCluster));
    assert_eq!(n.clusters(&GenericPath::new(Some(5), Some(6), None)).err(), Some(IMStatusCode::UnsupportedEndpoint));
    assert!(n.clusters(&GenericPath::new(None, Some(0x99), None)).unwrap().is_empty());
}

#[test]
fn device_type_list_holds_the_type_of_the_endpoint() {
    let n = tree();
    let c = DescriptorCluster::new(1).unwrap();
    let mut tw = TLVWriter::new();
    c.encode_devtype_list(&n, TagType::Context(2), &mut tw);
    let want = el(
        TagType::Context(2),
        ElementType::Array(vec![el(
            TagType::Anonymous,
            ElementType::Struct(vec![el(TagType::Context(0), ElementType::U16(0x100)), el(TagType::Context(1), ElementType::U8(1))]),
        )]),
    );
    assert_eq!(tw.elements(), &vec![want]);
    assert_eq!(tw.depth(), 0);
    let member = &tw.elements()[0].enter().unwrap()[0];
    assert_eq!(DeviceType::from_tlv(member), Ok(DeviceType { dtype: 0x100, drev: 1 }));
    let missing = DescriptorCluster::new(7).unwrap();
    let mut tw = TLVWriter::new();
    missing.encode_devtype_list(&n, TagType::Anonymous, &mut tw);
    assert_eq!(tw.elements(), &vec![el(TagType::Anonymous, ElementType::Array(vec![]))]);
}

#[test]
fn server_list_holds_the_clusters_of_the_endpoint() {
    let n = tree();
    let mut tw = TLVWriter::new();
    DescriptorCluster::new(0).unwrap().encode_server_list(&n, TagType::Context(2), &mut tw);
    DescriptorCluster::new(2).unwrap().encode_server_list(&n, TagType::Anonymous, &mut tw);
    DescriptorCluster::new(3).unwrap().encode_server_list(&n, TagType::Anonymous, &mut tw);
    assert_eq!(tw.elements()[0], el(TagType::Context(2), ids(&[0x1d, 0x28, 0x3e])));
    assert_eq!(tw.elements()[1], el(TagType::Anonymous, ids(&[0x1d, 6, 8])));
    assert_eq!(tw.elements()[2], el(TagType::Anonymous, ids(&[])));
}

#[test]
fn parts_list_names_the_other_endpoints_only_on_endpoint_zero() {
    let n = tree();
    let mut tw = TLVWriter::new();
    DescriptorCluster::new(0).unwrap().encode_parts_list(&n, TagType::Context(2), &mut tw);
    DescriptorCluster::new(1).unwrap().encode_parts_list(&n, TagType::Context(2), &mut tw);
    DescriptorCluster::new(0).unwrap().encode_parts_list(&Node::new(), TagType::Context(2), &mut tw);
    assert_eq!(tw.elements()[0], el(TagType::Context(2), ids(&[1, 2])));
    assert_eq!(tw.elements()[1], el(TagType::Context(2), ids(&[])));
    assert_eq!(tw.elements()[2], el(TagType::Context(2), ids(&[])));
    let mut single = Node::new();
    single.add_endpoint(endpoint(1, &[ID])).unwrap();
    let mut tw = TLVWriter::new();
    DescriptorCluster::new(0).unwrap().encode_parts_list(&single, TagType::Anonymous, &mut tw);
    assert_eq!(tw.elements()[0], el(TagType::Anonymous, ids(&[])));
}

#[test]
fn client_list_is_empty() {
    let mut tw = TLVWriter::new();
    tw.start_struct(TagType::Anonymous).unwrap();
    DescriptorCluster::new(0).unwrap().encode_client_list(TagType::Context(2), &mut tw);
    tw.end_container().unwrap();
    assert_eq!(
        tw.elements(),
        &vec![el(TagType::Anonymous, ElementType::Struct(vec![el(TagType::Context(2), ElementType::Array(vec![]))]))]
    );
}

#[test]
fn provider_writes_its_list_when_the_payload_is_written() {
    let n = tree();
    let c = DescriptorCluster::new(0).unwrap();
    let p = DescriptorList::new(&c, &n, Attributes::PartsList);
    let mut tw = TLVWriter::new();
    p.encode(TagType::Context(1), &mut tw);
    EncodeValue::Provider(&p).to_tlv(&mut tw, TagType::Context(2)).unwrap();
    assert_eq!(tw.elements()[0], el(TagType::Context(1), ids(&[1, 2])));
    assert_eq!(tw.elements()[1], el(TagType::Context(2), ids(&[1, 2])));
    assert!(EncodeValue::Provider(&p).unwrap_tlv().is_none());
}

#[test]
fn read_of_a_list_attribute_is_answered_with_a_data_block() {
    let n = tree();
    let c = DescriptorCluster::new(2).unwrap();
    let mut enc = AttrReadEncoder::new(TLVWriter::new());
    enc.set_data_ver(5);
    enc.set_path(GenericPath::new(Some(2), Some(ID), Some(1)));
    assert!(c.read_custom_attribute(&n, &mut enc, &details(1)));
    assert!(c.read_custom_attribute(&n, &mut enc, &details(2)));
    assert!(!c.read_custom_attribute(&n, &mut enc, &details(4)));
    assert!(!c.read_custom_attribute(&n, &mut enc, &details(ATTR_ATTRIBUTE_LIST)));
    let tw = enc.into_writer();
    assert_eq!(tw.elements().len(), 2);
    let d = AttrResp::from_tlv(&tw.elements()[0]).unwrap().unwrap_data();
    assert_eq!(d.data_ver, Some(5));
    assert_eq!(d.path.to_gp(), GenericPath::new(Some(2), Some(ID), Some(1)));
    assert_eq!(d.data.unwrap_tlv().unwrap().value, ids(&[0x1d, 6, 8]));
    let d = AttrResp::from_tlv(&tw.elements()[1]).unwrap().unwrap_data();
    assert_eq!(d.data.unwrap_tlv().unwrap().value, ids(&[]));
}

#[test]
fn encoder_writes_status_blocks() {
    let mut enc = AttrReadEncoder::new(TLVWriter::new());
    enc.set_path(GenericPath::new(Some(1), Some(6), Some(0x1_0002)));
    enc.encode_status(IMStatusCode::UnsupportedAttribute, 4);
    let payload = el(TagType::Anonymous, ElementType::True);
    enc.encode(EncodeValue::Tlv(&payload));
    let tw = enc.into_writer();
    match AttrResp::from_tlv(&tw.elements()[0]).unwrap() {
        AttrResp::Status(s) => {
            assert_eq!(s.path.to_gp(), GenericPath::new(Some(1), Some(6), Some(2)));
            assert_eq!(s.status.status, IMStatusCode::UnsupportedAttribute);
            assert_eq!(s.status.cluster_status, 4);
        }
        AttrResp::Data(_) => panic!("a status was written"),
    }
    let d = AttrResp::from_tlv(&tw.elements()[1]).unwrap().unwrap_data();
    assert_eq!(d.data_ver, Some(0));
    assert_eq!(d.data.unwrap_tlv().unwrap().value, ElementType::True);
}

#[test]
fn wildcard_read_yields_a_block_for_each_endpoint_and_cluster() {
    let n = tree();
    let request = GenericPath::new(None, Some(ID), Some(Attributes::ServerList.id() as u32));
    assert!(request.is_wildcard());
    let mut enc = AttrReadEncoder::new(TLVWriter::new());
    let found = n.clusters(&request).unwrap();
    assert_eq!(found.len(), 3);
    for m in found.iter() {
        let (endpoint, cluster, leaf) = m.path.not_wildcard().unwrap();
        assert_eq!(cluster, m.cluster.id());
        let descriptor = DescriptorCluster::new(endpoint).unwrap();
        enc.set_data_ver(m.cluster.get_dataver());
        enc.set_path(m.path);
        assert!(descriptor.read_custom_attribute(&n, &mut enc, &details(leaf as u16)));
    }
    let tw = enc.into_writer();
    assert_eq!(tw.elements().len(), 3);
    let want = [ids(&[0x1d, 0x28, 0x3e]), ids(&[0x1d, 6]), ids(&[0x1d, 6, 8])];
    for (i, block) in tw.elements().iter().enumerate() {
        let d = AttrResp::from_tlv(block).unwrap().unwrap_data();
        let path = d.path.to_gp();
        assert!(!path.is_wildcard());
        assert_eq!(path.not_wildcard(), Ok((i as u16, ID, 1)));
        assert_eq!(d.data.unwrap_tlv().unwrap().value, want[i]);
    }
}

#[test]
fn base_can_be_changed_in_place() {
    let mut c = DescriptorCluster::new(1).unwrap();
    let extra = Attribute::new(0x10, AttrValue::Uint8(3), ACCESS_RV, QUALITY_NONE);
    assert_eq!(c.base_mut().add_attributes(&[extra]), Ok(()));
    assert_eq!(c.base().attributes().len(), 7);
    assert_eq!(c.base().attributes()[6], extra);
    assert_eq!(c.endpoint_id(), 1);
    assert_eq!(c.base_mut().add_attributes(&[extra; 4]), Err(Error::NoSpace));
    assert_eq!(c.base().attributes().len(), 7);
}
