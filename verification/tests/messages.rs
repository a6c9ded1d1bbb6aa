use matter::codec::{FromTLV, Nullable, ToTLV};
use matter::error::Error;
use matter::ib::{
    AttrData, AttrPath, AttrResp, AttrStatus, ClusterPath, CmdData, CmdPath, DataVersionFilter, EventFilter,
    EventPath,
};
use matter::msg::{
    InvReq, InvReqTag, InvResp, InvRespTag, ReadReq, ReportDataMsg, ReportDataTag, StatusResp, SubscribeReq,
    SubscribeResp, TimedReq, WriteReq, WriteResp, WriteRespTag,
};
use matter::objects::EncodeValue;
use matter::path::GenericPath;
use matter::status::IMStatusCode;
use matter::tlv::{ElementType, TLVElement, TagType};
use matter::writer::TLVWriter;

fn el(tag: TagType, value: ElementType) -> TLVElement {
    TLVElement::new(tag, value)
}

fn write<T: ToTLV>(v: &T) -> TLVElement {
    let mut tw = TLVWriter::new();
    v.to_tlv(&mut tw, TagType::Anonymous).unwrap();
    assert_eq!(tw.depth(), 0);
    assert_eq!(tw.elements().len(), 1);
    tw.elements()[0].retagged(TagType::Anonymous)
}

fn tags(e: &TLVElement) -> Vec<TagType> {
    e.enter().unwrap().iter().map(|m| m.tag).collect()
}

fn attr_paths() -> Vec<AttrPath> {
    vec![
        AttrPath::new(&GenericPath::new(Some(0), Some(0x1d), Some(1))),
        AttrPath::new(&GenericPath::new(None, Some(6), None)),
        AttrPath { list_index: Some(Nullable::Null), ..AttrPath::default() },
    ]
}

fn full_subscribe_req() -> SubscribeReq {
    let mut req = SubscribeReq::new(true, 10, 600).set_attr_requests(&attr_paths());
    req.keep_subs = true;
    req.event_requests = Some(vec![EventPath { node: None, endpoint: Some(1), cluster: Some(6), event: Some(0), is_urgent: Some(false) }]);
    req.event_filters = Some(vec![EventFilter { node: None, event_min: Some(5) }]);
    req.dataver_filters = Some(vec![DataVersionFilter { path: ClusterPath { node: None, endpoint: 0, cluster: 0x1d }, data_ver: 3 }]);
    req
}

#[test]
fn subscribe_req_new_sets_only_what_it_is_given() {
    let req = SubscribeReq::new(true, 1, 2);
    assert!(req.fabric_filtered);
    assert_eq!(req.min_int_floor, 1);
    assert_eq!(req.max_int_ceil, 2);
    assert!(!req.keep_subs);
    assert!(req.attr_requests.is_none());
    assert!(req.event_requests.is_none());
    assert!(req.event_filters.is_none());
    assert!(req.dataver_filters.is_none());
    let d = SubscribeReq::default();
    assert!(!d.fabric_filtered && !d.keep_subs);
    assert_eq!((d.min_int_floor, d.max_int_ceil), (0, 0));
}

#[test]
fn set_attr_requests_keeps_the_rest() {
    let req = SubscribeReq::new(false, 3, 4).set_attr_requests(&attr_paths());
    assert_eq!(req.attr_requests, Some(attr_paths()));
    assert_eq!((req.fabric_filtered, req.min_int_floor, req.max_int_ceil, req.keep_subs), (false, 3, 4, false));
    assert!(req.event_requests.is_none());
    let read = ReadReq::new(true).set_attr_requests(&attr_paths()[..1]);
    assert_eq!(read.attr_requests, Some(attr_paths()[..1].to_vec()));
    assert!(read.fabric_filtered);
    assert!(read.dataver_filters.is_none());
    assert!(!ReadReq::default().fabric_filtered);
}

#[test]
fn to_read_req_carries_the_request_and_drops_the_subscription() {
    let req = full_subscribe_req();
    let read = req.to_read_req();
    assert_eq!(read.attr_requests, req.attr_requests);
    assert_eq!(read.event_requests, req.event_requests);
    assert_eq!(read.event_filters, req.event_filters);
    assert_eq!(read.fabric_filtered, req.fabric_filtered);
    assert_eq!(read.dataver_filters, req.dataver_filters);
    let e = write(&read);
    assert_eq!(
        tags(&e),
        vec![TagType::Context(0), TagType::Context(1), TagType::Context(2), TagType::Context(3), TagType::Context(4)]
    );
    let bare = SubscribeReq::new(false, 1, 2).to_read_req();
    assert!(bare.attr_requests.is_none() && bare.event_requests.is_none());
    assert!(bare.event_filters.is_none() && bare.dataver_filters.is_none());
    assert!(!bare.fabric_filtered);
}

#[test]
fn subscribe_req_round_trips_and_leaves_the_reserved_tag_out() {
    let req = full_subscribe_req();
    let e = write(&req);
    assert!(e.confirm_struct().is_ok());
    assert_eq!(
        tags(&e),
        vec![
            TagType::Context(0),
            TagType::Context(1),
            TagType::Context(2),
            TagType::Context(3),
            TagType::Context(4),
            TagType::Context(5),
            TagType::Context(7),
            TagType::Context(8)
        ]
    );
    let back = SubscribeReq::from_tlv(&e).unwrap();
    assert_eq!(back.keep_subs, req.keep_subs);
    assert_eq!(back.min_int_floor, req.min_int_floor);
    assert_eq!(back.max_int_ceil, req.max_int_ceil);
    assert_eq!(back.attr_requests, req.attr_requests);
    assert_eq!(back.event_requests, req.event_requests);
    assert_eq!(back.event_filters, req.event_filters);
    assert_eq!(back.fabric_filtered, req.fabric_filtered);
    assert_eq!(back.dataver_filters, req.dataver_filters);
    assert_eq!(write(&back), e);
}

#[test]
fn bare_subscribe_req_round_trips() {
    let req = SubscribeReq::new(false, 0, 0xffff);
    let e = write(&req);
    assert_eq!(tags(&e), vec![TagType::Context(0), TagType::Context(1), TagType::Context(2), TagType::Context(7)]);
    let back = SubscribeReq::from_tlv(&e).unwrap();
    assert_eq!((back.keep_subs, back.min_int_floor, back.max_int_ceil, back.fabric_filtered), (false, 0, 0xffff, false));
    assert!(back.attr_requests.is_none() && back.dataver_filters.is_none());
}

#[test]
fn reserved_member_decodes_as_absent() {
    let e = el(
        TagType::Anonymous,
        ElementType::Struct(vec![
            el(TagType::Context(0), ElementType::U8(9)),
            el(TagType::Context(1), ElementType::U32(0x7777_7777)),
            el(TagType::Context(2), ElementType::U8(60)),
        ]),
    );
    let back = SubscribeResp::from_tlv(&e).unwrap();
    assert_eq!(back, SubscribeResp::new(9, 60));
    assert_eq!(tags(&write(&back)), vec![TagType::Context(0), TagType::Context(2)]);
    let e = el(
        TagType::Anonymous,
        ElementType::Struct(vec![
            el(TagType::Context(0), ElementType::False),
            el(TagType::Context(1), ElementType::U8(1)),
            el(TagType::Context(2), ElementType::U8(2)),
            el(TagType::Context(6), ElementType::True),
            el(TagType::Context(7), ElementType::True),
        ]),
    );
    let back = SubscribeReq::from_tlv(&e).unwrap();
    assert!(back.fabric_filtered);
    assert_eq!(tags(&write(&back)), vec![TagType::Context(0), TagType::Context(1), TagType::Context(2), TagType::Context(7)]);
}

#[test]
fn subscribe_req_needs_its_flags_and_intervals() {
    let e = el(
        TagType::Anonymous,
        ElementType::Struct(vec![
            el(TagType::Context(0), ElementType::False),
            el(TagType::Context(1), ElementType::U8(1)),
            el(TagType::Context(2), ElementType::U8(2)),
        ]),
    );
    assert_eq!(SubscribeReq::from_tlv(&e).err(), Some(Error::TLVNotFound));
    let e = el(TagType::Anonymous, ElementType::Struct(vec![]));
    assert_eq!(SubscribeReq::from_tlv(&e).err(), Some(Error::TLVNotFound));
    let e = el(TagType::Anonymous, ElementType::List(vec![]));
    assert_eq!(SubscribeReq::from_tlv(&e).err(), Some(Error::TLVTypeMismatch));
}

#[test]
fn subscribe_resp_round_trips_around_the_reserved_tag() {
    let resp = SubscribeResp::new(0x1234_5678, 40);
    assert_eq!(resp.subs_id, 0x1234_5678);
    assert_eq!(resp.max_int, 40);
    let e = write(&resp);
    assert_eq!(
        e.value,
        ElementType::Struct(vec![el(TagType::Context(0), ElementType::U32(0x1234_5678)), el(TagType::Context(2), ElementType::U8(40))])
    );
    assert_eq!(SubscribeResp::from_tlv(&e), Ok(resp));
}

#[test]
fn timed_and_status_messages_round_trip() {
    let t = TimedReq { timeout: 500 };
    let e = write(&t);
    assert_eq!(e.value, ElementType::Struct(vec![el(TagType::Context(0), ElementType::U16(500))]));
    assert_eq!(TimedReq::from_tlv(&e), Ok(t));
    let s = StatusResp { status: IMStatusCode::Timeout };
    let e = write(&s);
    assert_eq!(e.value, ElementType::Struct(vec![el(TagType::Context(0), ElementType::U8(0x94))]));
    assert_eq!(StatusResp::from_tlv(&e), Ok(s));
    let empty = el(TagType::Anonymous, ElementType::Struct(vec![]));
    assert_eq!(TimedReq::from_tlv(&empty), Err(Error::TLVNotFound));
    assert_eq!(StatusResp::from_tlv(&empty), Err(Error::TLVNotFound));
}

#[test]
fn read_req_round_trips() {
    let req = full_subscribe_req().to_read_req();
    let e = write(&req);
    let back = ReadReq::from_tlv(&e).unwrap();
    assert_eq!(back.attr_requests, req.attr_requests);
    assert_eq!(back.event_requests, req.event_requests);
    assert_eq!(back.event_filters, req.event_filters);
    assert_eq!(back.fabric_filtered, req.fabric_filtered);
    assert_eq!(back.dataver_filters, req.dataver_filters);
    let bare = ReadReq::new(true);
    let e = write(&bare);
    assert_eq!(e.value, ElementType::Struct(vec![el(TagType::Context(3), ElementType::True)]));
    let back = ReadReq::from_tlv(&e).unwrap();
    assert!(back.fabric_filtered && back.attr_requests.is_none());
}

#[test]
fn write_req_new_writes_the_wish_only_when_set() {
    let payload = el(TagType::Anonymous, ElementType::U8(1));
    let data = [
        AttrData::new(None, AttrPath::new(&GenericPath::new(Some(1), Some(6), Some(0))), EncodeValue::Tlv(&payload)),
        AttrData::new(Some(2), AttrPath::default(), EncodeValue::Tlv(&payload)),
    ];
    let quiet = WriteReq::new(true, &data);
    assert_eq!(quiet.supress_response, Some(true));
    assert_eq!(quiet.timed_request, None);
    assert_eq!(quiet.more_chunked, None);
    assert_eq!(quiet.write_requests.len(), 2);
    assert_eq!(quiet.write_requests[1].data_ver, Some(2));
    let loud = WriteReq::new(false, &data);
    assert_eq!(loud.supress_response, None);
    assert_eq!(tags(&write(&loud)), vec![TagType::Context(2)]);
    assert_eq!(tags(&write(&quiet)), vec![TagType::Context(0), TagType::Context(2)]);
}

#[test]
fn write_req_round_trips() {
    let payload = el(TagType::Anonymous, ElementType::Array(vec![el(TagType::Anonymous, ElementType::U8(1))]));
    let data = [AttrData::new(Some(7), AttrPath::new(&GenericPath::new(Some(1), Some(6), Some(0))), EncodeValue::Tlv(&payload))];
    let mut req = WriteReq::new(true, &data);
    req.timed_request = Some(false);
    req.more_chunked = Some(true);
    let e = write(&req);
    assert_eq!(tags(&e), vec![TagType::Context(0), TagType::Context(1), TagType::Context(2), TagType::Context(3)]);
    let back = WriteReq::from_tlv(&e).unwrap();
    assert_eq!(back.supress_response, Some(true));
    assert_eq!(back.timed_request, Some(false));
    assert_eq!(back.more_chunked, Some(true));
    assert_eq!(back.write_requests.len(), 1);
    assert_eq!(back.write_requests[0].data_ver, Some(7));
    assert_eq!(back.write_requests[0].path, data[0].path);
    assert_eq!(back.write_requests[0].data.unwrap_tlv().unwrap().value, payload.value);
    let no_writes = el(TagType::Anonymous, ElementType::Struct(vec![el(TagType::Context(0), ElementType::True)]));
    assert_eq!(WriteReq::from_tlv(&no_writes).err(), Some(Error::TLVNotFound));
}

#[test]
fn write_resp_round_trips() {
    let resp = WriteResp {
        write_responses: vec![
            AttrStatus::new(&GenericPath::new(Some(1), Some(6), Some(0)), IMStatusCode::Success, 0),
            AttrStatus::new(&GenericPath::new(Some(1), Some(6), Some(1)), IMStatusCode::UnsupportedWrite, 2),
        ],
    };
    let e = write(&resp);
    assert_eq!(tags(&e), vec![TagType::Context(0)]);
    let back = WriteResp::from_tlv(&e).unwrap();
    assert_eq!(back.write_responses, resp.write_responses);
    let empty = WriteResp { write_responses: vec![] };
    assert_eq!(WriteResp::from_tlv(&write(&empty)).unwrap().write_responses, vec![]);
}

#[test]
fn inv_req_round_trips() {
    let payload = el(TagType::Anonymous, ElementType::Struct(vec![]));
    let req = InvReq {
        suppress_response: Some(false),
        timed_request: None,
        inv_requests: Some(vec![
            CmdData::new(CmdPath::new(Some(1), Some(6), Some(1)), EncodeValue::Tlv(&payload)),
            CmdData::new(CmdPath::new(None, Some(6), Some(2)), EncodeValue::Tlv(&payload)),
        ]),
    };
    let e = write(&req);
    assert_eq!(tags(&e), vec![TagType::Context(0), TagType::Context(2)]);
    let back = InvReq::from_tlv(&e).unwrap();
    assert_eq!(back.suppress_response, Some(false));
    assert_eq!(back.timed_request, None);
    let cmds = back.inv_requests.unwrap();
    assert_eq!(cmds.len(), 2);
    assert_eq!(cmds[0].path, CmdPath::new(Some(1), Some(6), Some(1)));
    assert_eq!(cmds[1].path, CmdPath::new(None, Some(6), Some(2)));
    assert_eq!(cmds[1].data.unwrap_tlv().unwrap().value, ElementType::Struct(vec![]));
}

#[test]
fn inv_req_with_a_wildcard_command_is_refused() {
    let payload = el(TagType::Anonymous, ElementType::Null);
    let req = InvReq {
        suppress_response: None,
        timed_request: None,
        inv_requests: Some(vec![CmdData::new(CmdPath::new(Some(1), Some(6), None), EncodeValue::Tlv(&payload))]),
    };
    assert_eq!(InvReq::from_tlv(&write(&req)).err(), Some(Error::CommandNotFound));
}

#[test]
fn inv_resp_round_trips() {
    let payload = el(TagType::Anonymous, ElementType::U8(4));
    let resp = InvResp {
        suppress_response: Some(true),
        inv_responses: Some(vec![
            matter::ib::InvResp::cmd_new(1, 6, 1, EncodeValue::Tlv(&payload)),
            matter::ib::InvResp::status_new(CmdPath::new(Some(1), Some(6), Some(2)), IMStatusCode::Busy, 0),
        ]),
    };
    let e = write(&resp);
    assert_eq!(tags(&e), vec![TagType::Context(0), TagType::Context(1)]);
    let back = InvResp::from_tlv(&e).unwrap();
    assert_eq!(back.suppress_response, Some(true));
    let got = back.inv_responses.unwrap();
    assert_eq!(got.len(), 2);
    assert!(matches!(got[0], matter::ib::InvResp::Cmd(c) if c.path == CmdPath::new(Some(1), Some(6), Some(1))));
    assert!(matches!(got[1], matter::ib::InvResp::Status(s) if s.status.status == IMStatusCode::Busy));
    let none = InvResp { suppress_response: None, inv_responses: None };
    assert_eq!(write(&none).value, ElementType::Struct(vec![]));
    assert!(InvResp::from_tlv(&write(&none)).unwrap().inv_responses.is_none());
}

#[test]
fn report_data_round_trips() {
    let payload = el(TagType::Anonymous, ElementType::U8(4));
    let path = AttrPath::new(&GenericPath::new(Some(0), Some(0x1d), Some(0)));
    let msg = ReportDataMsg {
        subscription_id: Some(11),
        attr_reports: Some(vec![
            AttrResp::new(3, &path, EncodeValue::Tlv(&payload)),
            AttrResp::Status(AttrStatus::new(&GenericPath::new(Some(0), Some(0x1d), Some(9)), IMStatusCode::UnsupportedAttribute, 0)),
        ]),
        event_reports: None,
        more_chunks: Some(true),
        suppress_response: Some(false),
    };
    let e = write(&msg);
    assert_eq!(tags(&e), vec![TagType::Context(0), TagType::Context(1), TagType::Context(3), TagType::Context(4)]);
    let back = ReportDataMsg::from_tlv(&e).unwrap();
    assert_eq!(back.subscription_id, Some(11));
    assert_eq!(back.event_reports, None);
    assert_eq!(back.more_chunks, Some(true));
    assert_eq!(back.suppress_response, Some(false));
    let reports = back.attr_reports.unwrap();
    assert_eq!(reports.len(), 2);
    let d = reports[0].unwrap_data();
    assert_eq!((d.data_ver, d.path), (Some(3), path));
    assert_eq!(d.data.unwrap_tlv().unwrap().value, ElementType::U8(4));
    assert!(matches!(reports[1], AttrResp::Status(s) if s.status.status == IMStatusCode::UnsupportedAttribute));
}

#[test]
fn tag_enums_number_the_fields() {
    assert_eq!(InvReqTag::SupressResponse.tag(), 0);
    assert_eq!(InvReqTag::TimedReq.tag(), 1);
    assert_eq!(InvReqTag::InvokeRequests.tag(), 2);
    assert_eq!(InvRespTag::SupressResponse.tag(), 0);
    assert_eq!(InvRespTag::InvokeResponses.tag(), 1);
    assert_eq!(ReportDataTag::SubscriptionId.tag(), 0);
    assert_eq!(ReportDataTag::AttributeReports.tag(), 1);
    assert_eq!(ReportDataTag::_EventReport.tag(), 2);
    assert_eq!(ReportDataTag::MoreChunkedMsgs.tag(), 3);
    assert_eq!(ReportDataTag::SupressResponse.tag(), 4);
    assert_eq!(WriteRespTag::WriteResponses.tag(), 0);
}
