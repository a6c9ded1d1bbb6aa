//! The messages of the five interactions.

use vstd::prelude::*;
use crate::codec::{
    after_field, field, lemma_field_round_trip, lemma_skip_absent, lemma_tags_from, prepend_opt,
    push_opt, FieldCursor, FromTLV, ToTLV,
};
use crate::error::Error;
use crate::ib::{
    AttrData, AttrDataModel, AttrPath, AttrResp, AttrRespModel, AttrStatus, CmdData, CmdDataModel,
    DataVersionFilter, EventFilter, EventPath, InvRespModel,
};
use crate::status::IMStatusCode;
use crate::tlv::{ElementView, TLVElement, TagType, ValueView};
use crate::writer::{group_writer, TLVWriter};

verus! {

broadcast use group_writer;

/// A copy of a slice, in order.
fn copy_slice<T: Copy>(items: &[T]) -> (r: Vec<T>)
    ensures
        r@ == items@,
{
    let mut r: Vec<T> = Vec::new();
    let mut i: usize = 0;
    while i < items.len()
        invariant
            i <= items.len(),
            r@ == items@.take(i as int),
        decreases items.len() - i,
    {
        r.push(items[i]);
        i = i + 1;
        assert(r@ =~= items@.take(i as int));
    }
    assert(items@.take(items.len() as int) =~= items@);
    r
}

/// A copy of an optional sequence, in order.
fn copy_opt<T: Copy>(items: &Option<Vec<T>>) -> (r: Option<Vec<T>>)
    ensures
        r is Some == items is Some,
        r matches Some(v) ==> v@ == items->0@,
{
    match items {
        Some(v) => Some(copy_slice(v.as_slice())),
        None => None,
    }
}

/// Asks for reports of attributes and events, now and as they change.
pub struct SubscribeReq {
    pub keep_subs: bool,
    pub min_int_floor: u16,
    pub max_int_ceil: u16,
    pub attr_requests: Option<Vec<AttrPath>>,
    pub event_requests: Option<Vec<EventPath>>,
    pub event_filters: Option<Vec<EventFilter>>,
    pub fabric_filtered: bool,
    pub dataver_filters: Option<Vec<DataVersionFilter>>,
}

/// Mathematical model of a subscribe request.
pub struct SubscribeReqModel {
    pub keep_subs: bool,
    pub min_int_floor: u16,
    pub max_int_ceil: u16,
    pub attr_requests: Option<Seq<AttrPath>>,
    pub event_requests: Option<Seq<EventPath>>,
    pub event_filters: Option<Seq<EventFilter>>,
    pub fabric_filtered: bool,
    pub dataver_filters: Option<Seq<DataVersionFilter>>,
}

impl SubscribeReqModel {
    /// The read request that primes the subscription: what is asked for
    /// and how, without what only a subscription has.
    pub open spec fn read_req(self) -> ReadReqModel {
        ReadReqModel {
            attr_requests: self.attr_requests,
            event_requests: self.event_requests,
            event_filters: self.event_filters,
            fabric_filtered: self.fabric_filtered,
            dataver_filters: self.dataver_filters,
        }
    }
}

impl Default for SubscribeReq {
    fn default() -> (r: Self)
        ensures
            r.model() == (SubscribeReqModel {
                keep_subs: false,
                min_int_floor: 0,
                max_int_ceil: 0,
                attr_requests: None,
                event_requests: None,
                event_filters: None,
                fabric_filtered: false,
                dataver_filters: None,
            }),
    {
        SubscribeReq {
            keep_subs: false,
            min_int_floor: 0,
            max_int_ceil: 0,
            attr_requests: None,
            event_requests: None,
            event_filters: None,
            fabric_filtered: false,
            dataver_filters: None,
        }
    }
}

impl SubscribeReq {
    pub fn new(fabric_filtered: bool, min_int_floor: u16, max_int_ceil: u16) -> (r: Self)
        ensures
            r.model() == (SubscribeReqModel {
                keep_subs: false,
                min_int_floor,
                max_int_ceil,
                attr_requests: None,
                event_requests: None,
                event_filters: None,
                fabric_filtered,
                dataver_filters: None,
            }),
    {
        SubscribeReq {
            keep_subs: false,
            min_int_floor,
            max_int_ceil,
            attr_requests: None,
            event_requests: None,
            event_filters: None,
            fabric_filtered,
            dataver_filters: None,
        }
    }

    /// The request with `requests` as the attributes asked for.
    pub fn set_attr_requests(self, requests: &[AttrPath]) -> (r: Self)
        ensures
            r.model() == (SubscribeReqModel { attr_requests: Some(requests@), ..self.model() }),
    {
        let mut r = self;
        r.attr_requests = Some(copy_slice(requests));
        proof {
            assert(r.attr_requests.model()->0 =~= requests@);
        }
        r
    }

    /// The read request that primes the subscription.
    pub fn to_read_req(&self) -> (r: ReadReq)
        ensures
            r.model() == self.model().read_req(),
    {
        let r = ReadReq {
            attr_requests: copy_opt(&self.attr_requests),
            event_requests: copy_opt(&self.event_requests),
            event_filters: copy_opt(&self.event_filters),
            fabric_filtered: self.fabric_filtered,
            dataver_filters: copy_opt(&self.dataver_filters),
        };
        proof {
            assert(r.attr_requests.model() =~= self.attr_requests.model());
            assert(r.event_requests.model() =~= self.event_requests.model());
            assert(r.event_filters.model() =~= self.event_filters.model());
            assert(r.dataver_filters.model() =~= self.dataver_filters.model());
        }
        r
    }
}

impl SubscribeReqModel {
    /// The members of the structure that is written for the value.
    pub open spec fn fields(self) -> Seq<ElementView> {
        let s = Seq::<ElementView>::empty();
        let s = push_opt(s, <bool as ToTLV>::encoded(self.keep_subs, TagType::Context(0)));
        let s = push_opt(s, <u16 as ToTLV>::encoded(self.min_int_floor, TagType::Context(1)));
        let s = push_opt(s, <u16 as ToTLV>::encoded(self.max_int_ceil, TagType::Context(2)));
        let s = push_opt(
            s,
            <Option<Vec<AttrPath>> as ToTLV>::encoded(self.attr_requests, TagType::Context(3)),
        );
        let s = push_opt(
            s,
            <Option<Vec<EventPath>> as ToTLV>::encoded(self.event_requests, TagType::Context(4)),
        );
        let s = push_opt(
            s,
            <Option<Vec<EventFilter>> as ToTLV>::encoded(self.event_filters, TagType::Context(5)),
        );
        let s = push_opt(s, <bool as ToTLV>::encoded(self.fabric_filtered, TagType::Context(7)));
        push_opt(
            s,
            <Option<Vec<DataVersionFilter>> as ToTLV>::encoded(
                self.dataver_filters,
                TagType::Context(8),
            ),
        )
    }

    /// What the members of a structure decode to, read in order.
    pub open spec fn from_fields(items: Seq<ElementView>) -> Result<SubscribeReqModel, Error> {
        let p = 0int;
        let keep_subs = field::<bool>(items, p, 0);
        let p = after_field(items, p, 0);
        let min_int_floor = field::<u16>(items, p, 1);
        let p = after_field(items, p, 1);
        let max_int_ceil = field::<u16>(items, p, 2);
        let p = after_field(items, p, 2);
        let attr_requests = field::<Option<Vec<AttrPath>>>(items, p, 3);
        let p = after_field(items, p, 3);
        let event_requests = field::<Option<Vec<EventPath>>>(items, p, 4);
        let p = after_field(items, p, 4);
        let event_filters = field::<Option<Vec<EventFilter>>>(items, p, 5);
        let p = after_field(items, p, 5);
        let p = after_field(items, p, 6);
        let fabric_filtered = field::<bool>(items, p, 7);
        let p = after_field(items, p, 7);
        let dataver_filters = field::<Option<Vec<DataVersionFilter>>>(items, p, 8);
        match (
            keep_subs,
            min_int_floor,
            max_int_ceil,
            attr_requests,
            event_requests,
            event_filters,
            fabric_filtered,
            dataver_filters,
        ) {
            (
                Ok(keep_subs),
                Ok(min_int_floor),
                Ok(max_int_ceil),
                Ok(attr_requests),
                Ok(event_requests),
                Ok(event_filters),
                Ok(fabric_filtered),
                Ok(dataver_filters),
            ) => Ok(
                SubscribeReqModel {
                    keep_subs,
                    min_int_floor,
                    max_int_ceil,
                    attr_requests,
                    event_requests,
                    event_filters,
                    fabric_filtered,
                    dataver_filters,
                },
            ),
            (Err(err), _, _, _, _, _, _, _) => Err(err),
            (_, Err(err), _, _, _, _, _, _) => Err(err),
            (_, _, Err(err), _, _, _, _, _) => Err(err),
            (_, _, _, Err(err), _, _, _, _) => Err(err),
            (_, _, _, _, Err(err), _, _, _) => Err(err),
            (_, _, _, _, _, Err(err), _, _) => Err(err),
            (_, _, _, _, _, _, Err(err), _) => Err(err),
            (_, _, _, _, _, _, _, Err(err)) => Err(err),
        }
    }
}

impl ToTLV for SubscribeReq {
    type Model = SubscribeReqModel;

    open spec fn model(&self) -> SubscribeReqModel {
        SubscribeReqModel {
            keep_subs: self.keep_subs.model(),
            min_int_floor: self.min_int_floor.model(),
            max_int_ceil: self.max_int_ceil.model(),
            attr_requests: self.attr_requests.model(),
            event_requests: self.event_requests.model(),
            event_filters: self.event_filters.model(),
            fabric_filtered: self.fabric_filtered.model(),
            dataver_filters: self.dataver_filters.model(),
        }
    }

    open spec fn present(m: SubscribeReqModel) -> bool {
        true
    }

    open spec fn encoded(m: SubscribeReqModel, tag: TagType) -> Option<ElementView> {
        Some(ElementView { tag, value: ValueView::Struct(m.fields()) })
    }

    fn to_tlv(&self, tw: &mut TLVWriter, tag: TagType) -> (r: Result<(), Error>) {
        let _ = tw.start_struct(tag);
        let _ = self.keep_subs.to_tlv(tw, TagType::Context(0));
        let _ = self.min_int_floor.to_tlv(tw, TagType::Context(1));
        let _ = self.max_int_ceil.to_tlv(tw, TagType::Context(2));
        let _ = self.attr_requests.to_tlv(tw, TagType::Context(3));
        let _ = self.event_requests.to_tlv(tw, TagType::Context(4));
        let _ = self.event_filters.to_tlv(tw, TagType::Context(5));
        let _ = self.fabric_filtered.to_tlv(tw, TagType::Context(7));
        let _ = self.dataver_filters.to_tlv(tw, TagType::Context(8));
        tw.end_container()
    }

    proof fn lemma_encoded(m: SubscribeReqModel, tag: TagType) {
    }
}

impl<'a> FromTLV<'a> for SubscribeReq {
    open spec fn decoded(e: ElementView) -> Result<SubscribeReqModel, Error> {
        match e.value {
            ValueView::Struct(items) => SubscribeReqModel::from_fields(items),
            _ => Err(Error::TLVTypeMismatch),
        }
    }

    open spec fn absent() -> Result<SubscribeReqModel, Error> {
        Err(Error::TLVNotFound)
    }

    open spec fn accepted(m: SubscribeReqModel) -> bool {
        &&& <bool as FromTLV>::accepted(m.keep_subs)
        &&& <u16 as FromTLV>::accepted(m.min_int_floor)
        &&& <u16 as FromTLV>::accepted(m.max_int_ceil)
        &&& <Option<Vec<AttrPath>> as FromTLV>::accepted(m.attr_requests)
        &&& <Option<Vec<EventPath>> as FromTLV>::accepted(m.event_requests)
        &&& <Option<Vec<EventFilter>> as FromTLV>::accepted(m.event_filters)
        &&& <bool as FromTLV>::accepted(m.fabric_filtered)
        &&& <Option<Vec<DataVersionFilter>> as FromTLV>::accepted(m.dataver_filters)
    }

    fn from_tlv(e: &'a TLVElement) -> (r: Result<Self, Error>) {
        let mut c = FieldCursor::new(e.struct_members()?);
        let keep_subs = c.field::<bool>(0)?;
        let min_int_floor = c.field::<u16>(1)?;
        let max_int_ceil = c.field::<u16>(2)?;
        let attr_requests = c.field::<Option<Vec<AttrPath>>>(3)?;
        let event_requests = c.field::<Option<Vec<EventPath>>>(4)?;
        let event_filters = c.field::<Option<Vec<EventFilter>>>(5)?;
        c.skip(6);
        let fabric_filtered = c.field::<bool>(7)?;
        let dataver_filters = c.field::<Option<Vec<DataVersionFilter>>>(8)?;
        Ok(
            SubscribeReq {
                keep_subs,
                min_int_floor,
                max_int_ceil,
                attr_requests,
                event_requests,
                event_filters,
                fabric_filtered,
                dataver_filters,
            },
        )
    }

    fn tlv_not_found() -> (r: Result<Self, Error>) {
        Err(Error::TLVNotFound)
    }

    proof fn lemma_round_trip(m: SubscribeReqModel, tag: TagType) {
        let o0 = <bool as ToTLV>::encoded(m.keep_subs, TagType::Context(0));
        let o1 = <u16 as ToTLV>::encoded(m.min_int_floor, TagType::Context(1));
        let o2 = <u16 as ToTLV>::encoded(m.max_int_ceil, TagType::Context(2));
        let o3 = <Option<Vec<AttrPath>> as ToTLV>::encoded(m.attr_requests, TagType::Context(3));
        let o4 = <Option<Vec<EventPath>> as ToTLV>::encoded(m.event_requests, TagType::Context(4));
        let o5 = <Option<Vec<EventFilter>> as ToTLV>::encoded(m.event_filters, TagType::Context(5));
        let o6 = <bool as ToTLV>::encoded(m.fabric_filtered, TagType::Context(7));
        let o7 = <Option<Vec<DataVersionFilter>> as ToTLV>::encoded(
            m.dataver_filters,
            TagType::Context(8),
        );
        let r8 = Seq::<ElementView>::empty();
        let r7 = prepend_opt(o7, r8);
        lemma_tags_from::<Option<Vec<DataVersionFilter>>>(m.dataver_filters, 8, r8);
        let r6 = prepend_opt(o6, r7);
        lemma_tags_from::<bool>(m.fabric_filtered, 7, r7);
        let r5 = prepend_opt(o5, r6);
        lemma_tags_from::<Option<Vec<EventFilter>>>(m.event_filters, 5, r6);
        let r4 = prepend_opt(o4, r5);
        lemma_tags_from::<Option<Vec<EventPath>>>(m.event_requests, 4, r5);
        let r3 = prepend_opt(o3, r4);
        lemma_tags_from::<Option<Vec<AttrPath>>>(m.attr_requests, 3, r4);
        let r2 = prepend_opt(o2, r3);
        lemma_tags_from::<u16>(m.max_int_ceil, 2, r3);
        let r1 = prepend_opt(o1, r2);
        lemma_tags_from::<u16>(m.min_int_floor, 1, r2);
        let r0 = prepend_opt(o0, r1);
        lemma_tags_from::<bool>(m.keep_subs, 0, r1);
        let items = r0;
        let s0 = Seq::<ElementView>::empty();
        assert(items =~= s0 + r0);
        lemma_field_round_trip::<bool>(items, s0, m.keep_subs, 0, r1);
        let s1 = push_opt(s0, o0);
        lemma_field_round_trip::<u16>(items, s1, m.min_int_floor, 1, r2);
        let s2 = push_opt(s1, o1);
        lemma_field_round_trip::<u16>(items, s2, m.max_int_ceil, 2, r3);
        let s3 = push_opt(s2, o2);
        lemma_field_round_trip::<Option<Vec<AttrPath>>>(items, s3, m.attr_requests, 3, r4);
        let s4 = push_opt(s3, o3);
        lemma_field_round_trip::<Option<Vec<EventPath>>>(items, s4, m.event_requests, 4, r5);
        let s5 = push_opt(s4, o4);
        lemma_field_round_trip::<Option<Vec<EventFilter>>>(items, s5, m.event_filters, 5, r6);
        let s6 = push_opt(s5, o5);
        lemma_skip_absent(items, s6, 6, r6);
        lemma_field_round_trip::<bool>(items, s6, m.fabric_filtered, 7, r7);
        let s7 = push_opt(s6, o6);
        lemma_field_round_trip::<Option<Vec<DataVersionFilter>>>(items, s7, m.dataver_filters, 8, r8);
        let s8 = push_opt(s7, o7);
        assert(items =~= m.fields());
    }
}
/// Confirms a subscription.
#[derive(Clone, Copy, Debug, PartialEq, Eq, Structural)]
pub struct SubscribeResp {
    pub subs_id: u32,
    pub max_int: u16,
}

impl SubscribeResp {
    pub fn new(subs_id: u32, max_int: u16) -> (r: Self)
        ensures
            r == (SubscribeResp { subs_id, max_int }),
    {
        SubscribeResp { subs_id, max_int }
    }
}

impl SubscribeResp {
    /// The members of the structure that is written for the value.
    pub open spec fn fields(self) -> Seq<ElementView> {
        let s = Seq::<ElementView>::empty();
        let s = push_opt(s, <u32 as ToTLV>::encoded(self.subs_id, TagType::Context(0)));
        push_opt(s, <u16 as ToTLV>::encoded(self.max_int, TagType::Context(2)))
    }

    /// What the members of a structure decode to, read in order.
    pub open spec fn from_fields(items: Seq<ElementView>) -> Result<SubscribeResp, Error> {
        let p = 0int;
        let subs_id = field::<u32>(items, p, 0);
        let p = after_field(items, p, 0);
        let p = after_field(items, p, 1);
        let max_int = field::<u16>(items, p, 2);
        match (subs_id, max_int) {
            (Ok(subs_id), Ok(max_int)) => Ok(SubscribeResp { subs_id, max_int }),
            (Err(err), _) => Err(err),
            (_, Err(err)) => Err(err),
        }
    }
}

impl ToTLV for SubscribeResp {
    type Model = SubscribeResp;

    open spec fn model(&self) -> SubscribeResp {
        *self
    }

    open spec fn present(m: SubscribeResp) -> bool {
        true
    }

    open spec fn encoded(m: SubscribeResp, tag: TagType) -> Option<ElementView> {
        Some(ElementView { tag, value: ValueView::Struct(m.fields()) })
    }

    fn to_tlv(&self, tw: &mut TLVWriter, tag: TagType) -> (r: Result<(), Error>) {
        let _ = tw.start_struct(tag);
        let _ = self.subs_id.to_tlv(tw, TagType::Context(0));
        let _ = self.max_int.to_tlv(tw, TagType::Context(2));
        tw.end_container()
    }

    proof fn lemma_encoded(m: SubscribeResp, tag: TagType) {
    }
}

impl<'a> FromTLV<'a> for SubscribeResp {
    open spec fn decoded(e: ElementView) -> Result<SubscribeResp, Error> {
        match e.value {
            ValueView::Struct(items) => SubscribeResp::from_fields(items),
            _ => Err(Error::TLVTypeMismatch),
        }
    }

    open spec fn absent() -> Result<SubscribeResp, Error> {
        Err(Error::TLVNotFound)
    }

    open spec fn accepted(m: SubscribeResp) -> bool {
        true
    }

    fn from_tlv(e: &'a TLVElement) -> (r: Result<Self, Error>) {
        let mut c = FieldCursor::new(e.struct_members()?);
        let subs_id = c.field::<u32>(0)?;
        c.skip(1);
        let max_int = c.field::<u16>(2)?;
        Ok(SubscribeResp { subs_id, max_int })
    }

    fn tlv_not_found() -> (r: Result<Self, Error>) {
        Err(Error::TLVNotFound)
    }

    proof fn lemma_round_trip(m: SubscribeResp, tag: TagType) {
        let o0 = <u32 as ToTLV>::encoded(m.subs_id, TagType::Context(0));
        let o1 = <u16 as ToTLV>::encoded(m.max_int, TagType::Context(2));
        let r2 = Seq::<ElementView>::empty();
        let r1 = prepend_opt(o1, r2);
        lemma_tags_from::<u16>(m.max_int, 2, r2);
        let r0 = prepend_opt(o0, r1);
        lemma_tags_from::<u32>(m.subs_id, 0, r1);
        let items = r0;
        let s0 = Seq::<ElementView>::empty();
        assert(items =~= s0 + r0);
        lemma_field_round_trip::<u32>(items, s0, m.subs_id, 0, r1);
        let s1 = push_opt(s0, o0);
        lemma_skip_absent(items, s1, 1, r1);
        lemma_field_round_trip::<u16>(items, s1, m.max_int, 2, r2);
        let s2 = push_opt(s1, o1);
        assert(items =~= m.fields());
    }
}
/// Announces a timed interaction and the time allowed for it.
#[derive(Clone, Copy, Debug, PartialEq, Eq, Structural)]
pub struct TimedReq {
    pub timeout: u16,
}

impl TimedReq {
    /// The members of the structure that is written for the value.
    pub open spec fn fields(self) -> Seq<ElementView> {
        let s = Seq::<ElementView>::empty();
        push_opt(s, <u16 as ToTLV>::encoded(self.timeout, TagType::Context(0)))
    }

    /// What the members of a structure decode to, read in order.
    pub open spec fn from_fields(items: Seq<ElementView>) -> Result<TimedReq, Error> {
        let p = 0int;
        let timeout = field::<u16>(items, p, 0);
        match timeout {
            Ok(timeout) => Ok(TimedReq { timeout }),
            Err(err) => Err(err),
        }
    }
}

impl ToTLV for TimedReq {
    type Model = TimedReq;

    open spec fn model(&self) -> TimedReq {
        *self
    }

    open spec fn present(m: TimedReq) -> bool {
        true
    }

    open spec fn encoded(m: TimedReq, tag: TagType) -> Option<ElementView> {
        Some(ElementView { tag, value: ValueView::Struct(m.fields()) })
    }

    fn to_tlv(&self, tw: &mut TLVWriter, tag: TagType) -> (r: Result<(), Error>) {
        let _ = tw.start_struct(tag);
        let _ = self.timeout.to_tlv(tw, TagType::Context(0));
        tw.end_container()
    }

    proof fn lemma_encoded(m: TimedReq, tag: TagType) {
    }
}

impl<'a> FromTLV<'a> for TimedReq {
    open spec fn decoded(e: ElementView) -> Result<TimedReq, Error> {
        match e.value {
            ValueView::Struct(items) => TimedReq::from_fields(items),
            _ => Err(Error::TLVTypeMismatch),
        }
    }

    open spec fn absent() -> Result<TimedReq, Error> {
        Err(Error::TLVNotFound)
    }

    open spec fn accepted(m: TimedReq) -> bool {
        true
    }

    fn from_tlv(e: &'a TLVElement) -> (r: Result<Self, Error>) {
        let mut c = FieldCursor::new(e.struct_members()?);
        let timeout = c.field::<u16>(0)?;
        Ok(TimedReq { timeout })
    }

    fn tlv_not_found() -> (r: Result<Self, Error>) {
        Err(Error::TLVNotFound)
    }

    proof fn lemma_round_trip(m: TimedReq, tag: TagType) {
        let o0 = <u16 as ToTLV>::encoded(m.timeout, TagType::Context(0));
        let r1 = Seq::<ElementView>::empty();
        let r0 = prepend_opt(o0, r1);
        lemma_tags_from::<u16>(m.timeout, 0, r1);
        let items = r0;
        let s0 = Seq::<ElementView>::empty();
        assert(items =~= s0 + r0);
        lemma_field_round_trip::<u16>(items, s0, m.timeout, 0, r1);
        let s1 = push_opt(s0, o0);
        assert(items =~= m.fields());
    }
}
/// Reports the status of an interaction as a whole.
#[derive(Clone, Copy, Debug, PartialEq, Eq, Structural)]
pub struct StatusResp {
    pub status: IMStatusCode,
}

impl StatusResp {
    /// The members of the structure that is written for the value.
    pub open spec fn fields(self) -> Seq<ElementView> {
        let s = Seq::<ElementView>::empty();
        push_opt(s, <IMStatusCode as ToTLV>::encoded(self.status, TagType::Context(0)))
    }

    /// What the members of a structure decode to, read in order.
    pub open spec fn from_fields(items: Seq<ElementView>) -> Result<StatusResp, Error> {
        let p = 0int;
        let status = field::<IMStatusCode>(items, p, 0);
        match status {
            Ok(status) => Ok(StatusResp { status }),
            Err(err) => Err(err),
        }
    }
}

impl ToTLV for StatusResp {
    type Model = StatusResp;

    open spec fn model(&self) -> StatusResp {
        *self
    }

    open spec fn present(m: StatusResp) -> bool {
        true
    }

    open spec fn encoded(m: StatusResp, tag: TagType) -> Option<ElementView> {
        Some(ElementView { tag, value: ValueView::Struct(m.fields()) })
    }

    fn to_tlv(&self, tw: &mut TLVWriter, tag: TagType) -> (r: Result<(), Error>) {
        let _ = tw.start_struct(tag);
        let _ = self.status.to_tlv(tw, TagType::Context(0));
        tw.end_container()
    }

    proof fn lemma_encoded(m: StatusResp, tag: TagType) {
    }
}

impl<'a> FromTLV<'a> for StatusResp {
    open spec fn decoded(e: ElementView) -> Result<StatusResp, Error> {
        match e.value {
            ValueView::Struct(items) => StatusResp::from_fields(items),
            _ => Err(Error::TLVTypeMismatch),
        }
    }

    open spec fn absent() -> Result<StatusResp, Error> {
        Err(Error::TLVNotFound)
    }

    open spec fn accepted(m: StatusResp) -> bool {
        true
    }

    fn from_tlv(e: &'a TLVElement) -> (r: Result<Self, Error>) {
        let mut c = FieldCursor::new(e.struct_members()?);
        let status = c.field::<IMStatusCode>(0)?;
        Ok(StatusResp { status })
    }

    fn tlv_not_found() -> (r: Result<Self, Error>) {
        Err(Error::TLVNotFound)
    }

    proof fn lemma_round_trip(m: StatusResp, tag: TagType) {
        let o0 = <IMStatusCode as ToTLV>::encoded(m.status, TagType::Context(0));
        let r1 = Seq::<ElementView>::empty();
        let r0 = prepend_opt(o0, r1);
        lemma_tags_from::<IMStatusCode>(m.status, 0, r1);
        let items = r0;
        let s0 = Seq::<ElementView>::empty();
        assert(items =~= s0 + r0);
        lemma_field_round_trip::<IMStatusCode>(items, s0, m.status, 0, r1);
        let s1 = push_opt(s0, o0);
        assert(items =~= m.fields());
    }
}
/// The context tags of the fields of an invoke request.
#[derive(Clone, Copy, Debug, PartialEq, Eq, Structural)]
pub enum InvReqTag {
    SupressResponse,
    TimedReq,
    InvokeRequests,
}

impl InvReqTag {
    pub fn tag(self) -> (t: u8)
        ensures
            t == (match self {
                InvReqTag::SupressResponse => 0u8,
                InvReqTag::TimedReq => 1u8,
                InvReqTag::InvokeRequests => 2u8,
            }),
    {
        match self {
            InvReqTag::SupressResponse => 0,
            InvReqTag::TimedReq => 1,
            InvReqTag::InvokeRequests => 2,
        }
    }
}

/// Asks for commands to be run.
pub struct InvReq<'a> {
    pub suppress_response: Option<bool>,
    pub timed_request: Option<bool>,
    pub inv_requests: Option<Vec<CmdData<'a>>>,
}

/// Mathematical model of an invoke request.
pub struct InvReqModel {
    pub suppress_response: Option<bool>,
    pub timed_request: Option<bool>,
    pub inv_requests: Option<Seq<CmdDataModel>>,
}

impl InvReqModel {
    /// The members of the structure that is written for the value.
    pub open spec fn fields(self) -> Seq<ElementView> {
        let s = Seq::<ElementView>::empty();
        let s = push_opt(
            s,
            <Option<bool> as ToTLV>::encoded(self.suppress_response, TagType::Context(0)),
        );
        let s = push_opt(s, <Option<bool> as ToTLV>::encoded(self.timed_request, TagType::Context(1)));
        push_opt(
            s,
            <Option<Vec<CmdData<'static>>> as ToTLV>::encoded(self.inv_requests, TagType::Context(2)),
        )
    }

    /// What the members of a structure decode to, read in order.
    pub open spec fn from_fields(items: Seq<ElementView>) -> Result<InvReqModel, Error> {
        let p = 0int;
        let suppress_response = field::<Option<bool>>(items, p, 0);
        let p = after_field(items, p, 0);
        let timed_request = field::<Option<bool>>(items, p, 1);
        let p = after_field(items, p, 1);
        let inv_requests = field::<Option<Vec<CmdData<'static>>>>(items, p, 2);
        match (suppress_response, timed_request, inv_requests) {
            (Ok(suppress_response), Ok(timed_request), Ok(inv_requests)) => Ok(
                InvReqModel { suppress_response, timed_request, inv_requests },
            ),
            (Err(err), _, _) => Err(err),
            (_, Err(err), _) => Err(err),
            (_, _, Err(err)) => Err(err),
        }
    }
}

impl<'a> ToTLV for InvReq<'a> {
    type Model = InvReqModel;

    open spec fn model(&self) -> InvReqModel {
        InvReqModel {
            suppress_response: self.suppress_response.model(),
            timed_request: self.timed_request.model(),
            inv_requests: self.inv_requests.model(),
        }
    }

    open spec fn present(m: InvReqModel) -> bool {
        true
    }

    open spec fn encoded(m: InvReqModel, tag: TagType) -> Option<ElementView> {
        Some(ElementView { tag, value: ValueView::Struct(m.fields()) })
    }

    fn to_tlv(&self, tw: &mut TLVWriter, tag: TagType) -> (r: Result<(), Error>) {
        let _ = tw.start_struct(tag);
        let _ = self.suppress_response.to_tlv(tw, TagType::Context(0));
        let _ = self.timed_request.to_tlv(tw, TagType::Context(1));
        let _ = self.inv_requests.to_tlv(tw, TagType::Context(2));
        tw.end_container()
    }

    proof fn lemma_encoded(m: InvReqModel, tag: TagType) {
    }
}

impl<'a> FromTLV<'a> for InvReq<'a> {
    open spec fn decoded(e: ElementView) -> Result<InvReqModel, Error> {
        match e.value {
            ValueView::Struct(items) => InvReqModel::from_fields(items),
            _ => Err(Error::TLVTypeMismatch),
        }
    }

    open spec fn absent() -> Result<InvReqModel, Error> {
        Err(Error::TLVNotFound)
    }

    open spec fn accepted(m: InvReqModel) -> bool {
        &&& <Option<bool> as FromTLV>::accepted(m.suppress_response)
        &&& <Option<bool> as FromTLV>::accepted(m.timed_request)
        &&& <Option<Vec<CmdData<'static>>> as FromTLV>::accepted(m.inv_requests)
    }

    fn from_tlv(e: &'a TLVElement) -> (r: Result<Self, Error>) {
        let mut c = FieldCursor::new(e.struct_members()?);
        let suppress_response = c.field::<Option<bool>>(0)?;
        let timed_request = c.field::<Option<bool>>(1)?;
        let inv_requests = c.field::<Option<Vec<CmdData<'a>>>>(2)?;
        Ok(InvReq { suppress_response, timed_request, inv_requests })
    }

    fn tlv_not_found() -> (r: Result<Self, Error>) {
        Err(Error::TLVNotFound)
    }

    proof fn lemma_round_trip(m: InvReqModel, tag: TagType) {
        let o0 = <Option<bool> as ToTLV>::encoded(m.suppress_response, TagType::Context(0));
        let o1 = <Option<bool> as ToTLV>::encoded(m.timed_request, TagType::Context(1));
        let o2 = <Option<Vec<CmdData<'static>>> as ToTLV>::encoded(m.inv_requests, TagType::Context(2));
        let r3 = Seq::<ElementView>::empty();
        let r2 = prepend_opt(o2, r3);
        lemma_tags_from::<Option<Vec<CmdData<'static>>>>(m.inv_requests, 2, r3);
        let r1 = prepend_opt(o1, r2);
        lemma_tags_from::<Option<bool>>(m.timed_request, 1, r2);
        let r0 = prepend_opt(o0, r1);
        lemma_tags_from::<Option<bool>>(m.suppress_response, 0, r1);
        let items = r0;
        let s0 = Seq::<ElementView>::empty();
        assert(items =~= s0 + r0);
        lemma_field_round_trip::<Option<bool>>(items, s0, m.suppress_response, 0, r1);
        let s1 = push_opt(s0, o0);
        lemma_field_round_trip::<Option<bool>>(items, s1, m.timed_request, 1, r2);
        let s2 = push_opt(s1, o1);
        lemma_field_round_trip::<Option<Vec<CmdData<'static>>>>(items, s2, m.inv_requests, 2, r3);
        let s3 = push_opt(s2, o2);
        assert(items =~= m.fields());
    }
}
/// The context tags of the fields of an invoke response.
#[derive(Clone, Copy, Debug, PartialEq, Eq, Structural)]
pub enum InvRespTag {
    SupressResponse,
    InvokeResponses,
}

impl InvRespTag {
    pub fn tag(self) -> (t: u8)
        ensures
            t == (match self {
                InvRespTag::SupressResponse => 0u8,
                InvRespTag::InvokeResponses => 1u8,
            }),
    {
        match self {
            InvRespTag::SupressResponse => 0,
            InvRespTag::InvokeResponses => 1,
        }
    }
}

/// Answers an invoke request, command by command.
pub struct InvResp<'a> {
    pub suppress_response: Option<bool>,
    pub inv_responses: Option<Vec<crate::ib::InvResp<'a>>>,
}

/// Mathematical model of an invoke response.
pub struct InvRespMsgModel {
    pub suppress_response: Option<bool>,
    pub inv_responses: Option<Seq<InvRespModel>>,
}

impl InvRespMsgModel {
    /// The members of the structure that is written for the value.
    pub open spec fn fields(self) -> Seq<ElementView> {
        let s = Seq::<ElementView>::empty();
        let s = push_opt(
            s,
            <Option<bool> as ToTLV>::encoded(self.suppress_response, TagType::Context(0)),
        );
        push_opt(
            s,
            <Option<Vec<crate::ib::InvResp<'static>>> as ToTLV>::encoded(
                self.inv_responses,
                TagType::Context(1),
            ),
        )
    }

    /// What the members of a structure decode to, read in order.
    pub open spec fn from_fields(items: Seq<ElementView>) -> Result<InvRespMsgModel, Error> {
        let p = 0int;
        let suppress_response = field::<Option<bool>>(items, p, 0);
        let p = after_field(items, p, 0);
        let inv_responses = field::<Option<Vec<crate::ib::InvResp<'static>>>>(items, p, 1);
        match (suppress_response, inv_responses) {
            (Ok(suppress_response), Ok(inv_responses)) => Ok(
                InvRespMsgModel { suppress_response, inv_responses },
            ),
            (Err(err), _) => Err(err),
            (_, Err(err)) => Err(err),
        }
    }
}

impl<'a> ToTLV for InvResp<'a> {
    type Model = InvRespMsgModel;

    open spec fn model(&self) -> InvRespMsgModel {
        InvRespMsgModel {
            suppress_response: self.suppress_response.model(),
            inv_responses: self.inv_responses.model(),
        }
    }

    open spec fn present(m: InvRespMsgModel) -> bool {
        true
    }

    open spec fn encoded(m: InvRespMsgModel, tag: TagType) -> Option<ElementView> {
        Some(ElementView { tag, value: ValueView::Struct(m.fields()) })
    }

    fn to_tlv(&self, tw: &mut TLVWriter, tag: TagType) -> (r: Result<(), Error>) {
        let _ = tw.start_struct(tag);
        let _ = self.suppress_response.to_tlv(tw, TagType::Context(0));
        let _ = self.inv_responses.to_tlv(tw, TagType::Context(1));
        tw.end_container()
    }

    proof fn lemma_encoded(m: InvRespMsgModel, tag: TagType) {
    }
}

impl<'a> FromTLV<'a> for InvResp<'a> {
    open spec fn decoded(e: ElementView) -> Result<InvRespMsgModel, Error> {
        match e.value {
            ValueView::Struct(items) => InvRespMsgModel::from_fields(items),
            _ => Err(Error::TLVTypeMismatch),
        }
    }

    open spec fn absent() -> Result<InvRespMsgModel, Error> {
        Err(Error::TLVNotFound)
    }

    open spec fn accepted(m: InvRespMsgModel) -> bool {
        &&& <Option<bool> as FromTLV>::accepted(m.suppress_response)
        &&& <Option<Vec<crate::ib::InvResp<'static>>> as FromTLV>::accepted(m.inv_responses)
    }

    fn from_tlv(e: &'a TLVElement) -> (r: Result<Self, Error>) {
        let mut c = FieldCursor::new(e.struct_members()?);
        let suppress_response = c.field::<Option<bool>>(0)?;
        let inv_responses = c.field::<Option<Vec<crate::ib::InvResp<'a>>>>(1)?;
        Ok(InvResp { suppress_response, inv_responses })
    }

    fn tlv_not_found() -> (r: Result<Self, Error>) {
        Err(Error::TLVNotFound)
    }

    proof fn lemma_round_trip(m: InvRespMsgModel, tag: TagType) {
        let o0 = <Option<bool> as ToTLV>::encoded(m.suppress_response, TagType::Context(0));
        let o1 = <Option<Vec<crate::ib::InvResp<'static>>> as ToTLV>::encoded(
            m.inv_responses,
            TagType::Context(1),
        );
        let r2 = Seq::<ElementView>::empty();
        let r1 = prepend_opt(o1, r2);
        lemma_tags_from::<Option<Vec<crate::ib::InvResp<'static>>>>(m.inv_responses, 1, r2);
        let r0 = prepend_opt(o0, r1);
        lemma_tags_from::<Option<bool>>(m.suppress_response, 0, r1);
        let items = r0;
        let s0 = Seq::<ElementView>::empty();
        assert(items =~= s0 + r0);
        lemma_field_round_trip::<Option<bool>>(items, s0, m.suppress_response, 0, r1);
        let s1 = push_opt(s0, o0);
        lemma_field_round_trip::<Option<Vec<crate::ib::InvResp<'static>>>>(
            items,
            s1,
            m.inv_responses,
            1,
            r2,
        );
        let s2 = push_opt(s1, o1);
        assert(items =~= m.fields());
    }
}
/// Asks for attributes and events to be read.
pub struct ReadReq {
    pub attr_requests: Option<Vec<AttrPath>>,
    pub event_requests: Option<Vec<EventPath>>,
    pub event_filters: Option<Vec<EventFilter>>,
    pub fabric_filtered: bool,
    pub dataver_filters: Option<Vec<DataVersionFilter>>,
}

/// Mathematical model of a read request.
pub struct ReadReqModel {
    pub attr_requests: Option<Seq<AttrPath>>,
    pub event_requests: Option<Seq<EventPath>>,
    pub event_filters: Option<Seq<EventFilter>>,
    pub fabric_filtered: bool,
    pub dataver_filters: Option<Seq<DataVersionFilter>>,
}

impl Default for ReadReq {
    fn default() -> (r: Self)
        ensures
            r.model() == (ReadReqModel {
                attr_requests: None,
                event_requests: None,
                event_filters: None,
                fabric_filtered: false,
                dataver_filters: None,
            }),
    {
        ReadReq {
            attr_requests: None,
            event_requests: None,
            event_filters: None,
            fabric_filtered: false,
            dataver_filters: None,
        }
    }
}

impl ReadReq {
    pub fn new(fabric_filtered: bool) -> (r: Self)
        ensures
            r.model() == (ReadReqModel {
                attr_requests: None,
                event_requests: None,
                event_filters: None,
                fabric_filtered,
                dataver_filters: None,
            }),
    {
        ReadReq {
            attr_requests: None,
            event_requests: None,
            event_filters: None,
            fabric_filtered,
            dataver_filters: None,
        }
    }

    /// The request with `requests` as the attributes asked for.
    pub fn set_attr_requests(self, requests: &[AttrPath]) -> (r: Self)
        ensures
            r.model() == (ReadReqModel { attr_requests: Some(requests@), ..self.model() }),
    {
        let mut r = self;
        r.attr_requests = Some(copy_slice(requests));
        proof {
            assert(r.attr_requests.model()->0 =~= requests@);
        }
        r
    }
}

impl ReadReqModel {
    /// The members of the structure that is written for the value.
    pub open spec fn fields(self) -> Seq<ElementView> {
        let s = Seq::<ElementView>::empty();
        let s = push_opt(
            s,
            <Option<Vec<AttrPath>> as ToTLV>::encoded(self.attr_requests, TagType::Context(0)),
        );
        let s = push_opt(
            s,
            <Option<Vec<EventPath>> as ToTLV>::encoded(self.event_requests, TagType::Context(1)),
        );
        let s = push_opt(
            s,
            <Option<Vec<EventFilter>> as ToTLV>::encoded(self.event_filters, TagType::Context(2)),
        );
        let s = push_opt(s, <bool as ToTLV>::encoded(self.fabric_filtered, TagType::Context(3)));
        push_opt(
            s,
            <Option<Vec<DataVersionFilter>> as ToTLV>::encoded(
                self.dataver_filters,
                TagType::Context(4),
            ),
        )
    }

    /// What the members of a structure decode to, read in order.
    pub open spec fn from_fields(items: Seq<ElementView>) -> Result<ReadReqModel, Error> {
        let p = 0int;
        let attr_requests = field::<Option<Vec<AttrPath>>>(items, p, 0);
        let p = after_field(items, p, 0);
        let event_requests = field::<Option<Vec<EventPath>>>(items, p, 1);
        let p = after_field(items, p, 1);
        let event_filters = field::<Option<Vec<EventFilter>>>(items, p, 2);
        let p = after_field(items, p, 2);
        let fabric_filtered = field::<bool>(items, p, 3);
        let p = after_field(items, p, 3);
        let dataver_filters = field::<Option<Vec<DataVersionFilter>>>(items, p, 4);
        match (attr_requests, event_requests, event_filters, fabric_filtered, dataver_filters) {
            (
                Ok(attr_requests),
                Ok(event_requests),
                Ok(event_filters),
                Ok(fabric_filtered),
                Ok(dataver_filters),
            ) => Ok(
                ReadReqModel {
                    attr_requests,
                    event_requests,
                    event_filters,
                    fabric_filtered,
                    dataver_filters,
                },
            ),
            (Err(err), _, _, _, _) => Err(err),
            (_, Err(err), _, _, _) => Err(err),
            (_, _, Err(err), _, _) => Err(err),
            (_, _, _, Err(err), _) => Err(err),
            (_, _, _, _, Err(err)) => Err(err),
        }
    }
}

impl ToTLV for ReadReq {
    type Model = ReadReqModel;

    open spec fn model(&self) -> ReadReqModel {
        ReadReqModel {
            attr_requests: self.attr_requests.model(),
            event_requests: self.event_requests.model(),
            event_filters: self.event_filters.model(),
            fabric_filtered: self.fabric_filtered.model(),
            dataver_filters: self.dataver_filters.model(),
        }
    }

    open spec fn present(m: ReadReqModel) -> bool {
        true
    }

    open spec fn encoded(m: ReadReqModel, tag: TagType) -> Option<ElementView> {
        Some(ElementView { tag, value: ValueView::Struct(m.fields()) })
    }

    fn to_tlv(&self, tw: &mut TLVWriter, tag: TagType) -> (r: Result<(), Error>) {
        let _ = tw.start_struct(tag);
        let _ = self.attr_requests.to_tlv(tw, TagType::Context(0));
        let _ = self.event_requests.to_tlv(tw, TagType::Context(1));
        let _ = self.event_filters.to_tlv(tw, TagType::Context(2));
        let _ = self.fabric_filtered.to_tlv(tw, TagType::Context(3));
        let _ = self.dataver_filters.to_tlv(tw, TagType::Context(4));
        tw.end_container()
    }

    proof fn lemma_encoded(m: ReadReqModel, tag: TagType) {
    }
}

impl<'a> FromTLV<'a> for ReadReq {
    open spec fn decoded(e: ElementView) -> Result<ReadReqModel, Error> {
        match e.value {
            ValueView::Struct(items) => ReadReqModel::from_fields(items),
            _ => Err(Error::TLVTypeMismatch),
        }
    }

    open spec fn absent() -> Result<ReadReqModel, Error> {
        Err(Error::TLVNotFound)
    }

    open spec fn accepted(m: ReadReqModel) -> bool {
        &&& <Option<Vec<AttrPath>> as FromTLV>::accepted(m.attr_requests)
        &&& <Option<Vec<EventPath>> as FromTLV>::accepted(m.event_requests)
        &&& <Option<Vec<EventFilter>> as FromTLV>::accepted(m.event_filters)
        &&& <bool as FromTLV>::accepted(m.fabric_filtered)
        &&& <Option<Vec<DataVersionFilter>> as FromTLV>::accepted(m.dataver_filters)
    }

    fn from_tlv(e: &'a TLVElement) -> (r: Result<Self, Error>) {
        let mut c = FieldCursor::new(e.struct_members()?);
        let attr_requests = c.field::<Option<Vec<AttrPath>>>(0)?;
        let event_requests = c.field::<Option<Vec<EventPath>>>(1)?;
        let event_filters = c.field::<Option<Vec<EventFilter>>>(2)?;
        let fabric_filtered = c.field::<bool>(3)?;
        let dataver_filters = c.field::<Option<Vec<DataVersionFilter>>>(4)?;
        Ok(ReadReq { attr_requests, event_requests, event_filters, fabric_filtered, dataver_filters })
    }

    fn tlv_not_found() -> (r: Result<Self, Error>) {
        Err(Error::TLVNotFound)
    }

    proof fn lemma_round_trip(m: ReadReqModel, tag: TagType) {
        let o0 = <Option<Vec<AttrPath>> as ToTLV>::encoded(m.attr_requests, TagType::Context(0));
        let o1 = <Option<Vec<EventPath>> as ToTLV>::encoded(m.event_requests, TagType::Context(1));
        let o2 = <Option<Vec<EventFilter>> as ToTLV>::encoded(m.event_filters, TagType::Context(2));
        let o3 = <bool as ToTLV>::encoded(m.fabric_filtered, TagType::Context(3));
        let o4 = <Option<Vec<DataVersionFilter>> as ToTLV>::encoded(
            m.dataver_filters,
            TagType::Context(4),
        );
        let r5 = Seq::<ElementView>::empty();
        let r4 = prepend_opt(o4, r5);
        lemma_tags_from::<Option<Vec<DataVersionFilter>>>(m.dataver_filters, 4, r5);
        let r3 = prepend_opt(o3, r4);
        lemma_tags_from::<bool>(m.fabric_filtered, 3, r4);
        let r2 = prepend_opt(o2, r3);
        lemma_tags_from::<Option<Vec<EventFilter>>>(m.event_filters, 2, r3);
        let r1 = prepend_opt(o1, r2);
        lemma_tags_from::<Option<Vec<EventPath>>>(m.event_requests, 1, r2);
        let r0 = prepend_opt(o0, r1);
        lemma_tags_from::<Option<Vec<AttrPath>>>(m.attr_requests, 0, r1);
        let items = r0;
        let s0 = Seq::<ElementView>::empty();
        assert(items =~= s0 + r0);
        lemma_field_round_trip::<Option<Vec<AttrPath>>>(items, s0, m.attr_requests, 0, r1);
        let s1 = push_opt(s0, o0);
        lemma_field_round_trip::<Option<Vec<EventPath>>>(items, s1, m.event_requests, 1, r2);
        let s2 = push_opt(s1, o1);
        lemma_field_round_trip::<Option<Vec<EventFilter>>>(items, s2, m.event_filters, 2, r3);
        let s3 = push_opt(s2, o2);
        lemma_field_round_trip::<bool>(items, s3, m.fabric_filtered, 3, r4);
        let s4 = push_opt(s3, o3);
        lemma_field_round_trip::<Option<Vec<DataVersionFilter>>>(items, s4, m.dataver_filters, 4, r5);
        let s5 = push_opt(s4, o4);
        assert(items =~= m.fields());
    }
}
/// Asks for attributes to be written. A request may be one chunk of
/// several: all but the last chunk say that more follow.
pub struct WriteReq<'a> {
    pub supress_response: Option<bool>,
    pub timed_request: Option<bool>,
    pub write_requests: Vec<AttrData<'a>>,
    pub more_chunked: Option<bool>,
}

/// Mathematical model of a write request.
pub struct WriteReqModel {
    pub supress_response: Option<bool>,
    pub timed_request: Option<bool>,
    pub write_requests: Seq<AttrDataModel>,
    pub more_chunked: Option<bool>,
}

impl<'a> WriteReq<'a> {
    /// A request in one chunk for the writes given. The wish to have no
    /// response is written only when there is one.
    pub fn new(supress_response: bool, write_requests: &[AttrData<'a>]) -> (r: Self)
        ensures
            r.supress_response == (if supress_response {
                Some(true)
            } else {
                None
            }),
            r.timed_request is None,
            r.more_chunked is None,
            r.write_requests@ == write_requests@,
    {
        let mut w = WriteReq {
            supress_response: None,
            write_requests: copy_slice(write_requests),
            timed_request: None,
            more_chunked: None,
        };
        if supress_response {
            w.supress_response = Some(true);
        }
        w
    }
}

impl WriteReqModel {
    /// The members of the structure that is written for the value.
    pub open spec fn fields(self) -> Seq<ElementView> {
        let s = Seq::<ElementView>::empty();
        let s = push_opt(
            s,
            <Option<bool> as ToTLV>::encoded(self.supress_response, TagType::Context(0)),
        );
        let s = push_opt(s, <Option<bool> as ToTLV>::encoded(self.timed_request, TagType::Context(1)));
        let s = push_opt(
            s,
            <Vec<AttrData<'static>> as ToTLV>::encoded(self.write_requests, TagType::Context(2)),
        );
        push_opt(s, <Option<bool> as ToTLV>::encoded(self.more_chunked, TagType::Context(3)))
    }

    /// What the members of a structure decode to, read in order.
    pub open spec fn from_fields(items: Seq<ElementView>) -> Result<WriteReqModel, Error> {
        let p = 0int;
        let supress_response = field::<Option<bool>>(items, p, 0);
        let p = after_field(items, p, 0);
        let timed_request = field::<Option<bool>>(items, p, 1);
        let p = after_field(items, p, 1);
        let write_requests = field::<Vec<AttrData<'static>>>(items, p, 2);
        let p = after_field(items, p, 2);
        let more_chunked = field::<Option<bool>>(items, p, 3);
        match (supress_response, timed_request, write_requests, more_chunked) {
            (Ok(supress_response), Ok(timed_request), Ok(write_requests), Ok(more_chunked)) => Ok(
                WriteReqModel { supress_response, timed_request, write_requests, more_chunked },
            ),
            (Err(err), _, _, _) => Err(err),
            (_, Err(err), _, _) => Err(err),
            (_, _, Err(err), _) => Err(err),
            (_, _, _, Err(err)) => Err(err),
        }
    }
}

impl<'a> ToTLV for WriteReq<'a> {
    type Model = WriteReqModel;

    open spec fn model(&self) -> WriteReqModel {
        WriteReqModel {
            supress_response: self.supress_response.model(),
            timed_request: self.timed_request.model(),
            write_requests: self.write_requests.model(),
            more_chunked: self.more_chunked.model(),
        }
    }

    open spec fn present(m: WriteReqModel) -> bool {
        true
    }

    open spec fn encoded(m: WriteReqModel, tag: TagType) -> Option<ElementView> {
        Some(ElementView { tag, value: ValueView::Struct(m.fields()) })
    }

    fn to_tlv(&self, tw: &mut TLVWriter, tag: TagType) -> (r: Result<(), Error>) {
        let _ = tw.start_struct(tag);
        let _ = self.supress_response.to_tlv(tw, TagType::Context(0));
        let _ = self.timed_request.to_tlv(tw, TagType::Context(1));
        let _ = self.write_requests.to_tlv(tw, TagType::Context(2));
        let _ = self.more_chunked.to_tlv(tw, TagType::Context(3));
        tw.end_container()
    }

    proof fn lemma_encoded(m: WriteReqModel, tag: TagType) {
    }
}

impl<'a> FromTLV<'a> for WriteReq<'a> {
    open spec fn decoded(e: ElementView) -> Result<WriteReqModel, Error> {
        match e.value {
            ValueView::Struct(items) => WriteReqModel::from_fields(items),
            _ => Err(Error::TLVTypeMismatch),
        }
    }

    open spec fn absent() -> Result<WriteReqModel, Error> {
        Err(Error::TLVNotFound)
    }

    open spec fn accepted(m: WriteReqModel) -> bool {
        &&& <Option<bool> as FromTLV>::accepted(m.supress_response)
        &&& <Option<bool> as FromTLV>::accepted(m.timed_request)
        &&& <Vec<AttrData<'static>> as FromTLV>::accepted(m.write_requests)
        &&& <Option<bool> as FromTLV>::accepted(m.more_chunked)
    }

    fn from_tlv(e: &'a TLVElement) -> (r: Result<Self, Error>) {
        let mut c = FieldCursor::new(e.struct_members()?);
        let supress_response = c.field::<Option<bool>>(0)?;
        let timed_request = c.field::<Option<bool>>(1)?;
        let write_requests = c.field::<Vec<AttrData<'a>>>(2)?;
        let more_chunked = c.field::<Option<bool>>(3)?;
        Ok(WriteReq { supress_response, timed_request, write_requests, more_chunked })
    }

    fn tlv_not_found() -> (r: Result<Self, Error>) {
        Err(Error::TLVNotFound)
    }

    proof fn lemma_round_trip(m: WriteReqModel, tag: TagType) {
        let o0 = <Option<bool> as ToTLV>::encoded(m.supress_response, TagType::Context(0));
        let o1 = <Option<bool> as ToTLV>::encoded(m.timed_request, TagType::Context(1));
        let o2 = <Vec<AttrData<'static>> as ToTLV>::encoded(m.write_requests, TagType::Context(2));
        let o3 = <Option<bool> as ToTLV>::encoded(m.more_chunked, TagType::Context(3));
        let r4 = Seq::<ElementView>::empty();
        let r3 = prepend_opt(o3, r4);
        lemma_tags_from::<Option<bool>>(m.more_chunked, 3, r4);
        let r2 = prepend_opt(o2, r3);
        lemma_tags_from::<Vec<AttrData<'static>>>(m.write_requests, 2, r3);
        let r1 = prepend_opt(o1, r2);
        lemma_tags_from::<Option<bool>>(m.timed_request, 1, r2);
        let r0 = prepend_opt(o0, r1);
        lemma_tags_from::<Option<bool>>(m.supress_response, 0, r1);
        let items = r0;
        let s0 = Seq::<ElementView>::empty();
        assert(items =~= s0 + r0);
        lemma_field_round_trip::<Option<bool>>(items, s0, m.supress_response, 0, r1);
        let s1 = push_opt(s0, o0);
        lemma_field_round_trip::<Option<bool>>(items, s1, m.timed_request, 1, r2);
        let s2 = push_opt(s1, o1);
        lemma_field_round_trip::<Vec<AttrData<'static>>>(items, s2, m.write_requests, 2, r3);
        let s3 = push_opt(s2, o2);
        lemma_field_round_trip::<Option<bool>>(items, s3, m.more_chunked, 3, r4);
        let s4 = push_opt(s3, o3);
        assert(items =~= m.fields());
    }
}
/// Reports attribute data, in answer to a read or under a subscription.
/// Reports of events are not defined: the field only holds their place.
pub struct ReportDataMsg<'a> {
    pub subscription_id: Option<u32>,
    pub attr_reports: Option<Vec<AttrResp<'a>>>,
    pub event_reports: Option<bool>,
    pub more_chunks: Option<bool>,
    pub suppress_response: Option<bool>,
}

/// Mathematical model of a report.
pub struct ReportDataModel {
    pub subscription_id: Option<u32>,
    pub attr_reports: Option<Seq<AttrRespModel>>,
    pub event_reports: Option<bool>,
    pub more_chunks: Option<bool>,
    pub suppress_response: Option<bool>,
}

impl ReportDataModel {
    /// The members of the structure that is written for the value.
    pub open spec fn fields(self) -> Seq<ElementView> {
        let s = Seq::<ElementView>::empty();
        let s = push_opt(s, <Option<u32> as ToTLV>::encoded(self.subscription_id, TagType::Context(0)));
        let s = push_opt(
            s,
            <Option<Vec<AttrResp<'static>>> as ToTLV>::encoded(self.attr_reports, TagType::Context(1)),
        );
        let s = push_opt(s, <Option<bool> as ToTLV>::encoded(self.event_reports, TagType::Context(2)));
        let s = push_opt(s, <Option<bool> as ToTLV>::encoded(self.more_chunks, TagType::Context(3)));
        push_opt(s, <Option<bool> as ToTLV>::encoded(self.suppress_response, TagType::Context(4)))
    }

    /// What the members of a structure decode to, read in order.
    pub open spec fn from_fields(items: Seq<ElementView>) -> Result<ReportDataModel, Error> {
        let p = 0int;
        let subscription_id = field::<Option<u32>>(items, p, 0);
        let p = after_field(items, p, 0);
        let attr_reports = field::<Option<Vec<AttrResp<'static>>>>(items, p, 1);
        let p = after_field(items, p, 1);
        let event_reports = field::<Option<bool>>(items, p, 2);
        let p = after_field(items, p, 2);
        let more_chunks = field::<Option<bool>>(items, p, 3);
        let p = after_field(items, p, 3);
        let suppress_response = field::<Option<bool>>(items, p, 4);
        match (subscription_id, attr_reports, event_reports, more_chunks, suppress_response) {
            (
                Ok(subscription_id),
                Ok(attr_reports),
                Ok(event_reports),
                Ok(more_chunks),
                Ok(suppress_response),
            ) => Ok(
                ReportDataModel {
                    subscription_id,
                    attr_reports,
                    event_reports,
                    more_chunks,
                    suppress_response,
                },
            ),
            (Err(err), _, _, _, _) => Err(err),
            (_, Err(err), _, _, _) => Err(err),
            (_, _, Err(err), _, _) => Err(err),
            (_, _, _, Err(err), _) => Err(err),
            (_, _, _, _, Err(err)) => Err(err),
        }
    }
}

impl<'a> ToTLV for ReportDataMsg<'a> {
    type Model = ReportDataModel;

    open spec fn model(&self) -> ReportDataModel {
        ReportDataModel {
            subscription_id: self.subscription_id.model(),
            attr_reports: self.attr_reports.model(),
            event_reports: self.event_reports.model(),
            more_chunks: self.more_chunks.model(),
            suppress_response: self.suppress_response.model(),
        }
    }

    open spec fn present(m: ReportDataModel) -> bool {
        true
    }

    open spec fn encoded(m: ReportDataModel, tag: TagType) -> Option<ElementView> {
        Some(ElementView { tag, value: ValueView::Struct(m.fields()) })
    }

    fn to_tlv(&self, tw: &mut TLVWriter, tag: TagType) -> (r: Result<(), Error>) {
        let _ = tw.start_struct(tag);
        let _ = self.subscription_id.to_tlv(tw, TagType::Context(0));
        let _ = self.attr_reports.to_tlv(tw, TagType::Context(1));
        let _ = self.event_reports.to_tlv(tw, TagType::Context(2));
        let _ = self.more_chunks.to_tlv(tw, TagType::Context(3));
        let _ = self.suppress_response.to_tlv(tw, TagType::Context(4));
        tw.end_container()
    }

    proof fn lemma_encoded(m: ReportDataModel, tag: TagType) {
    }
}

impl<'a> FromTLV<'a> for ReportDataMsg<'a> {
    open spec fn decoded(e: ElementView) -> Result<ReportDataModel, Error> {
        match e.value {
            ValueView::Struct(items) => ReportDataModel::from_fields(items),
            _ => Err(Error::TLVTypeMismatch),
        }
    }

    open spec fn absent() -> Result<ReportDataModel, Error> {
        Err(Error::TLVNotFound)
    }

    open spec fn accepted(m: ReportDataModel) -> bool {
        &&& <Option<u32> as FromTLV>::accepted(m.subscription_id)
        &&& <Option<Vec<AttrResp<'static>>> as FromTLV>::accepted(m.attr_reports)
        &&& <Option<bool> as FromTLV>::accepted(m.event_reports)
        &&& <Option<bool> as FromTLV>::accepted(m.more_chunks)
        &&& <Option<bool> as FromTLV>::accepted(m.suppress_response)
    }

    fn from_tlv(e: &'a TLVElement) -> (r: Result<Self, Error>) {
        let mut c = FieldCursor::new(e.struct_members()?);
        let subscription_id = c.field::<Option<u32>>(0)?;
        let attr_reports = c.field::<Option<Vec<AttrResp<'a>>>>(1)?;
        let event_reports = c.field::<Option<bool>>(2)?;
        let more_chunks = c.field::<Option<bool>>(3)?;
        let suppress_response = c.field::<Option<bool>>(4)?;
        Ok(
            ReportDataMsg {
                subscription_id,
                attr_reports,
                event_reports,
                more_chunks,
                suppress_response,
            },
        )
    }

    fn tlv_not_found() -> (r: Result<Self, Error>) {
        Err(Error::TLVNotFound)
    }

    proof fn lemma_round_trip(m: ReportDataModel, tag: TagType) {
        let o0 = <Option<u32> as ToTLV>::encoded(m.subscription_id, TagType::Context(0));
        let o1 = <Option<Vec<AttrResp<'static>>> as ToTLV>::encoded(m.attr_reports, TagType::Context(1));
        let o2 = <Option<bool> as ToTLV>::encoded(m.event_reports, TagType::Context(2));
        let o3 = <Option<bool> as ToTLV>::encoded(m.more_chunks, TagType::Context(3));
        let o4 = <Option<bool> as ToTLV>::encoded(m.suppress_response, TagType::Context(4));
        let r5 = Seq::<ElementView>::empty();
        let r4 = prepend_opt(o4, r5);
        lemma_tags_from::<Option<bool>>(m.suppress_response, 4, r5);
        let r3 = prepend_opt(o3, r4);
        lemma_tags_from::<Option<bool>>(m.more_chunks, 3, r4);
        let r2 = prepend_opt(o2, r3);
        lemma_tags_from::<Option<bool>>(m.event_reports, 2, r3);
        let r1 = prepend_opt(o1, r2);
        lemma_tags_from::<Option<Vec<AttrResp<'static>>>>(m.attr_reports, 1, r2);
        let r0 = prepend_opt(o0, r1);
        lemma_tags_from::<Option<u32>>(m.subscription_id, 0, r1);
        let items = r0;
        let s0 = Seq::<ElementView>::empty();
        assert(items =~= s0 + r0);
        lemma_field_round_trip::<Option<u32>>(items, s0, m.subscription_id, 0, r1);
        let s1 = push_opt(s0, o0);
        lemma_field_round_trip::<Option<Vec<AttrResp<'static>>>>(items, s1, m.attr_reports, 1, r2);
        let s2 = push_opt(s1, o1);
        lemma_field_round_trip::<Option<bool>>(items, s2, m.event_reports, 2, r3);
        let s3 = push_opt(s2, o2);
        lemma_field_round_trip::<Option<bool>>(items, s3, m.more_chunks, 3, r4);
        let s4 = push_opt(s3, o3);
        lemma_field_round_trip::<Option<bool>>(items, s4, m.suppress_response, 4, r5);
        let s5 = push_opt(s4, o4);
        assert(items =~= m.fields());
    }
}
/// The context tags of the fields of a report.
#[derive(Clone, Copy, Debug, PartialEq, Eq, Structural)]
pub enum ReportDataTag {
    SubscriptionId,
    AttributeReports,
    _EventReport,
    MoreChunkedMsgs,
    SupressResponse,
}

impl ReportDataTag {
    pub fn tag(self) -> (t: u8)
        ensures
            t == (match self {
                ReportDataTag::SubscriptionId => 0u8,
                ReportDataTag::AttributeReports => 1u8,
                ReportDataTag::_EventReport => 2u8,
                ReportDataTag::MoreChunkedMsgs => 3u8,
                ReportDataTag::SupressResponse => 4u8,
            }),
    {
        match self {
            ReportDataTag::SubscriptionId => 0,
            ReportDataTag::AttributeReports => 1,
            ReportDataTag::_EventReport => 2,
            ReportDataTag::MoreChunkedMsgs => 3,
            ReportDataTag::SupressResponse => 4,
        }
    }
}

/// Answers a write request, attribute by attribute.
pub struct WriteResp {
    pub write_responses: Vec<AttrStatus>,
}

/// Mathematical model of a write response.
pub struct WriteRespModel {
    pub write_responses: Seq<AttrStatus>,
}

impl WriteRespModel {
    /// The members of the structure that is written for the value.
    pub open spec fn fields(self) -> Seq<ElementView> {
        let s = Seq::<ElementView>::empty();
        push_opt(s, <Vec<AttrStatus> as ToTLV>::encoded(self.write_responses, TagType::Context(0)))
    }

    /// What the members of a structure decode to, read in order.
    pub open spec fn from_fields(items: Seq<ElementView>) -> Result<WriteRespModel, Error> {
        let p = 0int;
        let write_responses = field::<Vec<AttrStatus>>(items, p, 0);
        match write_responses {
            Ok(write_responses) => Ok(WriteRespModel { write_responses }),
            Err(err) => Err(err),
        }
    }
}

impl ToTLV for WriteResp {
    type Model = WriteRespModel;

    open spec fn model(&self) -> WriteRespModel {
        WriteRespModel { write_responses: self.write_responses.model() }
    }

    open spec fn present(m: WriteRespModel) -> bool {
        true
    }

    open spec fn encoded(m: WriteRespModel, tag: TagType) -> Option<ElementView> {
        Some(ElementView { tag, value: ValueView::Struct(m.fields()) })
    }

    fn to_tlv(&self, tw: &mut TLVWriter, tag: TagType) -> (r: Result<(), Error>) {
        let _ = tw.start_struct(tag);
        let _ = self.write_responses.to_tlv(tw, TagType::Context(0));
        tw.end_container()
    }

    proof fn lemma_encoded(m: WriteRespModel, tag: TagType) {
    }
}

impl<'a> FromTLV<'a> for WriteResp {
    open spec fn decoded(e: ElementView) -> Result<WriteRespModel, Error> {
        match e.value {
            ValueView::Struct(items) => WriteRespModel::from_fields(items),
            _ => Err(Error::TLVTypeMismatch),
        }
    }

    open spec fn absent() -> Result<WriteRespModel, Error> {
        Err(Error::TLVNotFound)
    }

    open spec fn accepted(m: WriteRespModel) -> bool {
        &&& <Vec<AttrStatus> as FromTLV>::accepted(m.write_responses)
    }

    fn from_tlv(e: &'a TLVElement) -> (r: Result<Self, Error>) {
        let mut c = FieldCursor::new(e.struct_members()?);
        let write_responses = c.field::<Vec<AttrStatus>>(0)?;
        Ok(WriteResp { write_responses })
    }

    fn tlv_not_found() -> (r: Result<Self, Error>) {
        Err(Error::TLVNotFound)
    }

    proof fn lemma_round_trip(m: WriteRespModel, tag: TagType) {
        let o0 = <Vec<AttrStatus> as ToTLV>::encoded(m.write_responses, TagType::Context(0));
        let r1 = Seq::<ElementView>::empty();
        let r0 = prepend_opt(o0, r1);
        lemma_tags_from::<Vec<AttrStatus>>(m.write_responses, 0, r1);
        let items = r0;
        let s0 = Seq::<ElementView>::empty();
        assert(items =~= s0 + r0);
        lemma_field_round_trip::<Vec<AttrStatus>>(items, s0, m.write_responses, 0, r1);
        let s1 = push_opt(s0, o0);
        assert(items =~= m.fields());
    }
}
/// The context tags of the fields of a write response.
#[derive(Clone, Copy, Debug, PartialEq, Eq, Structural)]
pub enum WriteRespTag {
    WriteResponses,
}

impl WriteRespTag {
    pub fn tag(self) -> (t: u8)
        ensures
            t == 0,
    {
        0
    }
}

/// No member of the structure written for a subscribe request carries the
/// reserved context tag 6.
pub proof fn lemma_subscribe_req_reserved_tag(m: SubscribeReqModel)
    ensures
        forall|j: int| 0 <= j < m.fields().len() ==> !(#[trigger] m.fields()[j]).has_ctx_tag(6),
{
    <bool as ToTLV>::lemma_encoded(m.keep_subs, TagType::Context(0));
    <u16 as ToTLV>::lemma_encoded(m.min_int_floor, TagType::Context(1));
    <u16 as ToTLV>::lemma_encoded(m.max_int_ceil, TagType::Context(2));
    <Option<Vec<AttrPath>> as ToTLV>::lemma_encoded(m.attr_requests, TagType::Context(3));
    <Option<Vec<EventPath>> as ToTLV>::lemma_encoded(m.event_requests, TagType::Context(4));
    <Option<Vec<EventFilter>> as ToTLV>::lemma_encoded(m.event_filters, TagType::Context(5));
    <bool as ToTLV>::lemma_encoded(m.fabric_filtered, TagType::Context(7));
    <Option<Vec<DataVersionFilter>> as ToTLV>::lemma_encoded(m.dataver_filters, TagType::Context(8));
}

/// No member of the structure written for a subscribe response carries the
/// reserved context tag 1, and a member that does carry it is passed over
/// when a response is read.
pub proof fn lemma_subscribe_resp_reserved_tag(m: SubscribeResp, reserved: ElementView)
    requires
        reserved.has_ctx_tag(1),
    ensures
        forall|j: int| 0 <= j < m.fields().len() ==> !(#[trigger] m.fields()[j]).has_ctx_tag(1),
        SubscribeResp::from_fields(
            seq![
                <u32 as ToTLV>::encoded(m.subs_id, TagType::Context(0))->0,
                reserved,
                <u16 as ToTLV>::encoded(m.max_int, TagType::Context(2))->0,
            ],
        ) == Ok::<SubscribeResp, Error>(m),
{
}

} // verus!
