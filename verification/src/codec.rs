//! Writing values as elements and reading them back, with the law that
//! ties the two together.

use vstd::prelude::*;
use crate::error::Error;
use crate::tlv::{bool_value, elements_view, unsigned_value, ElementView, TLVElement, TagType, ValueView};
use crate::writer::{group_writer, ContainerKind, TLVWriter, WriterView};

verus! {

broadcast use group_writer;

/// `s` with the element of `e` appended, if there is one.
pub open spec fn push_opt(s: Seq<ElementView>, e: Option<ElementView>) -> Seq<ElementView> {
    match e {
        Some(e) => s.push(e),
        None => s,
    }
}

impl WriterView {
    /// The writer after the element of `e` was written, if there is one.
    pub open spec fn put_opt(self, e: Option<ElementView>) -> WriterView {
        match e {
            Some(e) => self.put(e),
            None => self,
        }
    }
}

/// A value that can be written as at most one element under a given tag.
pub trait ToTLV {
    /// The mathematical model of a value.
    type Model;

    spec fn model(&self) -> Self::Model;

    /// Whether a value writes an element at all.
    spec fn present(m: Self::Model) -> bool;

    /// The element that stands for `m` under `tag`, if `m` writes one.
    spec fn encoded(m: Self::Model, tag: TagType) -> Option<ElementView>;

    /// Writes the value under `tag`.
    fn to_tlv(&self, tw: &mut TLVWriter, tag: TagType) -> (r: Result<(), Error>)
        ensures
            r is Ok,
            final(tw)@ == old(tw)@.put_opt(Self::encoded(self.model(), tag)),
    ;

    /// An element is written exactly for the present values, under the tag asked for.
    proof fn lemma_encoded(m: Self::Model, tag: TagType)
        ensures
            Self::encoded(m, tag) is Some <==> Self::present(m),
            Self::encoded(m, tag) matches Some(e) ==> e.tag == tag,
    ;
}

/// The model of a decoding result.
pub open spec fn result_model<T: ToTLV>(r: Result<T, Error>) -> Result<T::Model, Error> {
    match r {
        Ok(v) => Ok(v.model()),
        Err(e) => Err(e),
    }
}

/// A value that can be read back from the element written for it.
pub trait FromTLV<'a>: ToTLV + Sized {
    /// What an element decodes to.
    spec fn decoded(e: ElementView) -> Result<Self::Model, Error>;

    /// What stands for the value when its element is missing from a container.
    spec fn absent() -> Result<Self::Model, Error>;

    /// The values that the decoder accepts back after they were written.
    spec fn accepted(m: Self::Model) -> bool;

    fn from_tlv(e: &'a TLVElement) -> (r: Result<Self, Error>)
        ensures
            result_model(r) == Self::decoded(e@),
    ;

    fn tlv_not_found() -> (r: Result<Self, Error>)
        ensures
            result_model(r) == Self::absent(),
    ;

    /// Writing an accepted value and reading it back gives the value.
    proof fn lemma_round_trip(m: Self::Model, tag: TagType)
        requires
            Self::accepted(m),
        ensures
            Self::encoded(m, tag) matches Some(e) ==> Self::decoded(e) == Ok::<Self::Model, Error>(m),
            Self::encoded(m, tag) is None ==> Self::absent() == Ok::<Self::Model, Error>(m),
    ;
}

/// Writing an accepted value under any tag and reading the element back
/// gives the value; a value that writes nothing is what a missing element
/// stands for.
pub proof fn lemma_encode_decode<'a, T: FromTLV<'a>>(m: T::Model, tag: TagType)
    requires
        T::accepted(m),
    ensures
        T::encoded(m, tag) is Some <==> T::present(m),
        T::encoded(m, tag) matches Some(e) ==> e.tag == tag && T::decoded(e) == Ok::<T::Model, Error>(m),
        T::encoded(m, tag) is None ==> T::absent() == Ok::<T::Model, Error>(m),
{
    T::lemma_encoded(m, tag);
    T::lemma_round_trip(m, tag);
}

impl ToTLV for u8 {
    type Model = u8;

    open spec fn model(&self) -> u8 {
        *self
    }

    open spec fn present(m: u8) -> bool {
        true
    }

    open spec fn encoded(m: u8, tag: TagType) -> Option<ElementView> {
        Some(ElementView { tag, value: ValueView::U8(m) })
    }

    fn to_tlv(&self, tw: &mut TLVWriter, tag: TagType) -> (r: Result<(), Error>) {
        tw.u8(tag, *self)
    }

    proof fn lemma_encoded(m: u8, tag: TagType) {
    }
}

impl<'a> FromTLV<'a> for u8 {
    open spec fn decoded(e: ElementView) -> Result<u8, Error> {
        e.as_u8()
    }

    open spec fn absent() -> Result<u8, Error> {
        Err(Error::TLVNotFound)
    }

    open spec fn accepted(m: u8) -> bool {
        true
    }

    fn from_tlv(e: &'a TLVElement) -> (r: Result<Self, Error>) {
        e.u8()
    }

    fn tlv_not_found() -> (r: Result<Self, Error>) {
        Err(Error::TLVNotFound)
    }

    proof fn lemma_round_trip(m: u8, tag: TagType) {
    }
}

impl ToTLV for u16 {
    type Model = u16;

    open spec fn model(&self) -> u16 {
        *self
    }

    open spec fn present(m: u16) -> bool {
        true
    }

    open spec fn encoded(m: u16, tag: TagType) -> Option<ElementView> {
        Some(ElementView { tag, value: unsigned_value(m as u64) })
    }

    fn to_tlv(&self, tw: &mut TLVWriter, tag: TagType) -> (r: Result<(), Error>) {
        tw.u16(tag, *self)
    }

    proof fn lemma_encoded(m: u16, tag: TagType) {
    }
}

impl<'a> FromTLV<'a> for u16 {
    open spec fn decoded(e: ElementView) -> Result<u16, Error> {
        e.as_u16()
    }

    open spec fn absent() -> Result<u16, Error> {
        Err(Error::TLVNotFound)
    }

    open spec fn accepted(m: u16) -> bool {
        true
    }

    fn from_tlv(e: &'a TLVElement) -> (r: Result<Self, Error>) {
        e.u16()
    }

    fn tlv_not_found() -> (r: Result<Self, Error>) {
        Err(Error::TLVNotFound)
    }

    proof fn lemma_round_trip(m: u16, tag: TagType) {
    }
}

impl ToTLV for u32 {
    type Model = u32;

    open spec fn model(&self) -> u32 {
        *self
    }

    open spec fn present(m: u32) -> bool {
        true
    }

    open spec fn encoded(m: u32, tag: TagType) -> Option<ElementView> {
        Some(ElementView { tag, value: unsigned_value(m as u64) })
    }

    fn to_tlv(&self, tw: &mut TLVWriter, tag: TagType) -> (r: Result<(), Error>) {
        tw.u32(tag, *self)
    }

    proof fn lemma_encoded(m: u32, tag: TagType) {
    }
}

impl<'a> FromTLV<'a> for u32 {
    open spec fn decoded(e: ElementView) -> Result<u32, Error> {
        e.as_u32()
    }

    open spec fn absent() -> Result<u32, Error> {
        Err(Error::TLVNotFound)
    }

    open spec fn accepted(m: u32) -> bool {
        true
    }

    fn from_tlv(e: &'a TLVElement) -> (r: Result<Self, Error>) {
        e.u32()
    }

    fn tlv_not_found() -> (r: Result<Self, Error>) {
        Err(Error::TLVNotFound)
    }

    proof fn lemma_round_trip(m: u32, tag: TagType) {
    }
}

impl ToTLV for u64 {
    type Model = u64;

    open spec fn model(&self) -> u64 {
        *self
    }

    open spec fn present(m: u64) -> bool {
        true
    }

    open spec fn encoded(m: u64, tag: TagType) -> Option<ElementView> {
        Some(ElementView { tag, value: unsigned_value(m) })
    }

    fn to_tlv(&self, tw: &mut TLVWriter, tag: TagType) -> (r: Result<(), Error>) {
        tw.u64(tag, *self)
    }

    proof fn lemma_encoded(m: u64, tag: TagType) {
    }
}

impl<'a> FromTLV<'a> for u64 {
    open spec fn decoded(e: ElementView) -> Result<u64, Error> {
        e.as_u64()
    }

    open spec fn absent() -> Result<u64, Error> {
        Err(Error::TLVNotFound)
    }

    open spec fn accepted(m: u64) -> bool {
        true
    }

    fn from_tlv(e: &'a TLVElement) -> (r: Result<Self, Error>) {
        e.u64()
    }

    fn tlv_not_found() -> (r: Result<Self, Error>) {
        Err(Error::TLVNotFound)
    }

    proof fn lemma_round_trip(m: u64, tag: TagType) {
    }
}

impl ToTLV for bool {
    type Model = bool;

    open spec fn model(&self) -> bool {
        *self
    }

    open spec fn present(m: bool) -> bool {
        true
    }

    open spec fn encoded(m: bool, tag: TagType) -> Option<ElementView> {
        Some(ElementView { tag, value: bool_value(m) })
    }

    fn to_tlv(&self, tw: &mut TLVWriter, tag: TagType) -> (r: Result<(), Error>) {
        tw.bool(tag, *self)
    }

    proof fn lemma_encoded(m: bool, tag: TagType) {
    }
}

impl<'a> FromTLV<'a> for bool {
    open spec fn decoded(e: ElementView) -> Result<bool, Error> {
        e.as_bool()
    }

    open spec fn absent() -> Result<bool, Error> {
        Err(Error::TLVNotFound)
    }

    open spec fn accepted(m: bool) -> bool {
        true
    }

    fn from_tlv(e: &'a TLVElement) -> (r: Result<Self, Error>) {
        e.bool()
    }

    fn tlv_not_found() -> (r: Result<Self, Error>) {
        Err(Error::TLVNotFound)
    }

    proof fn lemma_round_trip(m: bool, tag: TagType) {
    }
}

/// An optional value writes nothing when it is `None`, and a missing element
/// reads back as `None`.
impl<T: ToTLV> ToTLV for Option<T> {
    type Model = Option<T::Model>;

    open spec fn model(&self) -> Option<T::Model> {
        match self {
            Some(v) => Some(v.model()),
            None => None,
        }
    }

    open spec fn present(m: Option<T::Model>) -> bool {
        match m {
            Some(v) => T::present(v),
            None => false,
        }
    }

    open spec fn encoded(m: Option<T::Model>, tag: TagType) -> Option<ElementView> {
        match m {
            Some(v) => T::encoded(v, tag),
            None => None,
        }
    }

    fn to_tlv(&self, tw: &mut TLVWriter, tag: TagType) -> (r: Result<(), Error>) {
        match self {
            Some(v) => v.to_tlv(tw, tag),
            None => Ok(()),
        }
    }

    proof fn lemma_encoded(m: Option<T::Model>, tag: TagType) {
        match m {
            Some(v) => {
                T::lemma_encoded(v, tag);
            },
            None => {},
        }
    }
}

impl<'a, T: FromTLV<'a>> FromTLV<'a> for Option<T> {
    open spec fn decoded(e: ElementView) -> Result<Option<T::Model>, Error> {
        match T::decoded(e) {
            Ok(v) => Ok(Some(v)),
            Err(err) => Err(err),
        }
    }

    open spec fn absent() -> Result<Option<T::Model>, Error> {
        Ok(None)
    }

    open spec fn accepted(m: Option<T::Model>) -> bool {
        match m {
            Some(v) => T::accepted(v) && T::present(v),
            None => true,
        }
    }

    fn from_tlv(e: &'a TLVElement) -> (r: Result<Self, Error>) {
        match T::from_tlv(e) {
            Ok(v) => Ok(Some(v)),
            Err(err) => Err(err),
        }
    }

    fn tlv_not_found() -> (r: Result<Self, Error>) {
        Ok(None)
    }

    proof fn lemma_round_trip(m: Option<T::Model>, tag: TagType) {
        match m {
            Some(v) => {
                T::lemma_encoded(v, tag);
                T::lemma_round_trip(v, tag);
            },
            None => {},
        }
    }
}

/// A value that is either the null element or a value of `T`.
#[derive(Debug, PartialEq, Eq)]
pub enum Nullable<T> {
    Null,
    NotNull(T),
}

impl<T: Clone> Clone for Nullable<T> {
    fn clone(&self) -> (r: Self)
        ensures
            *self is Null <==> r is Null,
    {
        match self {
            Nullable::Null => Nullable::Null,
            Nullable::NotNull(v) => Nullable::NotNull(v.clone()),
        }
    }
}

impl<T: Copy> Copy for Nullable<T> {

}

impl<T> Nullable<T> {
    pub fn is_null(&self) -> (b: bool)
        ensures
            b == (*self is Null),
    {
        match self {
            Nullable::Null => true,
            Nullable::NotNull(_) => false,
        }
    }
}

impl ToTLV for Nullable<u16> {
    type Model = Nullable<u16>;

    open spec fn model(&self) -> Nullable<u16> {
        *self
    }

    open spec fn present(m: Nullable<u16>) -> bool {
        true
    }

    open spec fn encoded(m: Nullable<u16>, tag: TagType) -> Option<ElementView> {
        match m {
            Nullable::Null => Some(ElementView { tag, value: ValueView::Null }),
            Nullable::NotNull(v) => Some(ElementView { tag, value: unsigned_value(v as u64) }),
        }
    }

    fn to_tlv(&self, tw: &mut TLVWriter, tag: TagType) -> (r: Result<(), Error>) {
        match self {
            Nullable::Null => tw.null(tag),
            Nullable::NotNull(v) => tw.u16(tag, *v),
        }
    }

    proof fn lemma_encoded(m: Nullable<u16>, tag: TagType) {
    }
}

impl<'a> FromTLV<'a> for Nullable<u16> {
    open spec fn decoded(e: ElementView) -> Result<Nullable<u16>, Error> {
        if e.value is Null {
            Ok(Nullable::Null)
        } else {
            match e.as_u16() {
                Ok(v) => Ok(Nullable::NotNull(v)),
                Err(err) => Err(err),
            }
        }
    }

    open spec fn absent() -> Result<Nullable<u16>, Error> {
        Err(Error::TLVNotFound)
    }

    open spec fn accepted(m: Nullable<u16>) -> bool {
        true
    }

    fn from_tlv(e: &'a TLVElement) -> (r: Result<Self, Error>) {
        match e.null() {
            Ok(_) => Ok(Nullable::Null),
            Err(_) => match e.u16() {
                Ok(v) => Ok(Nullable::NotNull(v)),
                Err(err) => Err(err),
            },
        }
    }

    fn tlv_not_found() -> (r: Result<Self, Error>) {
        Err(Error::TLVNotFound)
    }

    proof fn lemma_round_trip(m: Nullable<u16>, tag: TagType) {
    }
}


/// The models of the values of a sequence, in order.
pub open spec fn models<T: ToTLV>(values: Seq<T>) -> Seq<T::Model> {
    Seq::new(values.len(), |i: int| values[i].model())
}

/// The members of the array written for `ms`: the element of each value
/// that writes one, untagged and in order.
pub open spec fn array_items<T: ToTLV>(ms: Seq<T::Model>) -> Seq<ElementView>
    decreases ms.len(),
{
    if ms.len() == 0 {
        Seq::empty()
    } else {
        push_opt(array_items::<T>(ms.drop_last()), T::encoded(ms.last(), TagType::Anonymous))
    }
}

/// What the members of an array decode to: every member in order, or the
/// error of the first member that is refused.
pub open spec fn decode_all<'a, T: FromTLV<'a>>(items: Seq<ElementView>) -> Result<
    Seq<T::Model>,
    Error,
>
    decreases items.len(),
{
    if items.len() == 0 {
        Ok(Seq::empty())
    } else {
        match decode_all::<T>(items.drop_last()) {
            Err(err) => Err(err),
            Ok(ms) => match T::decoded(items.last()) {
                Ok(m) => Ok(ms.push(m)),
                Err(err) => Err(err),
            },
        }
    }
}

/// An error among the first `k` members is the error of the whole array.
pub proof fn lemma_decode_all_err<'a, T: FromTLV<'a>>(items: Seq<ElementView>, k: int)
    requires
        0 <= k <= items.len(),
        decode_all::<T>(items.take(k)) is Err,
    ensures
        decode_all::<T>(items) == decode_all::<T>(items.take(k)),
    decreases items.len() - k,
{
    if k == items.len() {
        assert(items.take(k) =~= items);
    } else {
        assert(items.take(k + 1).drop_last() =~= items.take(k));
        lemma_decode_all_err::<T>(items, k + 1);
    }
}

/// The array written for accepted, present values has one member for each
/// and decodes to them.
pub proof fn lemma_array_round_trip<'a, T: FromTLV<'a>>(ms: Seq<T::Model>)
    requires
        forall|i: int| 0 <= i < ms.len() ==> T::accepted(#[trigger] ms[i]) && T::present(ms[i]),
    ensures
        array_items::<T>(ms).len() == ms.len(),
        decode_all::<T>(array_items::<T>(ms)) == Ok::<Seq<T::Model>, Error>(ms),
    decreases ms.len(),
{
    if ms.len() == 0 {
        assert(ms =~= Seq::empty());
    } else {
        let front = ms.drop_last();
        assert forall|i: int| 0 <= i < front.len() implies T::accepted(#[trigger] front[i])
            && T::present(front[i]) by {
            assert(front[i] == ms[i]);
        }
        lemma_array_round_trip::<T>(front);
        lemma_encode_decode::<T>(ms.last(), TagType::Anonymous);
        let e = T::encoded(ms.last(), TagType::Anonymous)->0;
        let items = array_items::<T>(ms);
        assert(items == array_items::<T>(front).push(e));
        assert(items.drop_last() =~= array_items::<T>(front));
        assert(items.last() == e);
        assert(front.push(ms.last()) =~= ms);
        assert(decode_all::<T>(items.drop_last()) == Ok::<Seq<T::Model>, Error>(front));
        assert(decode_all::<T>(items) == Ok::<Seq<T::Model>, Error>(front.push(ms.last())));
    }
}

/// A sequence of values is written as an array of their elements.
impl<T: ToTLV> ToTLV for Vec<T> {
    type Model = Seq<T::Model>;

    open spec fn model(&self) -> Seq<T::Model> {
        models::<T>(self@)
    }

    open spec fn present(m: Seq<T::Model>) -> bool {
        true
    }

    open spec fn encoded(m: Seq<T::Model>, tag: TagType) -> Option<ElementView> {
        Some(ElementView { tag, value: ValueView::Array(array_items::<T>(m)) })
    }

    fn to_tlv(&self, tw: &mut TLVWriter, tag: TagType) -> (r: Result<(), Error>) {
        let ghost before = tw@;
        let ghost ms = self.model();
        let _ = tw.start_array(tag);
        let mut i: usize = 0;
        while i < self.len()
            invariant
                i <= self.len(),
                ms == self.model(),
                tw@ == before.opened(tag, ContainerKind::Array, array_items::<T>(ms.take(i as int))),
            decreases self.len() - i,
        {
            let _ = self[i].to_tlv(tw, TagType::Anonymous);
            proof {
                assert(ms.take(i + 1).drop_last() =~= ms.take(i as int));
                assert(ms.take(i + 1).last() == self@[i as int].model());
                match T::encoded(self@[i as int].model(), TagType::Anonymous) {
                    Some(e) => {},
                    None => {},
                }
            }
            i = i + 1;
        }
        assert(ms.take(i as int) =~= ms);
        tw.end_container()
    }

    proof fn lemma_encoded(m: Seq<T::Model>, tag: TagType) {
    }
}

impl<'a, T: FromTLV<'a>> FromTLV<'a> for Vec<T> {
    open spec fn decoded(e: ElementView) -> Result<Seq<T::Model>, Error> {
        match e.value {
            ValueView::Array(items) => decode_all::<T>(items),
            _ => Err(Error::TLVTypeMismatch),
        }
    }

    open spec fn absent() -> Result<Seq<T::Model>, Error> {
        Err(Error::TLVNotFound)
    }

    open spec fn accepted(m: Seq<T::Model>) -> bool {
        forall|i: int| 0 <= i < m.len() ==> T::accepted(#[trigger] m[i]) && T::present(m[i])
    }

    fn from_tlv(e: &'a TLVElement) -> (r: Result<Self, Error>) {
        let items = match e.array_members() {
            Ok(items) => items,
            Err(err) => {
                return Err(err);
            },
        };
        let ghost views = elements_view(items@);
        let mut out: Vec<T> = Vec::new();
        let mut i: usize = 0;
        proof {
            assert(models::<T>(out@) =~= Seq::empty());
            assert(views.take(0).len() == 0);
        }
        while i < items.len()
            invariant
                i <= items.len(),
                views == elements_view(items@),
                e@.value == ValueView::Array(views),
                decode_all::<T>(views.take(i as int)) == Ok::<Seq<T::Model>, Error>(models::<T>(out@)),
            decreases items.len() - i,
        {
            let item = T::from_tlv(&items[i]);
            proof {
                assert(views.take(i + 1).drop_last() =~= views.take(i as int));
                assert(views.take(i + 1).last() == items@[i as int]@);
            }
            match item {
                Ok(v) => {
                    let ghost before = models::<T>(out@);
                    out.push(v);
                    assert(models::<T>(out@) =~= before.push(v.model()));
                    assert(decode_all::<T>(views.take(i + 1)) == Ok::<Seq<T::Model>, Error>(
                        before.push(v.model()),
                    ));
                },
                Err(err) => {
                    proof {
                        assert(decode_all::<T>(views.take(i + 1)) == Err::<Seq<T::Model>, Error>(err));
                        lemma_decode_all_err::<T>(views, i + 1);
                    }
                    return Err(err);
                },
            }
            i = i + 1;
        }
        assert(views.take(i as int) =~= views);
        Ok(out)
    }

    fn tlv_not_found() -> (r: Result<Self, Error>) {
        Err(Error::TLVNotFound)
    }

    proof fn lemma_round_trip(m: Seq<T::Model>, tag: TagType) {
        lemma_array_round_trip::<T>(m);
    }
}

/// Whether the member at `pos` carries the context tag `tag`.
pub open spec fn field_found(items: Seq<ElementView>, pos: int, tag: u8) -> bool {
    0 <= pos < items.len() && items[pos].has_ctx_tag(tag)
}

/// What the field with context tag `tag` decodes to when the members of a
/// container are read in order and `pos` is the next one: the member at
/// `pos` if it carries the tag, else what stands for a missing field.
pub open spec fn field<'a, T: FromTLV<'a>>(items: Seq<ElementView>, pos: int, tag: u8) -> Result<
    T::Model,
    Error,
> {
    if field_found(items, pos, tag) {
        T::decoded(items[pos])
    } else {
        T::absent()
    }
}

/// The next member to read after the field with context tag `tag`.
pub open spec fn after_field(items: Seq<ElementView>, pos: int, tag: u8) -> int {
    if field_found(items, pos, tag) {
        pos + 1
    } else {
        pos
    }
}

/// Reads the members of a container in order, field by field.
pub struct FieldCursor<'a> {
    items: &'a Vec<TLVElement>,
    pos: usize,
}

impl<'a> FieldCursor<'a> {
    /// The members being read.
    pub closed spec fn items(&self) -> Seq<ElementView> {
        elements_view(self.items@)
    }

    /// The index of the next member to read.
    pub closed spec fn pos(&self) -> int {
        self.pos as int
    }

    pub fn new(items: &'a Vec<TLVElement>) -> (c: Self)
        ensures
            c.items() == elements_view(items@),
            c.pos() == 0,
    {
        FieldCursor { items, pos: 0 }
    }

    /// Reads the field with context tag `tag`.
    pub fn field<T: FromTLV<'a>>(&mut self, tag: u8) -> (r: Result<T, Error>)
        ensures
            result_model(r) == field::<T>(old(self).items(), old(self).pos(), tag),
            final(self).items() == old(self).items(),
            final(self).pos() == after_field(old(self).items(), old(self).pos(), tag),
    {
        if self.pos < self.items.len() && self.items[self.pos].check_ctx_tag(tag) {
            let item = &self.items[self.pos];
            self.pos = self.pos + 1;
            T::from_tlv(item)
        } else {
            T::tlv_not_found()
        }
    }

    /// Passes over the member with context tag `tag`, if it is next.
    pub fn skip(&mut self, tag: u8)
        ensures
            final(self).items() == old(self).items(),
            final(self).pos() == after_field(old(self).items(), old(self).pos(), tag),
    {
        if self.pos < self.items.len() && self.items[self.pos].check_ctx_tag(tag) {
            self.pos = self.pos + 1;
        }
    }
}

/// `rest` with the element of `e` in front, if there is one.
pub open spec fn prepend_opt(e: Option<ElementView>, rest: Seq<ElementView>) -> Seq<ElementView> {
    match e {
        Some(e) => seq![e] + rest,
        None => rest,
    }
}

/// Whether every member carries a context tag of at least `lo`.
pub open spec fn tags_from(items: Seq<ElementView>, lo: int) -> bool {
    forall|j: int|
        0 <= j < items.len() ==> ((#[trigger] items[j]).tag matches TagType::Context(t) && t >= lo)
}

/// The element written for a field does not lower the context tags of
/// what follows it below the field's own tag.
pub proof fn lemma_tags_from<T: ToTLV>(m: T::Model, tag: u8, rest: Seq<ElementView>)
    requires
        tags_from(rest, tag + 1),
    ensures
        tags_from(prepend_opt(T::encoded(m, TagType::Context(tag)), rest), tag as int),
{
    T::lemma_encoded(m, TagType::Context(tag));
}

/// One field of a container read back. Where the members are those written
/// before the field, then the field's own element, then members with
/// greater context tags, reading the field after the earlier ones gives its
/// value and moves on to the members that follow.
pub proof fn lemma_field_round_trip<'a, T: FromTLV<'a>>(
    items: Seq<ElementView>,
    before: Seq<ElementView>,
    m: T::Model,
    tag: u8,
    rest: Seq<ElementView>,
)
    requires
        T::accepted(m),
        items == before + prepend_opt(T::encoded(m, TagType::Context(tag)), rest),
        tags_from(rest, tag + 1),
    ensures
        field::<T>(items, before.len() as int, tag) == Ok::<T::Model, Error>(m),
        after_field(items, before.len() as int, tag) == push_opt(
            before,
            T::encoded(m, TagType::Context(tag)),
        ).len(),
        items == push_opt(before, T::encoded(m, TagType::Context(tag))) + rest,
{
    lemma_encode_decode::<T>(m, TagType::Context(tag));
    let enc = T::encoded(m, TagType::Context(tag));
    let pos = before.len() as int;
    match enc {
        Some(e) => {
            assert(items[pos] == e);
            assert(items =~= before.push(e) + rest);
        },
        None => {
            if pos < items.len() {
                assert(items[pos] == rest[0]);
            }
        },
    }
}

/// The member with a reserved context tag is not among members whose
/// context tags are all greater, so passing over it changes nothing.
pub proof fn lemma_skip_absent(
    items: Seq<ElementView>,
    before: Seq<ElementView>,
    tag: u8,
    rest: Seq<ElementView>,
)
    requires
        items == before + rest,
        tags_from(rest, tag + 1),
    ensures
        after_field(items, before.len() as int, tag) == before.len(),
{
    let pos = before.len() as int;
    if pos < items.len() {
        assert(items[pos] == rest[0]);
    }
}

} // verus!
