//! Elements of the tagged encoding as trees, with their mathematical model.

use vstd::prelude::*;
use crate::error::Error;

verus! {

/// The tag that names an element inside its container.
#[derive(Clone, Copy, Debug, PartialEq, Eq, Structural)]
pub enum TagType {
    Anonymous,
    Context(u8),
    CommonPrf16(u16),
    CommonPrf32(u32),
    ImplPrf16(u16),
    ImplPrf32(u32),
    FullQual48(u64),
    FullQual64(u64),
}

/// The typed content of an element. Containers own their members.
#[derive(Debug, PartialEq, Eq)]
pub enum ElementType {
    S8(i8),
    S16(i16),
    S32(i32),
    S64(i64),
    U8(u8),
    U16(u16),
    U32(u32),
    U64(u64),
    False,
    True,
    Utf8l(Vec<u8>),
    Str8l(Vec<u8>),
    Null,
    Struct(Vec<TLVElement>),
    Array(Vec<TLVElement>),
    List(Vec<TLVElement>),
}

/// One tagged element of the encoding.
#[derive(Debug, PartialEq, Eq)]
pub struct TLVElement {
    pub tag: TagType,
    pub value: ElementType,
}

/// Mathematical model of an element's content.
pub enum ValueView {
    S8(i8),
    S16(i16),
    S32(i32),
    S64(i64),
    U8(u8),
    U16(u16),
    U32(u32),
    U64(u64),
    False,
    True,
    Utf8l(Seq<u8>),
    Str8l(Seq<u8>),
    Null,
    Struct(Seq<ElementView>),
    Array(Seq<ElementView>),
    List(Seq<ElementView>),
}

/// Mathematical model of an element.
pub struct ElementView {
    pub tag: TagType,
    pub value: ValueView,
}

/// The model of an element: its tag and the model of its content.
pub open spec fn element_view(e: TLVElement) -> ElementView
    decreases e,
{
    ElementView { tag: e.tag, value: value_view(e.value) }
}

/// The model of a content: members of a container are modelled in order.
pub open spec fn value_view(v: ElementType) -> ValueView
    decreases v,
{
    match v {
        ElementType::S8(x) => ValueView::S8(x),
        ElementType::S16(x) => ValueView::S16(x),
        ElementType::S32(x) => ValueView::S32(x),
        ElementType::S64(x) => ValueView::S64(x),
        ElementType::U8(x) => ValueView::U8(x),
        ElementType::U16(x) => ValueView::U16(x),
        ElementType::U32(x) => ValueView::U32(x),
        ElementType::U64(x) => ValueView::U64(x),
        ElementType::False => ValueView::False,
        ElementType::True => ValueView::True,
        ElementType::Utf8l(b) => ValueView::Utf8l(b@),
        ElementType::Str8l(b) => ValueView::Str8l(b@),
        ElementType::Null => ValueView::Null,
        ElementType::Struct(items) => ValueView::Struct(elements_view(items@)),
        ElementType::Array(items) => ValueView::Array(elements_view(items@)),
        ElementType::List(items) => ValueView::List(elements_view(items@)),
    }
}

/// The models of a sequence of elements, in order.
pub open spec fn elements_view(items: Seq<TLVElement>) -> Seq<ElementView>
    decreases items,
{
    Seq::new(
        items.len(),
        |i: int| if 0 <= i < items.len() { element_view(items[i]) } else { arbitrary() },
    )
}

impl View for TLVElement {
    type V = ElementView;

    open spec fn view(&self) -> ElementView {
        element_view(*self)
    }
}

impl View for ElementType {
    type V = ValueView;

    open spec fn view(&self) -> ValueView {
        value_view(*self)
    }
}


impl ElementView {
    /// The element read as an 8-bit unsigned integer.
    pub open spec fn as_u8(self) -> Result<u8, Error> {
        match self.value {
            ValueView::U8(a) => Ok(a),
            _ => Err(Error::TLVTypeMismatch),
        }
    }

    /// The element read as a 16-bit unsigned integer; a narrower one widens.
    pub open spec fn as_u16(self) -> Result<u16, Error> {
        match self.value {
            ValueView::U8(a) => Ok(a as u16),
            ValueView::U16(a) => Ok(a),
            _ => Err(Error::TLVTypeMismatch),
        }
    }

    /// The element read as a 32-bit unsigned integer; a narrower one widens.
    pub open spec fn as_u32(self) -> Result<u32, Error> {
        match self.value {
            ValueView::U8(a) => Ok(a as u32),
            ValueView::U16(a) => Ok(a as u32),
            ValueView::U32(a) => Ok(a),
            _ => Err(Error::TLVTypeMismatch),
        }
    }

    /// The element read as a 64-bit unsigned integer; a narrower one widens.
    pub open spec fn as_u64(self) -> Result<u64, Error> {
        match self.value {
            ValueView::U8(a) => Ok(a as u64),
            ValueView::U16(a) => Ok(a as u64),
            ValueView::U32(a) => Ok(a as u64),
            ValueView::U64(a) => Ok(a),
            _ => Err(Error::TLVTypeMismatch),
        }
    }

    /// The element read as a boolean.
    pub open spec fn as_bool(self) -> Result<bool, Error> {
        match self.value {
            ValueView::False => Ok(false),
            ValueView::True => Ok(true),
            _ => Err(Error::TLVTypeMismatch),
        }
    }

    /// Whether the element is a container of any kind.
    pub open spec fn is_container(self) -> bool {
        self.value is Struct || self.value is Array || self.value is List
    }

    /// The members of a container; empty for any other element.
    pub open spec fn members(self) -> Seq<ElementView> {
        match self.value {
            ValueView::Struct(items) => items,
            ValueView::Array(items) => items,
            ValueView::List(items) => items,
            _ => Seq::empty(),
        }
    }

    /// Whether the element carries the context tag `tag`.
    pub open spec fn has_ctx_tag(self, tag: u8) -> bool {
        self.tag == TagType::Context(tag)
    }
}

/// The unsigned integer content of the narrowest width that holds `v`.
pub open spec fn unsigned_value(v: u64) -> ValueView {
    if v <= 0xff {
        ValueView::U8(v as u8)
    } else if v <= 0xffff {
        ValueView::U16(v as u16)
    } else if v <= 0xffff_ffff {
        ValueView::U32(v as u32)
    } else {
        ValueView::U64(v)
    }
}

/// The boolean content for `b`.
pub open spec fn bool_value(b: bool) -> ValueView {
    if b {
        ValueView::True
    } else {
        ValueView::False
    }
}

impl TLVElement {
    pub fn new(tag: TagType, value: ElementType) -> (e: TLVElement)
        ensures
            e.tag == tag,
            e.value == value,
    {
        TLVElement { tag, value }
    }

    pub fn u8(&self) -> (r: Result<u8, Error>)
        ensures
            r == self@.as_u8(),
    {
        match &self.value {
            ElementType::U8(a) => Ok(*a),
            _ => Err(Error::TLVTypeMismatch),
        }
    }

    pub fn u16(&self) -> (r: Result<u16, Error>)
        ensures
            r == self@.as_u16(),
    {
        match &self.value {
            ElementType::U8(a) => Ok(*a as u16),
            ElementType::U16(a) => Ok(*a),
            _ => Err(Error::TLVTypeMismatch),
        }
    }

    pub fn u32(&self) -> (r: Result<u32, Error>)
        ensures
            r == self@.as_u32(),
    {
        match &self.value {
            ElementType::U8(a) => Ok(*a as u32),
            ElementType::U16(a) => Ok(*a as u32),
            ElementType::U32(a) => Ok(*a),
            _ => Err(Error::TLVTypeMismatch),
        }
    }

    pub fn u64(&self) -> (r: Result<u64, Error>)
        ensures
            r == self@.as_u64(),
    {
        match &self.value {
            ElementType::U8(a) => Ok(*a as u64),
            ElementType::U16(a) => Ok(*a as u64),
            ElementType::U32(a) => Ok(*a as u64),
            ElementType::U64(a) => Ok(*a),
            _ => Err(Error::TLVTypeMismatch),
        }
    }

    pub fn bool(&self) -> (r: Result<bool, Error>)
        ensures
            r == self@.as_bool(),
    {
        match &self.value {
            ElementType::False => Ok(false),
            ElementType::True => Ok(true),
            _ => Err(Error::TLVTypeMismatch),
        }
    }

    /// Succeeds exactly on the null element.
    pub fn null(&self) -> (r: Result<(), Error>)
        ensures
            self@.value is Null ==> r == Ok::<(), Error>(()),
            !(self@.value is Null) ==> r == Err::<(), Error>(Error::TLVTypeMismatch),
    {
        match &self.value {
            ElementType::Null => Ok(()),
            _ => Err(Error::TLVTypeMismatch),
        }
    }

    /// Hands the element back if it is a structure.
    pub fn confirm_struct(&self) -> (r: Result<&TLVElement, Error>)
        ensures
            self@.value is Struct ==> r == Ok::<&TLVElement, Error>(self),
            !(self@.value is Struct) ==> r == Err::<&TLVElement, Error>(Error::TLVTypeMismatch),
    {
        match &self.value {
            ElementType::Struct(_) => Ok(self),
            _ => Err(Error::TLVTypeMismatch),
        }
    }

    /// Hands the element back if it is an array.
    pub fn confirm_array(&self) -> (r: Result<&TLVElement, Error>)
        ensures
            self@.value is Array ==> r == Ok::<&TLVElement, Error>(self),
            !(self@.value is Array) ==> r == Err::<&TLVElement, Error>(Error::TLVTypeMismatch),
    {
        match &self.value {
            ElementType::Array(_) => Ok(self),
            _ => Err(Error::TLVTypeMismatch),
        }
    }

    /// Hands the element back if it is a list.
    pub fn confirm_list(&self) -> (r: Result<&TLVElement, Error>)
        ensures
            self@.value is List ==> r == Ok::<&TLVElement, Error>(self),
            !(self@.value is List) ==> r == Err::<&TLVElement, Error>(Error::TLVTypeMismatch),
    {
        match &self.value {
            ElementType::List(_) => Ok(self),
            _ => Err(Error::TLVTypeMismatch),
        }
    }

    /// The members of a container, in order; `None` for any other element.
    pub fn enter(&self) -> (r: Option<&Vec<TLVElement>>)
        ensures
            r is Some <==> self@.is_container(),
            r matches Some(items) ==> elements_view(items@) == self@.members(),
    {
        match &self.value {
            ElementType::Struct(items) => Some(items),
            ElementType::Array(items) => Some(items),
            ElementType::List(items) => Some(items),
            _ => None,
        }
    }

    /// The members of a structure; any other element is a type mismatch.
    pub fn struct_members(&self) -> (r: Result<&Vec<TLVElement>, Error>)
        ensures
            match r {
                Ok(items) => self.value == ElementType::Struct(*items) && self@.value == ValueView::Struct(
                    elements_view(items@),
                ),
                Err(err) => !(self@.value is Struct) && err == Error::TLVTypeMismatch,
            },
    {
        match &self.value {
            ElementType::Struct(items) => Ok(items),
            _ => Err(Error::TLVTypeMismatch),
        }
    }

    /// The members of an array; any other element is a type mismatch.
    pub fn array_members(&self) -> (r: Result<&Vec<TLVElement>, Error>)
        ensures
            match r {
                Ok(items) => self.value == ElementType::Array(*items) && self@.value == ValueView::Array(
                    elements_view(items@),
                ),
                Err(err) => !(self@.value is Array) && err == Error::TLVTypeMismatch,
            },
    {
        match &self.value {
            ElementType::Array(items) => Ok(items),
            _ => Err(Error::TLVTypeMismatch),
        }
    }

    /// The members of a list; any other element is a type mismatch.
    pub fn list_members(&self) -> (r: Result<&Vec<TLVElement>, Error>)
        ensures
            match r {
                Ok(items) => self.value == ElementType::List(*items) && self@.value == ValueView::List(
                    elements_view(items@),
                ),
                Err(err) => !(self@.value is List) && err == Error::TLVTypeMismatch,
            },
    {
        match &self.value {
            ElementType::List(items) => Ok(items),
            _ => Err(Error::TLVTypeMismatch),
        }
    }

    pub fn get_tag(&self) -> (tag: TagType)
        ensures
            tag == self@.tag,
    {
        self.tag
    }

    pub fn check_ctx_tag(&self, tag: u8) -> (b: bool)
        ensures
            b == self@.has_ctx_tag(tag),
    {
        match self.tag {
            TagType::Context(t) => t == tag,
            _ => false,
        }
    }

    /// A deep copy of the element's content under another tag.
    pub fn retagged(&self, tag: TagType) -> (e: TLVElement)
        ensures
            e@ == (ElementView { tag, value: self@.value }),
        decreases *self,
    {
        let value = match &self.value {
            ElementType::S8(x) => ElementType::S8(*x),
            ElementType::S16(x) => ElementType::S16(*x),
            ElementType::S32(x) => ElementType::S32(*x),
            ElementType::S64(x) => ElementType::S64(*x),
            ElementType::U8(x) => ElementType::U8(*x),
            ElementType::U16(x) => ElementType::U16(*x),
            ElementType::U32(x) => ElementType::U32(*x),
            ElementType::U64(x) => ElementType::U64(*x),
            ElementType::False => ElementType::False,
            ElementType::True => ElementType::True,
            ElementType::Utf8l(b) => ElementType::Utf8l(copy_bytes(b)),
            ElementType::Str8l(b) => ElementType::Str8l(copy_bytes(b)),
            ElementType::Null => ElementType::Null,
            ElementType::Struct(items) => ElementType::Struct(copy_elements(items)),
            ElementType::Array(items) => ElementType::Array(copy_elements(items)),
            ElementType::List(items) => ElementType::List(copy_elements(items)),
        };
        TLVElement { tag, value }
    }
}

/// A copy of a byte string.
fn copy_bytes(b: &Vec<u8>) -> (r: Vec<u8>)
    ensures
        r@ == b@,
{
    let mut r: Vec<u8> = Vec::new();
    let mut i: usize = 0;
    while i < b.len()
        invariant
            i <= b.len(),
            r@ == b@.take(i as int),
        decreases b.len() - i,
    {
        r.push(b[i]);
        i = i + 1;
        assert(r@ =~= b@.take(i as int));
    }
    assert(b@.take(b.len() as int) =~= b@);
    r
}

/// Deep copies of the members of a container, tags kept.
fn copy_elements(items: &Vec<TLVElement>) -> (r: Vec<TLVElement>)
    ensures
        elements_view(r@) == elements_view(items@),
    decreases *items,
{
    let mut r: Vec<TLVElement> = Vec::new();
    let mut i: usize = 0;
    while i < items.len()
        invariant
            i <= items.len(),
            r.len() == i,
            forall|j: int| 0 <= j < i ==> (#[trigger] r@[j])@ == items@[j]@,
        decreases items.len() - i,
    {
        let e = items[i].retagged(items[i].tag);
        r.push(e);
        i = i + 1;
    }
    assert(elements_view(r@) =~= elements_view(items@));
    r
}

} // verus!
