//! A writer that builds elements in the order in which they are written.

use vstd::prelude::*;
use crate::error::Error;
use crate::tlv::{
    bool_value, elements_view, unsigned_value, ElementType, ElementView, TLVElement, TagType, ValueView,
};

verus! {

/// The three kinds of container.
#[derive(Clone, Copy, Debug, PartialEq, Eq, Structural)]
pub enum ContainerKind {
    Struct,
    Array,
    List,
}

/// The content of a container of kind `kind` with the members `items`.
pub open spec fn container_value(kind: ContainerKind, items: Seq<ElementView>) -> ValueView {
    match kind {
        ContainerKind::Struct => ValueView::Struct(items),
        ContainerKind::Array => ValueView::Array(items),
        ContainerKind::List => ValueView::List(items),
    }
}

/// Model of a container that has been started and not yet ended.
pub struct OpenView {
    pub tag: TagType,
    pub kind: ContainerKind,
    pub items: Seq<ElementView>,
}

/// Model of a writer: the finished top-level elements and the containers
/// still open, outermost first.
pub struct WriterView {
    pub done: Seq<ElementView>,
    pub open: Seq<OpenView>,
}

impl WriterView {
    /// The writer after `e` was written: `e` joins the innermost open
    /// container, or the finished elements if none is open.
    #[verifier::opaque]
    pub open spec fn put(self, e: ElementView) -> WriterView {
        if self.open.len() == 0 {
            WriterView { done: self.done.push(e), open: self.open }
        } else {
            let top = self.open.last();
            WriterView {
                done: self.done,
                open: self.open.drop_last().push(
                    OpenView { tag: top.tag, kind: top.kind, items: top.items.push(e) },
                ),
            }
        }
    }

    /// The writer with one more open container, holding `items` so far.
    pub open spec fn opened(
        self,
        tag: TagType,
        kind: ContainerKind,
        items: Seq<ElementView>,
    ) -> WriterView {
        WriterView { done: self.done, open: self.open.push(OpenView { tag, kind, items }) }
    }

    /// The writer after the innermost open container was ended.
    #[verifier::opaque]
    pub open spec fn end(self) -> WriterView
        recommends
            self.open.len() > 0,
    {
        let top = self.open.last();
        (WriterView { done: self.done, open: self.open.drop_last() }).put(
            ElementView { tag: top.tag, value: container_value(top.kind, top.items) },
        )
    }
}

/// Writing into an open container appends to its members.
pub broadcast proof fn lemma_put_opened(
    w: WriterView,
    tag: TagType,
    kind: ContainerKind,
    items: Seq<ElementView>,
    e: ElementView,
)
    ensures
        #[trigger] w.opened(tag, kind, items).put(e) == w.opened(tag, kind, items.push(e)),
{
    reveal(WriterView::put);
    let o = w.opened(tag, kind, items);
    assert(o.open.drop_last() =~= w.open);
}

/// With no container open, writing adds to the finished elements.
pub proof fn lemma_put_finished(w: WriterView, e: ElementView)
    requires
        w.open.len() == 0,
    ensures
        w.put(e) == (WriterView { done: w.done.push(e), open: w.open }),
{
    reveal(WriterView::put);
}

/// Ending a container writes it, complete, into what encloses it.
pub broadcast proof fn lemma_end_opened(
    w: WriterView,
    tag: TagType,
    kind: ContainerKind,
    items: Seq<ElementView>,
)
    ensures
        #[trigger] w.opened(tag, kind, items).end() == w.put(
            ElementView { tag, value: container_value(kind, items) },
        ),
{
    reveal(WriterView::end);
    let o = w.opened(tag, kind, items);
    assert(o.open.drop_last() =~= w.open);
}

pub broadcast group group_writer {
    lemma_put_opened,
    lemma_end_opened,
}

/// A container under construction.
struct OpenContainer {
    tag: TagType,
    kind: ContainerKind,
    items: Vec<TLVElement>,
}

impl OpenContainer {
    spec fn model(self) -> OpenView {
        OpenView { tag: self.tag, kind: self.kind, items: elements_view(self.items@) }
    }
}

/// Builds elements in writing order. Elements written while a container is
/// open become its members; ending the container completes it.
pub struct TLVWriter {
    done: Vec<TLVElement>,
    open: Vec<OpenContainer>,
}

impl View for TLVWriter {
    type V = WriterView;

    closed spec fn view(&self) -> WriterView {
        WriterView {
            done: elements_view(self.done@),
            open: Seq::new(self.open@.len(), |i: int| self.open@[i].model()),
        }
    }
}

impl TLVWriter {
    pub fn new() -> (w: TLVWriter)
        ensures
            w@ == (WriterView { done: Seq::empty(), open: Seq::empty() }),
    {
        let w = TLVWriter { done: Vec::new(), open: Vec::new() };
        assert(w@.done =~= Seq::empty());
        assert(w@.open =~= Seq::empty());
        w
    }

    /// Writes a finished element.
    pub fn put(&mut self, e: TLVElement)
        ensures
            final(self)@ == old(self)@.put(e@),
    {
        let ghost before = self@;
        proof {
            reveal(WriterView::put);
        }
        if self.open.len() == 0 {
            self.done.push(e);
            assert(self@.done =~= before.done.push(e@));
            assert(self@.open =~= before.open);
        } else {
            let mut top = self.open.pop().unwrap();
            let ghost top_before = top.model();
            top.items.push(e);
            assert(top.model().items =~= top_before.items.push(e@));
            self.open.push(top);
            assert(self@.open =~= before.open.drop_last().push(
                OpenView {
                    tag: top_before.tag,
                    kind: top_before.kind,
                    items: top_before.items.push(e@),
                },
            ));
            assert(self@.done =~= before.done);
        }
    }

    fn start(&mut self, tag: TagType, kind: ContainerKind)
        ensures
            final(self)@ == old(self)@.opened(tag, kind, Seq::empty()),
    {
        let ghost before = self@;
        let items: Vec<TLVElement> = Vec::new();
        assert(elements_view(items@) =~= Seq::empty());
        self.open.push(OpenContainer { tag, kind, items });
        assert(self@.open =~= before.open.push(OpenView { tag, kind, items: Seq::empty() }));
    }

    pub fn start_struct(&mut self, tag: TagType) -> (r: Result<(), Error>)
        ensures
            r is Ok,
            final(self)@ == old(self)@.opened(tag, ContainerKind::Struct, Seq::empty()),
    {
        self.start(tag, ContainerKind::Struct);
        Ok(())
    }

    pub fn start_array(&mut self, tag: TagType) -> (r: Result<(), Error>)
        ensures
            r is Ok,
            final(self)@ == old(self)@.opened(tag, ContainerKind::Array, Seq::empty()),
    {
        self.start(tag, ContainerKind::Array);
        Ok(())
    }

    pub fn start_list(&mut self, tag: TagType) -> (r: Result<(), Error>)
        ensures
            r is Ok,
            final(self)@ == old(self)@.opened(tag, ContainerKind::List, Seq::empty()),
    {
        self.start(tag, ContainerKind::List);
        Ok(())
    }

    /// Ends the innermost open container. With none open nothing is written
    /// and the call fails.
    pub fn end_container(&mut self) -> (r: Result<(), Error>)
        ensures
            old(self)@.open.len() > 0 ==> r is Ok && final(self)@ == old(self)@.end(),
            old(self)@.open.len() == 0 ==> r == Err::<(), Error>(Error::Invalid) && final(self)@ == old(
                self,
            )@,
    {
        let ghost before = self@;
        proof {
            reveal(WriterView::end);
        }
        if self.open.len() == 0 {
            return Err(Error::Invalid);
        }
        let top = self.open.pop().unwrap();
        let ghost rest = self@;
        assert(rest.open =~= before.open.drop_last());
        assert(rest.done =~= before.done);
        let value = match top.kind {
            ContainerKind::Struct => ElementType::Struct(top.items),
            ContainerKind::Array => ElementType::Array(top.items),
            ContainerKind::List => ElementType::List(top.items),
        };
        self.put(TLVElement { tag: top.tag, value });
        Ok(())
    }

    pub fn u8(&mut self, tag: TagType, data: u8) -> (r: Result<(), Error>)
        ensures
            r is Ok,
            final(self)@ == old(self)@.put(ElementView { tag, value: ValueView::U8(data) }),
    {
        self.put(TLVElement { tag, value: ElementType::U8(data) });
        Ok(())
    }

    /// Writes `data` in the narrowest unsigned width that holds it.
    pub fn u16(&mut self, tag: TagType, data: u16) -> (r: Result<(), Error>)
        ensures
            r is Ok,
            final(self)@ == old(self)@.put(ElementView { tag, value: unsigned_value(data as u64) }),
    {
        if data <= 0xff {
            self.put(TLVElement { tag, value: ElementType::U8(data as u8) });
        } else {
            self.put(TLVElement { tag, value: ElementType::U16(data) });
        }
        Ok(())
    }

    /// Writes `data` in the narrowest unsigned width that holds it.
    pub fn u32(&mut self, tag: TagType, data: u32) -> (r: Result<(), Error>)
        ensures
            r is Ok,
            final(self)@ == old(self)@.put(ElementView { tag, value: unsigned_value(data as u64) }),
    {
        if data <= 0xff {
            self.put(TLVElement { tag, value: ElementType::U8(data as u8) });
        } else if data <= 0xffff {
            self.put(TLVElement { tag, value: ElementType::U16(data as u16) });
        } else {
            self.put(TLVElement { tag, value: ElementType::U32(data) });
        }
        Ok(())
    }

    /// Writes `data` in the narrowest unsigned width that holds it.
    pub fn u64(&mut self, tag: TagType, data: u64) -> (r: Result<(), Error>)
        ensures
            r is Ok,
            final(self)@ == old(self)@.put(ElementView { tag, value: unsigned_value(data) }),
    {
        if data <= 0xff {
            self.put(TLVElement { tag, value: ElementType::U8(data as u8) });
        } else if data <= 0xffff {
            self.put(TLVElement { tag, value: ElementType::U16(data as u16) });
        } else if data <= 0xffff_ffff {
            self.put(TLVElement { tag, value: ElementType::U32(data as u32) });
        } else {
            self.put(TLVElement { tag, value: ElementType::U64(data) });
        }
        Ok(())
    }

    pub fn bool(&mut self, tag: TagType, data: bool) -> (r: Result<(), Error>)
        ensures
            r is Ok,
            final(self)@ == old(self)@.put(ElementView { tag, value: bool_value(data) }),
    {
        if data {
            self.put(TLVElement { tag, value: ElementType::True });
        } else {
            self.put(TLVElement { tag, value: ElementType::False });
        }
        Ok(())
    }

    pub fn null(&mut self, tag: TagType) -> (r: Result<(), Error>)
        ensures
            r is Ok,
            final(self)@ == old(self)@.put(ElementView { tag, value: ValueView::Null }),
    {
        self.put(TLVElement { tag, value: ElementType::Null });
        Ok(())
    }

    /// The finished top-level elements, in writing order.
    pub fn elements(&self) -> (r: &Vec<TLVElement>)
        ensures
            elements_view(r@) == self@.done,
            r@.len() == self@.done.len(),
            forall|i: int| 0 <= i < r@.len() ==> (#[trigger] r@[i])@ == self@.done[i],
    {
        &self.done
    }

    /// The number of containers that are still open.
    pub fn depth(&self) -> (n: usize)
        ensures
            n == self@.open.len(),
    {
        self.open.len()
    }
}

} // verus!
