//! The generic path of endpoint, cluster and leaf.

use vstd::prelude::*;
use crate::codec::{after_field, field, push_opt, FieldCursor, FromTLV, ToTLV};
use crate::error::Error;
use crate::tlv::{ElementView, TLVElement, TagType, ValueView};
use crate::writer::{group_writer, TLVWriter};

verus! {

broadcast use group_writer;

/// Identifies an endpoint of a node.
pub type EndptId = u16;

/// Identifies a cluster.
pub type ClusterId = u32;

/// Identifies an attribute of a cluster.
pub type AttrId = u16;

/// A path of endpoint, cluster and leaf, where the leaf names a command, an
/// attribute or an event. A component that is `None` stands for every value
/// at its level.
#[derive(Clone, Copy, Debug, PartialEq, Eq, Structural)]
pub struct GenericPath {
    pub endpoint: Option<EndptId>,
    pub cluster: Option<ClusterId>,
    pub leaf: Option<u32>,
}

impl Default for GenericPath {
    fn default() -> (p: Self)
        ensures
            p == (GenericPath { endpoint: None, cluster: None, leaf: None }),
    {
        GenericPath { endpoint: None, cluster: None, leaf: None }
    }
}

impl GenericPath {
    /// Whether some component of the path is a wildcard.
    pub open spec fn wildcard(self) -> bool {
        self.endpoint is None || self.cluster is None || self.leaf is None
    }

    /// The concrete triple that the path names: its three components where
    /// all are given, and else the error for an invalid path.
    pub open spec fn concrete(self) -> Result<(EndptId, ClusterId, u32), Error> {
        match self {
            GenericPath { endpoint: Some(e), cluster: Some(c), leaf: Some(l) } => Ok((e, c, l)),
            _ => Err(Error::Invalid),
        }
    }

    /// The members of the list that is written for the path.
    pub open spec fn fields(self) -> Seq<ElementView> {
        let s = Seq::<ElementView>::empty();
        let s = push_opt(s, <Option<u16> as ToTLV>::encoded(self.endpoint, TagType::Context(0)));
        let s = push_opt(s, <Option<u32> as ToTLV>::encoded(self.cluster, TagType::Context(1)));
        push_opt(s, <Option<u32> as ToTLV>::encoded(self.leaf, TagType::Context(2)))
    }

    /// What the members of a list decode to.
    pub open spec fn from_fields(items: Seq<ElementView>) -> Result<GenericPath, Error> {
        let p = 0int;
        let endpoint = field::<Option<u16>>(items, p, 0);
        let p = after_field(items, p, 0);
        let cluster = field::<Option<u32>>(items, p, 1);
        let p = after_field(items, p, 1);
        let leaf = field::<Option<u32>>(items, p, 2);
        match (endpoint, cluster, leaf) {
            (Ok(endpoint), Ok(cluster), Ok(leaf)) => Ok(GenericPath { endpoint, cluster, leaf }),
            (Err(err), _, _) => Err(err),
            (_, Err(err), _) => Err(err),
            (_, _, Err(err)) => Err(err),
        }
    }

    pub fn new(endpoint: Option<EndptId>, cluster: Option<ClusterId>, leaf: Option<u32>) -> (p: Self)
        ensures
            p == (GenericPath { endpoint, cluster, leaf }),
    {
        Self { endpoint, cluster, leaf }
    }

    /// The concrete triple of a path without wildcards; a path with one is invalid.
    pub fn not_wildcard(&self) -> (r: Result<(EndptId, ClusterId, u32), Error>)
        ensures
            r == self.concrete(),
    {
        match *self {
            GenericPath { endpoint: Some(e), cluster: Some(c), leaf: Some(l) } => Ok((e, c, l)),
            _ => Err(Error::Invalid),
        }
    }

    /// Whether some component of the path is a wildcard.
    pub fn is_wildcard(&self) -> (b: bool)
        ensures
            b == self.wildcard(),
    {
        match *self {
            GenericPath { endpoint: Some(_), cluster: Some(_), leaf: Some(_) } => false,
            _ => true,
        }
    }
}

/// A path is a wildcard exactly when no concrete triple can be had from it.
pub proof fn lemma_wildcard_iff_not_concrete(p: GenericPath)
    ensures
        p.wildcard() == !(p.concrete() is Ok),
        p.wildcard() ==> p.concrete() == Err::<(EndptId, ClusterId, u32), Error>(Error::Invalid),
        !p.wildcard() ==> p.concrete() == Ok::<(EndptId, ClusterId, u32), Error>(
            (p.endpoint->0, p.cluster->0, p.leaf->0),
        ),
{
}

impl ToTLV for GenericPath {
    type Model = GenericPath;

    open spec fn model(&self) -> GenericPath {
        *self
    }

    open spec fn present(m: GenericPath) -> bool {
        true
    }

    open spec fn encoded(m: GenericPath, tag: TagType) -> Option<ElementView> {
        Some(ElementView { tag, value: ValueView::List(m.fields()) })
    }

    fn to_tlv(&self, tw: &mut TLVWriter, tag: TagType) -> (r: Result<(), Error>) {
        let _ = tw.start_list(tag);
        let _ = self.endpoint.to_tlv(tw, TagType::Context(0));
        let _ = self.cluster.to_tlv(tw, TagType::Context(1));
        let _ = self.leaf.to_tlv(tw, TagType::Context(2));
        tw.end_container()
    }

    proof fn lemma_encoded(m: GenericPath, tag: TagType) {
    }
}

impl<'a> FromTLV<'a> for GenericPath {
    open spec fn decoded(e: ElementView) -> Result<GenericPath, Error> {
        match e.value {
            ValueView::List(items) => GenericPath::from_fields(items),
            _ => Err(Error::TLVTypeMismatch),
        }
    }

    open spec fn absent() -> Result<GenericPath, Error> {
        Err(Error::TLVNotFound)
    }

    open spec fn accepted(m: GenericPath) -> bool {
        true
    }

    fn from_tlv(e: &'a TLVElement) -> (r: Result<Self, Error>) {
        let mut c = FieldCursor::new(e.list_members()?);
        let endpoint = c.field::<Option<u16>>(0)?;
        let cluster = c.field::<Option<u32>>(1)?;
        let leaf = c.field::<Option<u32>>(2)?;
        Ok(GenericPath { endpoint, cluster, leaf })
    }

    fn tlv_not_found() -> (r: Result<Self, Error>) {
        Err(Error::TLVNotFound)
    }

    proof fn lemma_round_trip(m: GenericPath, tag: TagType) {
    }
}

} // verus!
