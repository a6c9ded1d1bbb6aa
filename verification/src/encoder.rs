//! An encoder that answers reads with response blocks.

use vstd::prelude::*;
use crate::codec::ToTLV;
use crate::ib::{AttrDataModel, AttrPath, AttrResp, AttrRespModel, AttrStatus, Status};
use crate::objects::{Emitted, EncodeValue, Encoder};
use crate::path::GenericPath;
use crate::status::IMStatusCode;
use crate::tlv::{ElementView, TagType, ValueView};
use crate::writer::{TLVWriter, WriterView};

verus! {

/// The block that answers the read of the attribute at `path` with data.
pub open spec fn data_block(data_ver: u32, path: GenericPath, data: ValueView) -> ElementView {
    ElementView {
        tag: TagType::Anonymous,
        value: ValueView::Struct(
            AttrRespModel::Data(
                AttrDataModel { data_ver: Some(data_ver), path: AttrPath::of_gp(path), data },
            ).fields(),
        ),
    }
}

/// The block that answers the read of the attribute at `path` with a status.
pub open spec fn status_block(
    path: GenericPath,
    status: IMStatusCode,
    cluster_status: u16,
) -> ElementView {
    ElementView {
        tag: TagType::Anonymous,
        value: ValueView::Struct(
            AttrRespModel::Status(
                AttrStatus { path: AttrPath::of_gp(path), status: Status { status, cluster_status } },
            ).fields(),
        ),
    }
}

/// Writes what a cluster answers to the read of an attribute as a response
/// block for the path and the data version that were set.
pub struct AttrReadEncoder {
    tw: TLVWriter,
    data_ver: u32,
    path: GenericPath,
    log: Ghost<Seq<Emitted>>,
}

impl AttrReadEncoder {
    /// The writer that takes the blocks.
    pub closed spec fn writer(&self) -> WriterView {
        self.tw@
    }

    /// The data version that the next block is stamped with.
    pub closed spec fn data_ver(&self) -> u32 {
        self.data_ver
    }

    /// The path that the next block answers.
    pub closed spec fn path(&self) -> GenericPath {
        self.path
    }

    pub fn new(tw: TLVWriter) -> (e: Self)
        ensures
            e.writer() == tw@,
            e.data_ver() == 0,
            e.path() == (GenericPath { endpoint: None, cluster: None, leaf: None }),
            e.emitted() == Seq::<Emitted>::empty(),
    {
        AttrReadEncoder {
            tw,
            data_ver: 0,
            path: GenericPath { endpoint: None, cluster: None, leaf: None },
            log: Ghost(Seq::empty()),
        }
    }

    pub fn set_data_ver(&mut self, data_ver: u32)
        ensures
            final(self).data_ver() == data_ver,
            final(self).path() == old(self).path(),
            final(self).writer() == old(self).writer(),
            final(self).emitted() == old(self).emitted(),
    {
        self.data_ver = data_ver;
    }

    pub fn set_path(&mut self, path: GenericPath)
        ensures
            final(self).path() == path,
            final(self).data_ver() == old(self).data_ver(),
            final(self).writer() == old(self).writer(),
            final(self).emitted() == old(self).emitted(),
    {
        self.path = path;
    }

    /// Gives the writer back, with the blocks written so far.
    pub fn into_writer(self) -> (tw: TLVWriter)
        ensures
            tw@ == self.writer(),
    {
        self.tw
    }
}

impl Encoder for AttrReadEncoder {
    closed spec fn emitted(&self) -> Seq<Emitted> {
        self.log@
    }

    fn encode(&mut self, value: EncodeValue<'_>)
        ensures
            final(self).writer() == old(self).writer().put(
                data_block(old(self).data_ver(), old(self).path(), value.content()),
            ),
            final(self).data_ver() == old(self).data_ver(),
            final(self).path() == old(self).path(),
    {
        let resp = AttrResp::new(self.data_ver, &AttrPath::new(&self.path), value);
        let _ = resp.to_tlv(&mut self.tw, TagType::Anonymous);
        proof {
            self.log@ = self.log@.push(Emitted::Value(value.content()));
        }
    }

    fn encode_status(&mut self, status: IMStatusCode, cluster_status: u16)
        ensures
            final(self).writer() == old(self).writer().put(
                status_block(old(self).path(), status, cluster_status),
            ),
            final(self).data_ver() == old(self).data_ver(),
            final(self).path() == old(self).path(),
    {
        let resp = AttrResp::Status(AttrStatus::new(&self.path, status, cluster_status));
        let _ = resp.to_tlv(&mut self.tw, TagType::Anonymous);
        proof {
            self.log@ = self.log@.push(Emitted::Status(status, cluster_status));
        }
    }
}

} // verus!
