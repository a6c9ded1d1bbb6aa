//! The status codes of the protocol.

use vstd::prelude::*;
use crate::codec::{FromTLV, ToTLV};
use crate::error::Error;
use crate::tlv::{unsigned_value, ElementView, TLVElement, TagType};
use crate::writer::TLVWriter;

verus! {

/// The status codes of the Interaction Model.
#[derive(Clone, Copy, Debug, PartialEq, Eq, Structural)]
pub enum IMStatusCode {
    Success,
    Failure,
    InvalidSubscription,
    UnsupportedAccess,
    UnsupportedEndpoint,
    InvalidAction,
    UnsupportedCommand,
    InvalidCommand,
    UnsupportedAttribute,
    ConstraintError,
    UnsupportedWrite,
    ResourceExhausted,
    NotFound,
    UnreportableAttribute,
    InvalidDataType,
    UnsupportedRead,
    DataVersionMismatch,
    Timeout,
    Busy,
    UnsupportedCluster,
    NoUpstreamSubscription,
    NeedsTimedInteraction,
    UnsupportedEvent,
    PathsExhausted,
    TimedRequestMisMatch,
    FailSafeRequired,
}

impl IMStatusCode {
    /// The number that stands for a status code on the wire.
    pub open spec fn code_of(self) -> u16 {
        match self {
            IMStatusCode::Success => 0x00,
            IMStatusCode::Failure => 0x01,
            IMStatusCode::InvalidSubscription => 0x7d,
            IMStatusCode::UnsupportedAccess => 0x7e,
            IMStatusCode::UnsupportedEndpoint => 0x7f,
            IMStatusCode::InvalidAction => 0x80,
            IMStatusCode::UnsupportedCommand => 0x81,
            IMStatusCode::InvalidCommand => 0x85,
            IMStatusCode::UnsupportedAttribute => 0x86,
            IMStatusCode::ConstraintError => 0x87,
            IMStatusCode::UnsupportedWrite => 0x88,
            IMStatusCode::ResourceExhausted => 0x89,
            IMStatusCode::NotFound => 0x8b,
            IMStatusCode::UnreportableAttribute => 0x8c,
            IMStatusCode::InvalidDataType => 0x8d,
            IMStatusCode::UnsupportedRead => 0x8f,
            IMStatusCode::DataVersionMismatch => 0x92,
            IMStatusCode::Timeout => 0x94,
            IMStatusCode::Busy => 0x9c,
            IMStatusCode::UnsupportedCluster => 0xc3,
            IMStatusCode::NoUpstreamSubscription => 0xc5,
            IMStatusCode::NeedsTimedInteraction => 0xc6,
            IMStatusCode::UnsupportedEvent => 0xc7,
            IMStatusCode::PathsExhausted => 0xc8,
            IMStatusCode::TimedRequestMisMatch => 0xc9,
            IMStatusCode::FailSafeRequired => 0xca,
        }
    }

    /// The status code that a number stands for, if it stands for one.
    pub open spec fn of_code(code: u16) -> Option<IMStatusCode> {
        if code == 0x00 {
            Some(IMStatusCode::Success)
        } else if code == 0x01 {
            Some(IMStatusCode::Failure)
        } else if code == 0x7d {
            Some(IMStatusCode::InvalidSubscription)
        } else if code == 0x7e {
            Some(IMStatusCode::UnsupportedAccess)
        } else if code == 0x7f {
            Some(IMStatusCode::UnsupportedEndpoint)
        } else if code == 0x80 {
            Some(IMStatusCode::InvalidAction)
        } else if code == 0x81 {
            Some(IMStatusCode::UnsupportedCommand)
        } else if code == 0x85 {
            Some(IMStatusCode::InvalidCommand)
        } else if code == 0x86 {
            Some(IMStatusCode::UnsupportedAttribute)
        } else if code == 0x87 {
            Some(IMStatusCode::ConstraintError)
        } else if code == 0x88 {
            Some(IMStatusCode::UnsupportedWrite)
        } else if code == 0x89 {
            Some(IMStatusCode::ResourceExhausted)
        } else if code == 0x8b {
            Some(IMStatusCode::NotFound)
        } else if code == 0x8c {
            Some(IMStatusCode::UnreportableAttribute)
        } else if code == 0x8d {
            Some(IMStatusCode::InvalidDataType)
        } else if code == 0x8f {
            Some(IMStatusCode::UnsupportedRead)
        } else if code == 0x92 {
            Some(IMStatusCode::DataVersionMismatch)
        } else if code == 0x94 {
            Some(IMStatusCode::Timeout)
        } else if code == 0x9c {
            Some(IMStatusCode::Busy)
        } else if code == 0xc3 {
            Some(IMStatusCode::UnsupportedCluster)
        } else if code == 0xc5 {
            Some(IMStatusCode::NoUpstreamSubscription)
        } else if code == 0xc6 {
            Some(IMStatusCode::NeedsTimedInteraction)
        } else if code == 0xc7 {
            Some(IMStatusCode::UnsupportedEvent)
        } else if code == 0xc8 {
            Some(IMStatusCode::PathsExhausted)
        } else if code == 0xc9 {
            Some(IMStatusCode::TimedRequestMisMatch)
        } else if code == 0xca {
            Some(IMStatusCode::FailSafeRequired)
        } else {
            None
        }
    }

    pub fn code(&self) -> (c: u16)
        ensures
            c == self.code_of(),
            IMStatusCode::of_code(c) == Some(*self),
    {
        match self {
            IMStatusCode::Success => 0x00,
            IMStatusCode::Failure => 0x01,
            IMStatusCode::InvalidSubscription => 0x7d,
            IMStatusCode::UnsupportedAccess => 0x7e,
            IMStatusCode::UnsupportedEndpoint => 0x7f,
            IMStatusCode::InvalidAction => 0x80,
            IMStatusCode::UnsupportedCommand => 0x81,
            IMStatusCode::InvalidCommand => 0x85,
            IMStatusCode::UnsupportedAttribute => 0x86,
            IMStatusCode::ConstraintError => 0x87,
            IMStatusCode::UnsupportedWrite => 0x88,
            IMStatusCode::ResourceExhausted => 0x89,
            IMStatusCode::NotFound => 0x8b,
            IMStatusCode::UnreportableAttribute => 0x8c,
            IMStatusCode::InvalidDataType => 0x8d,
            IMStatusCode::UnsupportedRead => 0x8f,
            IMStatusCode::DataVersionMismatch => 0x92,
            IMStatusCode::Timeout => 0x94,
            IMStatusCode::Busy => 0x9c,
            IMStatusCode::UnsupportedCluster => 0xc3,
            IMStatusCode::NoUpstreamSubscription => 0xc5,
            IMStatusCode::NeedsTimedInteraction => 0xc6,
            IMStatusCode::UnsupportedEvent => 0xc7,
            IMStatusCode::PathsExhausted => 0xc8,
            IMStatusCode::TimedRequestMisMatch => 0xc9,
            IMStatusCode::FailSafeRequired => 0xca,
        }
    }

    pub fn from_code(code: u16) -> (r: Option<IMStatusCode>)
        ensures
            r == IMStatusCode::of_code(code),
            r matches Some(s) ==> s.code_of() == code,
    {
        match code {
            0x00 => Some(IMStatusCode::Success),
            0x01 => Some(IMStatusCode::Failure),
            0x7d => Some(IMStatusCode::InvalidSubscription),
            0x7e => Some(IMStatusCode::UnsupportedAccess),
            0x7f => Some(IMStatusCode::UnsupportedEndpoint),
            0x80 => Some(IMStatusCode::InvalidAction),
            0x81 => Some(IMStatusCode::UnsupportedCommand),
            0x85 => Some(IMStatusCode::InvalidCommand),
            0x86 => Some(IMStatusCode::UnsupportedAttribute),
            0x87 => Some(IMStatusCode::ConstraintError),
            0x88 => Some(IMStatusCode::UnsupportedWrite),
            0x89 => Some(IMStatusCode::ResourceExhausted),
            0x8b => Some(IMStatusCode::NotFound),
            0x8c => Some(IMStatusCode::UnreportableAttribute),
            0x8d => Some(IMStatusCode::InvalidDataType),
            0x8f => Some(IMStatusCode::UnsupportedRead),
            0x92 => Some(IMStatusCode::DataVersionMismatch),
            0x94 => Some(IMStatusCode::Timeout),
            0x9c => Some(IMStatusCode::Busy),
            0xc3 => Some(IMStatusCode::UnsupportedCluster),
            0xc5 => Some(IMStatusCode::NoUpstreamSubscription),
            0xc6 => Some(IMStatusCode::NeedsTimedInteraction),
            0xc7 => Some(IMStatusCode::UnsupportedEvent),
            0xc8 => Some(IMStatusCode::PathsExhausted),
            0xc9 => Some(IMStatusCode::TimedRequestMisMatch),
            0xca => Some(IMStatusCode::FailSafeRequired),
            _ => None,
        }
    }

    /// The status that reports a failure of the library to a peer.
    pub fn from_error(e: Error) -> (s: IMStatusCode)
        ensures
            s == (match e {
                Error::CommandNotFound => IMStatusCode::UnsupportedCommand,
                _ => IMStatusCode::Failure,
            }),
    {
        match e {
            Error::CommandNotFound => IMStatusCode::UnsupportedCommand,
            _ => IMStatusCode::Failure,
        }
    }
}

/// A status code is written as its number.
impl ToTLV for IMStatusCode {
    type Model = IMStatusCode;

    open spec fn model(&self) -> IMStatusCode {
        *self
    }

    open spec fn present(m: IMStatusCode) -> bool {
        true
    }

    open spec fn encoded(m: IMStatusCode, tag: TagType) -> Option<ElementView> {
        Some(ElementView { tag, value: unsigned_value(m.code_of() as u64) })
    }

    fn to_tlv(&self, tw: &mut TLVWriter, tag: TagType) -> (r: Result<(), Error>) {
        tw.u16(tag, self.code())
    }

    proof fn lemma_encoded(m: IMStatusCode, tag: TagType) {
    }
}

impl<'a> FromTLV<'a> for IMStatusCode {
    open spec fn decoded(e: ElementView) -> Result<IMStatusCode, Error> {
        match e.as_u16() {
            Ok(code) => match IMStatusCode::of_code(code) {
                Some(s) => Ok(s),
                None => Err(Error::Invalid),
            },
            Err(err) => Err(err),
        }
    }

    open spec fn absent() -> Result<IMStatusCode, Error> {
        Err(Error::TLVNotFound)
    }

    open spec fn accepted(m: IMStatusCode) -> bool {
        true
    }

    fn from_tlv(e: &'a TLVElement) -> (r: Result<Self, Error>) {
        match IMStatusCode::from_code(e.u16()?) {
            Some(s) => Ok(s),
            None => Err(Error::Invalid),
        }
    }

    fn tlv_not_found() -> (r: Result<Self, Error>) {
        Err(Error::TLVNotFound)
    }

    proof fn lemma_round_trip(m: IMStatusCode, tag: TagType) {
    }
}

} // verus!
