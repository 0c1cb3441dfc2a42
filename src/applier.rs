//! The read-modify-write protocol that assigns an address to an interface.
//!
//! The operating system is reached through three requests: open a control
//! channel, read the interface's current hardware-address record, and write a
//! record back. An [`Applier`] decides, from each reply, what to do next; the
//! caller performs the request and hands back the reply. Only the address
//! payload of the record that was read is replaced, so every other field goes
//! back to the system as it came.
use crate::address::{signed_octet, MacAddress};
use vstd::prelude::*;

verus! {

/// An interface's hardware-address record as the system reports it: the
/// address family and the 14-byte address payload.
#[derive(Debug, Clone, Copy)]
pub struct HardwareRecord {
    pub family: u16,
    pub data: [i8; 14],
}

/// `data` is the payload of `address`: its six octets as signed bytes, then
/// zeros.
pub open spec fn is_payload_of(data: [i8; 14], address: MacAddress) -> bool {
    &&& forall|i: int| 0 <= i < 6 ==> #[trigger] data[i] as int == signed_octet(address.0[i])
    &&& forall|i: int| 6 <= i < 14 ==> #[trigger] data[i] == 0
}

impl HardwareRecord {
    /// The record with its payload replaced by `address`; the family and
    /// anything else the record holds are kept.
    pub fn with_address(&self, address: &MacAddress) -> (r: HardwareRecord)
        ensures
            r.family == self.family,
            is_payload_of(r.data, *address),
    {
        HardwareRecord { family: self.family, data: address.hardware_payload() }
    }
}

/// Why an assignment failed. Each carries the system's error code.
#[derive(Debug, Clone, Copy, PartialEq, Eq, Structural)]
pub enum ApplyError {
    /// No control channel could be opened (privilege, resources).
    ChannelOpen(i32),
    /// The named interface could not be read.
    InterfaceNotFound(i32),
    /// The system refused the new record.
    Apply(i32),
}

/// A reply of the system to the last request.
#[derive(Debug, Clone, Copy)]
pub enum OsEvent {
    ChannelOpened,
    ChannelRefused(i32),
    RecordRead(HardwareRecord),
    ReadFailed(i32),
    RecordWritten,
    WriteFailed(i32),
}

/// What the caller does next.
#[derive(Debug, Clone, Copy)]
pub enum Action {
    /// Read the interface's current record.
    ReadRecord,
    /// Write this record to the interface.
    WriteRecord(HardwareRecord),
    /// Done: report the assigned address.
    Report(MacAddress),
    /// Give up with this error; nothing is written.
    Abort(ApplyError),
}

/// Where the protocol stands.
#[derive(Debug, Clone, Copy, PartialEq, Eq, Structural)]
pub enum Stage {
    OpeningChannel,
    ReadingRecord,
    WritingRecord,
    Finished,
    Failed(ApplyError),
}

/// One run of the protocol for one address.
#[derive(Debug, Clone, Copy)]
pub struct Applier {
    pub stage: Stage,
    pub address: MacAddress,
}

impl Applier {
    /// The reply that answers the request of the current stage; a finished or
    /// failed run expects none.
    pub open spec fn spec_accepts(&self, event: OsEvent) -> bool {
        match self.stage {
            Stage::OpeningChannel => event is ChannelOpened || event is ChannelRefused,
            Stage::ReadingRecord => event is RecordRead || event is ReadFailed,
            Stage::WritingRecord => event is RecordWritten || event is WriteFailed,
            _ => false,
        }
    }

    /// A run that will assign `address`. Its first request is to open the
    /// control channel.
    pub fn new(address: MacAddress) -> (r: Applier)
        ensures
            r.stage == Stage::OpeningChannel,
            r.address == address,
    {
        Applier { stage: Stage::OpeningChannel, address }
    }

    /// Whether `event` answers the request of the current stage.
    pub fn accepts(&self, event: &OsEvent) -> (r: bool)
        ensures
            r == self.spec_accepts(*event),
    {
        match self.stage {
            Stage::OpeningChannel => match event {
                OsEvent::ChannelOpened | OsEvent::ChannelRefused(_) => true,
                _ => false,
            },
            Stage::ReadingRecord => match event {
                OsEvent::RecordRead(_) | OsEvent::ReadFailed(_) => true,
                _ => false,
            },
            Stage::WritingRecord => match event {
                OsEvent::RecordWritten | OsEvent::WriteFailed(_) => true,
                _ => false,
            },
            _ => false,
        }
    }

    /// Takes the system's reply and says what to do next. A record is written
    /// only right after it was read, with its payload replaced by the address;
    /// any failure ends the run.
    pub fn step(&mut self, event: OsEvent) -> (action: Action)
        requires
            old(self).spec_accepts(event),
        ensures
            final(self).address == old(self).address,
            event is ChannelOpened ==> final(self).stage == Stage::ReadingRecord && action
                is ReadRecord,
            event matches OsEvent::ChannelRefused(c) ==> final(self).stage == Stage::Failed(
                ApplyError::ChannelOpen(c),
            ) && action == Action::Abort(ApplyError::ChannelOpen(c)),
            event matches OsEvent::RecordRead(rec) ==> {
                &&& final(self).stage == Stage::WritingRecord
                &&& action matches Action::WriteRecord(w)
                &&& w.family == rec.family
                &&& is_payload_of(w.data, old(self).address)
            },
            event matches OsEvent::ReadFailed(c) ==> final(self).stage == Stage::Failed(
                ApplyError::InterfaceNotFound(c),
            ) && action == Action::Abort(ApplyError::InterfaceNotFound(c)),
            event is RecordWritten ==> final(self).stage == Stage::Finished && action
                == Action::Report(old(self).address),
            event matches OsEvent::WriteFailed(c) ==> final(self).stage == Stage::Failed(
                ApplyError::Apply(c),
            ) && action == Action::Abort(ApplyError::Apply(c)),
    {
        let (stage, action) = match event {
            OsEvent::ChannelOpened => (Stage::ReadingRecord, Action::ReadRecord),
            OsEvent::ChannelRefused(c) => (
                Stage::Failed(ApplyError::ChannelOpen(c)),
                Action::Abort(ApplyError::ChannelOpen(c)),
            ),
            OsEvent::RecordRead(rec) => (
                Stage::WritingRecord,
                Action::WriteRecord(rec.with_address(&self.address)),
            ),
            OsEvent::ReadFailed(c) => (
                Stage::Failed(ApplyError::InterfaceNotFound(c)),
                Action::Abort(ApplyError::InterfaceNotFound(c)),
            ),
            OsEvent::RecordWritten => (Stage::Finished, Action::Report(self.address)),
            OsEvent::WriteFailed(c) => (
                Stage::Failed(ApplyError::Apply(c)),
                Action::Abort(ApplyError::Apply(c)),
            ),
        };
        self.stage = stage;
        action
    }
}

/// A run that has failed expects no further reply: after a failed lookup of
/// the interface no request follows, and no record is ever written.
pub proof fn lemma_failed_run_is_over(run: Applier, event: OsEvent)
    requires
        run.stage is Failed,
    ensures
        !run.spec_accepts(event),
{
}

} // verus!
