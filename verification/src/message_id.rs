//! The identifier table: which 7-bit code stands for which kind of message.

use vstd::prelude::*;

verus! {

/// The kind of a message. Each kind has one fixed code below 128; the codes
/// that no kind has are invalid on the wire.
#[derive(Debug, Copy, Clone, Eq, PartialEq, Structural)]
pub enum MessageId {
    Serial,
    HardwareVersion,
    FirmwareVersion,
    Reboot,
    PendingFirmwareVersion,
    /// Sent to the host.
    FirmwareUploadPartChangePos,
    /// Sent to the host.
    FirmwareUploadPause,
    /// Sent by the host.
    FirmwareUploadPart,
    /// Sent by the host.
    FirmwareStartUpdate,
    /// Sent by the host.
    FirmwareUploadFinished,
    Battery,
}

impl MessageId {
    /// The code assigned to a kind.
    pub open spec fn code(self) -> u8 {
        match self {
            MessageId::Serial => 0,
            MessageId::HardwareVersion => 1,
            MessageId::FirmwareVersion => 2,
            MessageId::Reboot => 3,
            MessageId::PendingFirmwareVersion => 10,
            MessageId::FirmwareUploadPartChangePos => 11,
            MessageId::FirmwareUploadPause => 12,
            MessageId::FirmwareUploadPart => 13,
            MessageId::FirmwareStartUpdate => 14,
            MessageId::FirmwareUploadFinished => 15,
            MessageId::Battery => 50,
        }
    }

    /// The kind that a code is assigned to, if any.
    pub open spec fn lookup(code: u8) -> Option<MessageId> {
        if code == 0 {
            Some(MessageId::Serial)
        } else if code == 1 {
            Some(MessageId::HardwareVersion)
        } else if code == 2 {
            Some(MessageId::FirmwareVersion)
        } else if code == 3 {
            Some(MessageId::Reboot)
        } else if code == 10 {
            Some(MessageId::PendingFirmwareVersion)
        } else if code == 11 {
            Some(MessageId::FirmwareUploadPartChangePos)
        } else if code == 12 {
            Some(MessageId::FirmwareUploadPause)
        } else if code == 13 {
            Some(MessageId::FirmwareUploadPart)
        } else if code == 14 {
            Some(MessageId::FirmwareStartUpdate)
        } else if code == 15 {
            Some(MessageId::FirmwareUploadFinished)
        } else if code == 50 {
            Some(MessageId::Battery)
        } else {
            None
        }
    }

    /// Looks a code up in the table.
    pub fn from_u8(n: u8) -> (r: Option<MessageId>)
        ensures
            r == Self::lookup(n),
    {
        match n {
            0 => Some(MessageId::Serial),
            1 => Some(MessageId::HardwareVersion),
            2 => Some(MessageId::FirmwareVersion),
            3 => Some(MessageId::Reboot),
            10 => Some(MessageId::PendingFirmwareVersion),
            11 => Some(MessageId::FirmwareUploadPartChangePos),
            12 => Some(MessageId::FirmwareUploadPause),
            13 => Some(MessageId::FirmwareUploadPart),
            14 => Some(MessageId::FirmwareStartUpdate),
            15 => Some(MessageId::FirmwareUploadFinished),
            50 => Some(MessageId::Battery),
            _ => None,
        }
    }

    /// The code of this kind. It always fits, so the result is never `None`.
    pub fn to_u8(&self) -> (r: Option<u8>)
        ensures
            r == Some(self.code()),
    {
        Some(
            match self {
                MessageId::Serial => 0,
                MessageId::HardwareVersion => 1,
                MessageId::FirmwareVersion => 2,
                MessageId::Reboot => 3,
                MessageId::PendingFirmwareVersion => 10,
                MessageId::FirmwareUploadPartChangePos => 11,
                MessageId::FirmwareUploadPause => 12,
                MessageId::FirmwareUploadPart => 13,
                MessageId::FirmwareStartUpdate => 14,
                MessageId::FirmwareUploadFinished => 15,
                MessageId::Battery => 50,
            },
        )
    }
}

/// Every code fits in seven bits, and looking a kind's code up gives the
/// kind back.
pub proof fn lemma_code_lookup(id: MessageId)
    ensures
        id.code() < 128,
        MessageId::lookup(id.code()) == Some(id),
{
}

/// A code is assigned to at most one kind: a successful lookup returns the
/// kind whose code it is.
pub proof fn lemma_lookup_code(code: u8, id: MessageId)
    requires
        MessageId::lookup(code) == Some(id),
    ensures
        id.code() == code,
{
}

} // verus!
