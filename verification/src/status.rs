//! Status codec: decoding the printer's fixed 32-byte status reply and
//! mapping media geometry to a printable pixel width.

use vstd::prelude::*;

use crate::error::BrotherQlError;

verus! {

/// First error-flag set of a status reply, decoded from the byte at offset 8.
#[derive(Clone, Copy, Debug, PartialEq, Eq, Structural)]
pub struct ErrorInformation1 {
    pub no_media_when_printing: bool,
    pub end_of_media: bool,
    pub tape_cutter_jam: bool,
    pub main_unit_in_use: bool,
    pub fan_doesnt_work: bool,
}

impl ErrorInformation1 {
    /// The flag set encoded by `bits`: one flag per mask.
    pub open spec fn spec_from_bits(bits: u8) -> ErrorInformation1 {
        ErrorInformation1 {
            no_media_when_printing: bits & 0x01 != 0,
            end_of_media: bits & 0x02 != 0,
            tape_cutter_jam: bits & 0x04 != 0,
            main_unit_in_use: bits & 0x10 != 0,
            fan_doesnt_work: bits & 0x80 != 0,
        }
    }

    pub fn from_bits(bits: u8) -> (r: ErrorInformation1)
        ensures
            r == Self::spec_from_bits(bits),
    {
        ErrorInformation1 {
            no_media_when_printing: bits & 0x01 != 0,
            end_of_media: bits & 0x02 != 0,
            tape_cutter_jam: bits & 0x04 != 0,
            main_unit_in_use: bits & 0x10 != 0,
            fan_doesnt_work: bits & 0x80 != 0,
        }
    }
}

/// Second error-flag set of a status reply, decoded from the byte at offset 9.
#[derive(Clone, Copy, Debug, PartialEq, Eq, Structural)]
pub struct ErrorInformation2 {
    pub transmission_error: bool,
    pub cover_opened_while_printing: bool,
    pub cannot_feed: bool,
    pub system_error: bool,
}

impl ErrorInformation2 {
    /// The flag set encoded by `bits`: one flag per mask.
    pub open spec fn spec_from_bits(bits: u8) -> ErrorInformation2 {
        ErrorInformation2 {
            transmission_error: bits & 0x04 != 0,
            cover_opened_while_printing: bits & 0x10 != 0,
            cannot_feed: bits & 0x40 != 0,
            system_error: bits & 0x80 != 0,
        }
    }

    pub fn from_bits(bits: u8) -> (r: ErrorInformation2)
        ensures
            r == Self::spec_from_bits(bits),
    {
        ErrorInformation2 {
            transmission_error: bits & 0x04 != 0,
            cover_opened_while_printing: bits & 0x10 != 0,
            cannot_feed: bits & 0x40 != 0,
            system_error: bits & 0x80 != 0,
        }
    }
}

/// Kind of media loaded in the printer, reported at offset 11.
#[derive(Clone, Copy, Debug, PartialEq, Eq, Structural)]
pub enum MediaType {
    NoMedia,
    Continuous,
    DieCutLabels,
}

impl MediaType {
    /// The wire code of this media type.
    pub open spec fn spec_code(self) -> u8 {
        match self {
            MediaType::NoMedia => 0x00,
            MediaType::Continuous => 0x0A,
            MediaType::DieCutLabels => 0x0B,
        }
    }

    /// The media type encoded by `code`, if `code` is one of the
    /// enumerated wire codes.
    pub open spec fn spec_from_code(code: u8) -> Option<MediaType> {
        if code == 0x00 {
            Some(MediaType::NoMedia)
        } else if code == 0x0A {
            Some(MediaType::Continuous)
        } else if code == 0x0B {
            Some(MediaType::DieCutLabels)
        } else {
            None
        }
    }

    pub fn code(&self) -> (r: u8)
        ensures
            r == self.spec_code(),
    {
        match self {
            MediaType::NoMedia => 0x00,
            MediaType::Continuous => 0x0A,
            MediaType::DieCutLabels => 0x0B,
        }
    }
}

/// Kind of status reply, reported at offset 18.
#[derive(Clone, Copy, Debug, PartialEq, Eq, Structural)]
pub enum StatusType {
    ReplyToStatusRequest,
    PrintingCompleted,
    Error,
    Notification,
    PhaseChange,
}

impl StatusType {
    /// The status type encoded by `code`, if `code` is one of the
    /// enumerated wire codes.
    pub open spec fn spec_from_code(code: u8) -> Option<StatusType> {
        if code == 0x00 {
            Some(StatusType::ReplyToStatusRequest)
        } else if code == 0x01 {
            Some(StatusType::PrintingCompleted)
        } else if code == 0x02 {
            Some(StatusType::Error)
        } else if code == 0x05 {
            Some(StatusType::Notification)
        } else if code == 0x06 {
            Some(StatusType::PhaseChange)
        } else {
            None
        }
    }
}

/// Phase the printer is in, reported at offset 19.
#[derive(Clone, Copy, Debug, PartialEq, Eq, Structural)]
pub enum PhaseState {
    Waiting,
    Printing,
}

impl PhaseState {
    /// The phase state encoded by `code`, if `code` is one of the
    /// enumerated wire codes.
    pub open spec fn spec_from_code(code: u8) -> Option<PhaseState> {
        if code == 0x00 {
            Some(PhaseState::Waiting)
        } else if code == 0x01 {
            Some(PhaseState::Printing)
        } else {
            None
        }
    }
}

/// Immutable snapshot decoded from one 32-byte status reply.
#[derive(Clone, Copy, Debug, PartialEq, Eq, Structural)]
pub struct PrinterStatus {
    /// Media width in millimetres.
    pub media_width: u8,
    /// Media length in millimetres; 0 means continuous media.
    pub media_length: u8,
    pub media_type: MediaType,
    pub error1: ErrorInformation1,
    pub error2: ErrorInformation2,
    pub status_type: StatusType,
    pub phase_state: PhaseState,
}

/// Whether `reply` is a well-formed status reply: 32 bytes, the fixed
/// header `80 20`, and enumerated codes at offsets 11, 18 and 19.
pub open spec fn valid_status_reply(reply: Seq<u8>) -> bool {
    &&& reply.len() == 32
    &&& reply[0] == 0x80
    &&& reply[1] == 0x20
    &&& MediaType::spec_from_code(reply[11]) is Some
    &&& StatusType::spec_from_code(reply[18]) is Some
    &&& PhaseState::spec_from_code(reply[19]) is Some
}

/// The status a valid reply decodes to: each field read from its fixed offset.
pub open spec fn decoded_status(reply: Seq<u8>) -> PrinterStatus
    recommends
        valid_status_reply(reply),
{
    PrinterStatus {
        media_width: reply[10],
        media_length: reply[17],
        media_type: MediaType::spec_from_code(reply[11])->Some_0,
        error1: ErrorInformation1::spec_from_bits(reply[8]),
        error2: ErrorInformation2::spec_from_bits(reply[9]),
        status_type: StatusType::spec_from_code(reply[18])->Some_0,
        phase_state: PhaseState::spec_from_code(reply[19])->Some_0,
    }
}

impl PrinterStatus {
    /// Decode a 32-byte status reply. A reply whose header is not `80 20`
    /// or that carries an unrecognized code decodes to an error, never to
    /// a default.
    pub fn decode(reply: &Vec<u8>) -> (r: Result<PrinterStatus, BrotherQlError>)
        ensures
            r is Ok <==> valid_status_reply(reply@),
            r is Ok ==> r->Ok_0 == decoded_status(reply@),
            r is Err ==> r->Err_0 == BrotherQlError::Decode,
    {
        if reply.len() != 32 {
            return Err(BrotherQlError::Decode);
        }
        if reply[0] != 0x80 || reply[1] != 0x20 {
            return Err(BrotherQlError::Decode);
        }
        let media_type = match reply[11] {
            0x00 => MediaType::NoMedia,
            0x0A => MediaType::Continuous,
            0x0B => MediaType::DieCutLabels,
            _ => {
                return Err(BrotherQlError::Decode);
            },
        };
        let status_type = match reply[18] {
            0x00 => StatusType::ReplyToStatusRequest,
            0x01 => StatusType::PrintingCompleted,
            0x02 => StatusType::Error,
            0x05 => StatusType::Notification,
            0x06 => StatusType::PhaseChange,
            _ => {
                return Err(BrotherQlError::Decode);
            },
        };
        let phase_state = match reply[19] {
            0x00 => PhaseState::Waiting,
            0x01 => PhaseState::Printing,
            _ => {
                return Err(BrotherQlError::Decode);
            },
        };
        Ok(PrinterStatus {
            media_width: reply[10],
            media_length: reply[17],
            media_type,
            error1: ErrorInformation1::from_bits(reply[8]),
            error2: ErrorInformation2::from_bits(reply[9]),
            status_type,
            phase_state,
        })
    }

    /// The printable width in dots for the loaded media geometry, by the
    /// fixed lookup table; `None` for unrecognized geometry.
    pub fn pixel_width(&self) -> (r: Option<u16>)
        ensures
            r == spec_pixel_width(self.media_width, self.media_length),
    {
        match (self.media_width, self.media_length) {
            // Continuous tapes (length = 0): total dots minus right offset
            (12, 0) => Some(113),
            (18, 0) => Some(85),
            (29, 0) => Some(336),
            (38, 0) => Some(437),
            (50, 0) => Some(578),
            (54, 0) => Some(636),
            (62, 0) => Some(720),
            (102, 0) => Some(1188),
            (104, 0) => Some(1212),
            // Die-cut labels
            (17, 54) => Some(201),
            (17, 87) => Some(201),
            (23, 23) => Some(230),
            (29, 42) => Some(336),
            (29, 90) => Some(336),
            (38, 90) => Some(437),
            (39, 48) => Some(455),
            (52, 29) => Some(614),
            (54, 29) => Some(570),
            (60, 87) => Some(690),
            (62, 29) => Some(720),
            (62, 100) => Some(720),
            (102, 51) => Some(1188),
            (102, 153) => Some(1188),
            (104, 164) => Some(1212),
            // Round die-cut labels
            (24, 24) => Some(242),
            (58, 58) => Some(637),
            // Unknown media
            _ => None,
        }
    }
}

/// The fixed table from media geometry (width, length, both in mm) to the
/// printable width in dots.
pub open spec fn spec_pixel_width(media_width: u8, media_length: u8) -> Option<u16> {
    if media_width == 12 && media_length == 0 {
        Some(113u16)
    } else if media_width == 18 && media_length == 0 {
        Some(85u16)
    } else if media_width == 29 && media_length == 0 {
        Some(336u16)
    } else if media_width == 38 && media_length == 0 {
        Some(437u16)
    } else if media_width == 50 && media_length == 0 {
        Some(578u16)
    } else if media_width == 54 && media_length == 0 {
        Some(636u16)
    } else if media_width == 62 && media_length == 0 {
        Some(720u16)
    } else if media_width == 102 && media_length == 0 {
        Some(1188u16)
    } else if media_width == 104 && media_length == 0 {
        Some(1212u16)
    } else if media_width == 17 && media_length == 54 {
        Some(201u16)
    } else if media_width == 17 && media_length == 87 {
        Some(201u16)
    } else if media_width == 23 && media_length == 23 {
        Some(230u16)
    } else if media_width == 29 && media_length == 42 {
        Some(336u16)
    } else if media_width == 29 && media_length == 90 {
        Some(336u16)
    } else if media_width == 38 && media_length == 90 {
        Some(437u16)
    } else if media_width == 39 && media_length == 48 {
        Some(455u16)
    } else if media_width == 52 && media_length == 29 {
        Some(614u16)
    } else if media_width == 54 && media_length == 29 {
        Some(570u16)
    } else if media_width == 60 && media_length == 87 {
        Some(690u16)
    } else if media_width == 62 && media_length == 29 {
        Some(720u16)
    } else if media_width == 62 && media_length == 100 {
        Some(720u16)
    } else if media_width == 102 && media_length == 51 {
        Some(1188u16)
    } else if media_width == 102 && media_length == 153 {
        Some(1188u16)
    } else if media_width == 104 && media_length == 164 {
        Some(1212u16)
    } else if media_width == 24 && media_length == 24 {
        Some(242u16)
    } else if media_width == 58 && media_length == 58 {
        Some(637u16)
    } else {
        None
    }
}

/// Decoding is a round trip: every field of the status decoded from a valid
/// reply reproduces the reply's bytes exactly — the media bytes at offsets
/// 10 and 17, the error-flag bits of the bytes at offsets 8 and 9, and the
/// enumerated codes at offsets 11, 18 and 19.
pub proof fn lemma_status_decode_round_trip(reply: Seq<u8>)
    requires
        valid_status_reply(reply),
    ensures
        decoded_status(reply).media_width == reply[10],
        decoded_status(reply).media_length == reply[17],
        decoded_status(reply).media_type.spec_code() == reply[11],
        decoded_status(reply).error1 == ErrorInformation1::spec_from_bits(reply[8]),
        decoded_status(reply).error2 == ErrorInformation2::spec_from_bits(reply[9]),
        StatusType::spec_from_code(reply[18]) == Some(decoded_status(reply).status_type),
        PhaseState::spec_from_code(reply[19]) == Some(decoded_status(reply).phase_state),
{
}

/// A reply whose first byte is not `0x80` or whose second byte is not
/// `0x20` is never a valid status reply, whatever its other bytes hold.
pub proof fn lemma_header_validation(reply: Seq<u8>)
    requires
        reply.len() == 32,
        reply[0] != 0x80 || reply[1] != 0x20,
    ensures
        !valid_status_reply(reply),
{
}

} // verus!
