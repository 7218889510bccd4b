//! Command codec: each protocol command and its exact byte encoding.

use vstd::prelude::*;

use crate::status::PrinterStatus;

verus! {

/// One row of 720 print dots, bit-packed into exactly 90 bytes.
///
/// A line is produced by the raster pipeline and consumed unmodified by the
/// command codec; it is never mutated after creation.
#[derive(Debug)]
pub struct RasterLine {
    bytes: Vec<u8>,
}

impl View for RasterLine {
    type V = Seq<u8>;

    closed spec fn view(&self) -> Seq<u8> {
        self.bytes@
    }
}

impl RasterLine {
    /// Whether the line has its required fixed length of 90 bytes.
    pub open spec fn wf(&self) -> bool {
        self@.len() == 90
    }

    /// Wrap a 90-byte buffer as a raster line; any other length is refused.
    pub fn new(bytes: Vec<u8>) -> (r: Option<RasterLine>)
        ensures
            r is Some <==> bytes@.len() == 90,
            r is Some ==> r->0@ == bytes@ && r->0.wf(),
    {
        if bytes.len() == 90 {
            Some(RasterLine { bytes })
        } else {
            None
        }
    }

    /// Construct a line from packed bytes already known to be 90 long.
    pub(crate) fn from_packed(bytes: Vec<u8>) -> (r: RasterLine)
        requires
            bytes@.len() == 90,
        ensures
            r@ == bytes@,
            r.wf(),
    {
        RasterLine { bytes }
    }

    pub fn len(&self) -> (n: usize)
        ensures
            n == self@.len(),
    {
        self.bytes.len()
    }

    /// The packed bytes of the line.
    pub fn as_bytes(&self) -> (r: &Vec<u8>)
        ensures
            r@ == self@,
    {
        &self.bytes
    }
}

/// Protocol mode selected by the command-mode switch.
#[derive(Clone, Copy, Debug, PartialEq, Eq, Structural)]
pub enum PrinterCommandMode {
    /// ESC/P mode (normal).
    EscpNormal,
    /// Raster mode, the only mode this library exercises.
    Raster,
    /// ESC/P mode (text).
    EscpText,
    /// P-touch Template mode.
    PtouchTemplate,
}

impl PrinterCommandMode {
    /// The wire code of this command mode.
    pub open spec fn spec_code(self) -> u8 {
        match self {
            PrinterCommandMode::EscpNormal => 0x00,
            PrinterCommandMode::Raster => 0x01,
            PrinterCommandMode::EscpText => 0x02,
            PrinterCommandMode::PtouchTemplate => 0x03,
        }
    }

    pub fn code(&self) -> (r: u8)
        ensures
            r == self.spec_code(),
    {
        match self {
            PrinterCommandMode::EscpNormal => 0x00,
            PrinterCommandMode::Raster => 0x01,
            PrinterCommandMode::EscpText => 0x02,
            PrinterCommandMode::PtouchTemplate => 0x03,
        }
    }
}

/// Flags of the mode-setting command.
#[derive(Clone, Copy, Debug, PartialEq, Eq, Structural)]
pub struct PrinterMode {
    /// Cut automatically after each label.
    pub auto_cut: bool,
}

/// Flags of the expanded-mode command.
#[derive(Clone, Copy, Debug, PartialEq, Eq, Structural)]
pub struct PrinterExpandedMode {
    /// Cut at the end of the job.
    pub cut_at_end: bool,
    /// High resolution printing (doubled vertical resolution).
    pub high_resolution_printing: bool,
}

/// A protocol command, one variant per operation.
#[derive(Debug)]
pub enum PrinterCommand {
    /// Reset: 200 zero bytes flush the printer's input state.
    Reset,
    /// A deliberately invalid single zero byte.
    Invalid,
    /// Initialize.
    Initialize,
    /// Status information request.
    StatusInfoRequest,
    /// Command mode switch.
    SetCommandMode(PrinterCommandMode),
    /// Print information: media parameters and the raster line count.
    SetPrintInformation(PrinterStatus, u32),
    /// Set each mode.
    SetMode(PrinterMode),
    /// Page number in "cut every n labels" (1-255; 1 cuts every label).
    SetPageNumber(u8),
    /// Set expanded mode.
    SetExpandedMode(PrinterExpandedMode),
    /// Set margin (feed) amount.
    SetMarginAmount(u16),
    /// Compression mode selection: uncompressed.
    SetCompressionMode,
    /// Raster graphics transfer of one 90-byte line.
    RasterGraphicsTransfer(RasterLine),
    /// Zero raster graphics: one blank line.
    ZeroRasterGraphics,
    /// Print.
    Print,
    /// Print with feeding (last page).
    PrintWithFeeding,
    /// Baud rate setting.
    SetBaudRate(u16),
}

/// The two little-endian bytes of `n`.
pub open spec fn u16_le_bytes(n: u16) -> Seq<u8> {
    seq![(n & 0xff) as u8, ((n >> 8u16) & 0xff) as u8]
}

/// The four little-endian bytes of `n`.
pub open spec fn u32_le_bytes(n: u32) -> Seq<u8> {
    seq![
        (n & 0xff) as u8,
        ((n >> 8u32) & 0xff) as u8,
        ((n >> 16u32) & 0xff) as u8,
        ((n >> 24u32) & 0xff) as u8,
    ]
}

/// The flags byte of the expanded-mode command: cut-at-end in bit 4,
/// high-resolution printing in bit 6.
pub open spec fn spec_expanded_flags(mode: PrinterExpandedMode) -> u8 {
    if mode.cut_at_end && mode.high_resolution_printing {
        0x50u8
    } else if mode.cut_at_end {
        0x10u8
    } else if mode.high_resolution_printing {
        0x40u8
    } else {
        0x00u8
    }
}

impl PrinterCommand {
    /// Whether the command is well formed: a raster graphics transfer must
    /// carry a line of exactly 90 bytes; every other variant is well formed.
    pub open spec fn wf(&self) -> bool {
        self matches PrinterCommand::RasterGraphicsTransfer(line) ==> line.wf()
    }

    /// The exact byte encoding of the command.
    pub open spec fn spec_bytes(&self) -> Seq<u8> {
        match self {
            PrinterCommand::Reset => Seq::new(200, |i: int| 0u8),
            PrinterCommand::Invalid => seq![0x00u8],
            PrinterCommand::Initialize => seq![0x1bu8, 0x40u8],
            PrinterCommand::StatusInfoRequest => seq![0x1bu8, 0x69u8, 0x53u8],
            PrinterCommand::SetCommandMode(mode) => seq![
                0x1bu8,
                0x69u8,
                0x61u8,
                mode.spec_code(),
            ],
            PrinterCommand::SetPrintInformation(status, line_count) => seq![
                0x1bu8,
                0x69u8,
                0x7au8,
                0xceu8,
                status.media_type.spec_code(),
                status.media_width,
                status.media_length,
            ] + u32_le_bytes(*line_count) + seq![0x01u8, 0x00u8],
            PrinterCommand::SetMode(mode) => seq![
                0x1bu8,
                0x69u8,
                0x4du8,
                if mode.auto_cut {
                    0x40u8
                } else {
                    0x00u8
                },
            ],
            PrinterCommand::SetPageNumber(page_number) => seq![
                0x1bu8,
                0x69u8,
                0x41u8,
                *page_number,
            ],
            PrinterCommand::SetExpandedMode(mode) => seq![
                0x1bu8,
                0x69u8,
                0x4bu8,
                spec_expanded_flags(*mode),
            ],
            PrinterCommand::SetMarginAmount(margin) => seq![0x1bu8, 0x69u8, 0x64u8] + u16_le_bytes(
                *margin,
            ),
            PrinterCommand::SetCompressionMode => seq![0x4du8, 0x00u8],
            PrinterCommand::RasterGraphicsTransfer(line) => seq![0x67u8, 0x00u8, 0x5au8] + line@,
            PrinterCommand::ZeroRasterGraphics => seq![0x5au8],
            PrinterCommand::Print => seq![0x0cu8],
            PrinterCommand::PrintWithFeeding => seq![0x1au8],
            PrinterCommand::SetBaudRate(baud_rate) => seq![0x1bu8, 0x69u8, 0x42u8] + u16_le_bytes(
                *baud_rate,
            ),
        }
    }

    /// Encode the command into its exact byte sequence. Encoding never
    /// fails; a malformed raster line is a caller contract violation and is
    /// excluded up front.
    pub fn to_bytes(&self) -> (r: Vec<u8>)
        requires
            self.wf(),
        ensures
            r@ == self.spec_bytes(),
    {
        match self {
            PrinterCommand::Reset => {
                let r = vec![0u8; 200];
                assert(r@ =~= self.spec_bytes());
                r
            },
            PrinterCommand::Invalid => {
                let r = vec![0x00u8];
                assert(r@ =~= self.spec_bytes());
                r
            },
            PrinterCommand::Initialize => {
                let r = vec![0x1bu8, 0x40];
                assert(r@ =~= self.spec_bytes());
                r
            },
            PrinterCommand::StatusInfoRequest => {
                let r = vec![0x1bu8, 0x69, 0x53];
                assert(r@ =~= self.spec_bytes());
                r
            },
            PrinterCommand::SetCommandMode(mode) => {
                let r = vec![0x1bu8, 0x69, 0x61, mode.code()];
                assert(r@ =~= self.spec_bytes());
                r
            },
            PrinterCommand::SetPrintInformation(status, line_count) => {
                let n = *line_count;
                let mut r: Vec<u8> = Vec::new();
                r.push(0x1b);
                r.push(0x69);
                r.push(0x7a);
                r.push(0xce);
                r.push(status.media_type.code());
                r.push(status.media_width);
                r.push(status.media_length);
                r.push((n & 0xff) as u8);
                r.push(((n >> 8u32) & 0xff) as u8);
                r.push(((n >> 16u32) & 0xff) as u8);
                r.push(((n >> 24u32) & 0xff) as u8);
                r.push(0x01);
                r.push(0x00);
                assert(r@ =~= self.spec_bytes());
                r
            },
            PrinterCommand::SetMode(mode) => {
                let flags: u8 = if mode.auto_cut {
                    0x40
                } else {
                    0x00
                };
                let r = vec![0x1bu8, 0x69, 0x4d, flags];
                assert(r@ =~= self.spec_bytes());
                r
            },
            PrinterCommand::SetPageNumber(page_number) => {
                let r = vec![0x1bu8, 0x69, 0x41, *page_number];
                assert(r@ =~= self.spec_bytes());
                r
            },
            PrinterCommand::SetExpandedMode(mode) => {
                let flags: u8 = if mode.cut_at_end && mode.high_resolution_printing {
                    0x50
                } else if mode.cut_at_end {
                    0x10
                } else if mode.high_resolution_printing {
                    0x40
                } else {
                    0x00
                };
                let r = vec![0x1bu8, 0x69, 0x4b, flags];
                assert(r@ =~= self.spec_bytes());
                r
            },
            PrinterCommand::SetMarginAmount(margin) => {
                let m = *margin;
                let r = vec![0x1bu8, 0x69, 0x64, (m & 0xff) as u8, ((m >> 8u16) & 0xff) as u8];
                assert(r@ =~= self.spec_bytes());
                r
            },
            PrinterCommand::SetCompressionMode => {
                let r = vec![0x4du8, 0x00];
                assert(r@ =~= self.spec_bytes());
                r
            },
            PrinterCommand::RasterGraphicsTransfer(line) => {
                let mut r: Vec<u8> = Vec::new();
                r.push(0x67);
                r.push(0x00);
                r.push(0x5a);
                r.extend_from_slice(line.as_bytes().as_slice());
                assert(r@ =~= self.spec_bytes());
                r
            },
            PrinterCommand::ZeroRasterGraphics => {
                let r = vec![0x5au8];
                assert(r@ =~= self.spec_bytes());
                r
            },
            PrinterCommand::Print => {
                let r = vec![0x0cu8];
                assert(r@ =~= self.spec_bytes());
                r
            },
            PrinterCommand::PrintWithFeeding => {
                let r = vec![0x1au8];
                assert(r@ =~= self.spec_bytes());
                r
            },
            PrinterCommand::SetBaudRate(baud_rate) => {
                let b = *baud_rate;
                let r = vec![0x1bu8, 0x69, 0x42, (b & 0xff) as u8, ((b >> 8u16) & 0xff) as u8];
                assert(r@ =~= self.spec_bytes());
                r
            },
        }
    }
}

} // verus!
