//! Print orchestration: the fixed linear command sequence of a raster
//! print job, computed as data so that the device channel only has to
//! write the encoded commands in order.

use vstd::prelude::*;

use crate::command::{
    PrinterCommand, PrinterCommandMode, PrinterExpandedMode, PrinterMode, RasterLine,
};
use crate::status::PrinterStatus;
use crate::Settings;

verus! {

/// The commands that open a print session, sent before the status reply is
/// read: reset, initialize, and the status information request.
pub open spec fn spec_handshake_sequence() -> Seq<PrinterCommand> {
    seq![
        PrinterCommand::Reset,
        PrinterCommand::Initialize,
        PrinterCommand::StatusInfoRequest,
    ]
}

/// The commands that carry out a print job once the status reply has been
/// decoded: raster mode, print information, the mode flags, one raster
/// transfer per line in order, and the final print-with-feeding.
pub open spec fn spec_print_sequence(
    status: PrinterStatus,
    settings: Settings,
    lines: Seq<RasterLine>,
) -> Seq<PrinterCommand> {
    seq![
        PrinterCommand::SetCommandMode(PrinterCommandMode::Raster),
        PrinterCommand::SetPrintInformation(status, lines.len() as u32),
        PrinterCommand::SetExpandedMode(
            PrinterExpandedMode {
                cut_at_end: settings.auto_cut,
                high_resolution_printing: settings.dpi_600,
            },
        ),
        PrinterCommand::SetMode(PrinterMode { auto_cut: settings.auto_cut }),
        PrinterCommand::SetPageNumber(1u8),
        PrinterCommand::SetMarginAmount(0u16),
    ] + lines.map_values(|line: RasterLine| PrinterCommand::RasterGraphicsTransfer(line)) + seq![
        PrinterCommand::PrintWithFeeding,
    ]
}

/// The opening commands of a session. After writing them in order, the
/// caller reads one 32-byte status reply and decodes it.
pub fn handshake_commands() -> (r: Vec<PrinterCommand>)
    ensures
        r@ == spec_handshake_sequence(),
{
    let mut r: Vec<PrinterCommand> = Vec::new();
    r.push(PrinterCommand::Reset);
    r.push(PrinterCommand::Initialize);
    r.push(PrinterCommand::StatusInfoRequest);
    assert(r@ =~= spec_handshake_sequence());
    r
}

/// The full ordered command sequence that prints `lines` under `settings`,
/// given the status decoded from the handshake reply. The caller writes the
/// encoded commands in order and then drains the post-print status replies.
pub fn print_lines(lines: Vec<RasterLine>, settings: &Settings, status: &PrinterStatus) -> (r: Vec<
    PrinterCommand,
>)
    requires
        lines@.len() <= u32::MAX,
    ensures
        r@ == spec_print_sequence(*status, *settings, lines@),
{
    let line_count = lines.len() as u32;
    let mut r: Vec<PrinterCommand> = Vec::new();
    r.push(PrinterCommand::SetCommandMode(PrinterCommandMode::Raster));
    r.push(PrinterCommand::SetPrintInformation(*status, line_count));
    r.push(
        PrinterCommand::SetExpandedMode(
            PrinterExpandedMode {
                cut_at_end: settings.auto_cut,
                high_resolution_printing: settings.dpi_600,
            },
        ),
    );
    r.push(PrinterCommand::SetMode(PrinterMode { auto_cut: settings.auto_cut }));
    r.push(PrinterCommand::SetPageNumber(1));
    r.push(PrinterCommand::SetMarginAmount(0));
    for line in it: lines.into_iter()
        invariant
            it.seq() == lines@,
            lines@.len() <= u32::MAX,
            line_count == lines@.len() as u32,
            r@.len() == 6 + it.index(),
            r@[0] == PrinterCommand::SetCommandMode(PrinterCommandMode::Raster),
            r@[1] == PrinterCommand::SetPrintInformation(*status, line_count),
            r@[2] == PrinterCommand::SetExpandedMode(
                PrinterExpandedMode {
                    cut_at_end: settings.auto_cut,
                    high_resolution_printing: settings.dpi_600,
                },
            ),
            r@[3] == PrinterCommand::SetMode(PrinterMode { auto_cut: settings.auto_cut }),
            r@[4] == PrinterCommand::SetPageNumber(1u8),
            r@[5] == PrinterCommand::SetMarginAmount(0u16),
            forall|j: int|
                0 <= j < it.index() ==> r@[6 + j] == PrinterCommand::RasterGraphicsTransfer(
                    #[trigger] it.seq()[j],
                ),
    {
        r.push(PrinterCommand::RasterGraphicsTransfer(line));
    }
    r.push(PrinterCommand::PrintWithFeeding);
    assert(r@ =~= spec_print_sequence(*status, *settings, lines@));
    r
}

} // verus!
