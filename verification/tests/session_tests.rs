use brother_ql::command::{PrinterCommand, RasterLine};
use brother_ql::session::{handshake_commands, print_lines};
use brother_ql::status::PrinterStatus;
use brother_ql::Settings;

fn status_62_continuous() -> PrinterStatus {
    let mut r = vec![0u8; 32];
    r[0] = 0x80;
    r[1] = 0x20;
    r[10] = 62;
    r[11] = 0x0A;
    PrinterStatus::decode(&r).unwrap()
}

#[test]
fn handshake_is_reset_initialize_status_request() {
    let cmds = handshake_commands();
    assert_eq!(cmds.len(), 3);
    assert_eq!(cmds[0].to_bytes(), vec![0u8; 200]);
    assert_eq!(cmds[1].to_bytes(), vec![0x1b, 0x40]);
    assert_eq!(cmds[2].to_bytes(), vec![0x1b, 0x69, 0x53]);
}

#[test]
fn print_sequence_follows_the_fixed_order() {
    let settings = Settings {
        dpi_600: false,
        auto_cut: true,
        dithering: false,
    };
    let mut first = vec![0u8; 90];
    first[89] = 0xff;
    let mut second = vec![0u8; 90];
    second[0] = 0x80;
    let lines = vec![
        RasterLine::new(first).unwrap(),
        RasterLine::new(second).unwrap(),
    ];
    let status = status_62_continuous();
    let cmds = print_lines(lines, &settings, &status);
    assert_eq!(cmds.len(), 9);
    // raster mode
    assert_eq!(cmds[0].to_bytes(), vec![0x1b, 0x69, 0x61, 0x01]);
    // print information with the line count 2
    assert_eq!(
        cmds[1].to_bytes(),
        vec![0x1b, 0x69, 0x7a, 0xce, 0x0a, 62, 0, 2, 0, 0, 0, 1, 0]
    );
    // expanded mode: cut at end, no high resolution
    assert_eq!(cmds[2].to_bytes(), vec![0x1b, 0x69, 0x4b, 0x10]);
    // mode: auto cut
    assert_eq!(cmds[3].to_bytes(), vec![0x1b, 0x69, 0x4d, 0x40]);
    // page number 1, needed for the auto cut
    assert_eq!(cmds[4].to_bytes(), vec![0x1b, 0x69, 0x41, 0x01]);
    // margin 0
    assert_eq!(cmds[5].to_bytes(), vec![0x1b, 0x69, 0x64, 0x00, 0x00]);
    // the two raster lines, in order
    let b6 = cmds[6].to_bytes();
    assert_eq!(&b6[0..3], &[0x67, 0x00, 0x5a]);
    assert_eq!(b6[3 + 89], 0xff);
    let b7 = cmds[7].to_bytes();
    assert_eq!(b7[3], 0x80);
    // print with feeding
    assert_eq!(cmds[8].to_bytes(), vec![0x1a]);
}

#[test]
fn print_sequence_without_lines_still_opens_and_closes() {
    let settings = Settings {
        dpi_600: true,
        auto_cut: false,
        dithering: true,
    };
    let status = status_62_continuous();
    let cmds = print_lines(Vec::new(), &settings, &status);
    assert_eq!(cmds.len(), 7);
    // expanded mode: no cut at end, high resolution
    assert_eq!(cmds[2].to_bytes(), vec![0x1b, 0x69, 0x4b, 0x40]);
    // mode: no auto cut
    assert_eq!(cmds[3].to_bytes(), vec![0x1b, 0x69, 0x4d, 0x00]);
    assert!(matches!(cmds[6], PrinterCommand::PrintWithFeeding));
}
