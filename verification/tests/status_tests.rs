use brother_ql::error::BrotherQlError;
use brother_ql::status::{MediaType, PhaseState, PrinterStatus, StatusType};

fn reply(bytes: &[(usize, u8)]) -> Vec<u8> {
    let mut r = vec![0u8; 32];
    r[0] = 0x80;
    r[1] = 0x20;
    for (i, b) in bytes {
        r[*i] = *b;
    }
    r
}

#[test]
fn decode_reads_every_field_from_its_offset() {
    let r = reply(&[
        (8, 0x93),
        (9, 0x54),
        (10, 62),
        (11, 0x0A),
        (17, 29),
        (18, 0x02),
        (19, 0x01),
    ]);
    let status = PrinterStatus::decode(&r).unwrap();
    assert_eq!(status.media_width, 62);
    assert_eq!(status.media_length, 29);
    assert_eq!(status.media_type, MediaType::Continuous);
    assert_eq!(status.status_type, StatusType::Error);
    assert_eq!(status.phase_state, PhaseState::Printing);
    // 0x93 = 1001_0011
    assert!(status.error1.no_media_when_printing);
    assert!(status.error1.end_of_media);
    assert!(!status.error1.tape_cutter_jam);
    assert!(status.error1.main_unit_in_use);
    assert!(status.error1.fan_doesnt_work);
    // 0x54 = 0101_0100
    assert!(status.error2.transmission_error);
    assert!(status.error2.cover_opened_while_printing);
    assert!(status.error2.cannot_feed);
    assert!(!status.error2.system_error);
}

#[test]
fn decode_round_trip_reproduces_field_values() {
    // A synthetic reply with every enumerated code exercised once.
    let codes: [(u8, MediaType); 3] = [
        (0x00, MediaType::NoMedia),
        (0x0A, MediaType::Continuous),
        (0x0B, MediaType::DieCutLabels),
    ];
    let statuses: [(u8, StatusType); 5] = [
        (0x00, StatusType::ReplyToStatusRequest),
        (0x01, StatusType::PrintingCompleted),
        (0x02, StatusType::Error),
        (0x05, StatusType::Notification),
        (0x06, StatusType::PhaseChange),
    ];
    let phases: [(u8, PhaseState); 2] = [(0x00, PhaseState::Waiting), (0x01, PhaseState::Printing)];
    for (mc, mt) in codes {
        for (sc, st) in statuses {
            for (pc, ph) in phases {
                let r = reply(&[(10, 17), (11, mc), (17, 54), (18, sc), (19, pc)]);
                let status = PrinterStatus::decode(&r).unwrap();
                assert_eq!(status.media_width, 17);
                assert_eq!(status.media_length, 54);
                assert_eq!(status.media_type, mt);
                assert_eq!(status.status_type, st);
                assert_eq!(status.phase_state, ph);
            }
        }
    }
}

#[test]
fn decode_rejects_wrong_header_bytes() {
    for b0 in [0x00u8, 0x20, 0x7f, 0x81, 0xff] {
        let mut r = reply(&[]);
        r[0] = b0;
        assert_eq!(PrinterStatus::decode(&r), Err(BrotherQlError::Decode));
    }
    for b1 in [0x00u8, 0x1f, 0x21, 0x80, 0xff] {
        let mut r = reply(&[]);
        r[1] = b1;
        assert_eq!(PrinterStatus::decode(&r), Err(BrotherQlError::Decode));
    }
}

#[test]
fn decode_rejects_unrecognized_codes() {
    assert_eq!(
        PrinterStatus::decode(&reply(&[(11, 0x05)])),
        Err(BrotherQlError::Decode)
    );
    assert_eq!(
        PrinterStatus::decode(&reply(&[(18, 0x03)])),
        Err(BrotherQlError::Decode)
    );
    assert_eq!(
        PrinterStatus::decode(&reply(&[(19, 0x02)])),
        Err(BrotherQlError::Decode)
    );
}

#[test]
fn decode_rejects_wrong_length() {
    assert_eq!(
        PrinterStatus::decode(&vec![0x80, 0x20]),
        Err(BrotherQlError::Decode)
    );
    assert_eq!(
        PrinterStatus::decode(&vec![0x80; 33]),
        Err(BrotherQlError::Decode)
    );
}

fn status_for(width: u8, length: u8) -> PrinterStatus {
    let r = reply(&[(10, width), (11, 0x0A), (17, length)]);
    PrinterStatus::decode(&r).unwrap()
}

#[test]
fn pixel_width_matches_the_geometry_table() {
    assert_eq!(status_for(12, 0).pixel_width(), Some(113));
    assert_eq!(status_for(29, 0).pixel_width(), Some(336));
    assert_eq!(status_for(62, 0).pixel_width(), Some(720));
    assert_eq!(status_for(17, 54).pixel_width(), Some(201));
    assert_eq!(status_for(24, 24).pixel_width(), Some(242));
    assert_eq!(status_for(58, 58).pixel_width(), Some(637));
}

#[test]
fn pixel_width_is_none_for_unknown_geometry() {
    assert_eq!(status_for(99, 99).pixel_width(), None);
    assert_eq!(status_for(12, 1).pixel_width(), None);
    assert_eq!(status_for(0, 0).pixel_width(), None);
}
