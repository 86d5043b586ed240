use lg_ultragear_rgb_control::usb_protocol::{
    arm_sync, build_sync_payload, calc_crc, send_payload, send_sync_colors, set_brightness,
    set_mode, set_static_color, store_static_color, turn_off, turn_on, RGBColor, Report, Transfer,
};

fn packet_of(reports: &[Report]) -> Vec<u8> {
    let mut packet = Vec::new();
    for report in reports {
        assert_eq!(report[0], 0);
        packet.extend_from_slice(&report[1..]);
    }
    packet
}

fn framed(payload: &[u8]) -> Vec<u8> {
    let mut packet = vec![0x53, 0x43];
    packet.extend_from_slice(payload);
    packet.extend_from_slice(&[0x45, 0x44]);
    while packet.len() % 64 != 0 {
        packet.push(0);
    }
    packet
}

#[test]
fn crc_degenerates_to_xor() {
    assert_eq!(calc_crc(&[]), 0);
    assert_eq!(calc_crc(&[0x53, 0x43]), 0x53 ^ 0x43);
    let bytes: Vec<u8> = (0..=255).collect();
    let folded = bytes.iter().fold(0u8, |a, &b| a ^ b);
    assert_eq!(calc_crc(&bytes), folded);
}

#[test]
fn sync_frame_markers_and_padding() {
    let black = [RGBColor { r: 0, g: 0, b: 0 }; 48];
    let video = build_sync_payload(&black, false);
    let audio = build_sync_payload(&black, true);
    assert_eq!(video[0], 0xC1);
    assert_eq!(audio[0], 0xC2);
    assert_eq!(&video[1..4], &[0x02, 0x91, 0x00]);
    // Every component is clamped to >= 1 or the monitor driver hangs.
    assert!(video[4..148].iter().all(|&b| b == 1));
    // 48 LEDs of (1^1^1) XOR-fold to 0, so the check byte is 0x42.
    assert_eq!(video[148], 0x42);
}

#[test]
fn sync_frame_check_byte() {
    let colors = std::array::from_fn(|i| RGBColor {
        r: (i + 1) as u8, // 1..=48: XOR 1..48 = 48 = 0x30
        g: 0,
        b: 0,
    });
    let payload = build_sync_payload(&colors, false);
    assert_eq!(payload[148], 0x42 ^ 0x30);
    assert_eq!(payload[4], 1);
    assert_eq!(payload[4 + 47 * 3], 48);
}

#[test]
fn payloads_are_framed_and_padded() {
    let reports = send_payload(&[1, 2, 3]).unwrap();
    assert_eq!(reports.len(), 1);
    assert_eq!(packet_of(&reports), framed(&[1, 2, 3]));
    // 60 bytes fill one report exactly, 61 need a second one.
    assert_eq!(send_payload(&[7; 60]).unwrap().len(), 1);
    let two = send_payload(&[7; 61]).unwrap();
    assert_eq!(two.len(), 2);
    assert_eq!(packet_of(&two), framed(&[7; 61]));
}

#[test]
fn payloads_beyond_a_packet_are_refused() {
    assert_eq!(send_payload(&[0; 188]).unwrap().len(), 3);
    assert!(send_payload(&[0; 189]).is_none());
    assert_eq!(send_payload(&[]).unwrap().len(), 1);
}

#[test]
fn commands_carry_the_documented_bytes() {
    assert_eq!(packet_of(&turn_on()), framed(&[0xCF, 0x02, 0x02, 0x01, 0x00, 0xDE]));
    assert_eq!(packet_of(&turn_off()), framed(&[0xCF, 0x02, 0x02, 0x02, 0x00, 0xDD]));
    assert_eq!(packet_of(&set_brightness(7)), framed(&[0xCF, 0x02, 0x02, 0x01, 7, 7 ^ 0xDE]));
    assert_eq!(packet_of(&set_mode(3)), framed(&[0xC7, 0x02, 0x02, 0x00, 3, 3 ^ 0xD7]));
    assert_eq!(packet_of(&arm_sync(8)), framed(&[0xCA, 0x02, 0x02, 0x03, 8, 8 ^ 0xD9]));
}

#[test]
fn sync_modes_are_armed_behind_the_switch() {
    for mode in [7u8, 8] {
        let reports = set_mode(mode);
        assert_eq!(reports.len(), 2);
        assert_eq!(
            packet_of(&reports[..1]),
            framed(&[0xC7, 0x02, 0x02, 0x00, mode, mode ^ 0xD7])
        );
        assert_eq!(
            packet_of(&reports[1..]),
            framed(&[0xCA, 0x02, 0x02, 0x03, mode, mode ^ 0xD9])
        );
    }
}

#[test]
fn static_colors_end_with_the_crc_of_header_and_payload() {
    let body = [0xD2, 2 ^ 0x03, 0x04, 2, 0xAA, 0xBB, 0xCC];
    let crc = 0x53 ^ 0x43 ^ body.iter().fold(0u8, |a, &b| a ^ b);
    let mut payload = body.to_vec();
    payload.push(crc);
    assert_eq!(packet_of(&store_static_color(2, 0xAA, 0xBB, 0xCC)), framed(&payload));
    // Setting a color also switches to its slot.
    let set = set_static_color(2, 0xAA, 0xBB, 0xCC);
    assert_eq!(set.len(), 2);
    assert_eq!(packet_of(&set[..1]), framed(&payload));
    assert_eq!(packet_of(&set[1..]), framed(&[0xC7, 0x02, 0x02, 0x00, 2, 2 ^ 0xD7]));
}

#[test]
fn a_sync_frame_is_three_reports() {
    let colors = [RGBColor { r: 9, g: 8, b: 7 }; 48];
    let reports = send_sync_colors(&colors, true);
    assert_eq!(reports.len(), 3);
    assert_eq!(packet_of(&reports), framed(&build_sync_payload(&colors, true)));
    // The arm command announces that many.
    assert_eq!(arm_sync(7)[0][1 + 2 + 3], 3);
}

#[test]
fn check_bytes_cancel_every_command() {
    for reports in [
        turn_on(),
        turn_off(),
        set_brightness(12),
        set_mode(5),
        arm_sync(7),
        store_static_color(4, 1, 2, 3),
        send_sync_colors(&[RGBColor { r: 3, g: 5, b: 200 }; 48], false),
    ] {
        let packet = packet_of(&reports);
        // The terminator XORs to 1, padding to 0.
        assert_eq!(packet.iter().fold(0u8, |a, &b| a ^ b), 0x45 ^ 0x44);
    }
}

#[test]
fn a_failed_write_gives_the_rest_of_the_command_up() {
    let mut transfer = Transfer::new(send_sync_colors(&[RGBColor { r: 1, g: 2, b: 3 }; 48], false));
    assert!(transfer.pending().is_some());
    transfer.wrote(true);
    assert!(transfer.pending().is_some());
    assert!(!transfer.succeeded());
    transfer.wrote(false);
    assert!(transfer.pending().is_none());
    assert!(!transfer.succeeded());

    let mut whole = Transfer::new(turn_on());
    whole.wrote(true);
    assert!(whole.pending().is_none());
    assert!(whole.succeeded());
    assert!(Transfer::new(Vec::new()).succeeded());
}
