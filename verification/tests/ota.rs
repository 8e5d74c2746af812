use myrtio_light::ota::{
    body_start, build_get_request, find_pattern, header_read_step, http_status_ok, invite_complete,
    invite_read_done, should_log_progress, should_mark_valid, AppPartition, HeaderProgress,
    OtaImageState, OtaInvite, OtaProgress, Slot,
};

#[test]
fn invite_with_all_fields() {
    let text = b"HOST=192.168.1.100\nPORT=8000\nPATH=/firmware.bin\nSIZE=552672\nMD5=abc123\n";
    let inv = OtaInvite::parse(text).unwrap();
    assert_eq!(inv.host, "192.168.1.100");
    assert_eq!(inv.port, 8000);
    assert_eq!(inv.path, "/firmware.bin");
    assert_eq!(inv.size, 552672);
}

#[test]
fn invite_trims_and_accepts_crlf() {
    let text = b"  HOST = example.local \r\n\r\nPORT=+80\r\n junk line\r\nPATH=/a b\r\nSIZE=0";
    let inv = OtaInvite::parse(text).unwrap();
    assert_eq!(inv.host, "example.local");
    assert_eq!(inv.port, 80);
    assert_eq!(inv.path, "/a b");
    assert_eq!(inv.size, 0);
}

#[test]
fn invite_missing_or_bad_fields() {
    assert!(OtaInvite::parse(b"HOST=h\nPORT=1\nPATH=/p\n").is_none());
    assert!(OtaInvite::parse(b"HOST=h\nPORT=65536\nPATH=/p\nSIZE=1\n").is_none());
    // a later malformed PORT clears the earlier one
    assert!(OtaInvite::parse(b"HOST=h\nPORT=1\nPATH=/p\nSIZE=1\nPORT=x\n").is_none());
    assert!(OtaInvite::parse(&[0xff, 0xfe]).is_none());
    assert!(OtaInvite::parse(b"").is_none());
}

#[test]
fn invite_keeps_last_value_and_skips_long_host() {
    let long_host = "h".repeat(65);
    let text = format!("HOST=first\nHOST={}\nPORT=2\nPORT=3\nPATH=/p\nSIZE=4294967295\n", long_host);
    let inv = OtaInvite::parse(text.as_bytes()).unwrap();
    assert_eq!(inv.host, "first");
    assert_eq!(inv.port, 3);
    assert_eq!(inv.size, u32::MAX);
    let exact = "h".repeat(64);
    let text = format!("HOST={}\nPORT=2\nPATH=/p\nSIZE=1\n", exact);
    assert_eq!(OtaInvite::parse(text.as_bytes()).unwrap().host, exact);
}

#[test]
fn progress_bookkeeping() {
    let mut p = OtaProgress::new(0x10000, 1000);
    assert_eq!(p.progress_percent(), 0);
    assert_eq!(p.write_offset(), 0x10000);
    p.record_written(250);
    assert_eq!(p.bytes_written(), 250);
    assert_eq!(p.total_size(), 1000);
    assert_eq!(p.write_offset(), 0x10000 + 250);
    assert_eq!(p.progress_percent(), 25);
    p.record_written(749);
    assert_eq!(p.progress_percent(), 99);
    p.record_written(1);
    assert_eq!(p.progress_percent(), 100);
    assert_eq!(OtaProgress::new(0, 0).progress_percent(), 0);
    let big = OtaProgress { target_partition_offset: 0, bytes_written: u32::MAX, total_size: u32::MAX };
    assert_eq!(big.progress_percent(), 100);
}

#[test]
fn progress_logging_steps() {
    assert!(!should_log_progress(9, 0));
    assert!(should_log_progress(10, 0));
    assert!(should_log_progress(35, 20));
    assert!(!should_log_progress(29, 20));
}

#[test]
fn slots_alternate() {
    assert_eq!(Slot::Inactive.next(), Slot::Slot0);
    assert_eq!(Slot::Slot0.next(), Slot::Slot1);
    assert_eq!(Slot::Slot1.next(), Slot::Slot0);
    assert_eq!(Slot::Slot0.partition(), AppPartition::Ota0);
    assert_eq!(Slot::Slot1.partition(), AppPartition::Ota1);
    assert_eq!(Slot::Inactive.partition(), AppPartition::Ota0);
}

#[test]
fn marking_images_valid() {
    assert!(should_mark_valid(Slot::Slot0, OtaImageState::New));
    assert!(should_mark_valid(Slot::Slot1, OtaImageState::PendingVerify));
    assert!(!should_mark_valid(Slot::Slot1, OtaImageState::Valid));
    assert!(!should_mark_valid(Slot::Inactive, OtaImageState::New));
    assert!(!should_mark_valid(Slot::Slot0, OtaImageState::Aborted));
}

#[test]
fn patterns_and_headers() {
    let buf = b"abcabd\r\n\r\nbody";
    assert_eq!(find_pattern(buf, buf.len(), b"abd"), Some(3));
    assert_eq!(find_pattern(buf, 5, b"abd"), None);
    assert_eq!(find_pattern(buf, buf.len(), b""), Some(0));
    assert_eq!(body_start(buf, buf.len()), Some(10));
    assert_eq!(body_start(buf, 9), None);
    assert!(invite_complete(b"HOST=a\n\n", 8));
    assert!(invite_complete(b"HOST=a\r\n\r\n", 10));
    assert!(!invite_complete(b"HOST=a\n\n", 7));
    assert!(!invite_complete(b"HOST=a\r\n", 8));
}

#[test]
fn http_status_checks() {
    assert!(http_status_ok(b"HTTP/1.1 200 OK\r\n\r\n"));
    assert!(http_status_ok(b"HTTP/1.0 200 \r\n"));
    assert!(!http_status_ok(b"HTTP/1.1 404 Not Found\r\n\r\n"));
    assert!(!http_status_ok(b"HTTP/2 200 OK\r\n\r\n"));
    assert!(!http_status_ok(b"HTTP/1.1 2000 OK"));
    assert!(!http_status_ok(&[0x48, 0x54, 0xff]));
}

#[test]
fn get_request_text() {
    let req = build_get_request(b"/fw.bin", b"10.0.0.2");
    assert_eq!(req, b"GET /fw.bin HTTP/1.0\r\nHost: 10.0.0.2\r\nConnection: close\r\n\r\n".to_vec());
    let long_path = vec![b'p'; 250];
    let req = build_get_request(&long_path, b"h");
    // the path fits (254 bytes); the next piece does not, the host still does
    assert_eq!(req.len(), 255);
    assert!(req.starts_with(b"GET ppp"));
    assert_eq!(req[254], b'h');
}

#[test]
fn invite_reading_stops_when_complete_or_full() {
    let mut buf = [0u8; 8];
    buf[..6].copy_from_slice(b"A=1\n\nx");
    assert!(!invite_read_done(&buf, 3));
    assert!(invite_read_done(&buf, 5));
    let full = [b'a'; 8];
    assert!(!invite_read_done(&full, 7));
    assert!(invite_read_done(&full, 8));
}

#[test]
fn header_reading_steps() {
    let mut buf = [0u8; 24];
    let resp = b"HTTP/1.0 200 OK\r\n\r\nBODY";
    buf[..resp.len()].copy_from_slice(resp);
    assert_eq!(header_read_step(&buf, 10), HeaderProgress::More);
    assert_eq!(header_read_step(&buf, 19), HeaderProgress::Body(19));
    assert_eq!(header_read_step(&buf, 23), HeaderProgress::Body(19));
    let full = [b'h'; 16];
    assert_eq!(header_read_step(&full, 16), HeaderProgress::Overflow);
    assert_eq!(header_read_step(&full, 15), HeaderProgress::More);
}
