use pidgeon::device::{
    chunk_bytes, find_device, strip_line_end, submit_line, write_all, write_chunk,
    write_delimited, write_script, PortInfo, CHUNK_LIMIT, DEVICE_ID,
};

#[test]
fn plain_line_ends_with_newline() {
    let mut out = Vec::new();
    write_all(&mut out, b"print(1)");
    assert_eq!(out, b"print(1)\n".to_vec());
}

#[test]
fn delimited_block_is_fenced() {
    let mut out = b"x".to_vec();
    write_delimited(&mut out, b"abc");
    assert_eq!(out, b"x```abc```\n".to_vec());
}

#[test]
fn script_upload_is_framed_without_change() {
    let script = "-- a script\nfunction init()\n  output[1].volts = 3\nend\n";
    let mut out = Vec::new();
    write_script(&mut out, script.as_bytes());
    let mut expected = b"^^s".to_vec();
    expected.extend_from_slice(script.as_bytes());
    expected.extend_from_slice(b"^^e\n");
    assert_eq!(out, expected);
}

#[test]
fn empty_script_upload() {
    let mut out = Vec::new();
    write_script(&mut out, b"");
    assert_eq!(out, b"^^s^^e\n".to_vec());
}

#[test]
fn short_payload_goes_plain() {
    let text = vec![b'a'; CHUNK_LIMIT - 1];
    let mut expected = text.clone();
    expected.push(b'\n');
    assert_eq!(chunk_bytes(&text), expected);
}

#[test]
fn payload_at_threshold_goes_delimited() {
    assert_eq!(CHUNK_LIMIT, 64);
    let text = vec![b'a'; 64];
    let mut expected = b"```".to_vec();
    expected.extend_from_slice(&text);
    expected.extend_from_slice(b"```\n");
    assert_eq!(chunk_bytes(&text), expected);
    let mut out = Vec::new();
    write_chunk(&mut out, &text);
    assert_eq!(out, expected);
}

#[test]
fn forms_are_distinguishable() {
    let short = chunk_bytes(b"x");
    let long = chunk_bytes(&[b'x'; 100]);
    assert!(!short.starts_with(b"```"));
    assert!(long.starts_with(b"```"));
    assert!(long.ends_with(b"```\n"));
}

#[test]
fn line_terminators_are_stripped() {
    assert_eq!(strip_line_end("OK\n"), "OK");
    assert_eq!(strip_line_end("OK\r\n"), "OK");
    assert_eq!(strip_line_end("OK"), "OK");
    assert_eq!(strip_line_end("\n"), "");
    assert_eq!(strip_line_end(""), "");
    assert_eq!(strip_line_end("a\rb\n"), "a\rb");
}

#[test]
fn prompt_exit_writes_nothing() {
    let mut out = Vec::new();
    assert!(!submit_line(&mut out, "exit"));
    assert!(out.is_empty());
}

#[test]
fn prompt_line_is_forwarded() {
    let mut out = Vec::new();
    assert!(submit_line(&mut out, "exit()"));
    assert_eq!(out, b"exit()\n".to_vec());
    let long = "y".repeat(70);
    let mut out = Vec::new();
    assert!(submit_line(&mut out, &long));
    assert_eq!(out, format!("```{long}```\n").into_bytes());
}

#[test]
fn device_port_is_found_by_product() {
    let ports = vec![
        PortInfo { port_name: "/dev/ttyS0".to_string(), product: None },
        PortInfo { port_name: "/dev/ttyACM0".to_string(), product: Some("other".to_string()) },
        PortInfo { port_name: "/dev/ttyACM1".to_string(), product: Some(DEVICE_ID.to_string()) },
        PortInfo { port_name: "/dev/ttyACM2".to_string(), product: Some(DEVICE_ID.to_string()) },
    ];
    assert_eq!(find_device(&ports), Some(2));
    assert_eq!(find_device(&ports[..2].to_vec()), None);
    assert_eq!(find_device(&Vec::new()), None);
}
