use blockwork::protocol::{
    line_step, ozone_platform_arg, parse_ozone_platform, DaemonMessage, DaemonMessageKind, LineStep,
    MAX_MESSAGE_BYTES,
};

fn args(list: &[&str]) -> Vec<String> {
    list.iter().map(|s| s.to_string()).collect()
}

#[test]
fn replies_carry_either_data_or_error() {
    let ok = DaemonMessage::reply(3, Ok("\"abc\"".to_string()));
    assert_eq!(ok.kind, DaemonMessageKind::Reply);
    assert_eq!(ok.id, Some(3));
    assert_eq!(ok.data.as_deref(), Some("\"abc\""));
    assert_eq!(ok.error, None);

    let err = DaemonMessage::reply(4, Err("nope".into()));
    assert_eq!((err.id, err.data.as_deref(), err.error.as_deref()), (Some(4), None, Some("nope")));
}

#[test]
fn state_payload_is_forwarded_verbatim() {
    let raw = r#"{"page":"Main","macro_strs":["a\nb"]}"#.to_string();
    let message = DaemonMessage::state(raw.clone());
    assert_eq!(message.kind, DaemonMessageKind::State);
    assert_eq!(message.payload.as_deref(), Some(raw.as_str()));
}

#[test]
fn hello_reports_acceptance() {
    assert_eq!(DaemonMessage::hello(false).accepted, Some(false));
    assert_eq!(DaemonMessage::hello(true).accepted, Some(true));
    assert_eq!(DaemonMessage::focus().kind, DaemonMessageKind::Focus);
    assert_eq!(DaemonMessage::quit().kind, DaemonMessageKind::Quit);
}

#[test]
fn ozone_platform_is_read_in_both_spellings() {
    assert_eq!(parse_ozone_platform(args(&["--ozone-platform=x11"])), Some("x11".to_string()));
    assert_eq!(parse_ozone_platform(args(&["--ozone-platform", "wayland"])), Some("wayland".to_string()));
    assert_eq!(parse_ozone_platform(args(&["--ozone-platform", "--other"])), None);
    assert_eq!(parse_ozone_platform(args(&["--ozone-platform="])), None);
    assert_eq!(parse_ozone_platform(args(&["--ozone-platform"])), None);
    assert_eq!(parse_ozone_platform(args(&[])), None);
}

#[test]
fn last_ozone_platform_switch_wins() {
    assert_eq!(
        parse_ozone_platform(args(&["--ozone-platform=x11", "a", "--ozone-platform", "wayland"])),
        Some("wayland".to_string())
    );
    assert_eq!(
        parse_ozone_platform(args(&["--ozone-platform", "wayland", "--ozone-platform=x11"])),
        Some("x11".to_string())
    );
    assert_eq!(
        parse_ozone_platform(args(&["--ozone-platform=x11", "--ozone-platform="])),
        Some("x11".to_string())
    );
}

#[test]
fn ozone_platform_arg_reads_back() {
    assert_eq!(ozone_platform_arg("x11"), "--ozone-platform=x11");
    assert_eq!(parse_ozone_platform(vec![ozone_platform_arg("x11")]), Some("x11".to_string()));
}

/// Reads one line from `input` the way the socket reader does, buffer by
/// buffer.
fn read_line(input: &mut &[u8], chunk: usize) -> Result<Option<Vec<u8>>, LineStep> {
    let mut line = Vec::new();
    loop {
        let available = &input[..input.len().min(chunk)];
        match line_step(&mut line, available) {
            LineStep::End => return Ok(None),
            LineStep::Partial { consumed } => *input = &input[consumed..],
            LineStep::Complete { consumed } => {
                *input = &input[consumed..];
                return Ok(Some(line));
            }
            other => return Err(other),
        }
    }
}

#[test]
fn rejects_oversized_and_partial_messages() {
    let big = vec![b'x'; MAX_MESSAGE_BYTES + 1];
    assert_eq!(read_line(&mut big.as_slice(), 4096), Err(LineStep::TooLarge));
    assert_eq!(read_line(&mut &b"partial"[..], 3), Err(LineStep::Incomplete));
    assert_eq!(read_line(&mut &b""[..], 3), Ok(None));
}

#[test]
fn preserves_message_boundaries() {
    let mut input = &b"one\ntwo\n"[..];
    assert_eq!(read_line(&mut input, 64), Ok(Some(b"one\n".to_vec())));
    assert_eq!(read_line(&mut input, 2), Ok(Some(b"two\n".to_vec())));
    assert_eq!(read_line(&mut input, 2), Ok(None));
}

#[test]
fn a_line_exactly_at_the_limit_is_accepted() {
    let mut msg = vec![b'x'; MAX_MESSAGE_BYTES - 1];
    msg.push(b'\n');
    let mut input = msg.as_slice();
    assert_eq!(read_line(&mut input, 1 << 20).map(|l| l.map(|l| l.len())), Ok(Some(MAX_MESSAGE_BYTES)));
}

#[test]
fn protocol_errors_carry_their_message() {
    let e = blockwork::protocol::protocol_error("daemon closed the connection");
    assert_eq!(e.kind(), std::io::ErrorKind::Other);
    assert_eq!(e.to_string(), "daemon closed the connection");
}
