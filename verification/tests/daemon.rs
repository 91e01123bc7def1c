use rdm::common::ipc::{IpcError, IpcMessage};
use rdm::daemon::constants::{DEFAULT_RUN_DIR, IPC_SOCKET_PATH, X_DEFAULT_ARGS};
use rdm::daemon::event_loop::{continues_after, LoopEvent};
use rdm::daemon::ipc::response_to;
use rdm::daemon::seat::Seat;
use rdm::daemon::seatmanager::SeatManager;
use rdm::daemon::server::{
    auth_file_path, display_from_x_output, generate_cookie, new_auth_file_path, x_server_args,
    StartPlan, Xserver,
};
use rdm::greeter::handshake::{handshake_outcome, RdmGreeterError};

#[test]
fn seat_new_keeps_name() {
    let s = Seat::new("seat0");
    assert_eq!(format!("{:?}", s), "Seat { name: \"seat0\" }");
}

#[test]
fn seat_manager_adds_in_order() {
    let mut m = SeatManager::new();
    assert_eq!(format!("{:?}", m), "SeatManager { seats: [] }");
    m.add_seat("seat0");
    m.add_seat("seat1");
    assert_eq!(
        format!("{:?}", m),
        "SeatManager { seats: [Seat { name: \"seat0\" }, Seat { name: \"seat1\" }] }"
    );
}

#[test]
fn daemon_answers_client_hello_with_server_hello() {
    let r = response_to(Some(Ok(IpcMessage::ClientHello)));
    assert!(matches!(r, Ok(Some(IpcMessage::ServerHello))));
}

#[test]
fn daemon_refuses_other_first_messages() {
    assert!(matches!(
        response_to(Some(Ok(IpcMessage::ClientBye))),
        Err(IpcError::UnknownMessageType)
    ));
    assert!(matches!(
        response_to(Some(Ok(IpcMessage::ServerHello))),
        Err(IpcError::UnknownMessageType)
    ));
}

#[test]
fn daemon_passes_on_read_errors_and_hangups() {
    assert!(matches!(response_to(Some(Err(IpcError::WrongMagic))), Err(IpcError::WrongMagic)));
    assert!(matches!(response_to(None), Ok(None)));
}

#[test]
fn greeter_accepts_only_server_hello() {
    assert!(handshake_outcome(Some(Ok(IpcMessage::ServerHello))).is_ok());
    assert!(matches!(
        handshake_outcome(Some(Ok(IpcMessage::ClientHello))),
        Err(RdmGreeterError::FailedHandshake)
    ));
    assert!(matches!(handshake_outcome(None), Err(RdmGreeterError::FailedHandshake)));
    assert!(matches!(
        handshake_outcome(Some(Err(IpcError::HeaderTooShort))),
        Err(RdmGreeterError::Ipc(IpcError::HeaderTooShort))
    ));
}

#[test]
fn handshake_of_daemon_answer_succeeds() {
    let answer = response_to(Some(Ok(IpcMessage::ClientHello))).unwrap().unwrap();
    assert!(handshake_outcome(Some(Ok(answer))).is_ok());
}

#[test]
fn greeter_error_from_conversions() {
    let e: RdmGreeterError = IpcError::WrongMagic.into();
    assert!(matches!(e, RdmGreeterError::Ipc(IpcError::WrongMagic)));
    let e: RdmGreeterError = std::io::Error::new(std::io::ErrorKind::Other, "x").into();
    assert!(matches!(e, RdmGreeterError::Io(_)));
}

#[test]
fn cookie_is_32_lower_hex_digits() {
    let c = generate_cookie();
    assert_eq!(c.len(), 32);
    assert!(c.chars().all(|ch| ch.is_ascii_digit() || ('a'..='f').contains(&ch)));
    // the version nibble of a random UUID
    assert_eq!(c.as_bytes()[12], b'4');
    assert_ne!(generate_cookie(), c);
}

#[test]
fn auth_file_path_is_hyphenated_uuid_in_run_dir() {
    let b: [u8; 16] = [
        0x12, 0x34, 0x56, 0x78, 0x9a, 0xbc, 0x4d, 0xef, 0x8f, 0xed, 0xcb, 0xa9, 0x87, 0x65, 0x43,
        0x21,
    ];
    assert_eq!(auth_file_path(b), "/var/run/rdm/12345678-9abc-4def-8fed-cba987654321");
    let p = new_auth_file_path();
    assert!(p.starts_with(DEFAULT_RUN_DIR));
    assert_eq!(p.len(), DEFAULT_RUN_DIR.len() + 1 + 36);
    assert!(is_auth_file_name(&p));
}

#[test]
fn x_server_args_end_with_display_fd_and_vt() {
    let args = x_server_args(7);
    let mut expected: Vec<String> = X_DEFAULT_ARGS.iter().map(|s| s.to_string()).collect();
    expected.extend(["-displayfd".to_string(), "7".to_string(), "vt01".to_string()]);
    assert_eq!(args, expected);
    assert_eq!(x_server_args(-12)[6], "-12");
}

#[test]
fn display_name_from_x_output() {
    assert_eq!(display_from_x_output("0\n"), ":0");
    assert_eq!(display_from_x_output("1 \t\u{3000}"), ":1");
    assert_eq!(display_from_x_output(""), ":");
}

fn is_auth_file_name(f: &str) -> bool {
    let name = match f.strip_prefix("/var/run/rdm/") {
        Some(n) => n,
        None => return false,
    };
    name.len() == 36
        && name.char_indices().all(|(i, c)| {
            if [8, 13, 18, 23].contains(&i) {
                c == '-'
            } else {
                c.is_ascii_digit() || ('a'..='f').contains(&c)
            }
        })
}

#[test]
fn xserver_new_draws_cookie_and_auth_file() {
    let x = Xserver::new();
    let f = x.auth_file().unwrap();
    assert!(is_auth_file_name(&f), "{}", f);
    let input = x.xauth_input();
    let cookie = input
        .strip_prefix("remove :0\nadd :0 . ")
        .and_then(|r| r.strip_suffix("\nexit\n"))
        .unwrap();
    assert_eq!(cookie.len(), 32);
    assert!(cookie.chars().all(|c| c.is_ascii_digit() || ('a'..='f').contains(&c)));
    assert_ne!(Xserver::new().auth_file(), Some(f));
}

#[test]
fn xserver_start_stop_lifecycle() {
    let mut x = Xserver::with_cookie("abc".to_string());
    let f = x.auth_file().unwrap();
    assert!(is_auth_file_name(&f));
    assert_eq!(x.start(), StartPlan::Launch);
    assert_eq!(x.xauth_args(), vec!["-f".to_string(), f.clone(), "-q".to_string()]);
    assert_eq!(x.xauth_input(), "remove :0\nadd :0 . abc\nexit\n");
    assert_eq!(x.x_started("0\n"), ":0");
    assert_eq!(x.start(), StartPlan::Skip);
    let plan = x.stop();
    assert!(plan.kill_x);
    assert_eq!(plan.remove_auth_file, Some(f));
    assert_eq!(x.auth_file(), None);
    let again = x.stop();
    assert!(!again.kill_x);
    assert!(again.remove_auth_file.is_none());
}

#[test]
fn xserver_stop_before_start_only_removes_file() {
    let mut x = Xserver::with_cookie("c".to_string());
    let f = x.auth_file();
    let plan = x.stop();
    assert!(!plan.kill_x);
    assert_eq!(plan.remove_auth_file, f);
}

#[test]
fn event_loop_continues_only_after_hangup() {
    assert!(continues_after(LoopEvent::Hangup));
    assert!(!continues_after(LoopEvent::BusFinished));
    assert!(!continues_after(LoopEvent::IpcFinished));
    assert!(!continues_after(LoopEvent::Interrupt));
}

#[test]
fn ipc_socket_path_is_in_run_dir() {
    assert_eq!(IPC_SOCKET_PATH, "/var/run/rdm/ipc.socket");
}
