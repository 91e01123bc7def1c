use rdm::standalone::ipc::{greeting_message, handle_message, push_short, read_int, MessageKind};
use rdm::standalone::manager::{hello_reply, is_hello_call, BusAction, BusItem, Manager};
use rdm::standalone::server::{generate_cookie, new_xserver, HEX_CHARS};
use rdm::standalone::ui::{
    after_authentication, background_file, get_theme_path, login_outcome, resolve_theme_path,
    AuthStep, secret_key_submits, theme_file,
    theme_lookup_step, theme_path_of, user_key_moves_focus, xinit_command, LoginOutcome,
    ThemeLookup,
};
use rdm::support::paths::path_push;
use rdm::support::text::str_equal;

#[test]
fn message_kind_from_bytes() {
    assert_eq!(MessageKind::from_bytes(b"RA"), Some(MessageKind::RequestAuthentication));
    assert_eq!(MessageKind::from_bytes(b"PW"), None);
    assert_eq!(MessageKind::from_bytes(b"RAX"), None);
    assert_eq!(MessageKind::from_bytes(b""), None);
    assert_eq!(MessageKind::from_bytes(&[0xff, 0xfe]), None);
}

#[test]
fn handle_message_accepts_request_authentication() {
    assert_eq!(handle_message(b"1wRA\x00\x00\x00\x05"), Ok(()));
}

#[test]
fn handle_message_rejects() {
    assert_eq!(handle_message(b"1wRA"), Err(()));
    assert_eq!(handle_message(b"1wRA\x00\x00\x00\x00\x00"), Err(()));
    assert_eq!(handle_message(b"2wRA\x00\x00\x00\x00"), Err(()));
    assert_eq!(handle_message(b"1wPW\x00\x00\x00\x00"), Err(()));
}

#[test]
fn greeting_is_framed_but_not_a_request() {
    let g = greeting_message();
    assert_eq!(g, b"1wPWHi!?".to_vec());
    assert_eq!(handle_message(&g), Err(()));
}

#[test]
fn push_short_big_endian() {
    let mut v = vec![9u8];
    push_short(&mut v, 0x3177);
    push_short(&mut v, -2);
    assert_eq!(v, vec![9, 0x31, 0x77, 0xff, 0xfe]);
}

#[test]
fn read_int_is_fixed() {
    assert_eq!(read_int(&[1, 2, 3]), 1337);
}

#[test]
fn manager_actions() {
    let m = Manager::new();
    match m.action_for(BusItem::MethodCall { handled: false }) {
        BusAction::ReplyError { name, message } => {
            assert_eq!(name, "org.freedesktop.DBus.Error.Failed");
            assert_eq!(message, "Object path not found");
        }
        _ => panic!("expected an error reply"),
    }
    assert!(matches!(m.action_for(BusItem::MethodCall { handled: true }), BusAction::Handled));
    assert!(matches!(m.action_for(BusItem::Other), BusAction::Ignore));
}

#[test]
fn hello_reply_names_sender() {
    assert_eq!(hello_reply(":1.42"), "Hello :1.42!");
}

#[test]
fn standalone_cookie_chars() {
    let c = generate_cookie();
    assert_eq!(c.chars().count(), 32);
    assert!(c.chars().all(|ch| HEX_CHARS.contains(&ch)));
    assert_eq!(HEX_CHARS.len(), 16);
    assert!(HEX_CHARS.contains(&'d'));
}

#[test]
fn theme_paths() {
    assert_eq!(theme_path_of("default"), "/usr/share/rdm/themes/default");
    assert_eq!(theme_path_of("/abs/theme"), "/abs/theme");
    assert_eq!(theme_file("/t/x"), "/t/x/rdm.theme");
    assert_eq!(theme_file("/t/x/"), "/t/x/rdm.theme");
    assert_eq!(background_file("/t/x"), "/t/x/background.png");
}

#[test]
fn theme_lookup_steps() {
    assert!(matches!(theme_lookup_step("p".to_string(), true, false), ThemeLookup::Found(p) if p == "p"));
    assert!(matches!(theme_lookup_step("p".to_string(), false, false), ThemeLookup::TryDefault));
    assert!(matches!(theme_lookup_step("p".to_string(), false, true), ThemeLookup::Missing));
}

#[test]
fn theme_lookup_falls_back_or_fails() {
    // No theme directory exists here: an absolute directory that does exist is found,
    // a missing one falls back to the (missing) default theme.
    assert_eq!(get_theme_path("/", false), Some("/".to_string()));
    let missing = get_theme_path("no-such-theme-here", false);
    assert!(missing.is_none() || missing == Some("/usr/share/rdm/themes/default".to_string()));
}

#[test]
fn path_push_semantics() {
    let mut p = String::from("/a");
    path_push(&mut p, "b");
    assert_eq!(p, "/a/b");
    path_push(&mut p, "/c");
    assert_eq!(p, "/c");
    let mut q = String::new();
    path_push(&mut q, "x");
    assert_eq!(q, "x");
    let mut r = String::from("y/");
    path_push(&mut r, "");
    assert_eq!(r, "y/");
    let mut s = String::from("y");
    path_push(&mut s, "");
    assert_eq!(s, "y/");
    for (base, p) in [("/a", "b"), ("/a/", "b"), ("", "b"), ("y", ""), ("/a", "/c")] {
        let mut ours = base.to_string();
        path_push(&mut ours, p);
        let mut std_path = std::path::PathBuf::from(base);
        std_path.push(p);
        assert_eq!(ours, std_path.to_str().unwrap());
    }
}

#[test]
fn key_decisions() {
    assert!(user_key_moves_focus(0xFF0D));
    assert!(!user_key_moves_focus(0x61));
    assert!(secret_key_submits(0xFF0D));
    assert!(!secret_key_submits(0));
}

#[test]
fn login_outcomes() {
    assert_eq!(login_outcome(true, true), LoginOutcome::StartSession);
    assert_eq!(login_outcome(true, false), LoginOutcome::ClearSecret);
    assert_eq!(login_outcome(false, true), LoginOutcome::ClearSecret);
}

#[test]
fn xinit_command_text() {
    assert_eq!(xinit_command("/bin/bash"), "exec /bin/bash --login .xinitrc");
}

#[test]
fn resolve_theme_path_cases() {
    let own = Some("/usr/share/rdm/themes/blue".to_string());
    let dflt = Some("/usr/share/rdm/themes/default".to_string());
    assert_eq!(resolve_theme_path("blue", false, true, true), own);
    assert_eq!(resolve_theme_path("blue", false, true, false), own);
    assert_eq!(resolve_theme_path("blue", false, false, true), dflt);
    assert_eq!(resolve_theme_path("blue", false, false, false), None);
    assert_eq!(resolve_theme_path("blue", true, true, false), own);
    assert_eq!(resolve_theme_path("blue", true, false, true), None);
}

#[test]
fn hello_calls() {
    let root = "com/github/mrfloya/RDM";
    assert!(is_hello_call(Some("/"), Some(root), Some("Hello")));
    assert!(!is_hello_call(Some("/x"), Some(root), Some("Hello")));
    assert!(!is_hello_call(Some("/"), Some("other"), Some("Hello")));
    assert!(!is_hello_call(Some("/"), Some(root), Some("Bye")));
    assert!(!is_hello_call(None, Some(root), Some("Hello")));
    assert!(!is_hello_call(Some("/"), None, Some("Hello")));
    assert!(!is_hello_call(Some("/"), Some(root), None));
}

#[test]
fn str_equal_cases() {
    assert!(str_equal("", ""));
    assert!(str_equal("é x", "é x"));
    assert!(!str_equal("ab", "abc"));
    assert!(!str_equal("ab", "ac"));
}

#[test]
fn standalone_xserver_has_hex_cookie_and_auth_file() {
    let x = new_xserver();
    let f = x.auth_file().unwrap();
    assert!(f.starts_with("/var/run/rdm/"));
    assert_eq!(f.len(), "/var/run/rdm/".len() + 36);
    let input = x.xauth_input();
    let cookie = input
        .strip_prefix("remove :0\nadd :0 . ")
        .and_then(|r| r.strip_suffix("\nexit\n"))
        .unwrap();
    assert_eq!(cookie.chars().count(), 32);
    assert!(cookie.chars().all(|c| HEX_CHARS.contains(&c)));
}

#[test]
fn session_opened_only_after_authentication() {
    assert_eq!(after_authentication(true), AuthStep::OpenSession);
    assert_eq!(after_authentication(false), AuthStep::ClearSecret);
}
