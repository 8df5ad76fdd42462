use awac::app::{Command, InputMode, Key, KeyPress, NetworkManagerApp, LOG_CAPACITY};
use awac::network::{NetworkEvent, WifiNetwork};

fn press(key: Key) -> KeyPress {
    KeyPress { key, is_release: false }
}

fn net(ssid: &str, secured: bool) -> WifiNetwork {
    WifiNetwork { display_string: format!("line for {}", ssid), ssid: ssid.to_string(), is_secured: secured }
}

/// A started application whose first scan found the given networks.
fn scanned(nets: Vec<WifiNetwork>) -> NetworkManagerApp {
    let (mut app, _) = NetworkManagerApp::new();
    let c = app.handle_event(NetworkEvent::ScanComplete(nets));
    assert_eq!(c, Command::Continue);
    app
}

#[test]
fn startup_requests_first_scan() {
    let (app, c) = NetworkManagerApp::new();
    assert_eq!(c, Command::Scan { force_hardware_rescan: false });
    assert!(app.is_busy());
    assert_eq!(app.logs(), ["Initializing Network Manager...", "Fetching available networks..."]);
    assert_eq!(app.input_mode(), InputMode::Normal);
    assert_eq!(app.selected(), None);
    assert!(app.networks().is_empty());
    assert_eq!(app.password_input(), "");
    assert_eq!(app.target_ssid(), "");
}

#[test]
fn scan_refused_while_busy() {
    let (mut app, _) = NetworkManagerApp::new();
    let c = app.scan_networks(true);
    assert_eq!(c, Command::Continue);
    assert_eq!(
        app.logs().last().unwrap(),
        "[WARN] An operation is already in progress. Please wait."
    );
    assert!(app.is_busy());
}

#[test]
fn scan_complete_selects_first_and_frees_backend() {
    let app = scanned(vec![net("A", true), net("B", false)]);
    assert!(!app.is_busy());
    assert_eq!(app.selected(), Some(0));
    assert_eq!(app.networks().len(), 2);
    assert_eq!(app.logs().last().unwrap(), "Scan complete. Found 2 networks.");
}

#[test]
fn scan_complete_empty_keeps_no_selection() {
    let app = scanned(vec![]);
    assert_eq!(app.selected(), None);
    assert_eq!(app.logs().last().unwrap(), "Scan complete. Found 0 networks.");
}

#[test]
fn scan_complete_keeps_existing_selection() {
    let mut app = scanned((0..12).map(|i| net(&format!("N{}", i), true)).collect());
    for _ in 0..7 {
        app.handle_key(press(Key::Down));
    }
    assert_eq!(app.selected(), Some(7));
    let c = app.scan_networks(false);
    assert_eq!(c, Command::Scan { force_hardware_rescan: false });
    app.handle_event(NetworkEvent::ScanComplete((0..12).map(|i| net(&format!("M{}", i), false)).collect()));
    assert_eq!(app.selected(), Some(7));
    assert_eq!(app.logs().last().unwrap(), "Scan complete. Found 12 networks.");
}

#[test]
fn scan_failure_is_logged() {
    let (mut app, _) = NetworkManagerApp::new();
    assert_eq!(app.handle_event(NetworkEvent::ScanFailed), Command::Continue);
    assert!(!app.is_busy());
    assert_eq!(
        app.logs().last().unwrap(),
        "[ERROR] Failed to query local NetworkManager backend interface."
    );
}

#[test]
fn rescan_key_requests_hardware_rescan() {
    let mut app = scanned(vec![net("A", true)]);
    let c = app.handle_key(press(Key::Char('r')));
    assert_eq!(c, Command::Scan { force_hardware_rescan: true });
    assert!(app.is_busy());
    assert_eq!(app.logs().last().unwrap(), "Requesting hardware Wi-Fi rescan...");
}

#[test]
fn quit_key_quits_only_in_list() {
    let mut app = scanned(vec![net("A", true)]);
    assert_eq!(app.handle_key(press(Key::Char('q'))), Command::Quit);
    app.handle_key(press(Key::Char('e')));
    assert_eq!(app.input_mode(), InputMode::Editing);
    assert_eq!(app.handle_key(press(Key::Char('q'))), Command::Continue);
    assert_eq!(app.password_input(), "q");
}

#[test]
fn navigation_moves_within_list() {
    let mut app = scanned(vec![net("A", true), net("B", true), net("C", true)]);
    app.handle_key(press(Key::Up));
    assert_eq!(app.selected(), Some(0));
    app.handle_key(press(Key::Down));
    assert_eq!(app.selected(), Some(1));
    app.handle_key(press(Key::Char('j')));
    assert_eq!(app.selected(), Some(2));
    app.handle_key(press(Key::Down));
    assert_eq!(app.selected(), Some(2));
    app.handle_key(press(Key::Char('k')));
    assert_eq!(app.selected(), Some(1));
}

#[test]
fn release_events_are_ignored() {
    let mut app = scanned(vec![net("A", true), net("B", true)]);
    let c = app.handle_key(KeyPress { key: Key::Down, is_release: true });
    assert_eq!(c, Command::Continue);
    assert_eq!(app.selected(), Some(0));
}

#[test]
fn edit_key_opens_password_for_secured_only() {
    let mut app = scanned(vec![net("Open", false), net("Locked", true)]);
    app.handle_key(press(Key::Char('e')));
    assert_eq!(app.input_mode(), InputMode::Normal);
    app.handle_key(press(Key::Down));
    app.handle_key(press(Key::Char('e')));
    assert_eq!(app.input_mode(), InputMode::Editing);
    assert_eq!(app.target_ssid(), "Locked");
    assert_eq!(app.logs().last().unwrap(), "Updating password for Locked...");
}

#[test]
fn enter_asks_about_saved_profile() {
    let mut app = scanned(vec![net("Locked", true)]);
    let c = app.handle_key(press(Key::Enter));
    assert_eq!(c, Command::CheckProfile { ssid: "Locked".to_string(), is_secured: true });
}

#[test]
fn enter_on_nameless_network_does_nothing() {
    let mut app = scanned(vec![net("", true)]);
    assert_eq!(app.handle_key(press(Key::Enter)), Command::Continue);
}

#[test]
fn saved_profile_connects_at_once() {
    let mut app = scanned(vec![net("Home", true)]);
    let c = app.choose_connection("Home".to_string(), true, true);
    assert_eq!(c, Command::ConnectSaved { ssid: "Home".to_string() });
    assert!(app.is_busy());
    assert_eq!(app.target_ssid(), "Home");
    assert_eq!(app.logs().last().unwrap(), "Connecting to Home...");
}

#[test]
fn saved_profile_ignored_while_busy() {
    let (mut app, _) = NetworkManagerApp::new();
    let before = app.logs().len();
    let c = app.choose_connection("Home".to_string(), true, true);
    assert_eq!(c, Command::Continue);
    assert_eq!(app.logs().len(), before);
    assert_eq!(app.target_ssid(), "");
}

#[test]
fn open_network_without_profile_connects_at_once() {
    let mut app = scanned(vec![net("Cafe", false)]);
    let c = app.choose_connection("Cafe".to_string(), false, false);
    assert_eq!(
        c,
        Command::ConnectNew { ssid: "Cafe".to_string(), password: String::new(), is_open_network: true }
    );
    assert_eq!(app.logs().last().unwrap(), "Connecting to unsecure network Cafe...");
}

#[test]
fn secured_network_without_profile_asks_password_then_connects() {
    let mut app = scanned(vec![net("Home", true)]);
    let c = app.choose_connection("Home".to_string(), true, false);
    assert_eq!(c, Command::Continue);
    assert_eq!(app.input_mode(), InputMode::Editing);
    for ch in "pw1x".chars() {
        app.handle_key(press(Key::Char(ch)));
    }
    app.handle_key(press(Key::Backspace));
    assert_eq!(app.password_input(), "pw1");
    let c = app.handle_key(press(Key::Enter));
    assert_eq!(
        c,
        Command::ConnectNew {
            ssid: "Home".to_string(),
            password: "pw1".to_string(),
            is_open_network: false
        }
    );
    assert_eq!(app.input_mode(), InputMode::Normal);
    assert_eq!(app.password_input(), "");
    assert!(app.is_busy());
    assert_eq!(app.logs().last().unwrap(), "Connecting to Home...");
}

#[test]
fn empty_password_is_refused() {
    let mut app = scanned(vec![net("Home", true)]);
    app.choose_connection("Home".to_string(), true, false);
    app.handle_key(press(Key::Backspace));
    let c = app.handle_key(press(Key::Enter));
    assert_eq!(c, Command::Continue);
    assert_eq!(app.input_mode(), InputMode::Editing);
    assert_eq!(
        app.logs().last().unwrap(),
        "[ERROR] Password field cannot be empty for secured networks."
    );
}

#[test]
fn password_submit_refused_while_busy() {
    let mut app = scanned(vec![net("Home", true)]);
    app.choose_connection("Home".to_string(), true, false);
    app.handle_key(press(Key::Char('x')));
    app.scan_networks(false);
    let c = app.handle_key(press(Key::Enter));
    assert_eq!(c, Command::Continue);
    assert_eq!(app.password_input(), "x");
    assert_eq!(
        app.logs().last().unwrap(),
        "[WARN] Backend busy! Dropping connection request. Try again in a moment."
    );
}

#[test]
fn escape_cancels_password_entry() {
    let mut app = scanned(vec![net("Home", true)]);
    app.choose_connection("Home".to_string(), true, false);
    app.handle_key(press(Key::Char('a')));
    let c = app.handle_key(press(Key::Esc));
    assert_eq!(c, Command::Continue);
    assert_eq!(app.input_mode(), InputMode::Normal);
    assert_eq!(app.password_input(), "");
    assert_eq!(app.logs().last().unwrap(), "Password entry cancelled.");
}

#[test]
fn connection_success_is_logged() {
    let mut app = scanned(vec![net("Home", true)]);
    app.choose_connection("Home".to_string(), true, true);
    let c = app.handle_event(NetworkEvent::ConnectionSuccess("Home".to_string()));
    assert_eq!(c, Command::Continue);
    assert!(!app.is_busy());
    assert_eq!(app.logs().last().unwrap(), "[SUCCESS] Connected to Home.");
}

#[test]
fn connection_failure_is_logged_and_reported() {
    let mut app = scanned(vec![net("Home", true)]);
    let n = app.logs().len();
    let c = app.handle_event(NetworkEvent::ConnectionFailed {
        ssid: "Home".to_string(),
        error: "Secrets were required".to_string(),
    });
    assert_eq!(
        c,
        Command::RecordFailure {
            report: "--- Connection Failure ---\nSSID: Home\nError: Secrets were required\n"
                .to_string()
        }
    );
    assert_eq!(app.logs().len(), n + 2);
    assert_eq!(app.logs()[n], "[FAIL] Could not connect to Home.");
    assert_eq!(app.logs()[n + 1], " -> Error details written to /tmp/awac_errors.log");
}

#[test]
fn console_keeps_newest_lines() {
    let (mut app, _) = NetworkManagerApp::new();
    for i in 0..150 {
        app.log_message(&format!("line {}", i));
    }
    assert_eq!(app.logs().len(), LOG_CAPACITY);
    assert_eq!(app.logs()[0], "line 50");
    assert_eq!(app.logs().last().unwrap(), "line 149");
}

#[test]
fn console_grows_until_full() {
    let (mut app, _) = NetworkManagerApp::new();
    app.log_message("one");
    assert_eq!(app.logs().len(), 3);
    assert_eq!(app.logs()[0], "Initializing Network Manager...");
    assert_eq!(app.logs()[2], "one");
}

#[test]
fn drawing_settles_stale_selection() {
    let mut app = scanned(vec![net("A", true), net("B", true), net("C", true)]);
    app.handle_key(press(Key::Down));
    app.handle_key(press(Key::Down));
    assert_eq!(app.selected(), Some(2));
    app.scan_networks(false);
    app.handle_event(NetworkEvent::ScanComplete(vec![net("Z", false)]));
    assert_eq!(app.selected(), Some(2));
    app.settle_selection(true);
    assert_eq!(app.selected(), Some(2));
    app.settle_selection(false);
    assert_eq!(app.selected(), Some(0));
    assert_eq!(app.handle_key(press(Key::Enter)), Command::CheckProfile {
        ssid: "Z".to_string(),
        is_secured: false,
    });
}

#[test]
fn drawing_empty_list_clears_selection() {
    let mut app = scanned(vec![net("A", true)]);
    app.scan_networks(false);
    app.handle_event(NetworkEvent::ScanComplete(vec![]));
    assert_eq!(app.selected(), Some(0));
    app.settle_selection(false);
    assert_eq!(app.selected(), None);
    assert_eq!(app.handle_key(press(Key::Down)), Command::Continue);
    assert_eq!(app.handle_key(press(Key::Enter)), Command::Continue);
    assert_eq!(app.selected(), None);
}

#[test]
fn drawing_keeps_selection_in_range() {
    let mut app = scanned(vec![net("A", true), net("B", true)]);
    app.handle_key(press(Key::Down));
    app.settle_selection(false);
    assert_eq!(app.selected(), Some(1));
}
