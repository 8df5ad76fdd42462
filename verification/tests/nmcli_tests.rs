use awac::network::{NetworkEvent, WifiNetwork};
use awac::nmcli::{
    has_saved_profile, new_connection_args, new_connection_commands, new_connection_event,
    parse_scan_output, profile_list_args, saved_connection_args, saved_connection_event,
    scan_commands,
};

fn expected_display(ssid: &str, signal: &str, bars: &str, secured: bool) -> String {
    let label = if secured { "Secured" } else { "Open" };
    format!("{:<25} Signal: {:>3}%  {}  {}", ssid, signal, bars, label)
}

#[test]
fn scan_listing_gives_networks_in_order() {
    let listing = "HomeNet:80:\u{2582}\u{2584}\u{2586}_:WPA2\nCafe:45:\u{2582}\u{2584}__:\n";
    let nets = parse_scan_output(listing);
    assert_eq!(nets.len(), 2);
    assert_eq!(nets[0].ssid, "HomeNet");
    assert!(nets[0].is_secured);
    assert_eq!(
        nets[0].display_string,
        expected_display("HomeNet", "80", "\u{2582}\u{2584}\u{2586}_", true)
    );
    assert_eq!(
        nets[0].display_string,
        "HomeNet                   Signal:  80%  \u{2582}\u{2584}\u{2586}_  Secured"
    );
    assert_eq!(nets[1].ssid, "Cafe");
    assert!(!nets[1].is_secured);
    assert_eq!(nets[1].display_string, expected_display("Cafe", "45", "\u{2582}\u{2584}__", false));
}

#[test]
fn scan_listing_keeps_first_of_each_ssid() {
    let listing = "Dup:30:__:WPA2\nOther:50:__:WPA1\nDup:90:____:\n";
    let nets = parse_scan_output(listing);
    assert_eq!(nets.len(), 2);
    assert_eq!(nets[0].ssid, "Dup");
    assert!(nets[0].is_secured);
    assert_eq!(nets[0].display_string, expected_display("Dup", "30", "__", true));
    assert_eq!(nets[1].ssid, "Other");
}

#[test]
fn scan_listing_skips_unusable_lines() {
    let listing = "\n   \n:40:__:WPA2\nShort:40:__\n\u{3000}\t\nGood:7:_:--\n";
    let nets = parse_scan_output(listing);
    assert_eq!(nets.len(), 1);
    assert_eq!(nets[0].ssid, "Good");
    assert!(!nets[0].is_secured);
    assert_eq!(nets[0].display_string, expected_display("Good", "7", "_", false));
}

#[test]
fn scan_listing_blank_named_fields_still_count() {
    let nets = parse_scan_output(" \t: : : ");
    assert_eq!(nets.len(), 1);
    assert_eq!(nets[0].ssid, " \t");
    assert!(nets[0].is_secured);
    assert_eq!(nets[0].display_string, expected_display(" \t", " ", " ", true));
}

#[test]
fn scan_listing_empty_gives_nothing() {
    assert!(parse_scan_output("").is_empty());
}

#[test]
fn scan_listing_escaped_colon_is_split() {
    let nets = parse_scan_output("My\\:Net:70:__:WPA2\n");
    assert_eq!(nets.len(), 1);
    assert_eq!(nets[0].ssid, "My\\");
    assert!(nets[0].is_secured);
    assert_eq!(nets[0].display_string, expected_display("My\\", "Net", "70", true));
}

#[test]
fn scan_listing_long_fields_are_not_padded() {
    let ssid = "AVeryLongNetworkNameThatIsLong";
    let listing = format!("{}:100:____:WPA3\r\nLast:5:_:WEP", ssid);
    let nets = parse_scan_output(&listing);
    assert_eq!(nets.len(), 2);
    assert_eq!(nets[0].display_string, expected_display(ssid, "100", "____", true));
    assert_eq!(nets[1].ssid, "Last");
    assert_eq!(nets[1].display_string, expected_display("Last", "5", "_", true));
}

#[test]
fn scan_listing_crlf_line_is_stripped() {
    let nets = parse_scan_output("Net:20:_:\r\n");
    assert_eq!(nets.len(), 1);
    assert_eq!(nets[0].display_string, expected_display("Net", "20", "_", false));
}

#[test]
fn scan_listing_multibyte_ssid_padding_counts_chars() {
    let nets = parse_scan_output("Caf\u{e9}\u{2615}:60:__:WPA2");
    assert_eq!(nets.len(), 1);
    assert_eq!(nets[0].ssid, "Caf\u{e9}\u{2615}");
    assert_eq!(nets[0].display_string, expected_display("Caf\u{e9}\u{2615}", "60", "__", true));
}

#[test]
fn saved_profile_found_after_trimming() {
    let listing = "  HomeNet  \nWork\n";
    assert!(has_saved_profile(listing, "HomeNet"));
    assert!(has_saved_profile(listing, "Work"));
    assert!(!has_saved_profile(listing, "Home"));
    assert!(!has_saved_profile("", "HomeNet"));
}

#[test]
fn saved_profile_blank_name_matches_blank_line() {
    assert!(has_saved_profile("A\n   \nB\n", ""));
    assert!(!has_saved_profile("A\nB\n", ""));
}

#[test]
fn saved_connection_success() {
    let e = saved_connection_event("Net".to_string(), true, "ignored");
    assert_eq!(e, NetworkEvent::ConnectionSuccess("Net".to_string()));
}

#[test]
fn saved_connection_failure_reason_trimmed() {
    let e = saved_connection_event("Net".to_string(), false, "  Error: timeout \n");
    assert_eq!(
        e,
        NetworkEvent::ConnectionFailed { ssid: "Net".to_string(), error: "Error: timeout".to_string() }
    );
}

#[test]
fn saved_connection_failure_without_output() {
    let e = saved_connection_event("Net".to_string(), false, " \n\t");
    assert_eq!(
        e,
        NetworkEvent::ConnectionFailed { ssid: "Net".to_string(), error: "Unknown error".to_string() }
    );
}

#[test]
fn new_connection_failure_keeps_empty_reason() {
    let e = new_connection_event("Net".to_string(), false, "\n");
    assert_eq!(e, NetworkEvent::ConnectionFailed { ssid: "Net".to_string(), error: String::new() });
    let e = new_connection_event("Net".to_string(), false, "\u{3000}bad secrets\u{a0}");
    assert_eq!(
        e,
        NetworkEvent::ConnectionFailed { ssid: "Net".to_string(), error: "bad secrets".to_string() }
    );
    let e = new_connection_event("Net".to_string(), true, "x");
    assert_eq!(e, NetworkEvent::ConnectionSuccess("Net".to_string()));
}

#[test]
fn new_connection_args_for_secured_and_open() {
    assert_eq!(
        new_connection_args("Home", "s3cret", false),
        vec!["--wait", "10", "device", "wifi", "connect", "Home", "password", "s3cret"]
    );
    assert_eq!(
        new_connection_args("Cafe", "ignored", true),
        vec!["--wait", "10", "device", "wifi", "connect", "Cafe"]
    );
}

#[test]
fn network_value_is_plain_data() {
    let n = WifiNetwork { display_string: "d".to_string(), ssid: "s".to_string(), is_secured: true };
    assert_eq!(n.clone(), n);
}

#[test]
fn scan_commands_rescan_first_when_forced() {
    let (first, list) = scan_commands(true);
    assert_eq!(first, Some(vec!["device".to_string(), "wifi".to_string(), "rescan".to_string()]));
    assert_eq!(
        list,
        vec!["-t", "-e", "yes", "-f", "SSID,SIGNAL,BARS,SECURITY", "device", "wifi", "list"]
    );
    let (first, list2) = scan_commands(false);
    assert_eq!(first, None);
    assert_eq!(list2, list);
}

#[test]
fn profile_and_saved_connection_args() {
    assert_eq!(profile_list_args(), vec!["-t", "-f", "NAME", "connection", "show"]);
    assert_eq!(saved_connection_args("Home"), vec!["--wait", "10", "connection", "up", "id", "Home"]);
}

#[test]
fn new_connection_deletes_existing_profile_first() {
    let (first, connect) = new_connection_commands("Home", "pw", false, true);
    assert_eq!(
        first,
        Some(vec![
            "connection".to_string(),
            "delete".to_string(),
            "id".to_string(),
            "Home".to_string()
        ])
    );
    assert_eq!(connect, new_connection_args("Home", "pw", false));
    let (first, connect) = new_connection_commands("Cafe", "", true, false);
    assert_eq!(first, None);
    assert_eq!(connect, vec!["--wait", "10", "device", "wifi", "connect", "Cafe"]);
}
