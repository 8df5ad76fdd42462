//! Reading what `nmcli` prints and building what it is given: the terse
//! access-point listing, the saved-profile listing, the arguments of a new
//! connection and the event that reports how a connection attempt ended.
use vstd::prelude::*;

use crate::network::{
    network_views, string_views, EventView, NetworkEvent, NetworkView, WifiNetwork,
};
use crate::text::{
    char_vecs, chars_eq, chars_of, lines, lines_of, pad_left, pad_right, push_chars, push_spaces,
    spaces, split_chars, split_on, string_from_chars, trim, trim_chars,
};

verus! {

// ---------------------------------------------------------------------------
// Access-point listing (`nmcli -t -e yes -f SSID,SIGNAL,BARS,SECURITY device wifi list`)
// ---------------------------------------------------------------------------

/// Width that the SSID column is padded to.
pub const SSID_COLUMN_WIDTH: usize = 25;

/// Width that the signal column is padded to.
pub const SIGNAL_COLUMN_WIDTH: usize = 3;

/// A security field marks the network as secured unless it is empty or `--`.
pub open spec fn security_field_secured(security: Seq<char>) -> bool {
    security.len() > 0 && security != "--"@
}

/// The word shown for the security of a network.
pub open spec fn security_label(secured: bool) -> Seq<char> {
    if secured {
        "Secured"@
    } else {
        "Open"@
    }
}

/// The list line for a network: the SSID left-aligned in its column, the
/// signal right-aligned in its column, the bars and the security word.
pub open spec fn display_line(
    ssid: Seq<char>,
    signal: Seq<char>,
    bars: Seq<char>,
    secured: bool,
) -> Seq<char> {
    pad_right(ssid, SSID_COLUMN_WIDTH as nat) + " Signal: "@ + pad_left(
        signal,
        SIGNAL_COLUMN_WIDTH as nat,
    ) + "%  "@ + bars + "  "@ + security_label(secured)
}

/// The network described by the SSID, SIGNAL, BARS and SECURITY fields.
pub open spec fn network_of_fields(
    ssid: Seq<char>,
    signal: Seq<char>,
    bars: Seq<char>,
    security: Seq<char>,
) -> NetworkView {
    let secured = security_field_secured(security);
    NetworkView { display: display_line(ssid, signal, bars, secured), ssid, secured }
}

/// The network that one listing line describes, if any: blank lines and
/// lines that start with `:` describe none, and so do lines with fewer than
/// four `:`-separated fields or an empty first field. An escaped colon `\:`
/// is cut by the split like any other, so the first field is the SSID as
/// it stands.
pub open spec fn scan_line_network(l: Seq<char>) -> Option<NetworkView> {
    if trim(l).len() == 0 || (l.len() > 0 && l[0] == ':') {
        None
    } else {
        let f = split_on(l, ':');
        if f.len() >= 4 && f[0].len() > 0 {
            Some(network_of_fields(f[0], f[1], f[2], f[3]))
        } else {
            None
        }
    }
}

/// Whether some network in `ns` has the SSID `ssid`.
pub open spec fn has_ssid(ns: Seq<NetworkView>, ssid: Seq<char>) -> bool {
    exists|i: int| 0 <= i < ns.len() && (#[trigger] ns[i]).ssid == ssid
}

/// The networks that the lines `ls` describe, in order, each SSID kept at
/// its first appearance only.
pub open spec fn collect_networks(ls: Seq<Seq<char>>) -> Seq<NetworkView>
    decreases ls.len(),
{
    if ls.len() == 0 {
        Seq::<NetworkView>::empty()
    } else {
        let prev = collect_networks(ls.drop_last());
        match scan_line_network(ls.last()) {
            Some(n) => if has_ssid(prev, n.ssid) {
                prev
            } else {
                prev.push(n)
            },
            None => prev,
        }
    }
}

/// The networks that a listing describes.
pub open spec fn scan_networks(listing: Seq<char>) -> Seq<NetworkView> {
    collect_networks(lines(listing))
}

/// The view of an optional network.
pub open spec fn opt_network_view(n: Option<WifiNetwork>) -> Option<NetworkView> {
    match n {
        Some(x) => Some(x@),
        None => None,
    }
}

fn security_secured(security: &[char]) -> (b: bool)
    ensures
        b == security_field_secured(security@),
{
    proof {
        reveal_strlit("--");
    }
    let dashes = security.len() == 2 && security[0] == '-' && security[1] == '-';
    assert("--"@.len() == 2 && "--"@[0] == '-' && "--"@[1] == '-');
    if dashes {
        assert(security@ =~= "--"@);
    } else if security.len() == 2 {
        assert(security@[0] != "--"@[0] || security@[1] != "--"@[1]);
    }
    security.len() > 0 && !dashes
}

fn network_from_fields(ssid: &[char], signal: &[char], bars: &[char], security: &[char]) -> (n:
    WifiNetwork)
    ensures
        n@ == network_of_fields(ssid@, signal@, bars@, security@),
{
    let secured = security_secured(security);
    let mut d = String::new();
    push_chars(&mut d, ssid);
    if ssid.len() < SSID_COLUMN_WIDTH {
        push_spaces(&mut d, SSID_COLUMN_WIDTH - ssid.len());
    } else {
        assert(spaces(SSID_COLUMN_WIDTH - ssid@.len()) =~= Seq::<char>::empty());
    }
    assert(d@ =~= pad_right(ssid@, SSID_COLUMN_WIDTH as nat));
    d.append(" Signal: ");
    let ghost before_signal = d@;
    if signal.len() < SIGNAL_COLUMN_WIDTH {
        push_spaces(&mut d, SIGNAL_COLUMN_WIDTH - signal.len());
    } else {
        assert(spaces(SIGNAL_COLUMN_WIDTH - signal@.len()) =~= Seq::<char>::empty());
    }
    push_chars(&mut d, signal);
    assert(d@ =~= before_signal + pad_left(signal@, SIGNAL_COLUMN_WIDTH as nat));
    d.append("%  ");
    push_chars(&mut d, bars);
    d.append("  ");
    if secured {
        d.append("Secured");
    } else {
        d.append("Open");
    }
    assert(d@ =~= display_line(ssid@, signal@, bars@, secured));
    WifiNetwork { display_string: d, ssid: string_from_chars(ssid), is_secured: secured }
}

/// The network that the listing line `l` describes, if any.
fn parse_scan_line(l: &[char]) -> (r: Option<WifiNetwork>)
    ensures
        opt_network_view(r) == scan_line_network(l@),
{
    let t = trim_chars(l);
    if t.len() == 0 || (l.len() > 0 && l[0] == ':') {
        return None;
    }
    let f = split_chars(l, ':');
    let ghost fs = split_on(l@, ':');
    assert(f@.len() == fs.len());
    if f.len() >= 4 && f[0].len() > 0 {
        assert(f@[0]@ == fs[0] && f@[1]@ == fs[1] && f@[2]@ == fs[2] && f@[3]@ == fs[3]);
        Some(
            network_from_fields(
                f[0].as_slice(),
                f[1].as_slice(),
                f[2].as_slice(),
                f[3].as_slice(),
            ),
        )
    } else {
        assert(f@.len() >= 4 ==> f@[0]@ == fs[0]);
        None
    }
}

/// Whether some network in `nets` has the SSID `ssid`.
fn contains_ssid(nets: &Vec<WifiNetwork>, ssid: &String) -> (b: bool)
    ensures
        b == has_ssid(network_views(nets@), ssid@),
{
    let mut i: usize = 0;
    while i < nets.len()
        invariant
            i <= nets@.len(),
            forall|k: int| 0 <= k < i ==> nets@[k].ssid@ != ssid@,
        decreases nets@.len() - i,
    {
        if nets[i].ssid == *ssid {
            assert(network_views(nets@)[i as int].ssid == ssid@);
            return true;
        }
        i = i + 1;
    }
    assert forall|k: int| 0 <= k < network_views(nets@).len() implies (#[trigger] network_views(
        nets@,
    )[k]).ssid != ssid@ by {
        assert(network_views(nets@)[k] == nets@[k]@);
    }
    false
}

/// The networks that an `nmcli` access-point listing describes, in the
/// order they are listed, each SSID kept at its first appearance only.
pub fn parse_scan_output(listing: &str) -> (nets: Vec<WifiNetwork>)
    ensures
        network_views(nets@) == scan_networks(listing@),
{
    let cs = chars_of(listing);
    let ls = lines_of(cs.as_slice());
    let ghost lv = char_vecs(ls@);
    let mut nets: Vec<WifiNetwork> = Vec::new();
    let mut i: usize = 0;
    assert(lv.take(0) =~= Seq::<Seq<char>>::empty());
    while i < ls.len()
        invariant
            i <= ls@.len() == lv.len(),
            lv == char_vecs(ls@),
            network_views(nets@) == collect_networks(lv.take(i as int)),
        decreases ls@.len() - i,
    {
        let ghost prev = nets@;
        assert(lv.take(i + 1).drop_last() =~= lv.take(i as int));
        assert(lv.take(i + 1).last() == ls@[i as int]@);
        match parse_scan_line(ls[i].as_slice()) {
            Some(n) => {
                if !contains_ssid(&nets, &n.ssid) {
                    nets.push(n);
                    assert(network_views(nets@) =~= network_views(prev).push(n@));
                }
            },
            None => {},
        }
        i = i + 1;
    }
    assert(lv.take(ls@.len() as int) =~= lv);
    nets
}

/// The arguments that list the access points in terse form, with escaping,
/// giving the SSID, SIGNAL, BARS and SECURITY fields.
pub open spec fn scan_list_arg_list() -> Seq<Seq<char>> {
    seq!["-t"@, "-e"@, "yes"@, "-f"@, "SSID,SIGNAL,BARS,SECURITY"@, "device"@, "wifi"@, "list"@]
}

/// The arguments that ask the hardware for a fresh scan.
pub open spec fn rescan_arg_list() -> Seq<Seq<char>> {
    seq!["device"@, "wifi"@, "rescan"@]
}

/// The view of an optional argument list.
pub open spec fn opt_args_view(a: Option<Vec<String>>) -> Option<Seq<Seq<char>>> {
    match a {
        Some(v) => Some(string_views(v@)),
        None => None,
    }
}

/// The commands of a scan: a hardware rescan first when asked for (whose
/// outcome does not matter), then the listing whose output is read.
pub fn scan_commands(force_hardware_rescan: bool) -> (r: (Option<Vec<String>>, Vec<String>))
    ensures
        opt_args_view(r.0) == (if force_hardware_rescan {
            Some(rescan_arg_list())
        } else {
            None
        }),
        string_views(r.1@) == scan_list_arg_list(),
{
    let first = if force_hardware_rescan {
        let mut rescan: Vec<String> = Vec::new();
        rescan.push(String::from_str("device"));
        rescan.push(String::from_str("wifi"));
        rescan.push(String::from_str("rescan"));
        assert(string_views(rescan@) =~= rescan_arg_list());
        Some(rescan)
    } else {
        None
    };
    let mut list: Vec<String> = Vec::new();
    list.push(String::from_str("-t"));
    list.push(String::from_str("-e"));
    list.push(String::from_str("yes"));
    list.push(String::from_str("-f"));
    list.push(String::from_str("SSID,SIGNAL,BARS,SECURITY"));
    list.push(String::from_str("device"));
    list.push(String::from_str("wifi"));
    list.push(String::from_str("list"));
    assert(string_views(list@) =~= scan_list_arg_list());
    (first, list)
}

// ---------------------------------------------------------------------------
// Saved-profile listing (`nmcli -t -f NAME connection show`)
// ---------------------------------------------------------------------------

/// The arguments that list the names of the saved profiles, one per line.
pub open spec fn profile_list_arg_list() -> Seq<Seq<char>> {
    seq!["-t"@, "-f"@, "NAME"@, "connection"@, "show"@]
}

/// The `nmcli` arguments that list the saved profile names.
pub fn profile_list_args() -> (args: Vec<String>)
    ensures
        string_views(args@) == profile_list_arg_list(),
{
    let mut args: Vec<String> = Vec::new();
    args.push(String::from_str("-t"));
    args.push(String::from_str("-f"));
    args.push(String::from_str("NAME"));
    args.push(String::from_str("connection"));
    args.push(String::from_str("show"));
    assert(string_views(args@) =~= profile_list_arg_list());
    args
}

/// Whether some line of the profile listing, trimmed, is the SSID.
pub open spec fn saved_profile_listed(listing: Seq<char>, ssid: Seq<char>) -> bool {
    exists|i: int| 0 <= i < lines(listing).len() && trim(#[trigger] lines(listing)[i]) == ssid
}

/// Whether the profile listing names a saved profile for `ssid`.
pub fn has_saved_profile(listing: &str, ssid: &str) -> (b: bool)
    ensures
        b == saved_profile_listed(listing@, ssid@),
{
    let cs = chars_of(listing);
    let want = chars_of(ssid);
    let ls = lines_of(cs.as_slice());
    let ghost lv = lines(listing@);
    let mut i: usize = 0;
    while i < ls.len()
        invariant
            i <= ls@.len() == lv.len(),
            lv == char_vecs(ls@),
            lv == lines(listing@),
            want@ == ssid@,
            forall|k: int| 0 <= k < i ==> trim(#[trigger] lv[k]) != ssid@,
        decreases ls@.len() - i,
    {
        assert(ls@[i as int]@ == lv[i as int]);
        let t = trim_chars(ls[i].as_slice());
        if chars_eq(t.as_slice(), want.as_slice()) {
            assert(trim(lines(listing@)[i as int]) == ssid@);
            return true;
        }
        i = i + 1;
    }
    false
}

// ---------------------------------------------------------------------------
// Connecting
// ---------------------------------------------------------------------------

/// The arguments that create and bring up a connection to `ssid`; a
/// secured network also gets its password.
pub open spec fn new_connection_arg_list(
    ssid: Seq<char>,
    password: Seq<char>,
    is_open_network: bool,
) -> Seq<Seq<char>> {
    let base = seq!["--wait"@, "10"@, "device"@, "wifi"@, "connect"@, ssid];
    if is_open_network {
        base
    } else {
        base + seq!["password"@, password]
    }
}

/// The `nmcli` arguments that connect to a network without a profile.
pub fn new_connection_args(ssid: &str, password: &str, is_open_network: bool) -> (args: Vec<
    String,
>)
    ensures
        string_views(args@) == new_connection_arg_list(ssid@, password@, is_open_network),
{
    let mut args: Vec<String> = Vec::new();
    args.push(String::from_str("--wait"));
    args.push(String::from_str("10"));
    args.push(String::from_str("device"));
    args.push(String::from_str("wifi"));
    args.push(String::from_str("connect"));
    args.push(String::from_str(ssid));
    if !is_open_network {
        args.push(String::from_str("password"));
        args.push(String::from_str(password));
    }
    assert(string_views(args@) =~= new_connection_arg_list(ssid@, password@, is_open_network));
    args
}

/// The arguments that bring up the saved profile named `ssid`, waiting at
/// most ten seconds.
pub open spec fn saved_connection_arg_list(ssid: Seq<char>) -> Seq<Seq<char>> {
    seq!["--wait"@, "10"@, "connection"@, "up"@, "id"@, ssid]
}

/// The `nmcli` arguments that bring up the saved profile of `ssid`.
pub fn saved_connection_args(ssid: &str) -> (args: Vec<String>)
    ensures
        string_views(args@) == saved_connection_arg_list(ssid@),
{
    let mut args: Vec<String> = Vec::new();
    args.push(String::from_str("--wait"));
    args.push(String::from_str("10"));
    args.push(String::from_str("connection"));
    args.push(String::from_str("up"));
    args.push(String::from_str("id"));
    args.push(String::from_str(ssid));
    assert(string_views(args@) =~= saved_connection_arg_list(ssid@));
    args
}

/// The arguments that delete the profile named `ssid`.
pub open spec fn delete_profile_arg_list(ssid: Seq<char>) -> Seq<Seq<char>> {
    seq!["connection"@, "delete"@, "id"@, ssid]
}

/// The commands of a connection to a network without a usable profile: an
/// existing profile of that name is deleted first (whose outcome does not
/// matter), so that none of its old settings linger; then the connection
/// is created and brought up.
pub fn new_connection_commands(
    ssid: &str,
    password: &str,
    is_open_network: bool,
    already_has_profile: bool,
) -> (r: (Option<Vec<String>>, Vec<String>))
    ensures
        opt_args_view(r.0) == (if already_has_profile {
            Some(delete_profile_arg_list(ssid@))
        } else {
            None
        }),
        string_views(r.1@) == new_connection_arg_list(ssid@, password@, is_open_network),
{
    let first = if already_has_profile {
        let mut delete: Vec<String> = Vec::new();
        delete.push(String::from_str("connection"));
        delete.push(String::from_str("delete"));
        delete.push(String::from_str("id"));
        delete.push(String::from_str(ssid));
        assert(string_views(delete@) =~= delete_profile_arg_list(ssid@));
        Some(delete)
    } else {
        None
    };
    (first, new_connection_args(ssid, password, is_open_network))
}

/// The reason given for a failed attempt on a saved profile: the trimmed
/// error output, or `Unknown error` when that is empty.
pub open spec fn saved_failure_reason(stderr: Seq<char>) -> Seq<char> {
    if trim(stderr).len() == 0 {
        "Unknown error"@
    } else {
        trim(stderr)
    }
}

/// The event that reports an attempt to bring up the saved profile `ssid`
/// whose command ran: success when it exited successfully, else a failure
/// with the reason taken from its error output.
pub fn saved_connection_event(ssid: String, succeeded: bool, stderr: &str) -> (e: NetworkEvent)
    ensures
        e@ == (if succeeded {
            EventView::ConnectionSuccess(ssid@)
        } else {
            EventView::ConnectionFailed { ssid: ssid@, error: saved_failure_reason(stderr@) }
        }),
{
    if succeeded {
        NetworkEvent::ConnectionSuccess(ssid)
    } else {
        let cs = chars_of(stderr);
        let t = trim_chars(cs.as_slice());
        let error = if t.len() == 0 {
            String::from_str("Unknown error")
        } else {
            string_from_chars(t.as_slice())
        };
        NetworkEvent::ConnectionFailed { ssid, error }
    }
}

/// The event that reports an attempt to connect to a network without a
/// profile whose command ran: success when it exited successfully, else a
/// failure with the trimmed error output as the reason.
pub fn new_connection_event(ssid: String, succeeded: bool, stderr: &str) -> (e: NetworkEvent)
    ensures
        e@ == (if succeeded {
            EventView::ConnectionSuccess(ssid@)
        } else {
            EventView::ConnectionFailed { ssid: ssid@, error: trim(stderr@) }
        }),
{
    if succeeded {
        NetworkEvent::ConnectionSuccess(ssid)
    } else {
        let cs = chars_of(stderr);
        let t = trim_chars(cs.as_slice());
        NetworkEvent::ConnectionFailed { ssid, error: string_from_chars(t.as_slice()) }
    }
}

} // verus!
