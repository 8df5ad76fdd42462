//! Properties of the application that span its transitions and functions.
use vstd::prelude::*;

use crate::app::{
    append_log, connection_choice_step, event_step, initial_view, key_step, scan_request_step,
    AppView, CommandView, Key, KeyPress, LOG_CAPACITY, key_press_faults, selection_settled,
};
use crate::network::EventView;
use crate::nmcli::{
    collect_networks, has_ssid, new_connection_arg_list, saved_profile_listed, scan_line_network,
    scan_networks,
};
use crate::screen::{password_prompt_text, scroll_offset};
use crate::text::{lemma_split_on_nonempty, lemma_split_on_pieces_free, lines, split_on, trim};

verus! {

/// Whether a command starts a background job.
pub open spec fn starts_job(c: CommandView) -> bool {
    ||| c is Scan
    ||| c is ConnectSaved
    ||| c is ConnectNew
}

/// A state in which the password field can only hold text while it is
/// being typed into.
pub open spec fn password_only_while_editing(v: AppView) -> bool {
    v.mode is Normal ==> v.password.len() == 0
}

/// One background job at a time: a key press starts a job only when none
/// runs, and the application is busy afterwards.
pub proof fn lemma_key_starts_job_only_when_idle(v: AppView, press: KeyPress)
    ensures
        starts_job(key_step(v, press).1) ==> !v.busy && key_step(v, press).0.busy,
{
}

/// One background job at a time: going on with a chosen network starts a
/// job only when none runs, and the application is busy afterwards.
pub proof fn lemma_choice_starts_job_only_when_idle(
    v: AppView,
    ssid: Seq<char>,
    is_secured: bool,
    has_saved_profile: bool,
)
    ensures
        starts_job(connection_choice_step(v, ssid, is_secured, has_saved_profile).1) ==> !v.busy
            && connection_choice_step(v, ssid, is_secured, has_saved_profile).0.busy,
{
}

/// One background job at a time: the first scan starts when nothing runs
/// and leaves the application busy.
pub proof fn lemma_startup_starts_scan()
    ensures
        scan_request_step(initial_view(), false).1 == (CommandView::Scan {
            force_hardware_rescan: false,
        }),
        scan_request_step(initial_view(), false).0.busy,
{
}

/// Every finished job frees the application for the next one, and taking
/// in its report starts no job.
pub proof fn lemma_event_frees_backend(v: AppView, e: EventView)
    ensures
        !event_step(v, e).0.busy,
        !starts_job(event_step(v, e).1),
{
}

/// Saved-profile detection: once the profile query for a chosen network
/// has answered, a saved profile is brought up at once, an open network
/// without one is connected to at once, and a secured network without one
/// opens the password field for that network; nothing is started while a
/// job runs.
pub proof fn lemma_profile_detection(
    v: AppView,
    ssid: Seq<char>,
    is_secured: bool,
    has_saved_profile: bool,
)
    ensures
        ({
            let (w, c) = connection_choice_step(v, ssid, is_secured, has_saved_profile);
            &&& has_saved_profile && !v.busy ==> c == CommandView::ConnectSaved { ssid }
            &&& !has_saved_profile && !is_secured && !v.busy ==> c == (CommandView::ConnectNew {
                ssid,
                password: v.password,
                is_open_network: true,
            })
            &&& !has_saved_profile && is_secured ==> c == CommandView::Continue && w.mode
                is Editing && w.target == ssid
            &&& v.busy ==> !starts_job(c)
        }),
{
}

/// Enter on a listed network with a name asks whether that very network
/// has a saved profile, and changes nothing yet.
pub proof fn lemma_enter_asks_about_selected(v: AppView)
    requires
        v.mode is Normal,
        v.selected is Some,
        v.selected->0 < v.networks.len(),
        v.networks[v.selected->0 as int].ssid.len() > 0,
    ensures
        key_step(v, KeyPress { key: Key::Enter, is_release: false }) == (v, CommandView::CheckProfile {
            ssid: v.networks[v.selected->0 as int].ssid,
            is_secured: v.networks[v.selected->0 as int].secured,
        }),
{
}

/// Leaving the password field always empties it: from a state where only
/// an open password field holds text, every transition leads to such a
/// state again; the start-up state is one.
pub proof fn lemma_password_cleared_outside_editing(
    v: AppView,
    press: KeyPress,
    ssid: Seq<char>,
    is_secured: bool,
    has_saved_profile: bool,
    e: EventView,
    list_area_is_empty: bool,
)
    requires
        password_only_while_editing(v),
    ensures
        password_only_while_editing(initial_view()),
        password_only_while_editing(scan_request_step(initial_view(), false).0),
        password_only_while_editing(key_step(v, press).0),
        password_only_while_editing(
            connection_choice_step(v, ssid, is_secured, has_saved_profile).0,
        ),
        password_only_while_editing(event_step(v, e).0),
        password_only_while_editing(selection_settled(v, list_area_is_empty)),
{
}

/// Escape abandons password entry: keys go back to the list, the typed
/// password is gone and no job starts.
pub proof fn lemma_escape_cancels_entry(v: AppView)
    requires
        v.mode is Editing,
    ensures
        key_step(v, KeyPress { key: Key::Esc, is_release: false }).0.mode is Normal,
        key_step(v, KeyPress { key: Key::Esc, is_release: false }).0.password.len() == 0,
        key_step(v, KeyPress { key: Key::Esc, is_release: false }).1 == CommandView::Continue,
{
}

/// Key releases change nothing.
pub proof fn lemma_release_ignored(v: AppView, key: Key)
    ensures
        key_step(v, KeyPress { key, is_release: true }) == (v, CommandView::Continue),
{
}

/// Every frame drawn in a list area with room leaves a selection inside the
/// list or none, so no key press that follows can index outside the list or
/// step below zero, whatever scans and keys came before (a list, being held
/// in a `Vec`, has at most `usize::MAX` entries).
pub proof fn lemma_drawn_frame_keys_never_fault(v: AppView, press: KeyPress)
    requires
        v.networks.len() <= usize::MAX,
    ensures
        selection_settled(v, false).selected is Some ==> selection_settled(v, false).selected->0
            < v.networks.len(),
        !key_press_faults(selection_settled(v, false), press),
{
}

/// List navigation moves the selection by at most one entry and keeps a
/// selection that is inside the list inside it (a list, being held in a
/// `Vec`, has at most `usize::MAX` entries).
pub proof fn lemma_navigation_stays_in_list(v: AppView, press: KeyPress)
    requires
        v.mode is Normal,
        v.selected is Some,
        v.selected->0 < v.networks.len() <= usize::MAX,
        press.key == Key::Up || press.key == Key::Down || press.key == Key::Char('k')
            || press.key == Key::Char('j'),
    ensures
        ({
            let w = key_step(v, press).0;
            &&& w.selected is Some
            &&& w.selected->0 < v.networks.len()
            &&& v.selected->0 <= w.selected->0 + 1
            &&& w.selected->0 <= v.selected->0 + 1
            &&& w.networks == v.networks
        }),
{
}

/// The console is a rolling window: appending a line keeps it within
/// `LOG_CAPACITY` lines, puts the new line last, and keeps the newest of
/// the earlier lines in order.
pub proof fn lemma_log_window(logs: Seq<Seq<char>>, m: Seq<char>)
    requires
        logs.len() <= LOG_CAPACITY,
    ensures
        append_log(logs, m).len() <= LOG_CAPACITY,
        append_log(logs, m).last() == m,
        append_log(logs, m) == logs.push(m).subrange(
            logs.len() + 1 - append_log(logs, m).len(),
            logs.len() + 1int,
        ),
        logs.len() < LOG_CAPACITY ==> append_log(logs, m) == logs.push(m),
{
    assert(logs.push(m).subrange(0, logs.len() + 1int) =~= logs.push(m));
    assert(logs.push(m).drop_first() =~= logs.push(m).subrange(1, logs.len() + 1int));
}

/// Scan results name each network once, no name is empty, and no name
/// holds a colon.
pub proof fn lemma_scan_networks_distinct(listing: Seq<char>)
    ensures
        forall|i: int, j: int|
            0 <= i < j < scan_networks(listing).len() ==> scan_networks(listing)[i].ssid
                != scan_networks(listing)[j].ssid,
        forall|i: int|
            0 <= i < scan_networks(listing).len() ==> scan_networks(listing)[i].ssid.len() > 0,
        forall|i: int, k: int|
            0 <= i < scan_networks(listing).len() && 0 <= k < scan_networks(listing)[i].ssid.len()
                ==> scan_networks(listing)[i].ssid[k] != ':',
{
    lemma_collect_networks_distinct(crate::text::lines(listing));
}

proof fn lemma_collect_networks_distinct(ls: Seq<Seq<char>>)
    ensures
        forall|i: int, j: int|
            0 <= i < j < collect_networks(ls).len() ==> collect_networks(ls)[i].ssid
                != collect_networks(ls)[j].ssid,
        forall|i: int|
            0 <= i < collect_networks(ls).len() ==> collect_networks(ls)[i].ssid.len() > 0,
        forall|i: int, k: int|
            0 <= i < collect_networks(ls).len() && 0 <= k < collect_networks(ls)[i].ssid.len()
                ==> collect_networks(ls)[i].ssid[k] != ':',
    decreases ls.len(),
{
    if ls.len() > 0 {
        lemma_collect_networks_distinct(ls.drop_last());
        let prev = collect_networks(ls.drop_last());
        match scan_line_network(ls.last()) {
            Some(n) => {
                lemma_split_on_nonempty(ls.last(), ':');
                lemma_split_on_pieces_free(ls.last(), ':');
                assert(n.ssid == split_on(ls.last(), ':')[0]);
                assert forall|k: int| 0 <= k < n.ssid.len() implies n.ssid[k] != ':' by {
                    assert(split_on(ls.last(), ':')[0][k] != ':');
                }
                if !has_ssid(prev, n.ssid) {
                    let cur = prev.push(n);
                    assert forall|i: int, j: int|
                        0 <= i < j < cur.len() implies cur[i].ssid != cur[j].ssid by {
                        if j == prev.len() {
                            assert(cur[i] == prev[i]);
                            if cur[i].ssid == cur[j].ssid {
                                assert(prev[i].ssid == n.ssid);
                            }
                        } else {
                            assert(cur[i] == prev[i] && cur[j] == prev[j]);
                        }
                    }
                    assert forall|i: int| 0 <= i < cur.len() implies cur[i].ssid.len() > 0 by {
                        if i < prev.len() {
                            assert(cur[i] == prev[i]);
                        }
                    }
                    assert forall|i: int, k: int|
                        0 <= i < cur.len() && 0 <= k < cur[i].ssid.len() implies cur[i].ssid[k]
                        != ':' by {
                        if i < prev.len() {
                            assert(cur[i] == prev[i]);
                        }
                    }
                }
            },
            None => {},
        }
    }
}

/// The password dialog shows only asterisks after its label, one for each
/// byte of the password.
pub proof fn lemma_password_prompt_hides_password(password: Seq<char>)
    ensures
        forall|i: int|
            "\n Password: "@.len() <= i < password_prompt_text(password).len()
                ==> password_prompt_text(password)[i] == '*',
        password_prompt_text(password).len() == "\n Password: "@.len() + ((
        vstd::utf8::encode_utf8(password).len() as usize) as nat),
{
}

/// The console always shows its newest line: when the lines do not fit,
/// exactly enough of the first ones are scrolled past to fill the area to
/// its last row, and none are scrolled past otherwise.
pub proof fn lemma_scroll_shows_newest(log_count: usize, area_height: u16)
    requires
        log_count <= u16::MAX,
        area_height >= 2,
    ensures
        log_count > area_height - 2 ==> scroll_offset(log_count, area_height) + (area_height - 2)
            == log_count,
        log_count <= area_height - 2 ==> scroll_offset(log_count, area_height) == 0,
{
    assert((log_count as u16) == log_count);
}


// ---------------------------------------------------------------------------
// Scan listing: what is kept and what is dropped
// ---------------------------------------------------------------------------

proof fn lemma_collect_extends(ls: Seq<Seq<char>>)
    requires
        ls.len() > 0,
    ensures
        collect_networks(ls.drop_last()).len() <= collect_networks(ls).len(),
        forall|i: int|
            0 <= i < collect_networks(ls.drop_last()).len() ==> collect_networks(ls)[i]
                == #[trigger] collect_networks(ls.drop_last())[i],
{
}

proof fn lemma_collect_complete(ls: Seq<Seq<char>>, k: int)
    requires
        0 <= k < ls.len(),
        scan_line_network(ls[k]) is Some,
    ensures
        exists|i: int|
            0 <= i < collect_networks(ls).len() && (#[trigger] collect_networks(ls)[i]).ssid
                == scan_line_network(ls[k])->0.ssid,
    decreases ls.len(),
{
    let prev = collect_networks(ls.drop_last());
    let cur = collect_networks(ls);
    lemma_collect_extends(ls);
    if k < ls.len() - 1 {
        assert(ls.drop_last()[k] == ls[k]);
        lemma_collect_complete(ls.drop_last(), k);
        let i = choose|i: int|
            0 <= i < prev.len() && (#[trigger] prev[i]).ssid == scan_line_network(ls[k])->0.ssid;
        assert(cur[i] == prev[i]);
    } else {
        let n = scan_line_network(ls.last())->0;
        if has_ssid(prev, n.ssid) {
            let i = choose|i: int| 0 <= i < prev.len() && (#[trigger] prev[i]).ssid == n.ssid;
            assert(cur[i] == prev[i]);
        } else {
            assert(cur[prev.len() as int] == n);
        }
    }
}

proof fn lemma_collect_sound(ls: Seq<Seq<char>>, i: int)
    requires
        0 <= i < collect_networks(ls).len(),
    ensures
        exists|k: int| 0 <= k < ls.len() && scan_line_network(#[trigger] ls[k]) == Some(collect_networks(ls)[i]),
    decreases ls.len(),
{
    let prev = collect_networks(ls.drop_last());
    lemma_collect_extends(ls);
    if i < prev.len() {
        lemma_collect_sound(ls.drop_last(), i);
        let k = choose|k: int|
            0 <= k < ls.drop_last().len() && scan_line_network(#[trigger] ls.drop_last()[k]) == Some(prev[i]);
        assert(ls[k] == ls.drop_last()[k]);
    } else {
        assert(scan_line_network(ls[ls.len() - 1]) == Some(collect_networks(ls)[i]));
    }
}

/// Nothing described is lost: for every line of the listing that describes
/// a network, the scan result holds a network with exactly that SSID (so,
/// with the result's SSIDs being distinct, a line is passed over only when
/// a network of the identical SSID is already in the result).
pub proof fn lemma_scan_keeps_every_described_ssid(listing: Seq<char>, k: int)
    requires
        0 <= k < lines(listing).len(),
        scan_line_network(lines(listing)[k]) is Some,
    ensures
        exists|i: int|
            0 <= i < scan_networks(listing).len() && (#[trigger] scan_networks(listing)[i]).ssid
                == scan_line_network(lines(listing)[k])->0.ssid,
{
    let ls = lines(listing);
    lemma_collect_complete(ls, k);
    let i = choose|i: int|
        0 <= i < collect_networks(ls).len() && (#[trigger] collect_networks(ls)[i]).ssid
            == scan_line_network(ls[k])->0.ssid;
    assert(scan_networks(listing)[i] == collect_networks(ls)[i]);
}

/// Nothing is made up: every network in the scan result is the network
/// that some line of the listing describes.
pub proof fn lemma_scan_entries_come_from_lines(listing: Seq<char>, i: int)
    requires
        0 <= i < scan_networks(listing).len(),
    ensures
        exists|k: int|
            0 <= k < lines(listing).len() && scan_line_network(#[trigger] lines(listing)[k])
                == Some(scan_networks(listing)[i]),
{
    lemma_collect_sound(lines(listing), i);
}

// ---------------------------------------------------------------------------
// Saved-profile listing
// ---------------------------------------------------------------------------

proof fn lemma_split_on_without_sep(p: Seq<char>, sep: char)
    requires
        forall|j: int| 0 <= j < p.len() ==> p[j] != sep,
    ensures
        split_on(p, sep) == seq![p],
    decreases p.len(),
{
    if p.len() > 0 {
        lemma_split_on_without_sep(p.drop_last(), sep);
        assert(p.drop_last().push(p.last()) =~= p);
        assert(split_on(p, sep) =~= seq![p]);
    } else {
        assert(p =~= Seq::<char>::empty());
    }
}

/// A profile is found exactly when some line of the listing, with its
/// surrounding whitespace removed, is the whole SSID.
pub proof fn lemma_saved_profile_exact_line(listing: Seq<char>, ssid: Seq<char>)
    ensures
        saved_profile_listed(listing, ssid) <==> exists|k: int|
            0 <= k < lines(listing).len() && trim(#[trigger] lines(listing)[k]) =~= ssid,
{
}

/// A listing of one line names exactly one profile: the line trimmed.
/// Any other SSID, a longer one starting with that name included, is not
/// found.
pub proof fn lemma_saved_profile_single_line(p: Seq<char>, ssid: Seq<char>)
    requires
        p.len() > 0,
        forall|j: int| 0 <= j < p.len() ==> p[j] != '\n',
    ensures
        lines(p) == seq![p],
        saved_profile_listed(p, ssid) <==> trim(p) == ssid,
{
    lemma_split_on_without_sep(p, '\n');
    assert(split_on(p, '\n').take(0) =~= Seq::<Seq<char>>::empty());
    assert(lines(p) =~= seq![p]);
    if trim(p) == ssid {
        assert(trim(lines(p)[0]) == ssid);
    }
}

// ---------------------------------------------------------------------------
// Typing a password
// ---------------------------------------------------------------------------

/// Typing into the password field appends exactly the typed character,
/// whatever it is, and changes nothing else; Backspace right after takes
/// it away again, giving back the state from before.
pub proof fn lemma_typing_appends_character(v: AppView, c: char)
    requires
        v.mode is Editing,
    ensures
        ({
            let (w, cmd) = key_step(v, KeyPress { key: Key::Char(c), is_release: false });
            &&& cmd == CommandView::Continue
            &&& w.password.len() == v.password.len() + 1
            &&& w.password.last() == c
            &&& w.password.drop_last() =~= v.password
            &&& w.mode is Editing
            &&& w.logs == v.logs && w.target == v.target && w.busy == v.busy
            &&& w.selected == v.selected && w.networks == v.networks
            &&& key_step(w, KeyPress { key: Key::Backspace, is_release: false }).0 == AppView {
                password: v.password,
                ..w
            }
        }),
{
    let w = key_step(v, KeyPress { key: Key::Char(c), is_release: false }).0;
    assert(w.password.drop_last() =~= v.password);
}

// ---------------------------------------------------------------------------
// Moving through the list
// ---------------------------------------------------------------------------

/// Up (or `k`) moves a selection above the first entry to exactly the
/// entry before it, and leaves the first entry selected as it is.
pub proof fn lemma_up_moves_to_previous(v: AppView, key: Key, s: usize)
    requires
        v.mode is Normal,
        v.selected == Some(s),
        key == Key::Up || key == Key::Char('k'),
    ensures
        s > 0 ==> key_step(v, KeyPress { key, is_release: false }).0.selected == Some(
            (s - 1) as usize,
        ),
        s == 0 ==> key_step(v, KeyPress { key, is_release: false }).0.selected == Some(0usize),
{
}

/// Down then Up returns to where the selection was, and so does Up then
/// Down, whenever the first move is possible.
pub proof fn lemma_down_up_round_trip(v: AppView, s: usize)
    requires
        v.mode is Normal,
        v.selected == Some(s),
        v.networks.len() <= usize::MAX,
    ensures
        s + 1 < v.networks.len() ==> key_step(
            key_step(v, KeyPress { key: Key::Down, is_release: false }).0,
            KeyPress { key: Key::Up, is_release: false },
        ).0 == v,
        0 < s < v.networks.len() ==> key_step(
            key_step(v, KeyPress { key: Key::Up, is_release: false }).0,
            KeyPress { key: Key::Down, is_release: false },
        ).0 == v,
{
    if s + 1 < v.networks.len() {
        let w = key_step(v, KeyPress { key: Key::Down, is_release: false }).0;
        assert(w.selected == Some((s + 1) as usize));
        assert(key_step(w, KeyPress { key: Key::Up, is_release: false }).0 =~= v);
    }
    if 0 < s < v.networks.len() {
        let w = key_step(v, KeyPress { key: Key::Up, is_release: false }).0;
        assert(w.selected == Some((s - 1) as usize));
        assert(key_step(w, KeyPress { key: Key::Down, is_release: false }).0 =~= v);
    }
}

// ---------------------------------------------------------------------------
// Connection arguments
// ---------------------------------------------------------------------------

/// A secured network's arguments are the open network's arguments, which
/// end with the SSID, followed by `password` and the whole typed password.
pub proof fn lemma_secured_args_end_with_password(ssid: Seq<char>, password: Seq<char>)
    ensures
        new_connection_arg_list(ssid, password, true).len() == 6,
        new_connection_arg_list(ssid, password, true).last() == ssid,
        new_connection_arg_list(ssid, password, false).len() == 8,
        new_connection_arg_list(ssid, password, false).subrange(0, 6) =~= new_connection_arg_list(
            ssid,
            password,
            true,
        ),
        new_connection_arg_list(ssid, password, false)[6] == "password"@,
        new_connection_arg_list(ssid, password, false).last() == password,
{
}

} // verus!
