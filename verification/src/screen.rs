//! What the screen shows, computed from the state: the key help for the
//! input mode, how far the console is scrolled, and the password dialog's
//! text and title.
use vstd::prelude::*;

use crate::app::InputMode;

verus! {

/// The key help shown for an input mode.
pub open spec fn help_line(mode: InputMode) -> Seq<char> {
    match mode {
        InputMode::Normal => " [q] Quit  [r] Rescan  [\u{25b2}/\u{25bc} or j/k] Navigate  [Enter] Connect  [e] Enter New Password "@,
        InputMode::Editing => " [Esc] Cancel  [Backspace] Delete  [Enter] Submit "@,
    }
}

/// The key help shown for `mode`.
pub fn help_text(mode: InputMode) -> (t: &'static str)
    ensures
        t@ == help_line(mode),
{
    match mode {
        InputMode::Normal => " [q] Quit  [r] Rescan  [\u{25b2}/\u{25bc} or j/k] Navigate  [Enter] Connect  [e] Enter New Password ",
        InputMode::Editing => " [Esc] Cancel  [Backspace] Delete  [Enter] Submit ",
    }
}

/// How many console lines are scrolled past: the console area loses two
/// rows to its border, and when the lines (their count taken as a `u16`)
/// do not fit in the rest, the first ones are scrolled out of view so that
/// the newest line is on the last row.
pub open spec fn scroll_offset(log_count: usize, area_height: u16) -> u16 {
    let inner: int = if area_height >= 2 {
        area_height - 2
    } else {
        0
    };
    let total = log_count as u16;
    if total > inner {
        (total - inner) as u16
    } else {
        0
    }
}

/// How many console lines are scrolled past for `log_count` lines in an
/// area `area_height` rows high.
pub fn log_scroll_offset(log_count: usize, area_height: u16) -> (offset: u16)
    ensures
        offset == scroll_offset(log_count, area_height),
{
    let inner = area_height.saturating_sub(2);
    let total = log_count as u16;
    if total > inner {
        total.saturating_sub(inner)
    } else {
        0
    }
}

/// `n` asterisks.
pub open spec fn stars(n: nat) -> Seq<char> {
    Seq::new(n, |i: int| '*')
}

/// The text of the password dialog: one asterisk for each byte of the
/// typed password's UTF-8 encoding (the length `str::len` gives), never
/// its characters.
pub open spec fn password_prompt_text(password: Seq<char>) -> Seq<char> {
    "\n Password: "@ + stars((vstd::utf8::encode_utf8(password).len() as usize) as nat)
}

/// The text of the password dialog for `password`.
pub fn password_prompt(password: &str) -> (t: String)
    ensures
        t@ == password_prompt_text(password@),
{
    let n = password.len();
    let mut t = String::from_str("\n Password: ");
    let ghost start = t@;
    let mut i: usize = 0;
    while i < n
        invariant
            i <= n,
            t@ == start + stars(i as nat),
        decreases n - i,
    {
        t.push('*');
        i = i + 1;
        assert(t@ =~= start + stars(i as nat));
    }
    t
}

/// The title of the password dialog: the network name between spaces.
pub open spec fn dialog_title(ssid: Seq<char>) -> Seq<char> {
    " "@ + ssid + " "@
}

/// The title of the password dialog for `ssid`.
pub fn modal_title(ssid: &str) -> (t: String)
    ensures
        t@ == dialog_title(ssid@),
{
    let mut t = String::from_str(" ");
    t.append(ssid);
    t.append(" ");
    t
}

} // verus!
