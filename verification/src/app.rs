//! The application state and its transitions: from a state and an input
//! (a key press, a finished background job, the answer to a profile query)
//! to the next state and the command that the caller is to carry out.
use vstd::prelude::*;

use crate::network::{network_views, string_views, EventView, NetworkEvent, NetworkView, WifiNetwork};
use crate::text::{decimal, push_decimal};

verus! {

/// Most console lines kept; older lines are dropped first.
pub const LOG_CAPACITY: usize = 100;

/// Whether keys move through the list or go into the password field.
#[derive(Clone, Copy, Debug, PartialEq, Eq)]
pub enum InputMode {
    Normal,
    Editing,
}

/// A key, as far as the application tells keys apart.
#[derive(Clone, Copy, Debug, PartialEq, Eq)]
pub enum Key {
    Char(char),
    Up,
    Down,
    Enter,
    Backspace,
    Esc,
    Other,
}

/// A key event: the key, and whether it is the release of the key.
#[derive(Clone, Copy, Debug)]
pub struct KeyPress {
    pub key: Key,
    pub is_release: bool,
}

/// What the caller is to do after a transition.
#[derive(Debug, PartialEq, Eq)]
pub enum Command {
    /// Nothing beyond drawing the next frame.
    Continue,
    /// Leave the application.
    Quit,
    /// Run a scan in the background, first asking the hardware to rescan
    /// if `force_hardware_rescan` holds.
    Scan { force_hardware_rescan: bool },
    /// Bring up the saved profile of `ssid` in the background.
    ConnectSaved { ssid: String },
    /// Ask whether `ssid` has a saved profile, then create a connection
    /// with the given credentials in the background.
    ConnectNew { ssid: String, password: String, is_open_network: bool },
    /// Ask whether `ssid` has a saved profile and hand the answer to
    /// [`NetworkManagerApp::choose_connection`].
    CheckProfile { ssid: String, is_secured: bool },
    /// Append `report` as a line to the connection-failure log.
    RecordFailure { report: String },
}

/// The mathematical value of a [`Command`].
pub enum CommandView {
    Continue,
    Quit,
    Scan { force_hardware_rescan: bool },
    ConnectSaved { ssid: Seq<char> },
    ConnectNew { ssid: Seq<char>, password: Seq<char>, is_open_network: bool },
    CheckProfile { ssid: Seq<char>, is_secured: bool },
    RecordFailure { report: Seq<char> },
}

impl View for Command {
    type V = CommandView;

    open spec fn view(&self) -> CommandView {
        match self {
            Command::Continue => CommandView::Continue,
            Command::Quit => CommandView::Quit,
            Command::Scan { force_hardware_rescan } => CommandView::Scan {
                force_hardware_rescan: *force_hardware_rescan,
            },
            Command::ConnectSaved { ssid } => CommandView::ConnectSaved { ssid: ssid@ },
            Command::ConnectNew { ssid, password, is_open_network } => CommandView::ConnectNew {
                ssid: ssid@,
                password: password@,
                is_open_network: *is_open_network,
            },
            Command::CheckProfile { ssid, is_secured } => CommandView::CheckProfile {
                ssid: ssid@,
                is_secured: *is_secured,
            },
            Command::RecordFailure { report } => CommandView::RecordFailure { report: report@ },
        }
    }
}

/// The mathematical value of the application state.
pub struct AppView {
    pub networks: Seq<NetworkView>,
    pub selected: Option<usize>,
    pub logs: Seq<Seq<char>>,
    pub mode: InputMode,
    pub password: Seq<char>,
    pub target: Seq<char>,
    pub busy: bool,
}

// ---------------------------------------------------------------------------
// Console messages
// ---------------------------------------------------------------------------

pub open spec fn msg_initializing() -> Seq<char> {
    "Initializing Network Manager..."@
}

pub open spec fn msg_scan_busy() -> Seq<char> {
    "[WARN] An operation is already in progress. Please wait."@
}

pub open spec fn msg_rescan() -> Seq<char> {
    "Requesting hardware Wi-Fi rescan..."@
}

pub open spec fn msg_fetch() -> Seq<char> {
    "Fetching available networks..."@
}

pub open spec fn msg_empty_password() -> Seq<char> {
    "[ERROR] Password field cannot be empty for secured networks."@
}

pub open spec fn msg_connect_busy() -> Seq<char> {
    "[WARN] Backend busy! Dropping connection request. Try again in a moment."@
}

pub open spec fn msg_failure_details() -> Seq<char> {
    " -> Error details written to /tmp/awac_errors.log"@
}

pub open spec fn msg_scan_failed() -> Seq<char> {
    "[ERROR] Failed to query local NetworkManager backend interface."@
}

pub open spec fn msg_cancelled() -> Seq<char> {
    "Password entry cancelled."@
}

pub open spec fn connecting_message(ssid: Seq<char>) -> Seq<char> {
    "Connecting to "@ + ssid + "..."@
}

pub open spec fn unsecure_message(ssid: Seq<char>) -> Seq<char> {
    "Connecting to unsecure network "@ + ssid + "..."@
}

pub open spec fn success_message(ssid: Seq<char>) -> Seq<char> {
    "[SUCCESS] Connected to "@ + ssid + "."@
}

pub open spec fn failure_message(ssid: Seq<char>) -> Seq<char> {
    "[FAIL] Could not connect to "@ + ssid + "."@
}

pub open spec fn scan_complete_message(count: nat) -> Seq<char> {
    "Scan complete. Found "@ + decimal(count) + " networks."@
}

pub open spec fn password_update_message(ssid: Seq<char>) -> Seq<char> {
    "Updating password for "@ + ssid + "..."@
}

/// The entry written to the connection-failure log for a failed attempt.
pub open spec fn failure_report(ssid: Seq<char>, error: Seq<char>) -> Seq<char> {
    "--- Connection Failure ---\nSSID: "@ + ssid + "\nError: "@ + error + "\n"@
}

// ---------------------------------------------------------------------------
// Transitions
// ---------------------------------------------------------------------------

/// The console after `m` is appended: the newest `LOG_CAPACITY` lines.
pub open spec fn append_log(logs: Seq<Seq<char>>, m: Seq<char>) -> Seq<Seq<char>> {
    if logs.len() + 1 > LOG_CAPACITY {
        logs.push(m).drop_first()
    } else {
        logs.push(m)
    }
}

/// `v` with `m` appended to its console.
pub open spec fn log_entry(v: AppView, m: Seq<char>) -> AppView {
    AppView { logs: append_log(v.logs, m), ..v }
}

/// The state right after start-up, before the first scan is requested.
pub open spec fn initial_view() -> AppView {
    AppView {
        networks: Seq::<NetworkView>::empty(),
        selected: None,
        logs: seq![msg_initializing()],
        mode: InputMode::Normal,
        password: Seq::<char>::empty(),
        target: Seq::<char>::empty(),
        busy: false,
    }
}

/// Requesting a scan: refused with a warning while a job runs; otherwise
/// the application becomes busy and the scan is started.
pub open spec fn scan_request_step(v: AppView, rescan: bool) -> (AppView, CommandView) {
    if v.busy {
        (log_entry(v, msg_scan_busy()), CommandView::Continue)
    } else {
        (
            log_entry(
                AppView { busy: true, ..v },
                if rescan {
                    msg_rescan()
                } else {
                    msg_fetch()
                },
            ),
            CommandView::Scan { force_hardware_rescan: rescan },
        )
    }
}

/// Bringing up a saved profile: silently ignored while a job runs.
pub open spec fn saved_connection_step(v: AppView, ssid: Seq<char>) -> (AppView, CommandView) {
    if v.busy {
        (v, CommandView::Continue)
    } else {
        (
            log_entry(AppView { busy: true, target: ssid, ..v }, connecting_message(ssid)),
            CommandView::ConnectSaved { ssid },
        )
    }
}

/// Connecting to the target network without a profile: a secured network
/// needs a password, and nothing starts while a job runs; otherwise the
/// password field is emptied, keys go back to the list and the attempt
/// starts with the target and the password that was typed.
pub open spec fn new_connection_step(v: AppView, is_open_network: bool) -> (AppView, CommandView) {
    if !is_open_network && v.password.len() == 0 {
        (log_entry(v, msg_empty_password()), CommandView::Continue)
    } else if v.busy {
        (log_entry(v, msg_connect_busy()), CommandView::Continue)
    } else {
        (
            log_entry(
                AppView {
                    busy: true,
                    password: Seq::<char>::empty(),
                    mode: InputMode::Normal,
                    ..v
                },
                if is_open_network {
                    unsecure_message(v.target)
                } else {
                    connecting_message(v.target)
                },
            ),
            CommandView::ConnectNew {
                ssid: v.target,
                password: v.password,
                is_open_network,
            },
        )
    }
}

/// After the profile query for a chosen network: a saved profile is
/// brought up, an open network is connected to at once, and a secured one
/// opens the password field.
pub open spec fn connection_choice_step(
    v: AppView,
    ssid: Seq<char>,
    is_secured: bool,
    has_saved_profile: bool,
) -> (AppView, CommandView) {
    if has_saved_profile {
        saved_connection_step(v, ssid)
    } else if !is_secured {
        new_connection_step(AppView { target: ssid, ..v }, true)
    } else {
        (AppView { target: ssid, mode: InputMode::Editing, ..v }, CommandView::Continue)
    }
}

/// The key presses on which the key handling would index outside the
/// list or compute one below zero.
pub open spec fn key_press_faults(v: AppView, press: KeyPress) -> bool {
    &&& !press.is_release
    &&& v.mode is Normal
    &&& v.selected is Some
    &&& {
        ||| (press.key == Key::Down || press.key == Key::Char('j')) && v.networks.len() == 0
        ||| (press.key == Key::Char('e') || press.key == Key::Enter) && v.selected->0
            >= v.networks.len()
    }
}

/// A key press while keys move through the list.
pub open spec fn normal_key_step(v: AppView, key: Key) -> (AppView, CommandView) {
    if key == Key::Char('q') {
        (v, CommandView::Quit)
    } else if key == Key::Char('r') {
        scan_request_step(v, true)
    } else if key == Key::Up || key == Key::Char('k') {
        match v.selected {
            Some(s) => if s > 0 {
                (AppView { selected: Some((s - 1) as usize), ..v }, CommandView::Continue)
            } else {
                (v, CommandView::Continue)
            },
            None => (v, CommandView::Continue),
        }
    } else if key == Key::Down || key == Key::Char('j') {
        match v.selected {
            Some(s) => if s + 1 < v.networks.len() {
                (AppView { selected: Some((s + 1) as usize), ..v }, CommandView::Continue)
            } else {
                (v, CommandView::Continue)
            },
            None => (v, CommandView::Continue),
        }
    } else if key == Key::Char('e') {
        match v.selected {
            Some(i) => if v.networks[i as int].secured {
                let ssid = v.networks[i as int].ssid;
                (
                    log_entry(
                        AppView {
                            target: ssid,
                            password: Seq::<char>::empty(),
                            mode: InputMode::Editing,
                            ..v
                        },
                        password_update_message(ssid),
                    ),
                    CommandView::Continue,
                )
            } else {
                (v, CommandView::Continue)
            },
            None => (v, CommandView::Continue),
        }
    } else if key == Key::Enter {
        match v.selected {
            Some(i) => if v.networks[i as int].ssid.len() > 0 {
                (
                    v,
                    CommandView::CheckProfile {
                        ssid: v.networks[i as int].ssid,
                        is_secured: v.networks[i as int].secured,
                    },
                )
            } else {
                (v, CommandView::Continue)
            },
            None => (v, CommandView::Continue),
        }
    } else {
        (v, CommandView::Continue)
    }
}

/// A key press while keys go into the password field.
pub open spec fn editing_key_step(v: AppView, key: Key) -> (AppView, CommandView) {
    match key {
        Key::Enter => new_connection_step(v, false),
        Key::Char(c) => (AppView { password: v.password.push(c), ..v }, CommandView::Continue),
        Key::Backspace => (
            AppView {
                password: if v.password.len() > 0 {
                    v.password.drop_last()
                } else {
                    v.password
                },
                ..v
            },
            CommandView::Continue,
        ),
        Key::Esc => (
            log_entry(
                AppView { mode: InputMode::Normal, password: Seq::<char>::empty(), ..v },
                msg_cancelled(),
            ),
            CommandView::Continue,
        ),
        _ => (v, CommandView::Continue),
    }
}

/// A key event: releases are ignored, presses go by the input mode.
pub open spec fn key_step(v: AppView, press: KeyPress) -> (AppView, CommandView) {
    if press.is_release {
        (v, CommandView::Continue)
    } else {
        match v.mode {
            InputMode::Normal => normal_key_step(v, press.key),
            InputMode::Editing => editing_key_step(v, press.key),
        }
    }
}

/// The report of a finished background job: the application is no longer
/// busy, the outcome goes to the console, a found network list replaces the
/// old one (selecting its first entry when nothing was selected), and a
/// failure is also to be written to the failure log.
pub open spec fn event_step(v: AppView, e: EventView) -> (AppView, CommandView) {
    let idle = AppView { busy: false, ..v };
    match e {
        EventView::ConnectionSuccess(ssid) => (
            log_entry(idle, success_message(ssid)),
            CommandView::Continue,
        ),
        EventView::ConnectionFailed { ssid, error } => (
            log_entry(log_entry(idle, failure_message(ssid)), msg_failure_details()),
            CommandView::RecordFailure { report: failure_report(ssid, error) },
        ),
        EventView::ScanComplete(ns) => (
            log_entry(
                AppView {
                    networks: ns,
                    selected: if ns.len() > 0 && v.selected is None {
                        Some(0usize)
                    } else {
                        v.selected
                    },
                    ..idle
                },
                scan_complete_message(ns.len()),
            ),
            CommandView::Continue,
        ),
        EventView::ScanFailed => (log_entry(idle, msg_scan_failed()), CommandView::Continue),
    }
}

/// The selection after the list is drawn: nothing changes when the list
/// area has no room; otherwise an empty list has no selection and a
/// selection past the end moves to the last entry.
pub open spec fn drawn_selection(selected: Option<usize>, len: nat, list_area_is_empty: bool) -> Option<
    usize,
> {
    if list_area_is_empty {
        selected
    } else if len == 0 {
        None
    } else {
        match selected {
            Some(s) => if s >= len {
                Some((len - 1) as usize)
            } else {
                selected
            },
            None => None,
        }
    }
}

/// `v` with its selection as the list widget leaves it after drawing.
pub open spec fn selection_settled(v: AppView, list_area_is_empty: bool) -> AppView {
    AppView { selected: drawn_selection(v.selected, v.networks.len(), list_area_is_empty), ..v }
}

// ---------------------------------------------------------------------------
// The state
// ---------------------------------------------------------------------------

/// `String::pop` removes the last character and returns it, or returns
/// `None` and leaves the string as it is when it is empty.
pub assume_specification[ String::pop ](s: &mut String) -> (c: Option<char>)
    ensures
        old(s)@.len() > 0 ==> c == Some(old(s)@.last()) && final(s)@ == old(s)@.drop_last(),
        old(s)@.len() == 0 ==> c is None && final(s)@ == old(s)@,
;

/// The application state.
pub struct NetworkManagerApp {
    networks: Vec<WifiNetwork>,
    selected: Option<usize>,
    logs: Vec<String>,
    input_mode: InputMode,
    password_input: String,
    target_ssid: String,
    is_busy: bool,
}

impl View for NetworkManagerApp {
    type V = AppView;

    closed spec fn view(&self) -> AppView {
        AppView {
            networks: network_views(self.networks@),
            selected: self.selected,
            logs: string_views(self.logs@),
            mode: self.input_mode,
            password: self.password_input@,
            target: self.target_ssid@,
            busy: self.is_busy,
        }
    }
}

fn message_with(prefix: &str, middle: &str, suffix: &str) -> (m: String)
    ensures
        m@ == prefix@ + middle@ + suffix@,
{
    let mut m = String::from_str(prefix);
    m.append(middle);
    m.append(suffix);
    m
}

impl NetworkManagerApp {
    /// The console never holds more than `LOG_CAPACITY` lines.
    pub open spec fn wf(&self) -> bool {
        self@.logs.len() <= LOG_CAPACITY
    }

    /// The application right after start-up, with the first scan requested.
    pub fn new() -> (r: (Self, Command))
        ensures
            r.0.wf(),
            (r.0@, r.1@) == scan_request_step(initial_view(), false),
    {
        let mut logs: Vec<String> = Vec::new();
        logs.push(String::from_str("Initializing Network Manager..."));
        let mut app = NetworkManagerApp {
            networks: Vec::new(),
            selected: None,
            logs,
            input_mode: InputMode::Normal,
            password_input: String::new(),
            target_ssid: String::new(),
            is_busy: false,
        };
        assert(string_views(app.logs@) =~= seq![msg_initializing()]);
        assert(network_views(app.networks@) =~= Seq::<NetworkView>::empty());
        assert(app@ =~= initial_view());
        let c = app.scan_networks(false);
        (app, c)
    }

    /// Appends `message` to the console, dropping the oldest line when the
    /// console is full.
    pub fn log_message(&mut self, message: &str)
        requires
            old(self).wf(),
        ensures
            final(self).wf(),
            final(self)@ == log_entry(old(self)@, message@),
    {
        self.push_log(String::from_str(message));
    }

    fn push_log(&mut self, m: String)
        requires
            old(self).wf(),
        ensures
            final(self).wf(),
            final(self)@ == log_entry(old(self)@, m@),
    {
        let ghost mv = m@;
        let ghost before = self.logs@;
        self.logs.push(m);
        assert(string_views(self.logs@) =~= string_views(before).push(mv));
        if self.logs.len() > LOG_CAPACITY {
            let _ = self.logs.remove(0);
            assert(string_views(self.logs@) =~= string_views(before).push(mv).drop_first());
        }
        assert(self@ =~= log_entry(old(self)@, mv));
    }

    /// Requests a scan, with a hardware rescan first when asked.
    pub fn scan_networks(&mut self, force_hardware_rescan: bool) -> (c: Command)
        requires
            old(self).wf(),
        ensures
            final(self).wf(),
            (final(self)@, c@) == scan_request_step(old(self)@, force_hardware_rescan),
    {
        if self.is_busy {
            self.log_message("[WARN] An operation is already in progress. Please wait.");
            return Command::Continue;
        }
        self.is_busy = true;
        if force_hardware_rescan {
            self.log_message("Requesting hardware Wi-Fi rescan...");
        } else {
            self.log_message("Fetching available networks...");
        }
        Command::Scan { force_hardware_rescan }
    }

    /// Requests that the saved profile of `ssid` be brought up.
    pub fn connect_saved_network(&mut self, ssid: String) -> (c: Command)
        requires
            old(self).wf(),
        ensures
            final(self).wf(),
            (final(self)@, c@) == saved_connection_step(old(self)@, ssid@),
    {
        if self.is_busy {
            return Command::Continue;
        }
        self.is_busy = true;
        self.target_ssid = ssid.clone();
        let m = message_with("Connecting to ", self.target_ssid.as_str(), "...");
        self.push_log(m);
        Command::ConnectSaved { ssid }
    }

    /// Requests a connection to the target network without its profile,
    /// with the typed password unless the network is open.
    pub fn connect_new_network(&mut self, is_open_network: bool) -> (c: Command)
        requires
            old(self).wf(),
        ensures
            final(self).wf(),
            (final(self)@, c@) == new_connection_step(old(self)@, is_open_network),
    {
        if !is_open_network && self.password_input.as_str().is_empty() {
            self.log_message("[ERROR] Password field cannot be empty for secured networks.");
            return Command::Continue;
        }
        if self.is_busy {
            self.log_message(
                "[WARN] Backend busy! Dropping connection request. Try again in a moment.",
            );
            return Command::Continue;
        }
        self.is_busy = true;
        let ssid = self.target_ssid.clone();
        let password = self.password_input.clone();
        self.password_input = String::new();
        self.input_mode = InputMode::Normal;
        let m = if is_open_network {
            message_with("Connecting to unsecure network ", ssid.as_str(), "...")
        } else {
            message_with("Connecting to ", ssid.as_str(), "...")
        };
        self.push_log(m);
        Command::ConnectNew { ssid, password, is_open_network }
    }

    /// Goes on with a network chosen by `Enter` once it is known whether it
    /// has a saved profile.
    pub fn choose_connection(&mut self, ssid: String, is_secured: bool, has_saved_profile: bool) -> (c:
        Command)
        requires
            old(self).wf(),
        ensures
            final(self).wf(),
            (final(self)@, c@) == connection_choice_step(
                old(self)@,
                ssid@,
                is_secured,
                has_saved_profile,
            ),
    {
        if has_saved_profile {
            self.connect_saved_network(ssid)
        } else if !is_secured {
            self.target_ssid = ssid;
            self.connect_new_network(true)
        } else {
            self.target_ssid = ssid;
            self.input_mode = InputMode::Editing;
            Command::Continue
        }
    }

    /// Takes in the report of a finished background job.
    pub fn handle_event(&mut self, event: NetworkEvent) -> (c: Command)
        requires
            old(self).wf(),
        ensures
            final(self).wf(),
            (final(self)@, c@) == event_step(old(self)@, event@),
    {
        self.is_busy = false;
        match event {
            NetworkEvent::ConnectionSuccess(ssid) => {
                let m = message_with("[SUCCESS] Connected to ", ssid.as_str(), ".");
                self.push_log(m);
                Command::Continue
            },
            NetworkEvent::ConnectionFailed { ssid, error } => {
                let m = message_with("[FAIL] Could not connect to ", ssid.as_str(), ".");
                self.push_log(m);
                self.log_message(" -> Error details written to /tmp/awac_errors.log");
                let mut report = message_with(
                    "--- Connection Failure ---\nSSID: ",
                    ssid.as_str(),
                    "\nError: ",
                );
                report.append(error.as_str());
                report.append("\n");
                Command::RecordFailure { report }
            },
            NetworkEvent::ScanComplete(networks) => {
                let ghost nv = network_views(networks@);
                let was_none = self.selected.is_none();
                self.networks = networks;
                if self.networks.len() > 0 && was_none {
                    self.selected = Some(0);
                }
                let count = self.networks.len();
                let mut m = String::from_str("Scan complete. Found ");
                push_decimal(&mut m, count);
                m.append(" networks.");
                self.push_log(m);
                Command::Continue
            },
            NetworkEvent::ScanFailed => {
                self.log_message("[ERROR] Failed to query local NetworkManager backend interface.");
                Command::Continue
            },
        }
    }

    /// Takes in a key event.
    pub fn handle_key(&mut self, press: KeyPress) -> (c: Command)
        requires
            old(self).wf(),
            !key_press_faults(old(self)@, press),
        ensures
            final(self).wf(),
            (final(self)@, c@) == key_step(old(self)@, press),
    {
        if press.is_release {
            return Command::Continue;
        }
        match self.input_mode {
            InputMode::Normal => self.normal_key(press.key),
            InputMode::Editing => self.editing_key(press.key),
        }
    }

    fn normal_key(&mut self, key: Key) -> (c: Command)
        requires
            old(self).wf(),
            !key_press_faults(old(self)@, KeyPress { key, is_release: false }),
            old(self)@.mode is Normal,
        ensures
            final(self).wf(),
            (final(self)@, c@) == normal_key_step(old(self)@, key),
    {
        let (is_quit, is_rescan, is_up, is_down, is_edit, is_enter) = match key {
            Key::Char(ch) => (ch == 'q', ch == 'r', ch == 'k', ch == 'j', ch == 'e', false),
            Key::Up => (false, false, true, false, false, false),
            Key::Down => (false, false, false, true, false, false),
            Key::Enter => (false, false, false, false, false, true),
            _ => (false, false, false, false, false, false),
        };
        if is_quit {
            Command::Quit
        } else if is_rescan {
            self.scan_networks(true)
        } else if is_up {
            if let Some(s) = self.selected {
                if s > 0 {
                    self.selected = Some(s - 1);
                }
            }
            Command::Continue
        } else if is_down {
            if let Some(s) = self.selected {
                if s < self.networks.len() - 1 {
                    self.selected = Some(s + 1);
                }
            }
            Command::Continue
        } else if is_edit {
            if let Some(index) = self.selected {
                assert(self.networks@[index as int]@ == self@.networks[index as int]);
                if self.networks[index].is_secured {
                    self.target_ssid = self.networks[index].ssid.clone();
                    self.password_input = String::new();
                    self.input_mode = InputMode::Editing;
                    let m = message_with("Updating password for ", self.target_ssid.as_str(), "...");
                    self.push_log(m);
                }
            }
            Command::Continue
        } else if is_enter {
            if let Some(index) = self.selected {
                assert(self.networks@[index as int]@ == self@.networks[index as int]);
                let ssid = self.networks[index].ssid.clone();
                if !ssid.as_str().is_empty() {
                    return Command::CheckProfile {
                        ssid,
                        is_secured: self.networks[index].is_secured,
                    };
                }
            }
            Command::Continue
        } else {
            Command::Continue
        }
    }

    fn editing_key(&mut self, key: Key) -> (c: Command)
        requires
            old(self).wf(),
            old(self)@.mode is Editing,
        ensures
            final(self).wf(),
            (final(self)@, c@) == editing_key_step(old(self)@, key),
    {
        match key {
            Key::Enter => self.connect_new_network(false),
            Key::Char(ch) => {
                self.password_input.push(ch);
                Command::Continue
            },
            Key::Backspace => {
                let _ = self.password_input.pop();
                Command::Continue
            },
            Key::Esc => {
                self.input_mode = InputMode::Normal;
                self.password_input = String::new();
                self.log_message("Password entry cancelled.");
                Command::Continue
            },
            _ => Command::Continue,
        }
    }

    /// Settles the selection as the list widget does when it draws the
    /// list in an area that is empty or not.
    pub fn settle_selection(&mut self, list_area_is_empty: bool)
        requires
            old(self).wf(),
        ensures
            final(self).wf(),
            final(self)@ == selection_settled(old(self)@, list_area_is_empty),
    {
        if list_area_is_empty {
            return;
        }
        let len = self.networks.len();
        if len == 0 {
            self.selected = None;
        } else if let Some(s) = self.selected {
            if s >= len {
                self.selected = Some(len - 1);
            }
        }
    }

    /// The networks of the last completed scan.
    pub fn networks(&self) -> (ns: &[WifiNetwork])
        ensures
            network_views(ns@) == self@.networks,
    {
        self.networks.as_slice()
    }

    /// The selected entry of the list, if any.
    pub fn selected(&self) -> (s: Option<usize>)
        ensures
            s == self@.selected,
    {
        self.selected
    }

    /// The console lines, oldest first.
    pub fn logs(&self) -> (ls: &[String])
        ensures
            string_views(ls@) == self@.logs,
    {
        self.logs.as_slice()
    }

    /// Where keys go.
    pub fn input_mode(&self) -> (m: InputMode)
        ensures
            m == self@.mode,
    {
        self.input_mode
    }

    /// The password typed so far.
    pub fn password_input(&self) -> (p: &str)
        ensures
            p@ == self@.password,
    {
        self.password_input.as_str()
    }

    /// The network that a connection or a password is for.
    pub fn target_ssid(&self) -> (t: &str)
        ensures
            t@ == self@.target,
    {
        self.target_ssid.as_str()
    }

    /// Whether a background job is running.
    pub fn is_busy(&self) -> (b: bool)
        ensures
            b == self@.busy,
    {
        self.is_busy
    }
}

} // verus!
