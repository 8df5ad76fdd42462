//! The values that background jobs hand to the application: discovered
//! access points and the events that report how a job ended.
use vstd::prelude::*;

verus! {

/// A discovered Wi-Fi access point.
#[derive(Clone, Debug, PartialEq, Eq)]
pub struct WifiNetwork {
    /// The line shown for this network in the list.
    pub display_string: String,
    /// The network name.
    pub ssid: String,
    /// Whether the network asks for credentials.
    pub is_secured: bool,
}

/// The mathematical value of a [`WifiNetwork`].
pub struct NetworkView {
    pub display: Seq<char>,
    pub ssid: Seq<char>,
    pub secured: bool,
}

impl View for WifiNetwork {
    type V = NetworkView;

    open spec fn view(&self) -> NetworkView {
        NetworkView { display: self.display_string@, ssid: self.ssid@, secured: self.is_secured }
    }
}

/// The views of a sequence of networks.
pub open spec fn network_views(ns: Seq<WifiNetwork>) -> Seq<NetworkView> {
    ns.map_values(|n: WifiNetwork| n@)
}

/// The views of a sequence of strings.
pub open spec fn string_views(ss: Seq<String>) -> Seq<Seq<char>> {
    ss.map_values(|s: String| s@)
}

/// What a background job reports when it ends.
#[derive(Debug, PartialEq, Eq)]
pub enum NetworkEvent {
    /// A connection to the named network came up.
    ConnectionSuccess(String),
    /// A connection attempt failed, with the reason given.
    ConnectionFailed { ssid: String, error: String },
    /// A scan ended with the networks it found.
    ScanComplete(Vec<WifiNetwork>),
    /// The scan could not be run.
    ScanFailed,
}

/// The mathematical value of a [`NetworkEvent`].
pub enum EventView {
    ConnectionSuccess(Seq<char>),
    ConnectionFailed { ssid: Seq<char>, error: Seq<char> },
    ScanComplete(Seq<NetworkView>),
    ScanFailed,
}

impl View for NetworkEvent {
    type V = EventView;

    open spec fn view(&self) -> EventView {
        match self {
            NetworkEvent::ConnectionSuccess(s) => EventView::ConnectionSuccess(s@),
            NetworkEvent::ConnectionFailed { ssid, error } => EventView::ConnectionFailed {
                ssid: ssid@,
                error: error@,
            },
            NetworkEvent::ScanComplete(ns) => EventView::ScanComplete(network_views(ns@)),
            NetworkEvent::ScanFailed => EventView::ScanFailed,
        }
    }
}

} // verus!
