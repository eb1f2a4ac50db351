//! What the dashboard reads of the monitor: the records of its stores, the
//! live counters and the state of the user interface. The dashboard owns none
//! of it and changes none of it.

use crate::text::{append_hex_pair, hex_pair};
use vstd::prelude::*;

verus! {

/// A hardware address of six octets.
#[derive(Clone, Copy, Debug)]
pub struct MacAddress {
    pub octets: [u8; 6],
}

impl View for MacAddress {
    type V = Seq<u8>;

    open spec fn view(&self) -> Seq<u8> {
        self.octets@
    }
}

/// A hardware address in text: its octets in hexadecimal, with nothing
/// between them.
pub open spec fn mac_text(octets: Seq<u8>) -> Seq<char> {
    hex_pair(octets[0] as int) + hex_pair(octets[1] as int) + hex_pair(octets[2] as int)
        + hex_pair(octets[3] as int) + hex_pair(octets[4] as int) + hex_pair(octets[5] as int)
}

impl MacAddress {
    /// Appends the address in text.
    pub fn append_to(&self, out: &mut String)
        ensures
            final(out)@ == old(out)@ + mac_text(self@),
    {
        append_hex_pair(out, self.octets[0]);
        append_hex_pair(out, self.octets[1]);
        append_hex_pair(out, self.octets[2]);
        append_hex_pair(out, self.octets[3]);
        append_hex_pair(out, self.octets[4]);
        append_hex_pair(out, self.octets[5]);
        assert(out@ =~= old(out)@ + mac_text(self@));
    }

    /// The address in text.
    pub fn text(&self) -> (t: String)
        ensures
            t@ == mac_text(self@),
    {
        let mut t = String::new();
        self.append_to(&mut t);
        assert(t@ =~= mac_text(self@));
        t
    }

    /// Whether both addresses hold the same octets.
    pub fn same(&self, other: &MacAddress) -> (b: bool)
        ensures
            b == (self@ == other@),
    {
        let b = self.octets[0] == other.octets[0] && self.octets[1] == other.octets[1]
            && self.octets[2] == other.octets[2] && self.octets[3] == other.octets[3]
            && self.octets[4] == other.octets[4] && self.octets[5] == other.octets[5];
        proof {
            if b {
                assert(self@ =~= other@);
            }
        }
        b
    }
}

/// A client station.
#[derive(Clone, Debug)]
pub struct Station {
    pub mac: MacAddress,
    /// The access point that the station is associated with, if any.
    pub access_point: Option<MacAddress>,
    /// The last signal strength; zero while none was observed.
    pub rssi: i8,
    /// When the station was last seen, in seconds since the epoch.
    pub last_recv: u64,
    /// The network names that the station probed for, in order.
    pub probes: Vec<String>,
}

/// A station as the contracts speak of it: numbers, and texts as sequences
/// of characters.
pub struct StationView {
    pub mac: Seq<u8>,
    pub access_point: Option<Seq<u8>>,
    pub rssi: int,
    pub last_recv: nat,
    pub probes: Seq<Seq<char>>,
}

impl View for Station {
    type V = StationView;

    open spec fn view(&self) -> StationView {
        StationView {
            mac: self.mac@,
            access_point: match self.access_point {
                Some(ap) => Some(ap@),
                None => None,
            },
            rssi: self.rssi as int,
            last_recv: self.last_recv as nat,
            probes: self.probes@.map_values(|p: String| p@),
        }
    }
}

/// An access point.
#[derive(Clone, Debug)]
pub struct AccessPoint {
    pub mac: MacAddress,
    /// The network name: absent while unknown, empty when hidden.
    pub ssid: Option<String>,
    /// When the access point was last seen, in seconds since the epoch.
    pub last_recv: u64,
    /// The last signal strength.
    pub rssi: i8,
    /// The channel number, if known.
    pub channel: Option<u8>,
    /// The stations associated with the access point.
    pub clients: Vec<Station>,
    /// How often the monitor interacted with the access point.
    pub interactions: u64,
}

/// An access point as the contracts speak of it.
pub struct AccessPointView {
    pub mac: Seq<u8>,
    pub ssid: Option<Seq<char>>,
    pub last_recv: nat,
    pub rssi: int,
    pub channel: Option<nat>,
    pub clients: Seq<StationView>,
    pub interactions: nat,
}

impl View for AccessPoint {
    type V = AccessPointView;

    open spec fn view(&self) -> AccessPointView {
        AccessPointView {
            mac: self.mac@,
            ssid: match self.ssid {
                Some(s) => Some(s@),
                None => None,
            },
            last_recv: self.last_recv as nat,
            rssi: self.rssi as int,
            channel: match self.channel {
                Some(c) => Some(c as nat),
                None => None,
            },
            clients: self.clients@.map_values(|s: Station| s@),
            interactions: self.interactions as nat,
        }
    }
}

/// One capture of a four-way handshake between an access point and a client.
#[derive(Clone, Debug)]
pub struct Handshake {
    pub ap: MacAddress,
    pub client: MacAddress,
    /// The network name, as the capture shows it.
    pub essid: String,
    /// Which messages were captured, in the capture's own notation.
    pub progress: String,
    /// When the last message was received; absent while none was.
    pub last_msg: Option<u64>,
    pub complete: bool,
    pub pmkid: bool,
}

/// A handshake as the contracts speak of it.
pub struct HandshakeView {
    pub ap: Seq<u8>,
    pub client: Seq<u8>,
    pub essid: Seq<char>,
    pub progress: Seq<char>,
    pub last_msg: Option<nat>,
    pub complete: bool,
    pub pmkid: bool,
}

impl View for Handshake {
    type V = HandshakeView;

    open spec fn view(&self) -> HandshakeView {
        HandshakeView {
            ap: self.ap@,
            client: self.client@,
            essid: self.essid@,
            progress: self.progress@,
            last_msg: match self.last_msg {
                Some(t) => Some(t as nat),
                None => None,
            },
            complete: self.complete,
            pmkid: self.pmkid,
        }
    }
}

/// One entry of the status log.
#[derive(Clone, Debug)]
pub struct StatusMessage {
    /// When the message was logged, in seconds since the epoch.
    pub timestamp: i64,
    /// The category of the message.
    pub kind: String,
    pub content: String,
}

/// A status message as the contracts speak of it.
pub struct StatusMessageView {
    pub timestamp: int,
    pub kind: Seq<char>,
    pub content: Seq<char>,
}

impl View for StatusMessage {
    type V = StatusMessageView;

    open spec fn view(&self) -> StatusMessageView {
        StatusMessageView {
            timestamp: self.timestamp as int,
            kind: self.kind@,
            content: self.content@,
        }
    }
}

/// The key by which the access points are sorted.
#[derive(Clone, Copy, Debug, PartialEq, Eq, Structural)]
pub enum ApSort {
    Last,
    Rssi,
    Channel,
    Clients,
    Handshake,
    Pmkid,
}

/// The key by which the clients are sorted.
#[derive(Clone, Copy, Debug, PartialEq, Eq, Structural)]
pub enum ClientSort {
    Last,
    Rssi,
}

/// The four panes of the dashboard.
#[derive(Clone, Copy, Debug, PartialEq, Eq, Structural)]
pub enum Tab {
    AccessPoints,
    Clients,
    Handshakes,
    Messages,
}

/// The pane that a tab index selects.
pub open spec fn tab_at(index: int) -> Option<Tab> {
    if index == 0 {
        Some(Tab::AccessPoints)
    } else if index == 1 {
        Some(Tab::Clients)
    } else if index == 2 {
        Some(Tab::Handshakes)
    } else if index == 3 {
        Some(Tab::Messages)
    } else {
        None
    }
}

impl Tab {
    /// The pane that `index` selects; none beyond the fourth.
    pub fn from_index(index: u8) -> (tab: Option<Tab>)
        ensures
            tab == tab_at(index as int),
    {
        if index == 0 {
            Some(Tab::AccessPoints)
        } else if index == 1 {
            Some(Tab::Clients)
        } else if index == 2 {
            Some(Tab::Handshakes)
        } else if index == 3 {
            Some(Tab::Messages)
        } else {
            None
        }
    }
}

/// What the user selected: the pane, the sort keys, and whether the active
/// pane is sorted backwards.
#[derive(Clone, Copy, Debug)]
pub struct UiState {
    /// The index of the active pane.
    pub menu: u8,
    pub ap_sort: ApSort,
    pub cl_sort: ClientSort,
    pub sort_reverse: bool,
}

/// The wireless interface in use.
#[derive(Clone, Copy, Debug)]
pub struct Interface {
    /// The index by which the interface is looked up.
    pub index: Option<i32>,
    /// The channel that the interface is tuned to, if any.
    pub channel: Option<u32>,
}

/// The monitor's state at one tick.
#[derive(Clone, Debug)]
pub struct Snapshot {
    pub interface: Interface,
    pub access_points: Vec<AccessPoint>,
    /// The stations that are associated with no access point.
    pub unassoc_clients: Vec<Station>,
    pub handshakes: Vec<Handshake>,
    /// The status messages, in the order in which they arrived.
    pub status_log: Vec<StatusMessage>,
    pub frame_count: u64,
    pub error_count: u64,
    /// The address that the monitor itself sends from.
    pub rogue_client: MacAddress,
    pub ui_state: UiState,
}

/// The monitor's state as the contracts speak of it: the stores as
/// sequences, the counters as numbers, and the state of the user interface.
pub struct SnapshotView {
    pub channel: Option<nat>,
    pub access_points: Seq<AccessPointView>,
    pub unassoc_clients: Seq<StationView>,
    pub handshakes: Seq<HandshakeView>,
    pub status_log: Seq<StatusMessageView>,
    pub frame_count: nat,
    pub error_count: nat,
    pub rogue_client: Seq<u8>,
    pub menu: int,
    pub ap_sort: ApSort,
    pub cl_sort: ClientSort,
    pub sort_reverse: bool,
}

impl View for Snapshot {
    type V = SnapshotView;

    open spec fn view(&self) -> SnapshotView {
        SnapshotView {
            channel: match self.interface.channel {
                Some(c) => Some(c as nat),
                None => None,
            },
            access_points: self.access_points@.map_values(|a: AccessPoint| a@),
            unassoc_clients: self.unassoc_clients@.map_values(|s: Station| s@),
            handshakes: self.handshakes@.map_values(|h: Handshake| h@),
            status_log: self.status_log@.map_values(|m: StatusMessage| m@),
            frame_count: self.frame_count as nat,
            error_count: self.error_count as nat,
            rogue_client: self.rogue_client@,
            menu: self.ui_state.menu as int,
            ap_sort: self.ui_state.ap_sort,
            cl_sort: self.ui_state.cl_sort,
            sort_reverse: self.ui_state.sort_reverse,
        }
    }
}

} // verus!
