//! The clients pane: one row for each station, those without an access point
//! first in the store's order, then those of each access point.

use crate::chrome::{
    chrome_text, client_sort_name, complete, sort_status, sort_text, status_fits, MIN_HEIGHT,
    MIN_WIDTH,
};
use crate::listing::{
    lemma_listing_len, lemma_listing_lines, lemma_pane_len, listing, listing_lines, more_label,
    pane, rows_to_show, stacked,
};
use crate::model::{
    mac_text, AccessPointView, ClientSort, MacAddress, Snapshot, SnapshotView, Station,
    StationView, Tab,
};
use crate::order::{display_order, index_ints, key_ints, lemma_descending_order, sort_for_display};
use crate::text::{
    append_centered, append_column, append_left, clip, clipped, first_column, left_aligned,
    lemma_clipped_len, signed_decimal, signed_text,
};
use crate::time::{reading, relative_age, relative_age_text, Clock, ClockView};
use std::time::Instant;
use vstd::prelude::*;

verus! {

pub const CLIENT_HEADER: &'static str = "  MAC Address     Access Point    RSSI     Last   Probes";

/// What stands between two probed names.
pub const PROBE_SEPARATOR: &'static str = ", ";

/// The stations of the first `n` access points, one access point after
/// another.
pub open spec fn associated(aps: Seq<AccessPointView>, n: int) -> Seq<StationView>
    decreases n,
{
    if n <= 0 {
        Seq::empty()
    } else {
        associated(aps, n - 1) + aps[n - 1].clients
    }
}

/// All stations: those without an access point, then those of the access
/// points. A station that stands in two places is listed twice.
pub open spec fn stations(s: SnapshotView) -> Seq<StationView> {
    s.unassoc_clients + associated(s.access_points, s.access_points.len() as int)
}

/// The first `n` of `parts` with a separator between each two.
pub open spec fn joined(parts: Seq<Seq<char>>, n: int) -> Seq<char>
    decreases n,
{
    if n <= 0 {
        Seq::empty()
    } else if n == 1 {
        parts[0]
    } else {
        joined(parts, n - 1) + PROBE_SEPARATOR@ + parts[n - 1]
    }
}

/// The probed names of a station as one text.
pub open spec fn probes_text(probes: Seq<Seq<char>>) -> Seq<char> {
    joined(probes, probes.len() as int)
}

/// The access point of a station as a row shows it.
pub open spec fn access_point_label(ap: Option<Seq<u8>>) -> Seq<char> {
    match ap {
        Some(mac) => mac_text(mac),
        None => Seq::empty(),
    }
}

/// The signal strength of a station as a row shows it: nothing while none was
/// observed.
pub open spec fn client_rssi_label(rssi: int) -> Seq<char> {
    if rssi != 0 {
        signed_decimal(rssi)
    } else {
        Seq::empty()
    }
}

/// The columns of the station `c`: address, access point, signal strength,
/// the age in `age_width` columns, and the probed names in `probes_width`.
pub open spec fn client_columns(
    c: StationView,
    now: Option<nat>,
    age_width: int,
    probes_width: int,
) -> Seq<char> {
    left_aligned(mac_text(c.mac), 15) + " "@ + left_aligned(access_point_label(c.access_point), 15)
        + " "@ + left_aligned(client_rssi_label(c.rssi), 8) + " "@ + left_aligned(
        relative_age(c.last_recv, now),
        age_width,
    ) + " "@ + left_aligned(probes_text(c.probes), probes_width)
}

/// The columns of the station `c` as the pane shows them.
pub open spec fn client_line(c: StationView, now: Option<nat>) -> Seq<char> {
    "  "@ + client_columns(c, now, 6, 30)
}

/// The row of the station `c` in `w` columns: its columns, cut to the
/// terminal's width.
pub open spec fn client_row(c: StationView, now: Option<nat>, w: int) -> Seq<char> {
    clipped(client_line(c, now), w)
}

/// The number by which `key` sorts the station `c`.
pub open spec fn client_key(c: StationView, key: ClientSort) -> int {
    match key {
        ClientSort::Last => c.last_recv as int,
        ClientSort::Rssi => c.rssi,
    }
}

/// The sort keys of `list` under `key`.
pub open spec fn client_keys(list: Seq<StationView>, key: ClientSort) -> Seq<int> {
    Seq::new(list.len(), |i: int| client_key(list[i], key))
}

/// The rows of `list` in the order `order` of their places in it.
pub open spec fn client_rows(
    list: Seq<StationView>,
    order: Seq<int>,
    now: Option<nat>,
    w: int,
) -> Seq<Seq<char>> {
    Seq::new(order.len(), |i: int| client_row(list[order[i]], now, w))
}

/// The rows of all stations, sorted as the user selected.
pub open spec fn sorted_client_rows(s: SnapshotView, now: Option<nat>, w: int) -> Seq<Seq<char>> {
    client_rows(
        stations(s),
        display_order(client_keys(stations(s), s.cl_sort), s.sort_reverse),
        now,
        w,
    )
}

/// The status text of the clients pane.
pub open spec fn client_status(s: SnapshotView) -> Seq<char> {
    sort_text(client_sort_name(s.cl_sort), s.sort_reverse, s.error_count)
}

/// The clients pane in a terminal of `w` columns and `h` lines.
pub open spec fn clients_text(
    s: SnapshotView,
    w: int,
    h: int,
    clock: ClockView,
    rate: nat,
) -> Seq<char> {
    pane(
        Tab::Clients,
        w,
        h,
        clock.uptime,
        s.frame_count,
        rate,
        client_status(s),
        CLIENT_HEADER@,
        listing(sorted_client_rows(s, clock.now, w), w, h),
    )
}

/// In a terminal of at least the smallest size, the clients pane takes
/// exactly as many lines as the terminal has, each of the terminal's width,
/// wherever the status texts fit beside the tab bar: a row never runs over.
pub proof fn lemma_clients_pane_fills_screen(
    oxide: Snapshot,
    w: int,
    h: int,
    clock: Clock,
    rate: u64,
)
    requires
        w >= MIN_WIDTH,
        h >= MIN_HEIGHT,
        stations(oxide@).len() <= usize::MAX,
        status_fits(w, oxide@.frame_count, rate as nat, client_status(oxide@)),
    ensures
        clients_text(oxide@, w, h, clock@, rate as nat).len() == w * h,
{
    let s = oxide@;
    let list = stations(s);
    let order = display_order(client_keys(list, s.cl_sort), s.sort_reverse);
    let rows = sorted_client_rows(s, clock@.now, w);
    reveal_strlit("  MAC Address     Access Point    RSSI     Last   Probes");
    lemma_descending_order(client_keys(list, s.cl_sort));
    assert(rows.len() == list.len());
    assert forall|i: int| 0 <= i < rows.len() implies (#[trigger] rows[i]).len() <= w by {
        lemma_clipped_len(client_line(list[order[i]], clock@.now), w);
    }
    lemma_listing_lines(rows.len() as int, h);
    lemma_listing_len(rows, w, h);
    lemma_pane_len(
        Tab::Clients,
        w,
        h,
        clock@.uptime,
        s.frame_count,
        rate as nat,
        client_status(s),
        CLIENT_HEADER@,
        listing(rows, w, h),
        listing_lines(rows.len() as int, h),
    );
}

/// The views of a list of stations.
pub open spec fn station_views(list: Seq<&Station>) -> Seq<StationView> {
    list.map_values(|c: &Station| c@)
}

/// All stations: those without an access point, then those of the access
/// points.
pub fn all_stations(oxide: &Snapshot) -> (list: Vec<&Station>)
    ensures
        station_views(list@) == stations(oxide@),
{
    let ghost s = oxide@;
    let mut list: Vec<&Station> = Vec::new();
    let mut i: usize = 0;
    while i < oxide.unassoc_clients.len()
        invariant
            i <= oxide.unassoc_clients.len(),
            s == oxide@,
            station_views(list@) == s.unassoc_clients.take(i as int),
        decreases oxide.unassoc_clients.len() - i,
    {
        let ghost listed = station_views(list@);
        let c = &oxide.unassoc_clients[i];
        list.push(c);
        assert(s.unassoc_clients[i as int] == c@);
        assert(station_views(list@) =~= listed.push(c@));
        assert(station_views(list@) =~= s.unassoc_clients.take(i + 1));
        i += 1;
    }
    assert(station_views(list@) =~= s.unassoc_clients + associated(s.access_points, 0));
    let mut a: usize = 0;
    while a < oxide.access_points.len()
        invariant
            a <= oxide.access_points.len(),
            s == oxide@,
            station_views(list@) == s.unassoc_clients + associated(s.access_points, a as int),
        decreases oxide.access_points.len() - a,
    {
        let ap = &oxide.access_points[a];
        let ghost before = station_views(list@);
        assert(s.access_points[a as int] == ap@);
        let mut j: usize = 0;
        assert(station_views(list@) =~= before + ap@.clients.take(0));
        while j < ap.clients.len()
            invariant
                j <= ap.clients.len(),
                station_views(list@) == before + ap@.clients.take(j as int),
            decreases ap.clients.len() - j,
        {
            let ghost listed = station_views(list@);
            let c = &ap.clients[j];
            list.push(c);
            assert(ap@.clients[j as int] == c@);
            assert(station_views(list@) =~= listed.push(c@));
            assert(station_views(list@) =~= before + ap@.clients.take(j + 1));
            j += 1;
        }
        assert(ap@.clients.take(j as int) =~= ap@.clients);
        assert(station_views(list@) =~= s.unassoc_clients + associated(s.access_points, a + 1));
        a += 1;
    }
    list
}

/// The probed names of a station as one text.
pub fn probes_label(probes: &Vec<String>) -> (label: String)
    ensures
        label@ == probes_text(probes@.map_values(|p: String| p@)),
{
    let ghost parts = probes@.map_values(|p: String| p@);
    let mut label = String::new();
    let mut i: usize = 0;
    while i < probes.len()
        invariant
            i <= probes.len(),
            parts == probes@.map_values(|p: String| p@),
            label@ == joined(parts, i as int),
        decreases probes.len() - i,
    {
        if i > 0 {
            label.append(PROBE_SEPARATOR);
        }
        label.append(probes[i].as_str());
        assert(label@ =~= joined(parts, i + 1));
        i += 1;
    }
    label
}

/// The access point of a station as a row shows it.
pub fn access_point_text(ap: &Option<MacAddress>) -> (label: String)
    ensures
        label@ == access_point_label(
            match ap {
                Some(mac) => Some(mac@),
                None => None,
            },
        ),
{
    match ap {
        Some(mac) => mac.text(),
        None => String::new(),
    }
}

/// The signal strength of a station as a row shows it.
pub fn client_rssi_text(rssi: i8) -> (label: String)
    ensures
        label@ == client_rssi_label(rssi as int),
{
    if rssi != 0 {
        signed_text(rssi as i64)
    } else {
        String::new()
    }
}

/// The columns of the station `c`, the age in `age_width` columns and the
/// probed names in `probes_width`.
pub fn client_columns_text(
    c: &Station,
    now: Option<u64>,
    age_width: usize,
    probes_width: usize,
) -> (line: String)
    ensures
        line@ == client_columns(c@, reading(now), age_width as int, probes_width as int),
{
    let mac = c.mac.text();
    let ap = access_point_text(&c.access_point);
    let rssi = client_rssi_text(c.rssi);
    let age = relative_age_text(c.last_recv, now);
    let probes = probes_label(&c.probes);
    let mut line = first_column(mac.as_str(), 15);
    append_column(&mut line, ap.as_str(), 15);
    append_column(&mut line, rssi.as_str(), 8);
    append_column(&mut line, age.as_str(), age_width);
    append_column(&mut line, probes.as_str(), probes_width);
    line
}

/// The row of the station `c` in `w` columns.
pub fn client_row_text(c: &Station, now: Option<u64>, w: usize) -> (row: String)
    requires
        w >= 3,
    ensures
        row@ == client_row(c@, reading(now), w as int),
{
    let columns = client_columns_text(c, now, 6, 30);
    let mut line = String::from_str("  ");
    line.append(columns.as_str());
    clip(line.as_str(), w)
}

/// The number by which `key` sorts the station `c`.
fn client_sort_key(c: &Station, key: ClientSort) -> (k: i128)
    ensures
        k as int == client_key(c@, key),
{
    match key {
        ClientSort::Last => c.last_recv as i128,
        ClientSort::Rssi => c.rssi as i128,
    }
}

/// The sort keys of `list` under `key`.
pub fn client_sort_keys(list: &Vec<&Station>, key: ClientSort) -> (keys: Vec<i128>)
    ensures
        key_ints(keys@) == client_keys(station_views(list@), key),
        keys@.len() == list@.len(),
{
    let mut keys: Vec<i128> = Vec::new();
    let mut i: usize = 0;
    while i < list.len()
        invariant
            i <= list.len(),
            keys@.len() == i,
            forall|j: int|
                0 <= j < i ==> (#[trigger] keys@[j]) as int == client_key(
                    station_views(list@)[j],
                    key,
                ),
        decreases list.len() - i,
    {
        keys.push(client_sort_key(list[i], key));
        i += 1;
    }
    assert(key_ints(keys@) =~= client_keys(station_views(list@), key));
    keys
}

/// Appends the list of the clients pane.
fn append_client_listing(out: &mut String, oxide: &Snapshot, now: Option<u64>, w: usize, h: usize)
    requires
        w >= 3,
        h >= MIN_HEIGHT,
    ensures
        final(out)@ == old(out)@ + listing(
            sorted_client_rows(oxide@, reading(now), w as int),
            w as int,
            h as int,
        ),
{
    let list = all_stations(oxide);
    let keys = client_sort_keys(&list, oxide.ui_state.cl_sort);
    let order = sort_for_display(&keys, oxide.ui_state.sort_reverse);
    let total = list.len();
    let shown = rows_to_show(total, h);
    let ghost rows = sorted_client_rows(oxide@, reading(now), w as int);
    let mut i: usize = 0;
    assert(out@ =~= old(out)@ + stacked(rows, w as int, 0));
    while i < shown
        invariant
            w >= 3,
            i <= shown <= total,
            total == list@.len(),
            order@.len() == total,
            rows == client_rows(
                station_views(list@),
                index_ints(order@),
                reading(now),
                w as int,
            ),
            forall|j: int| 0 <= j < order@.len() ==> #[trigger] order@[j] < total,
            out@ == old(out)@ + stacked(rows, w as int, i as int),
        decreases shown - i,
    {
        let c = list[order[i]];
        assert(station_views(list@)[index_ints(order@)[i as int]] == c@);
        let row = client_row_text(c, now, w);
        assert(row@ == rows[i as int]);
        append_left(out, row.as_str(), w);
        assert(out@ =~= old(out)@ + stacked(rows, w as int, i + 1));
        i += 1;
    }
    if shown < total {
        let note = more_label(total - shown);
        append_centered(out, note.as_str(), w);
    }
    assert(out@ =~= old(out)@ + listing(rows, w as int, h as int));
}

/// The clients pane at the clock reading `clock`, for a terminal of
/// `winsize.0` columns and `winsize.1` lines.
pub fn render_clients(
    oxide: &Snapshot,
    winsize: (u16, u16),
    clock: &Clock,
    framerate: u64,
) -> (frame: String)
    requires
        winsize.0 >= MIN_WIDTH,
        winsize.1 >= MIN_HEIGHT,
    ensures
        frame@ == clients_text(
            oxide@,
            winsize.0 as int,
            winsize.1 as int,
            clock@,
            framerate as nat,
        ),
{
    let w = winsize.0 as usize;
    let h = winsize.1 as usize;
    let status = sort_status(
        oxide.ui_state.cl_sort.name(),
        oxide.ui_state.sort_reverse,
        oxide.error_count,
    );
    let mut frame = chrome_text(
        Tab::Clients,
        w,
        clock.uptime,
        oxide.frame_count,
        framerate,
        status.as_str(),
    );
    append_left(&mut frame, CLIENT_HEADER, w);
    append_client_listing(&mut frame, oxide, clock.now, w, h);
    complete(&mut frame, w, h);
    assert(frame@ =~= clients_text(oxide@, w as int, h as int, clock@, framerate as nat));
    frame
}

/// The clients pane as it stands now, `start_time` being the moment at which
/// the dashboard started.
pub fn clients_pane(
    oxide: &Snapshot,
    winsize: (u16, u16),
    start_time: Instant,
    framerate: u64,
) -> (frame: String)
    requires
        winsize.0 >= MIN_WIDTH,
        winsize.1 >= MIN_HEIGHT,
    ensures
        exists|clock: Clock|
            frame@ == clients_text(
                oxide@,
                winsize.0 as int,
                winsize.1 as int,
                clock@,
                framerate as nat,
            ),
{
    let clock = Clock::read(&start_time);
    let frame = render_clients(oxide, winsize, &clock, framerate);
    assert(frame@ == clients_text(
        oxide@,
        winsize.0 as int,
        winsize.1 as int,
        clock@,
        framerate as nat,
    ));
    frame
}

} // verus!
