//! The access-points pane: one row for each access point, sorted by the key
//! that the user selected.

use crate::chrome::{
    ap_sort_name, chrome_text, complete, sort_status, sort_text, status_fits, MIN_HEIGHT,
    MIN_WIDTH,
};
use crate::listing::{
    lemma_listing_len, lemma_listing_lines, lemma_pane_len, listing, listing_lines, more_label,
    more_text, pane, rows_fit, rows_to_show, shown_rows, ssid_label, ssid_text, stacked,
    visible_rows,
};
use crate::model::{
    mac_text, AccessPoint, AccessPointView, ApSort, HandshakeView, MacAddress, Snapshot,
    SnapshotView, Tab,
};
use crate::order::{
    display_order, index_ints, key_ints, lemma_descending_order, lemma_reverse_flag_reverses,
    sort_for_display,
};
use crate::text::{
    append_centered, append_column, append_left, centered, decimal, decimal_text, first_column,
    left_aligned, signed_decimal, signed_text,
};
use crate::time::{reading, relative_age, relative_age_text, Clock, ClockView};
use std::time::Instant;
use vstd::prelude::*;
use vstd::seq_lib::lemma_concat_associative;

verus! {

pub const AP_HEADER: &'static str = "  MAC Address     CH   RSSI  Last  SSID                           Clients    Tx    4wHS  PMKID";

/// The mark of a capture: a check mark, and a character without width to
/// make up for the column that the mark takes beyond its own.
pub const CAPTURED: &'static str = "\u{2705}\0";

/// Whether a handshake with the access point `ap` is complete.
pub open spec fn has_complete(handshakes: Seq<HandshakeView>, ap: Seq<u8>) -> bool {
    exists|i: int|
        0 <= i < handshakes.len() && (#[trigger] handshakes[i]).ap == ap && handshakes[i].complete
}

/// Whether a handshake with the access point `ap` holds a PMKID.
pub open spec fn has_pmkid(handshakes: Seq<HandshakeView>, ap: Seq<u8>) -> bool {
    exists|i: int|
        0 <= i < handshakes.len() && (#[trigger] handshakes[i]).ap == ap && handshakes[i].pmkid
}

/// The channel as a row shows it.
pub open spec fn channel_label(channel: Option<nat>) -> Seq<char> {
    match channel {
        Some(c) => decimal(c),
        None => "?"@,
    }
}

/// The cell of a capture column.
pub open spec fn capture_mark(captured: bool) -> Seq<char> {
    if captured {
        CAPTURED@
    } else {
        " "@
    }
}

/// The columns of the access point `ap`: address, channel, signal strength,
/// age, the network name `ssid`, the number of clients, the interactions, and
/// the cells `complete` and `pmkid` of the two capture columns.
pub open spec fn ap_columns(
    ap: AccessPointView,
    ssid: Seq<char>,
    complete: Seq<char>,
    pmkid: Seq<char>,
    now: Option<nat>,
) -> Seq<char> {
    left_aligned(mac_text(ap.mac), 15) + " "@ + left_aligned(channel_label(ap.channel), 4) + " "@
        + left_aligned(signed_decimal(ap.rssi), 5) + " "@ + left_aligned(
        relative_age(ap.last_recv, now),
        5,
    ) + " "@ + left_aligned(ssid, 30) + " "@ + left_aligned(decimal(ap.clients.len()), 10) + " "@
        + left_aligned(decimal(ap.interactions), 5) + " "@ + left_aligned(complete, 5) + " "@
        + left_aligned(pmkid, 5)
}

/// The row of the access point `ap`, given whether a complete handshake and
/// a PMKID were captured at it.
pub open spec fn ap_row_of(
    ap: AccessPointView,
    complete: bool,
    pmkid: bool,
    now: Option<nat>,
) -> Seq<char> {
    "  "@ + ap_columns(ap, ssid_label(ap.ssid), capture_mark(complete), capture_mark(pmkid), now)
}

/// The row of the access point `ap`.
pub open spec fn ap_row(
    ap: AccessPointView,
    handshakes: Seq<HandshakeView>,
    now: Option<nat>,
) -> Seq<char> {
    ap_row_of(ap, has_complete(handshakes, ap.mac), has_pmkid(handshakes, ap.mac), now)
}

/// The number by which `key` sorts the access point `ap`; an unknown channel
/// sorts below every known one.
pub open spec fn ap_key(ap: AccessPointView, handshakes: Seq<HandshakeView>, key: ApSort) -> int {
    match key {
        ApSort::Last => ap.last_recv as int,
        ApSort::Rssi => ap.rssi,
        ApSort::Channel => match ap.channel {
            Some(c) => c as int,
            None => -1,
        },
        ApSort::Clients => ap.clients.len() as int,
        ApSort::Handshake => if has_complete(handshakes, ap.mac) {
            1
        } else {
            0
        },
        ApSort::Pmkid => if has_pmkid(handshakes, ap.mac) {
            1
        } else {
            0
        },
    }
}

/// The sort keys of the access points under `key`, in the order of the store.
pub open spec fn ap_keys(s: SnapshotView, key: ApSort) -> Seq<int> {
    Seq::new(s.access_points.len(), |i: int| ap_key(s.access_points[i], s.handshakes, key))
}

/// The rows of all access points, in the order `order` of their places in
/// the store.
pub open spec fn ap_rows(s: SnapshotView, order: Seq<int>, now: Option<nat>) -> Seq<Seq<char>> {
    Seq::new(order.len(), |i: int| ap_row(s.access_points[order[i]], s.handshakes, now))
}

/// The rows of all access points, sorted as the user selected.
pub open spec fn sorted_ap_rows(s: SnapshotView, now: Option<nat>) -> Seq<Seq<char>> {
    ap_rows(s, display_order(ap_keys(s, s.ap_sort), s.sort_reverse), now)
}

/// The status text of the access-points pane.
pub open spec fn ap_status(s: SnapshotView) -> Seq<char> {
    sort_text(ap_sort_name(s.ap_sort), s.sort_reverse, s.error_count)
}

/// The access-points pane in a terminal of `w` columns and `h` lines.
pub open spec fn access_points_text(
    s: SnapshotView,
    w: int,
    h: int,
    clock: ClockView,
    rate: nat,
) -> Seq<char> {
    pane(
        Tab::AccessPoints,
        w,
        h,
        clock.uptime,
        s.frame_count,
        rate,
        ap_status(s),
        AP_HEADER@,
        listing(sorted_ap_rows(s, clock.now), w, h),
    )
}

/// Whether every line of the access-points pane fits the terminal: the status
/// texts beside the tab bar, and each row that is shown.
pub open spec fn ap_lines_fit(s: SnapshotView, w: int, h: int, clock: ClockView, rate: nat) -> bool {
    &&& status_fits(w, s.frame_count, rate, ap_status(s))
    &&& rows_fit(
        sorted_ap_rows(s, clock.now),
        w,
        shown_rows(s.access_points.len() as int, visible_rows(h)),
    )
}

/// In a terminal of at least the smallest size, the access-points pane takes
/// exactly as many lines as the terminal has, each of the terminal's width,
/// wherever its lines fit.
pub proof fn lemma_access_points_pane_fills_screen(
    oxide: Snapshot,
    w: int,
    h: int,
    clock: Clock,
    rate: u64,
)
    requires
        w >= MIN_WIDTH,
        h >= MIN_HEIGHT,
        ap_lines_fit(oxide@, w, h, clock@, rate as nat),
    ensures
        access_points_text(oxide@, w, h, clock@, rate as nat).len() == w * h,
{
    let s = oxide@;
    let rows = sorted_ap_rows(s, clock@.now);
    reveal_strlit(
        "  MAC Address     CH   RSSI  Last  SSID                           Clients    Tx    4wHS  PMKID",
    );
    assert(oxide.access_points@.len() == oxide.access_points.len());
    lemma_descending_order(ap_keys(s, s.ap_sort));
    assert(rows.len() == s.access_points.len());
    lemma_listing_lines(rows.len() as int, h);
    lemma_listing_len(rows, w, h);
    lemma_pane_len(
        Tab::AccessPoints,
        w,
        h,
        clock@.uptime,
        s.frame_count,
        rate as nat,
        ap_status(s),
        AP_HEADER@,
        listing(rows, w, h),
        listing_lines(rows.len() as int, h),
    );
}

/// Whatever the sort key, the rows with the reverse flag set are exactly the
/// rows without it in reverse order, rows with equal keys among them.
pub proof fn lemma_reverse_flag_reverses_access_points(s: SnapshotView, now: Option<nat>)
    ensures
        sorted_ap_rows((SnapshotView { sort_reverse: true, ..s }), now) == sorted_ap_rows(
            (SnapshotView { sort_reverse: false, ..s }),
            now,
        ).reverse(),
{
    let up = SnapshotView { sort_reverse: true, ..s };
    let down = SnapshotView { sort_reverse: false, ..s };
    let keys = ap_keys(s, s.ap_sort);
    assert(ap_keys(up, up.ap_sort) =~= keys);
    assert(ap_keys(down, down.ap_sort) =~= keys);
    lemma_reverse_flag_reverses(keys);
    assert(sorted_ap_rows(up, now) =~= sorted_ap_rows(down, now).reverse());
}

/// Whether a complete handshake, and whether a PMKID, was captured at the
/// access point `ap`.
pub fn captures_at(oxide: &Snapshot, ap: &MacAddress) -> (found: (bool, bool))
    ensures
        found.0 == has_complete(oxide@.handshakes, ap@),
        found.1 == has_pmkid(oxide@.handshakes, ap@),
{
    let ghost hs = oxide@.handshakes;
    let mut complete = false;
    let mut pmkid = false;
    let mut i: usize = 0;
    while i < oxide.handshakes.len()
        invariant
            i <= oxide.handshakes.len(),
            hs == oxide@.handshakes,
            complete == (exists|j: int|
                0 <= j < i && (#[trigger] hs[j]).ap == ap@ && hs[j].complete),
            pmkid == (exists|j: int| 0 <= j < i && (#[trigger] hs[j]).ap == ap@ && hs[j].pmkid),
        decreases oxide.handshakes.len() - i,
    {
        let h = &oxide.handshakes[i];
        assert(hs[i as int] == h@);
        if h.ap.same(ap) {
            if h.complete {
                complete = true;
            }
            if h.pmkid {
                pmkid = true;
            }
        }
        i += 1;
    }
    (complete, pmkid)
}

/// The channel as a row shows it.
pub fn channel_text(channel: Option<u8>) -> (label: String)
    ensures
        label@ == channel_label(
            match channel {
                Some(c) => Some(c as nat),
                None => None,
            },
        ),
{
    match channel {
        Some(c) => decimal_text(c as u64),
        None => String::from_str("?"),
    }
}

/// The columns of the access point `ap`, with `ssid` for its network name
/// and `complete` and `pmkid` in its capture columns.
pub fn ap_columns_text(
    ap: &AccessPoint,
    ssid: &str,
    complete: &str,
    pmkid: &str,
    now: Option<u64>,
) -> (row: String)
    ensures
        row@ == ap_columns(ap@, ssid@, complete@, pmkid@, reading(now)),
{
    let mac = ap.mac.text();
    let channel = channel_text(ap.channel);
    let rssi = signed_text(ap.rssi as i64);
    let age = relative_age_text(ap.last_recv, now);
    let clients = decimal_text(ap.clients.len() as u64);
    let interactions = decimal_text(ap.interactions);
    let mut row = first_column(mac.as_str(), 15);
    append_column(&mut row, channel.as_str(), 4);
    append_column(&mut row, rssi.as_str(), 5);
    append_column(&mut row, age.as_str(), 5);
    append_column(&mut row, ssid, 30);
    append_column(&mut row, clients.as_str(), 10);
    append_column(&mut row, interactions.as_str(), 5);
    append_column(&mut row, complete, 5);
    append_column(&mut row, pmkid, 5);
    row
}

/// The row of the access point `ap`, given whether a complete handshake and
/// a PMKID were captured at it.
pub fn ap_row_text(
    ap: &AccessPoint,
    complete: bool,
    pmkid: bool,
    now: Option<u64>,
) -> (row: String)
    ensures
        row@ == ap_row_of(ap@, complete, pmkid, reading(now)),
{
    let ssid = ssid_text(&ap.ssid);
    let columns = ap_columns_text(
        ap,
        ssid.as_str(),
        if complete {
            CAPTURED
        } else {
            " "
        },
        if pmkid {
            CAPTURED
        } else {
            " "
        },
        now,
    );
    let mut row = String::from_str("  ");
    row.append(columns.as_str());
    row
}

/// The number by which `key` sorts the access point `ap`.
fn ap_sort_key(oxide: &Snapshot, ap: &AccessPoint, key: ApSort) -> (k: i128)
    ensures
        k as int == ap_key(ap@, oxide@.handshakes, key),
{
    match key {
        ApSort::Last => ap.last_recv as i128,
        ApSort::Rssi => ap.rssi as i128,
        ApSort::Channel => match ap.channel {
            Some(c) => c as i128,
            None => -1,
        },
        ApSort::Clients => ap.clients.len() as i128,
        ApSort::Handshake => if captures_at(oxide, &ap.mac).0 {
            1
        } else {
            0
        },
        ApSort::Pmkid => if captures_at(oxide, &ap.mac).1 {
            1
        } else {
            0
        },
    }
}

/// The sort keys of the access points under `key`, in the order of the store.
pub fn ap_sort_keys(oxide: &Snapshot, key: ApSort) -> (keys: Vec<i128>)
    ensures
        key_ints(keys@) == ap_keys(oxide@, key),
        keys@.len() == oxide.access_points@.len(),
{
    let mut keys: Vec<i128> = Vec::new();
    let mut i: usize = 0;
    while i < oxide.access_points.len()
        invariant
            i <= oxide.access_points.len(),
            keys@.len() == i,
            forall|j: int|
                0 <= j < i ==> (#[trigger] keys@[j]) as int == ap_key(
                    oxide@.access_points[j],
                    oxide@.handshakes,
                    key,
                ),
        decreases oxide.access_points.len() - i,
    {
        let ap = &oxide.access_points[i];
        assert(oxide@.access_points[i as int] == ap@);
        keys.push(ap_sort_key(oxide, ap, key));
        i += 1;
    }
    assert(key_ints(keys@) =~= ap_keys(oxide@, key));
    keys
}

/// Appends the list of the access-points pane.
fn append_ap_listing(out: &mut String, oxide: &Snapshot, now: Option<u64>, w: usize, h: usize)
    requires
        h >= MIN_HEIGHT,
    ensures
        final(out)@ == old(out)@ + listing(
            sorted_ap_rows(oxide@, reading(now)),
            w as int,
            h as int,
        ),
{
    let keys = ap_sort_keys(oxide, oxide.ui_state.ap_sort);
    let order = sort_for_display(&keys, oxide.ui_state.sort_reverse);
    let total = oxide.access_points.len();
    let shown = rows_to_show(total, h);
    let ghost rows = sorted_ap_rows(oxide@, reading(now));
    let mut i: usize = 0;
    assert(out@ =~= old(out)@ + stacked(rows, w as int, 0));
    while i < shown
        invariant
            i <= shown <= total,
            total == oxide.access_points.len(),
            order@.len() == total,
            rows == ap_rows(oxide@, index_ints(order@), reading(now)),
            forall|j: int| 0 <= j < order@.len() ==> #[trigger] order@[j] < total,
            out@ == old(out)@ + stacked(rows, w as int, i as int),
        decreases shown - i,
    {
        let ap = &oxide.access_points[order[i]];
        assert(oxide@.access_points[index_ints(order@)[i as int]] == ap@);
        let found = captures_at(oxide, &ap.mac);
        let row = ap_row_text(ap, found.0, found.1, now);
        assert(row@ == rows[i as int]);
        append_left(out, row.as_str(), w);
        proof {
            lemma_concat_associative(
                old(out)@,
                stacked(rows, w as int, i as int),
                left_aligned(rows[i as int], w as int),
            );
        }
        i += 1;
    }
    if shown < total {
        let note = more_label(total - shown);
        append_centered(out, note.as_str(), w);
        proof {
            lemma_concat_associative(
                old(out)@,
                stacked(rows, w as int, shown as int),
                centered(more_text((total - shown) as nat), w as int),
            );
        }
    }
}

/// The access-points pane at the clock reading `clock`, for a terminal of
/// `winsize.0` columns and `winsize.1` lines.
pub fn render_access_points(
    oxide: &Snapshot,
    winsize: (u16, u16),
    clock: &Clock,
    framerate: u64,
) -> (frame: String)
    requires
        winsize.0 >= MIN_WIDTH,
        winsize.1 >= MIN_HEIGHT,
    ensures
        frame@ == access_points_text(
            oxide@,
            winsize.0 as int,
            winsize.1 as int,
            clock@,
            framerate as nat,
        ),
{
    let w = winsize.0 as usize;
    let h = winsize.1 as usize;
    let status = sort_status(
        oxide.ui_state.ap_sort.name(),
        oxide.ui_state.sort_reverse,
        oxide.error_count,
    );
    let mut frame = chrome_text(
        Tab::AccessPoints,
        w,
        clock.uptime,
        oxide.frame_count,
        framerate,
        status.as_str(),
    );
    append_left(&mut frame, AP_HEADER, w);
    append_ap_listing(&mut frame, oxide, clock.now, w, h);
    complete(&mut frame, w, h);
    assert(frame@ =~= access_points_text(oxide@, w as int, h as int, clock@, framerate as nat));
    frame
}

/// The access-points pane as it stands now, `start_time` being the moment at
/// which the dashboard started.
pub fn access_points_pane(
    oxide: &Snapshot,
    winsize: (u16, u16),
    start_time: Instant,
    framerate: u64,
) -> (frame: String)
    requires
        winsize.0 >= MIN_WIDTH,
        winsize.1 >= MIN_HEIGHT,
    ensures
        exists|clock: Clock|
            frame@ == access_points_text(
                oxide@,
                winsize.0 as int,
                winsize.1 as int,
                clock@,
                framerate as nat,
            ),
{
    let clock = Clock::read(&start_time);
    let frame = render_access_points(oxide, winsize, &clock, framerate);
    assert(frame@ == access_points_text(
        oxide@,
        winsize.0 as int,
        winsize.1 as int,
        clock@,
        framerate as nat,
    ));
    frame
}

} // verus!
