//! The handshakes pane: one row for each captured handshake, the one whose
//! last message is the most recent first.

use crate::chrome::{
    chrome_text, complete, errors, errors_text, status_fits, MIN_HEIGHT, MIN_WIDTH,
};
use crate::listing::{
    lemma_listing_len, lemma_listing_lines, lemma_pane_len, listing, listing_lines, more_label,
    pane, rows_fit, rows_to_show, shown_rows, stacked, visible_rows, SSID_WIDTH,
};
use crate::model::{mac_text, Handshake, HandshakeView, Snapshot, SnapshotView, Tab};
use crate::order::{descending_order, index_ints, key_ints, lemma_descending_order, sort_for_display};
use crate::text::{
    append_centered, append_column, append_left, clip, clipped, first_column, left_aligned,
};
use crate::time::{Clock, ClockView};
use std::time::Instant;
use vstd::prelude::*;

verus! {

pub const HANDSHAKE_HEADER: &'static str = "  AP MAC          Client MAC      SSID                           [M1 M2 M3 M4 MC] | [PM] | COMPLETE";

/// The columns of the handshake `hs`: both addresses, the network name
/// `essid`, and the progress of the capture as the capture words it.
pub open spec fn handshake_columns(hs: HandshakeView, essid: Seq<char>) -> Seq<char> {
    left_aligned(mac_text(hs.ap), 15) + " "@ + left_aligned(mac_text(hs.client), 15) + " "@
        + left_aligned(essid, 30) + " "@ + left_aligned(hs.progress, 30)
}

/// The row of the handshake `hs`, its network name cut to the column.
pub open spec fn handshake_row(hs: HandshakeView) -> Seq<char> {
    "  "@ + handshake_columns(hs, clipped(hs.essid, SSID_WIDTH as int))
}

/// The number by which the handshake `hs` is sorted: the time of its last
/// message; a handshake without a message sorts below all others.
pub open spec fn handshake_key(hs: HandshakeView) -> int {
    match hs.last_msg {
        Some(t) => t as int,
        None => -1,
    }
}

/// The sort keys of the handshakes, in the order of the store.
pub open spec fn handshake_keys(list: Seq<HandshakeView>) -> Seq<int> {
    Seq::new(list.len(), |i: int| handshake_key(list[i]))
}

/// The rows of `list` in the order `order` of their places in it.
pub open spec fn handshake_rows(list: Seq<HandshakeView>, order: Seq<int>) -> Seq<Seq<char>> {
    Seq::new(order.len(), |i: int| handshake_row(list[order[i]]))
}

/// The rows of all handshakes, the most recent first.
pub open spec fn sorted_handshake_rows(s: SnapshotView) -> Seq<Seq<char>> {
    handshake_rows(s.handshakes, descending_order(handshake_keys(s.handshakes)))
}

/// The handshakes pane in a terminal of `w` columns and `h` lines.
pub open spec fn handshakes_text(
    s: SnapshotView,
    w: int,
    h: int,
    clock: ClockView,
    rate: nat,
) -> Seq<char> {
    pane(
        Tab::Handshakes,
        w,
        h,
        clock.uptime,
        s.frame_count,
        rate,
        errors_text(s.error_count),
        HANDSHAKE_HEADER@,
        listing(sorted_handshake_rows(s), w, h),
    )
}

/// Whether every line of the handshakes pane fits the terminal: the status
/// texts beside the tab bar, and each row that is shown.
pub open spec fn handshake_lines_fit(s: SnapshotView, w: int, h: int, rate: nat) -> bool {
    &&& status_fits(w, s.frame_count, rate, errors_text(s.error_count))
    &&& rows_fit(
        sorted_handshake_rows(s),
        w,
        shown_rows(s.handshakes.len() as int, visible_rows(h)),
    )
}

/// In a terminal of at least the smallest size, the handshakes pane takes
/// exactly as many lines as the terminal has, each of the terminal's width,
/// wherever its lines fit.
pub proof fn lemma_handshakes_pane_fills_screen(
    oxide: Snapshot,
    w: int,
    h: int,
    clock: Clock,
    rate: u64,
)
    requires
        w >= MIN_WIDTH,
        h >= MIN_HEIGHT,
        handshake_lines_fit(oxide@, w, h, rate as nat),
    ensures
        handshakes_text(oxide@, w, h, clock@, rate as nat).len() == w * h,
{
    let s = oxide@;
    let rows = sorted_handshake_rows(s);
    reveal_strlit(
        "  AP MAC          Client MAC      SSID                           [M1 M2 M3 M4 MC] | [PM] | COMPLETE",
    );
    assert(oxide.handshakes@.len() == oxide.handshakes.len());
    lemma_descending_order(handshake_keys(s.handshakes));
    assert(rows.len() == s.handshakes.len());
    lemma_listing_lines(rows.len() as int, h);
    lemma_listing_len(rows, w, h);
    lemma_pane_len(
        Tab::Handshakes,
        w,
        h,
        clock@.uptime,
        s.frame_count,
        rate as nat,
        errors_text(s.error_count),
        HANDSHAKE_HEADER@,
        listing(rows, w, h),
        listing_lines(rows.len() as int, h),
    );
}

/// The columns of the handshake `hs`, with `essid` for its network name.
pub fn handshake_columns_text(hs: &Handshake, essid: &str) -> (row: String)
    ensures
        row@ == handshake_columns(hs@, essid@),
{
    let ap = hs.ap.text();
    let client = hs.client.text();
    let mut row = first_column(ap.as_str(), 15);
    append_column(&mut row, client.as_str(), 15);
    append_column(&mut row, essid, 30);
    append_column(&mut row, hs.progress.as_str(), 30);
    row
}

/// The row of the handshake `hs`.
pub fn handshake_row_text(hs: &Handshake) -> (row: String)
    ensures
        row@ == handshake_row(hs@),
{
    let essid = clip(hs.essid.as_str(), SSID_WIDTH);
    let columns = handshake_columns_text(hs, essid.as_str());
    let mut row = String::from_str("  ");
    row.append(columns.as_str());
    row
}

/// The sort keys of the handshakes, in the order of the store.
pub fn handshake_sort_keys(oxide: &Snapshot) -> (keys: Vec<i128>)
    ensures
        key_ints(keys@) == handshake_keys(oxide@.handshakes),
        keys@.len() == oxide.handshakes@.len(),
{
    let mut keys: Vec<i128> = Vec::new();
    let mut i: usize = 0;
    while i < oxide.handshakes.len()
        invariant
            i <= oxide.handshakes.len(),
            keys@.len() == i,
            forall|j: int|
                0 <= j < i ==> (#[trigger] keys@[j]) as int == handshake_key(oxide@.handshakes[j]),
        decreases oxide.handshakes.len() - i,
    {
        let hs = &oxide.handshakes[i];
        assert(oxide@.handshakes[i as int] == hs@);
        let k: i128 = match hs.last_msg {
            Some(t) => t as i128,
            None => -1,
        };
        keys.push(k);
        i += 1;
    }
    assert(key_ints(keys@) =~= handshake_keys(oxide@.handshakes));
    keys
}

/// Appends the list of the handshakes pane.
fn append_handshake_listing(out: &mut String, oxide: &Snapshot, w: usize, h: usize)
    requires
        h >= MIN_HEIGHT,
    ensures
        final(out)@ == old(out)@ + listing(sorted_handshake_rows(oxide@), w as int, h as int),
{
    let keys = handshake_sort_keys(oxide);
    let order = sort_for_display(&keys, false);
    let total = oxide.handshakes.len();
    let shown = rows_to_show(total, h);
    let ghost rows = sorted_handshake_rows(oxide@);
    let mut i: usize = 0;
    assert(out@ =~= old(out)@ + stacked(rows, w as int, 0));
    while i < shown
        invariant
            i <= shown <= total,
            total == oxide.handshakes.len(),
            order@.len() == total,
            rows == handshake_rows(oxide@.handshakes, index_ints(order@)),
            forall|j: int| 0 <= j < order@.len() ==> #[trigger] order@[j] < total,
            out@ == old(out)@ + stacked(rows, w as int, i as int),
        decreases shown - i,
    {
        let hs = &oxide.handshakes[order[i]];
        assert(oxide@.handshakes[index_ints(order@)[i as int]] == hs@);
        let row = handshake_row_text(hs);
        assert(row@ == rows[i as int]);
        append_left(out, row.as_str(), w);
        assert(out@ =~= old(out)@ + stacked(rows, w as int, i + 1));
        i += 1;
    }
    if shown < total {
        let note = more_label(total - shown);
        append_centered(out, note.as_str(), w);
    }
    assert(out@ =~= old(out)@ + listing(rows, w as int, h as int));
}

/// The handshakes pane at the clock reading `clock`, for a terminal of
/// `winsize.0` columns and `winsize.1` lines.
pub fn render_handshakes(
    oxide: &Snapshot,
    winsize: (u16, u16),
    clock: &Clock,
    framerate: u64,
) -> (frame: String)
    requires
        winsize.0 >= MIN_WIDTH,
        winsize.1 >= MIN_HEIGHT,
    ensures
        frame@ == handshakes_text(
            oxide@,
            winsize.0 as int,
            winsize.1 as int,
            clock@,
            framerate as nat,
        ),
{
    let w = winsize.0 as usize;
    let h = winsize.1 as usize;
    let status = errors(oxide.error_count);
    let mut frame = chrome_text(
        Tab::Handshakes,
        w,
        clock.uptime,
        oxide.frame_count,
        framerate,
        status.as_str(),
    );
    append_left(&mut frame, HANDSHAKE_HEADER, w);
    append_handshake_listing(&mut frame, oxide, w, h);
    complete(&mut frame, w, h);
    assert(frame@ =~= handshakes_text(oxide@, w as int, h as int, clock@, framerate as nat));
    frame
}

/// The handshakes pane as it stands now, `start_time` being the moment at
/// which the dashboard started.
pub fn handshakes_pane(
    oxide: &Snapshot,
    winsize: (u16, u16),
    start_time: Instant,
    framerate: u64,
) -> (frame: String)
    requires
        winsize.0 >= MIN_WIDTH,
        winsize.1 >= MIN_HEIGHT,
    ensures
        exists|clock: Clock|
            frame@ == handshakes_text(
                oxide@,
                winsize.0 as int,
                winsize.1 as int,
                clock@,
                framerate as nat,
            ),
{
    let clock = Clock::read(&start_time);
    let frame = render_handshakes(oxide, winsize, &clock, framerate);
    assert(frame@ == handshakes_text(
        oxide@,
        winsize.0 as int,
        winsize.1 as int,
        clock@,
        framerate as nat,
    ));
    frame
}

} // verus!
