//! How a list is fitted into the rows of a pane: as many entries as the rows
//! hold, and in place of the last row a note on how many are hidden.

use crate::chrome::{
    chrome, completed, lemma_chrome_len, lemma_completed_len, status_fits, HEAD_LINES, MIN_HEIGHT,
    MIN_WIDTH,
};
use crate::model::Tab;
use crate::text::{
    append_decimal, centered, clip, clipped, decimal, left_aligned, lemma_decimal_len_u64,
};
use vstd::prelude::*;

verus! {

pub const UNKNOWN_SSID: &'static str = "Unknown SSID";

pub const HIDDEN_SSID: &'static str = "Hidden SSID";

/// The widest network name that a row shows in full.
pub const SSID_WIDTH: usize = 30;

/// The rows that the list of a pane of `h` lines may take: what the head and
/// the footer leave.
pub open spec fn visible_rows(h: int) -> int {
    h - HEAD_LINES - 2
}

/// How many of `total` entries are shown in `visible` rows: all of them where
/// they leave a row free, else one fewer than there are rows.
pub open spec fn shown_rows(total: int, visible: int) -> int {
    if total < visible {
        total
    } else {
        visible - 1
    }
}

/// The note that stands for `hidden` entries.
pub open spec fn more_text(hidden: nat) -> Seq<char> {
    "---- +"@ + decimal(hidden) + " more ----"@
}

/// The first `n` of `rows`, each laid out in `w` columns, one after another.
pub open spec fn stacked(rows: Seq<Seq<char>>, w: int, n: int) -> Seq<char>
    decreases n,
{
    if n <= 0 {
        Seq::empty()
    } else {
        stacked(rows, w, n - 1) + left_aligned(rows[n - 1], w)
    }
}

/// The list of a pane of `h` lines: the rows that are shown, and under them
/// the note on the hidden ones, if any are.
pub open spec fn listing(rows: Seq<Seq<char>>, w: int, h: int) -> Seq<char> {
    let shown = shown_rows(rows.len() as int, visible_rows(h));
    if shown < rows.len() {
        stacked(rows, w, shown) + centered(more_text((rows.len() - shown) as nat), w)
    } else {
        stacked(rows, w, shown)
    }
}

/// The lines that the list of `total` entries takes in a pane of `h` lines.
pub open spec fn listing_lines(total: int, h: int) -> int {
    let shown = shown_rows(total, visible_rows(h));
    if shown < total {
        shown + 1
    } else {
        shown
    }
}

/// Whether each of the first `n` of `rows` fits `w` columns.
pub open spec fn rows_fit(rows: Seq<Seq<char>>, w: int, n: int) -> bool {
    forall|i: int| 0 <= i < n ==> (#[trigger] rows[i]).len() <= w
}

/// The network name as a row shows it: a label where the name is unknown or
/// hidden, and a long name cut to the column.
pub open spec fn ssid_label(ssid: Option<Seq<char>>) -> Seq<char> {
    clipped(
        match ssid {
            None => UNKNOWN_SSID@,
            Some(name) => if name.len() == 0 {
                HIDDEN_SSID@
            } else {
                name
            },
        },
        SSID_WIDTH as int,
    )
}

/// A pane of `h` lines in `w` columns: its head, the column header, the list,
/// and the footer under the space that the list leaves.
pub open spec fn pane(
    tab: Tab,
    w: int,
    h: int,
    uptime: nat,
    frames: nat,
    rate: nat,
    status: Seq<char>,
    header: Seq<char>,
    list: Seq<char>,
) -> Seq<char> {
    completed(
        chrome(tab, w, uptime, frames, rate, status) + left_aligned(header, w) + list,
        w,
        h,
    )
}

/// A network name takes at most thirty characters in a row: a longer one is
/// cut to twenty-seven and three dots, a shorter one is shown as it is.
pub proof fn lemma_ssid_label(ssid: Option<Seq<char>>)
    ensures
        ssid_label(ssid).len() <= SSID_WIDTH,
        ssid is None ==> ssid_label(ssid) == UNKNOWN_SSID@,
        ssid == Some(Seq::<char>::empty()) ==> ssid_label(ssid) == HIDDEN_SSID@,
        ssid matches Some(name) ==> (0 < name.len() <= SSID_WIDTH ==> ssid_label(ssid) == name),
        ssid matches Some(name) ==> (name.len() > SSID_WIDTH ==> ssid_label(ssid) == name.take(27)
            + seq!['.', '.', '.']),
{
    reveal_strlit("Unknown SSID");
    reveal_strlit("Hidden SSID");
}

/// The note on hidden entries fits any terminal in which a pane is drawn.
pub proof fn lemma_more_text_fits(hidden: nat)
    requires
        hidden <= u64::MAX,
    ensures
        more_text(hidden).len() <= MIN_WIDTH,
{
    reveal_strlit("---- +");
    reveal_strlit(" more ----");
    lemma_decimal_len_u64(hidden);
}

/// The shown entries and the note never take more than the visible rows, and
/// the note counts exactly the entries that are not shown.
pub proof fn lemma_listing_lines(total: int, h: int)
    requires
        0 <= total,
        h >= MIN_HEIGHT,
    ensures
        0 <= shown_rows(total, visible_rows(h)) <= total,
        0 <= listing_lines(total, h) <= visible_rows(h),
{
}

/// Rows that fit take one line each.
pub proof fn lemma_stacked_len(rows: Seq<Seq<char>>, w: int, n: int)
    requires
        0 <= n,
        rows_fit(rows, w, n),
    ensures
        stacked(rows, w, n).len() == n * w,
    decreases n,
{
    if n > 0 {
        lemma_stacked_len(rows, w, n - 1);
        assert(left_aligned(rows[n - 1], w).len() == w);
        assert((n - 1) * w + w == n * w) by (nonlinear_arith);
    } else {
        assert(n * w == 0) by (nonlinear_arith)
            requires
                n == 0,
        ;
    }
}

/// Where the shown rows fit, the list takes full lines, the note among them.
pub proof fn lemma_listing_len(rows: Seq<Seq<char>>, w: int, h: int)
    requires
        w >= MIN_WIDTH,
        h >= MIN_HEIGHT,
        rows.len() <= u64::MAX,
        rows_fit(rows, w, shown_rows(rows.len() as int, visible_rows(h))),
    ensures
        listing(rows, w, h).len() == listing_lines(rows.len() as int, h) * w,
{
    let total = rows.len() as int;
    let shown = shown_rows(total, visible_rows(h));
    lemma_listing_lines(total, h);
    lemma_stacked_len(rows, w, shown);
    if shown < total {
        lemma_more_text_fits((total - shown) as nat);
        assert(shown * w + w == (shown + 1) * w) by (nonlinear_arith);
    }
}

/// In a terminal of at least the smallest size a pane takes exactly as many
/// lines as the terminal has, each of the terminal's width, where the status
/// texts and the header fit and the list takes `lines` full lines.
pub proof fn lemma_pane_len(
    tab: Tab,
    w: int,
    h: int,
    uptime: nat,
    frames: nat,
    rate: nat,
    status: Seq<char>,
    header: Seq<char>,
    list: Seq<char>,
    lines: int,
)
    requires
        w >= MIN_WIDTH,
        h >= MIN_HEIGHT,
        uptime <= u64::MAX,
        status_fits(w, frames, rate, status),
        header.len() <= w,
        0 <= lines <= visible_rows(h),
        list.len() == lines * w,
    ensures
        pane(tab, w, h, uptime, frames, rate, status, header, list).len() == w * h,
{
    lemma_chrome_len(tab, w, uptime, frames, rate, status);
    let body = chrome(tab, w, uptime, frames, rate, status) + left_aligned(header, w) + list;
    assert(body.len() == (HEAD_LINES + lines) * w) by {
        assert(4 * w + w + lines * w == (5 + lines) * w) by (nonlinear_arith);
    }
    lemma_completed_len(body, w, h, HEAD_LINES + lines);
}

/// How many of `total` entries are shown in a pane of `h` lines.
pub fn rows_to_show(total: usize, h: usize) -> (shown: usize)
    requires
        h >= MIN_HEIGHT,
    ensures
        shown == shown_rows(total as int, visible_rows(h as int)),
        shown <= total,
{
    let visible = h - HEAD_LINES - 2;
    if total < visible {
        total
    } else {
        visible - 1
    }
}

/// The note that stands for `hidden` entries.
pub fn more_label(hidden: usize) -> (note: String)
    ensures
        note@ == more_text(hidden as nat),
{
    let mut note = String::from_str("---- +");
    append_decimal(&mut note, hidden as u64);
    note.append(" more ----");
    assert(note@ =~= more_text(hidden as nat));
    note
}

/// The text of a network name as a row shows it.
pub fn ssid_text(ssid: &Option<String>) -> (label: String)
    ensures
        label@ == ssid_label(
            match ssid {
                Some(name) => Some(name@),
                None => None,
            },
        ),
{
    match ssid {
        None => clip(UNKNOWN_SSID, SSID_WIDTH),
        Some(name) => {
            if name.as_str().unicode_len() == 0 {
                clip(HIDDEN_SSID, SSID_WIDTH)
            } else {
                clip(name.as_str(), SSID_WIDTH)
            }
        },
    }
}

} // verus!
