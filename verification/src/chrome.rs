//! What all four panes share: the title line, the tab bar with its status
//! band, and the footer.

use crate::model::{ApSort, ClientSort, Tab};
use crate::text::{
    append_blanks, append_centered, append_decimal, append_repeated, append_right, centered,
    centered_text, decimal, lemma_decimal_len, lemma_decimal_len_u64, pow10, repeat,
    right_aligned, width_of,
};
use crate::time::{append_uptime, uptime_text};
use vstd::prelude::*;

verus! {

pub const TITLE: &'static str = "𝘈𝘯𝘨𝘳𝘺𝘖𝘹𝘪𝘥𝘦 | v0.1 | rage 2023 | ";

pub const TAB_TOP: &'static str = "┏━━━━━━━━━━━━━━━┓ ┏━━━━━━━━━━━┓ ┏━━━━━━━━━━━━━━┓ ┏━━━━━━━━━━━━┓";

pub const TAB_LABELS: &'static str = "┃ Access Points ┃ ┃  Clients  ┃ ┃  Handshakes  ┃ ┃  Messages  ┃";

pub const SEAM_ACCESS_POINTS: &'static str = "┛               ┗━┻━━━━━━━━━━━┻━┻━━━━━━━━━━━━━━┻━┻━━━━━━━━━━━━┻";

pub const SEAM_CLIENTS: &'static str = "┻━━━━━━━━━━━━━━━┻━┛           ┗━┻━━━━━━━━━━━━━━┻━┻━━━━━━━━━━━━┻";

pub const SEAM_HANDSHAKES: &'static str = "┻━━━━━━━━━━━━━━━┻━┻━━━━━━━━━━━┻━┛              ┗━┻━━━━━━━━━━━━┻";

pub const SEAM_MESSAGES: &'static str = "┻━━━━━━━━━━━━━━━┻━┻━━━━━━━━━━━┻━┻━━━━━━━━━━━━━━┻━┛            ┗";

pub const HELP: &'static str = "quit: [q] | sort APs: [a] | sort clients: [c] | reverse sort: [r] | change tab: [←]/[→]";

/// The heavy rule of which the horizontal lines are drawn.
pub const RULE: &'static str = "━";

/// The columns that the tab bar takes.
pub const TAB_WIDTH: usize = 63;

/// The smallest terminal in which a pane is drawn.
pub const MIN_WIDTH: u16 = 100;

pub const MIN_HEIGHT: u16 = 9;

/// The lines above the list of a pane, its column header among them.
pub const HEAD_LINES: usize = 5;

/// The row under the tab labels: it is open under the active tab.
pub open spec fn seam(tab: Tab) -> Seq<char> {
    match tab {
        Tab::AccessPoints => SEAM_ACCESS_POINTS@,
        Tab::Clients => SEAM_CLIENTS@,
        Tab::Handshakes => SEAM_HANDSHAKES@,
        Tab::Messages => SEAM_MESSAGES@,
    }
}

/// The banner with the time since start.
pub open spec fn title_text(uptime: nat) -> Seq<char> {
    TITLE@ + uptime_text(uptime)
}

/// The frame count and the ingest rate, in two columns.
pub open spec fn counters_text(frames: nat, rate: nat) -> Seq<char> {
    centered("Frames #: "@ + decimal(frames), 15) + " | "@ + centered(
        "Rate: "@ + decimal(rate) + "/s"@,
        10,
    )
}

/// The error count.
pub open spec fn errors_text(errors: nat) -> Seq<char> {
    "Errors: "@ + decimal(errors)
}

/// The mark of the sort direction: upwards when the sort is reversed.
pub open spec fn direction_mark(reverse: bool) -> Seq<char> {
    if reverse {
        "▲"@
    } else {
        "▼"@
    }
}

/// The sort key by `name`, the direction, and the error count.
pub open spec fn sort_text(name: Seq<char>, reverse: bool, errors: nat) -> Seq<char> {
    "Sort: "@ + name + " "@ + direction_mark(reverse) + " | "@ + errors_text(errors)
}

pub open spec fn ap_sort_name(key: ApSort) -> Seq<char> {
    match key {
        ApSort::Last => "Last"@,
        ApSort::Rssi => "RSSI"@,
        ApSort::Channel => "CH"@,
        ApSort::Clients => "Clients"@,
        ApSort::Handshake => "4wHS"@,
        ApSort::Pmkid => "PMKID"@,
    }
}

pub open spec fn client_sort_name(key: ClientSort) -> Seq<char> {
    match key {
        ClientSort::Last => "Last"@,
        ClientSort::Rssi => "RSSI"@,
    }
}

/// The four lines at the head of every pane, in `w` columns: the title, the
/// tabs with the counters beside them, the tab labels with `status` beside
/// them, and the seam drawn out to a rule.
pub open spec fn chrome(
    tab: Tab,
    w: int,
    uptime: nat,
    frames: nat,
    rate: nat,
    status: Seq<char>,
) -> Seq<char> {
    centered(title_text(uptime), w) + TAB_TOP@ + right_aligned(
        counters_text(frames, rate),
        w - TAB_WIDTH,
    ) + TAB_LABELS@ + right_aligned(status, w - TAB_WIDTH) + seam(tab) + repeat(
        '━',
        w - TAB_WIDTH,
    )
}

/// `n` lines of `w` blanks each.
pub open spec fn blank_lines(w: int, n: int) -> Seq<char> {
    repeat(' ', w * n)
}

/// The two lines at the foot of every pane: a rule and the key bindings.
pub open spec fn footer(w: int) -> Seq<char> {
    repeat('━', w) + centered(HELP@, w)
}

/// The lines that `body` takes in `w` columns, a broken line not counted.
pub open spec fn lines_of(body: Seq<char>, w: int) -> int {
    body.len() as int / w
}

/// A pane of `h` lines made of `body`: blank lines fill the space down to
/// the footer, which takes the last two.
pub open spec fn completed(body: Seq<char>, w: int, h: int) -> Seq<char> {
    body + blank_lines(w, h - 2 - lines_of(body, w)) + footer(w)
}

/// Whether both status texts fit beside the tab bar.
pub open spec fn status_fits(w: int, frames: nat, rate: nat, status: Seq<char>) -> bool {
    counters_text(frames, rate).len() <= w - TAB_WIDTH && status.len() <= w - TAB_WIDTH
}

/// The title fits any terminal in which a pane is drawn.
pub proof fn lemma_title_fits(uptime: nat)
    requires
        uptime <= u64::MAX,
    ensures
        title_text(uptime).len() <= MIN_WIDTH,
{
    reveal_strlit("𝘈𝘯𝘨𝘳𝘺𝘖𝘹𝘪𝘥𝘦 | v0.1 | rage 2023 | ");
    assert(pow10(2) == 100) by {
        reveal_with_fuel(pow10, 3);
    }
    lemma_decimal_len_u64(uptime / 3600);
    lemma_decimal_len((uptime % 3600) / 60, 2);
    lemma_decimal_len(uptime % 60, 2);
}

/// Where the status texts fit, the head of a pane is four full lines.
pub proof fn lemma_chrome_len(
    tab: Tab,
    w: int,
    uptime: nat,
    frames: nat,
    rate: nat,
    status: Seq<char>,
)
    requires
        w >= MIN_WIDTH,
        uptime <= u64::MAX,
        status_fits(w, frames, rate, status),
    ensures
        chrome(tab, w, uptime, frames, rate, status).len() == 4 * w,
{
    lemma_title_fits(uptime);
    reveal_strlit("┏━━━━━━━━━━━━━━━┓ ┏━━━━━━━━━━━┓ ┏━━━━━━━━━━━━━━┓ ┏━━━━━━━━━━━━┓");
    reveal_strlit("┃ Access Points ┃ ┃  Clients  ┃ ┃  Handshakes  ┃ ┃  Messages  ┃");
    reveal_strlit("┛               ┗━┻━━━━━━━━━━━┻━┻━━━━━━━━━━━━━━┻━┻━━━━━━━━━━━━┻");
    reveal_strlit("┻━━━━━━━━━━━━━━━┻━┛           ┗━┻━━━━━━━━━━━━━━┻━┻━━━━━━━━━━━━┻");
    reveal_strlit("┻━━━━━━━━━━━━━━━┻━┻━━━━━━━━━━━┻━┛              ┗━┻━━━━━━━━━━━━┻");
    reveal_strlit("┻━━━━━━━━━━━━━━━┻━┻━━━━━━━━━━━┻━┻━━━━━━━━━━━━━━┻━┛            ┗");
}

/// The footer is two full lines in any terminal in which a pane is drawn.
pub proof fn lemma_footer_len(w: int)
    requires
        w >= MIN_WIDTH,
    ensures
        footer(w).len() == 2 * w,
{
    reveal_strlit(
        "quit: [q] | sort APs: [a] | sort clients: [c] | reverse sort: [r] | change tab: [←]/[→]",
    );
}

/// A body of full lines that leaves room for the footer is completed to
/// exactly `h` lines.
pub proof fn lemma_completed_len(body: Seq<char>, w: int, h: int, lines: int)
    requires
        w >= MIN_WIDTH,
        body.len() == lines * w,
        0 <= lines <= h - 2,
    ensures
        completed(body, w, h).len() == w * h,
{
    lemma_footer_len(w);
    assert(lines_of(body, w) == lines) by (nonlinear_arith)
        requires
            w > 0,
            body.len() == lines * w,
    ;
    assert(w * (h - 2 - lines) >= 0) by (nonlinear_arith)
        requires
            w > 0,
            h - 2 - lines >= 0,
    ;
    assert(lines * w + w * (h - 2 - lines) + 2 * w == w * h) by (nonlinear_arith);
}

/// The text of the frame count and the ingest rate.
pub fn counters(frames: u64, rate: u64) -> (t: String)
    ensures
        t@ == counters_text(frames as nat, rate as nat),
{
    let mut left = String::from_str("Frames #: ");
    append_decimal(&mut left, frames);
    let mut right = String::from_str("Rate: ");
    append_decimal(&mut right, rate);
    right.append("/s");
    let mut t = centered_text(left.as_str(), 15);
    t.append(" | ");
    append_centered(&mut t, right.as_str(), 10);
    t
}

/// The text of the error count.
pub fn errors(count: u64) -> (t: String)
    ensures
        t@ == errors_text(count as nat),
{
    let mut t = String::from_str("Errors: ");
    append_decimal(&mut t, count);
    t
}

/// The text of a sort key by `name`, the direction, and the error count.
pub fn sort_status(name: &str, reverse: bool, count: u64) -> (t: String)
    ensures
        t@ == sort_text(name@, reverse, count as nat),
{
    let failed = errors(count);
    let mut t = String::from_str("Sort: ");
    t.append(name);
    t.append(" ");
    t.append(
        if reverse {
            "▲"
        } else {
            "▼"
        },
    );
    t.append(" | ");
    t.append(failed.as_str());
    t
}

impl ApSort {
    /// The name under which the status band shows the key.
    pub fn name(&self) -> (n: &'static str)
        ensures
            n@ == ap_sort_name(*self),
    {
        match self {
            ApSort::Last => "Last",
            ApSort::Rssi => "RSSI",
            ApSort::Channel => "CH",
            ApSort::Clients => "Clients",
            ApSort::Handshake => "4wHS",
            ApSort::Pmkid => "PMKID",
        }
    }
}

impl ClientSort {
    /// The name under which the status band shows the key.
    pub fn name(&self) -> (n: &'static str)
        ensures
            n@ == client_sort_name(*self),
    {
        match self {
            ClientSort::Last => "Last",
            ClientSort::Rssi => "RSSI",
        }
    }
}

impl Tab {
    /// The row under the tab labels, open under this tab.
    pub fn seam_text(&self) -> (s: &'static str)
        ensures
            s@ == seam(*self),
    {
        match self {
            Tab::AccessPoints => SEAM_ACCESS_POINTS,
            Tab::Clients => SEAM_CLIENTS,
            Tab::Handshakes => SEAM_HANDSHAKES,
            Tab::Messages => SEAM_MESSAGES,
        }
    }
}

/// The four lines at the head of a pane.
pub fn chrome_text(
    tab: Tab,
    w: usize,
    uptime: u64,
    frames: u64,
    rate: u64,
    status: &str,
) -> (head: String)
    requires
        w >= TAB_WIDTH,
    ensures
        head@ == chrome(tab, w as int, uptime as nat, frames as nat, rate as nat, status@),
{
    let mut title = String::from_str(TITLE);
    append_uptime(&mut title, uptime);
    let beside = counters(frames, rate);
    let mut head = centered_text(title.as_str(), w);
    head.append(TAB_TOP);
    append_right(&mut head, beside.as_str(), w - TAB_WIDTH);
    head.append(TAB_LABELS);
    append_right(&mut head, status, w - TAB_WIDTH);
    head.append(tab.seam_text());
    proof {
        reveal_strlit("━");
    }
    append_repeated(&mut head, RULE, w - TAB_WIDTH);
    head
}

/// Completes a pane of `h` lines: blank lines fill the space under what
/// `out` holds, and the footer takes the last two lines.
pub fn complete(out: &mut String, w: usize, h: usize)
    requires
        w > 0,
        h >= 2,
    ensures
        final(out)@ == completed(old(out)@, w as int, h as int),
{
    let drawn = width_of(out.as_str()) / w;
    let mut line: usize = drawn;
    assert(blank_lines(w as int, 0) =~= Seq::<char>::empty());
    while line < h - 2
        invariant
            w > 0,
            h >= 2,
            drawn <= line,
            line <= h - 2 || line == drawn,
            out@ == old(out)@ + blank_lines(w as int, line - drawn),
        decreases h - line,
    {
        append_blanks(out, w);
        proof {
            let done = line - drawn;
            assert(w * done + w == w * (done + 1)) by (nonlinear_arith);
            assert(w * done >= 0) by (nonlinear_arith)
                requires
                    w > 0,
                    done >= 0,
            ;
            assert(out@ =~= old(out)@ + blank_lines(w as int, done + 1));
        }
        line += 1;
    }
    proof {
        reveal_strlit("━");
        if drawn >= h - 2 {
            let short = h - 2 - drawn;
            assert(w * short <= 0) by (nonlinear_arith)
                requires
                    w > 0,
                    short <= 0,
            ;
            assert(blank_lines(w as int, short) =~= Seq::<char>::empty());
        }
    }
    append_repeated(out, RULE, w);
    append_centered(out, HELP, w);
    assert(out@ =~= completed(old(out)@, w as int, h as int));
}

} // verus!
