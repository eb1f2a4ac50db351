//! The report for a terminal that cannot be redrawn: the same four lists as
//! the panes, in lines of a fixed width, one report under the other.

use crate::access_points::{
    ap_columns, ap_columns_text, ap_keys, ap_sort_keys, captures_at, has_complete, has_pmkid,
};
use crate::chrome::{errors, errors_text};
use crate::clients::{
    all_stations, client_columns, client_columns_text, client_keys, client_sort_keys,
    station_views, stations,
};
use crate::handshakes::{
    handshake_columns, handshake_columns_text, handshake_keys, handshake_sort_keys,
};
use crate::listing::{more_label, more_text, HIDDEN_SSID, UNKNOWN_SSID};
use crate::messages::recent_count;
use crate::model::{
    mac_text, AccessPointView, ApSort, ClientSort, HandshakeView, Snapshot, SnapshotView,
    StatusMessage, StatusMessageView,
};
use crate::order::{descending_order, index_ints, lemma_descending_order, sort_for_display};
use crate::text::{
    append_centered, append_decimal, append_repeated, append_right, centered, centered_text,
    decimal, decimal_text, first_column, left_aligned, repeat, right_aligned, width_of,
};
use crate::time::{append_uptime, moment_label, moment_text, reading, uptime_text, Clock, ClockView};
use std::time::Instant;
use vstd::prelude::*;

verus! {

/// The columns for which the report is laid out.
pub const REPORT_WIDTH: usize = 100;

/// The access points that a report lists at most.
pub const AP_CAP: usize = 18;

/// The stations that a report lists at most.
pub const CLIENT_CAP: usize = 15;

/// The handshakes that a report lists at most.
pub const HANDSHAKE_CAP: usize = 6;

/// The status messages that a report lists at most.
pub const MESSAGE_CAP: usize = 15;

pub const REPORT_AP_HEADER: &'static str = "MAC Address     CH   RSSI  Last  SSID                           Clients    Int.  4wHS  PMKID";

pub const REPORT_CLIENT_HEADER: &'static str = "MAC Address     Access Point    RSSI     Last Seen          Probes                                  ";

pub const REPORT_HANDSHAKE_HEADER: &'static str = "AP MAC          Client MAC      ESSID                          [M1 M2 M3 M4 MC] | [PM] | COMPLETE";

pub const MESSAGES_TITLE: &'static str = "============================================= Messages ==============================================";

/// The smaller of two numbers.
pub open spec fn smaller(a: int, b: int) -> int {
    if a < b {
        a
    } else {
        b
    }
}

/// The rule between the parts of a report.
pub open spec fn dash_rule() -> Seq<char> {
    repeat('-', REPORT_WIDTH + 1)
}

/// The channel of the interface as the report shows it.
pub open spec fn channel_text(channel: Option<nat>) -> Seq<char> {
    match channel {
        Some(c) => decimal(c),
        None => "None"@,
    }
}

/// The counters of the report, in five columns.
pub open spec fn report_status(s: SnapshotView, rate: nat) -> Seq<char> {
    centered("Channel: "@ + channel_text(s.channel), 15) + " | "@ + centered(
        "Frames #: "@ + decimal(s.frame_count),
        15,
    ) + " | "@ + centered("Rate: "@ + decimal(rate) + "/s"@, 10) + " | "@ + centered(
        "Mac: "@ + mac_text(s.rogue_client),
        10,
    ) + " | "@ + centered(errors_text(s.error_count), 10)
}

/// The first line of a report: the name, the time since start, the counters.
pub open spec fn head_line(s: SnapshotView, clock: ClockView, rate: nat) -> Seq<char> {
    left_aligned("WPOxide"@, 7) + " "@ + right_aligned(uptime_text(clock.uptime), 7) + " | "@
        + right_aligned(report_status(s, rate), 80)
}

/// The title of a list: `label` between two equal runs of `=` that fill the
/// report's width.
pub open spec fn section_title(label: Seq<char>) -> Seq<char> {
    let run = (REPORT_WIDTH - label.len()) / 2;
    repeat('=', run) + " "@ + label + " "@ + repeat('=', run)
}

/// `n` empty lines.
pub open spec fn blank_rows(n: int) -> Seq<Seq<char>> {
    Seq::new((if n > 0 { n } else { 0 }) as nat, |i: int| Seq::<char>::empty())
}

/// The rows that are listed of `rows` where at most `cap` may be.
pub open spec fn first_rows(rows: Seq<Seq<char>>, cap: int) -> Seq<Seq<char>> {
    rows.take(smaller(rows.len() as int, cap))
}

/// The line that stands for `hidden` entries.
pub open spec fn note_line(hidden: int) -> Seq<char> {
    centered(more_text(hidden as nat), REPORT_WIDTH as int)
}

/// The network name as a report shows it: in full, with one label where the
/// name is unknown and another where it is empty or a single blank.
pub open spec fn report_ssid(ssid: Option<Seq<char>>) -> Seq<char> {
    match ssid {
        None => UNKNOWN_SSID@,
        Some(name) => if name.len() == 0 || name == seq![' '] {
            HIDDEN_SSID@
        } else {
            name
        },
    }
}

/// The cell of a capture column in a report.
pub open spec fn report_mark(captured: bool) -> Seq<char> {
    if captured {
        "\u{2705}"@
    } else {
        " "@
    }
}

/// The line of the access point `ap`.
pub open spec fn report_ap_row(
    ap: AccessPointView,
    handshakes: Seq<HandshakeView>,
    now: Option<nat>,
) -> Seq<char> {
    ap_columns(
        ap,
        report_ssid(ap.ssid),
        report_mark(has_complete(handshakes, ap.mac)),
        report_mark(has_pmkid(handshakes, ap.mac)),
        now,
    )
}

/// The lines of `list` in the order `order` of their places in the store.
pub open spec fn ap_lines(s: SnapshotView, order: Seq<int>, now: Option<nat>) -> Seq<Seq<char>> {
    Seq::new(order.len(), |i: int| report_ap_row(s.access_points[order[i]], s.handshakes, now))
}

/// The lines of all access points, the one seen last first.
pub open spec fn report_ap_rows(s: SnapshotView, now: Option<nat>) -> Seq<Seq<char>> {
    ap_lines(s, descending_order(ap_keys(s, ApSort::Last)), now)
}

/// The access points in a report: title and header, at most eighteen
/// access points and a note that counts the others, and blank lines that
/// fill the block of twenty.
pub open spec fn ap_section(s: SnapshotView, now: Option<nat>) -> Seq<Seq<char>> {
    let rows = report_ap_rows(s, now);
    let n = rows.len() as int;
    seq![section_title("Access Points: "@ + decimal(n as nat)), REPORT_AP_HEADER@] + first_rows(
        rows,
        AP_CAP as int,
    ) + (if n > AP_CAP {
        seq![note_line(n - AP_CAP)]
    } else {
        Seq::empty()
    }) + blank_rows(
        if n > AP_CAP {
            1
        } else {
            AP_CAP + 2 - n
        },
    )
}

/// The lines of `list` in the order `order` of their places in it.
pub open spec fn client_lines(
    list: Seq<crate::model::StationView>,
    order: Seq<int>,
    now: Option<nat>,
) -> Seq<Seq<char>> {
    Seq::new(order.len(), |i: int| client_columns(list[order[i]], now, 18, 40))
}

/// The lines of all stations, the one seen last first.
pub open spec fn report_client_rows(s: SnapshotView, now: Option<nat>) -> Seq<Seq<char>> {
    client_lines(stations(s), descending_order(client_keys(stations(s), ClientSort::Last)), now)
}

/// The stations in a report: title and header, at most fifteen stations and
/// a note on the others, and blank lines that fill the block of seventeen.
pub open spec fn client_section(s: SnapshotView, now: Option<nat>) -> Seq<Seq<char>> {
    let rows = report_client_rows(s, now);
    let n = rows.len() as int;
    seq![section_title("Clients: "@ + decimal(n as nat)), REPORT_CLIENT_HEADER@] + first_rows(
        rows,
        CLIENT_CAP as int,
    ) + (if n > CLIENT_CAP {
        seq![note_line(n - CLIENT_CAP)]
    } else {
        Seq::empty()
    }) + blank_rows(
        if n > CLIENT_CAP {
            1
        } else {
            CLIENT_CAP + 2 - n
        },
    )
}

/// The lines of `list` in the order `order` of their places in it.
pub open spec fn handshake_lines(list: Seq<HandshakeView>, order: Seq<int>) -> Seq<Seq<char>> {
    Seq::new(order.len(), |i: int| handshake_columns(list[order[i]], list[order[i]].essid))
}

/// The lines of all handshakes, the most recent first.
pub open spec fn report_handshake_rows(s: SnapshotView) -> Seq<Seq<char>> {
    handshake_lines(s.handshakes, descending_order(handshake_keys(s.handshakes)))
}

/// The handshakes in a report: title and header, at most six handshakes and
/// a note on the others, and blank lines that fill the block.
pub open spec fn handshake_section(s: SnapshotView) -> Seq<Seq<char>> {
    let rows = report_handshake_rows(s);
    let n = rows.len() as int;
    seq![section_title("Handshakes: "@ + decimal(n as nat)), REPORT_HANDSHAKE_HEADER@] + first_rows(
        rows,
        HANDSHAKE_CAP as int,
    ) + (if n > HANDSHAKE_CAP {
        seq![note_line(n - HANDSHAKE_CAP)]
    } else {
        Seq::empty()
    }) + blank_rows(HANDSHAKE_CAP + 1 - smaller(n, HANDSHAKE_CAP as int))
}

/// The line of a message, given the text of its moment.
pub open spec fn report_message_of(
    moment: Seq<char>,
    kind: Seq<char>,
    content: Seq<char>,
) -> Seq<char> {
    moment + ": ("@ + kind + ") "@ + content
}

/// The lines of the fifteen most recent messages of `log`, the newest first.
pub open spec fn report_message_rows(log: Seq<StatusMessageView>) -> Seq<Seq<char>> {
    Seq::new(
        recent_count(log.len() as int, MESSAGE_CAP as int) as nat,
        |i: int|
            report_message_of(
                moment_text(log[log.len() - 1 - i].timestamp),
                log[log.len() - 1 - i].kind,
                log[log.len() - 1 - i].content,
            ),
    )
}

/// The status messages in a report: the title and the most recent messages.
pub open spec fn message_section(s: SnapshotView) -> Seq<Seq<char>> {
    seq![MESSAGES_TITLE@] + report_message_rows(s.status_log)
}

/// The lines of a report.
pub open spec fn report_lines(s: SnapshotView, clock: ClockView, rate: nat) -> Seq<Seq<char>> {
    seq![head_line(s, clock, rate), dash_rule()] + ap_section(s, clock.now) + client_section(
        s,
        clock.now,
    ) + seq![dash_rule()] + handshake_section(s) + message_section(s)
}

/// The first `n` of `lines`, each ended by a line feed.
pub open spec fn ended_lines(lines: Seq<Seq<char>>, n: int) -> Seq<char>
    decreases n,
{
    if n <= 0 {
        Seq::empty()
    } else {
        ended_lines(lines, n - 1) + lines[n - 1] + "\n"@
    }
}

/// A report as one text.
pub open spec fn report_text(s: SnapshotView, clock: ClockView, rate: nat) -> Seq<char> {
    ended_lines(report_lines(s, clock, rate), report_lines(s, clock, rate).len() as int)
}

/// The lines that `total` handshakes take in a report, title and header
/// among them: the rows under the header fill a block of seven, and take one
/// line more where a note is due.
pub open spec fn handshake_line_count(total: int) -> int {
    2 + HANDSHAKE_CAP + 1 + if total > HANDSHAKE_CAP {
        1int
    } else {
        0int
    }
}

/// The line of a report on which the title of the stations stands, the first
/// line being line 0.
pub open spec fn clients_title_line() -> int {
    2 + (2 + AP_CAP + 2)
}

/// How many lines a report has: it depends on how many handshakes and
/// messages the stores hold, and on nothing else.
pub open spec fn report_line_count(s: SnapshotView) -> int {
    2 + (2 + AP_CAP + 2) + (2 + CLIENT_CAP + 2) + 1 + handshake_line_count(
        s.handshakes.len() as int,
    ) + (1 + smaller(s.status_log.len() as int, MESSAGE_CAP as int))
}

/// The access points always take twenty lines under their title and header,
/// however many there are and whatever the clock reads.
pub proof fn lemma_ap_section_len(s: SnapshotView, now: Option<nat>)
    ensures
        ap_section(s, now).len() == 2 + AP_CAP + 2,
{
    lemma_descending_order(ap_keys(s, ApSort::Last));
    assert(report_ap_rows(s, now).len() == s.access_points.len());
}

/// Beyond eighteen access points the report lists exactly eighteen and then
/// notes how many it does not list; up to eighteen it lists all and notes
/// nothing.
pub proof fn lemma_ap_section_rows(s: SnapshotView, now: Option<nat>)
    ensures
        forall|i: int|
            0 <= i < smaller(s.access_points.len() as int, AP_CAP as int) ==> ap_section(
                s,
                now,
            )[2 + i] == #[trigger] report_ap_rows(s, now)[i],
        s.access_points.len() > AP_CAP ==> ap_section(s, now)[2 + AP_CAP] == note_line(
            s.access_points.len() - AP_CAP,
        ),
        s.access_points.len() <= AP_CAP ==> forall|j: int|
            2 + s.access_points.len() <= j < 2 + AP_CAP + 2 ==> (#[trigger] ap_section(
                s,
                now,
            )[j]).len() == 0,
{
    lemma_descending_order(ap_keys(s, ApSort::Last));
    assert(report_ap_rows(s, now).len() == s.access_points.len());
}

/// The stations always take seventeen lines under their title and header.
pub proof fn lemma_client_section_len(s: SnapshotView, now: Option<nat>)
    ensures
        client_section(s, now).len() == 2 + CLIENT_CAP + 2,
{
    lemma_descending_order(client_keys(stations(s), ClientSort::Last));
    assert(report_client_rows(s, now).len() == stations(s).len());
}

/// The handshakes take a number of lines that their count alone decides.
pub proof fn lemma_handshake_section_len(s: SnapshotView)
    ensures
        handshake_section(s).len() == handshake_line_count(s.handshakes.len() as int),
{
    lemma_descending_order(handshake_keys(s.handshakes));
    assert(report_handshake_rows(s).len() == s.handshakes.len());
}

/// Every report on one snapshot has the same lines in number, whatever the
/// clocks read when it is made: two calls give two full reports of one shape.
pub proof fn lemma_report_shape(s: SnapshotView, first: ClockView, second: ClockView, rate: nat)
    ensures
        report_lines(s, first, rate).len() == report_line_count(s),
        report_lines(s, second, rate).len() == report_lines(s, first, rate).len(),
{
    lemma_ap_section_len(s, first.now);
    lemma_ap_section_len(s, second.now);
    lemma_client_section_len(s, first.now);
    lemma_client_section_len(s, second.now);
    lemma_handshake_section_len(s);
}

/// The title of the stations stands on the same line of every report,
/// however many access points the store holds.
pub proof fn lemma_clients_title_is_fixed(s: SnapshotView, clock: ClockView, rate: nat)
    ensures
        clients_title_line() < report_lines(s, clock, rate).len(),
        report_lines(s, clock, rate)[clients_title_line()] == section_title(
            "Clients: "@ + decimal(stations(s).len()),
        ),
{
    lemma_ap_section_len(s, clock.now);
    lemma_client_section_len(s, clock.now);
    lemma_descending_order(client_keys(stations(s), ClientSort::Last));
    assert(report_client_rows(s, clock.now).len() == stations(s).len());
    assert(client_section(s, clock.now)[0] == section_title(
        "Clients: "@ + decimal(stations(s).len()),
    ));
}

/// The views of a list of lines.
pub open spec fn line_views(lines: Seq<String>) -> Seq<Seq<char>> {
    lines.map_values(|l: String| l@)
}

/// Adds `line` under `lines`.
fn push_line(lines: &mut Vec<String>, line: String)
    ensures
        line_views(final(lines)@) == line_views(old(lines)@).push(line@),
{
    lines.push(line);
    assert(line_views(lines@) =~= line_views(old(lines)@).push(line@));
}

/// Adds `n` empty lines under `lines`.
fn push_blank_rows(lines: &mut Vec<String>, n: usize)
    ensures
        line_views(final(lines)@) == line_views(old(lines)@) + blank_rows(n as int),
{
    let mut i: usize = 0;
    assert(line_views(lines@) =~= line_views(old(lines)@) + blank_rows(0));
    while i < n
        invariant
            i <= n,
            line_views(lines@) == line_views(old(lines)@) + blank_rows(i as int),
        decreases n - i,
    {
        push_line(lines, String::new());
        assert(line_views(lines@) =~= line_views(old(lines)@) + blank_rows(i + 1));
        i += 1;
    }
}

/// The rule between the parts of a report.
fn dash_rule_text() -> (line: String)
    ensures
        line@ == dash_rule(),
{
    let mut line = String::new();
    proof {
        reveal_strlit("-");
    }
    append_repeated(&mut line, "-", REPORT_WIDTH + 1);
    assert(line@ =~= dash_rule());
    line
}

/// The title of a list.
pub fn section_title_text(label: &str) -> (line: String)
    ensures
        line@ == section_title(label@),
{
    let len = width_of(label);
    let run = if len < REPORT_WIDTH {
        (REPORT_WIDTH - len) / 2
    } else {
        0
    };
    let mut line = String::new();
    proof {
        reveal_strlit("=");
    }
    append_repeated(&mut line, "=", run);
    line.append(" ");
    line.append(label);
    line.append(" ");
    append_repeated(&mut line, "=", run);
    assert(line@ =~= section_title(label@));
    line
}

/// The title of a list of `count` entries under the name `name`.
fn counted_title(name: &str, count: usize) -> (line: String)
    ensures
        line@ == section_title(name@ + decimal(count as nat)),
{
    let mut label = String::from_str(name);
    append_decimal(&mut label, count as u64);
    section_title_text(label.as_str())
}

/// The line that stands for `hidden` entries.
fn note_line_text(hidden: usize) -> (line: String)
    ensures
        line@ == note_line(hidden as int),
{
    let note = more_label(hidden);
    centered_text(note.as_str(), REPORT_WIDTH)
}

/// The channel of the interface as the report shows it.
fn channel_name(channel: Option<u32>) -> (name: String)
    ensures
        name@ == channel_text(
            match channel {
                Some(c) => Some(c as nat),
                None => None,
            },
        ),
{
    match channel {
        Some(c) => decimal_text(c as u64),
        None => String::from_str("None"),
    }
}

/// The counters of the report, in five columns.
pub fn report_status_text(oxide: &Snapshot, framerate: u64) -> (status: String)
    ensures
        status@ == report_status(oxide@, framerate as nat),
{
    let name = channel_name(oxide.interface.channel);
    let mut channel = String::from_str("Channel: ");
    channel.append(name.as_str());
    let mut frames = String::from_str("Frames #: ");
    append_decimal(&mut frames, oxide.frame_count);
    let mut rate = String::from_str("Rate: ");
    append_decimal(&mut rate, framerate);
    rate.append("/s");
    let mut mac = String::from_str("Mac: ");
    oxide.rogue_client.append_to(&mut mac);
    let failed = errors(oxide.error_count);
    let mut status = centered_text(channel.as_str(), 15);
    status.append(" | ");
    append_centered(&mut status, frames.as_str(), 15);
    status.append(" | ");
    append_centered(&mut status, rate.as_str(), 10);
    status.append(" | ");
    append_centered(&mut status, mac.as_str(), 10);
    status.append(" | ");
    append_centered(&mut status, failed.as_str(), 10);
    status
}

/// The first line of a report.
pub fn head_line_text(oxide: &Snapshot, clock: &Clock, framerate: u64) -> (line: String)
    ensures
        line@ == head_line(oxide@, clock@, framerate as nat),
{
    let status = report_status_text(oxide, framerate);
    let mut uptime = String::new();
    append_uptime(&mut uptime, clock.uptime);
    assert(uptime@ =~= uptime_text(clock@.uptime));
    let mut line = first_column("WPOxide", 7);
    line.append(" ");
    append_right(&mut line, uptime.as_str(), 7);
    line.append(" | ");
    append_right(&mut line, status.as_str(), 80);
    line
}

/// The network name as a report shows it.
pub fn report_ssid_text(ssid: &Option<String>) -> (label: String)
    ensures
        label@ == report_ssid(
            match ssid {
                Some(name) => Some(name@),
                None => None,
            },
        ),
{
    match ssid {
        None => String::from_str(UNKNOWN_SSID),
        Some(name) => {
            let text = name.as_str();
            let len = text.unicode_len();
            if len == 0 {
                String::from_str(HIDDEN_SSID)
            } else if len == 1 && text.get_char(0) == ' ' {
                assert(name@ =~= seq![' ']);
                String::from_str(HIDDEN_SSID)
            } else {
                String::from_str(text)
            }
        },
    }
}

/// Adds the access points of a report under `lines`.
fn push_ap_section(lines: &mut Vec<String>, oxide: &Snapshot, now: Option<u64>)
    ensures
        line_views(final(lines)@) == line_views(old(lines)@) + ap_section(oxide@, reading(now)),
{
    let keys = ap_sort_keys(oxide, ApSort::Last);
    let order = sort_for_display(&keys, false);
    let total = oxide.access_points.len();
    let ghost rows = report_ap_rows(oxide@, reading(now));
    push_line(lines, counted_title("Access Points: ", total));
    push_line(lines, String::from_str(REPORT_AP_HEADER));
    let ghost head = line_views(lines@);
    let shown = if total > AP_CAP {
        AP_CAP
    } else {
        total
    };
    let mut i: usize = 0;
    assert(line_views(lines@) =~= head + rows.take(0));
    while i < shown
        invariant
            i <= shown <= total,
            total == oxide.access_points.len(),
            order@.len() == total,
            rows == ap_lines(oxide@, index_ints(order@), reading(now)),
            forall|j: int| 0 <= j < order@.len() ==> #[trigger] order@[j] < total,
            line_views(lines@) == head + rows.take(i as int),
        decreases shown - i,
    {
        let ap = &oxide.access_points[order[i]];
        assert(oxide@.access_points[index_ints(order@)[i as int]] == ap@);
        let found = captures_at(oxide, &ap.mac);
        let ssid = report_ssid_text(&ap.ssid);
        let row = ap_columns_text(
            ap,
            ssid.as_str(),
            if found.0 {
                "\u{2705}"
            } else {
                " "
            },
            if found.1 {
                "\u{2705}"
            } else {
                " "
            },
            now,
        );
        assert(row@ == rows[i as int]);
        push_line(lines, row);
        assert(line_views(lines@) =~= head + rows.take(i + 1));
        i += 1;
    }
    if total > AP_CAP {
        push_line(lines, note_line_text(total - AP_CAP));
        push_blank_rows(lines, 1);
    } else {
        push_blank_rows(lines, AP_CAP + 2 - total);
    }
    assert(line_views(lines@) =~= line_views(old(lines)@) + ap_section(oxide@, reading(now)));
}

/// Adds the stations of a report under `lines`.
fn push_client_section(lines: &mut Vec<String>, oxide: &Snapshot, now: Option<u64>)
    ensures
        line_views(final(lines)@) == line_views(old(lines)@) + client_section(
            oxide@,
            reading(now),
        ),
{
    let list = all_stations(oxide);
    let keys = client_sort_keys(&list, ClientSort::Last);
    let order = sort_for_display(&keys, false);
    let total = list.len();
    let ghost rows = report_client_rows(oxide@, reading(now));
    push_line(lines, counted_title("Clients: ", total));
    push_line(lines, String::from_str(REPORT_CLIENT_HEADER));
    let ghost head = line_views(lines@);
    let shown = if total > CLIENT_CAP {
        CLIENT_CAP
    } else {
        total
    };
    let mut i: usize = 0;
    assert(line_views(lines@) =~= head + rows.take(0));
    while i < shown
        invariant
            i <= shown <= total,
            total == list@.len(),
            order@.len() == total,
            rows == client_lines(station_views(list@), index_ints(order@), reading(now)),
            forall|j: int| 0 <= j < order@.len() ==> #[trigger] order@[j] < total,
            line_views(lines@) == head + rows.take(i as int),
        decreases shown - i,
    {
        let c = list[order[i]];
        assert(station_views(list@)[index_ints(order@)[i as int]] == c@);
        let row = client_columns_text(c, now, 18, 40);
        assert(row@ == rows[i as int]);
        push_line(lines, row);
        assert(line_views(lines@) =~= head + rows.take(i + 1));
        i += 1;
    }
    if total > CLIENT_CAP {
        push_line(lines, note_line_text(total - CLIENT_CAP));
        push_blank_rows(lines, 1);
    } else {
        push_blank_rows(lines, CLIENT_CAP + 2 - total);
    }
    assert(line_views(lines@) =~= line_views(old(lines)@) + client_section(oxide@, reading(now)));
}

/// Adds the handshakes of a report under `lines`.
fn push_handshake_section(lines: &mut Vec<String>, oxide: &Snapshot)
    ensures
        line_views(final(lines)@) == line_views(old(lines)@) + handshake_section(oxide@),
{
    let keys = handshake_sort_keys(oxide);
    let order = sort_for_display(&keys, false);
    let total = oxide.handshakes.len();
    let ghost rows = report_handshake_rows(oxide@);
    push_line(lines, counted_title("Handshakes: ", total));
    push_line(lines, String::from_str(REPORT_HANDSHAKE_HEADER));
    let ghost head = line_views(lines@);
    let shown = if total > HANDSHAKE_CAP {
        HANDSHAKE_CAP
    } else {
        total
    };
    let mut i: usize = 0;
    assert(line_views(lines@) =~= head + rows.take(0));
    while i < shown
        invariant
            i <= shown <= total,
            total == oxide.handshakes.len(),
            order@.len() == total,
            rows == handshake_lines(oxide@.handshakes, index_ints(order@)),
            forall|j: int| 0 <= j < order@.len() ==> #[trigger] order@[j] < total,
            line_views(lines@) == head + rows.take(i as int),
        decreases shown - i,
    {
        let hs = &oxide.handshakes[order[i]];
        assert(oxide@.handshakes[index_ints(order@)[i as int]] == hs@);
        let row = handshake_columns_text(hs, hs.essid.as_str());
        assert(row@ == rows[i as int]);
        push_line(lines, row);
        assert(line_views(lines@) =~= head + rows.take(i + 1));
        i += 1;
    }
    if total > HANDSHAKE_CAP {
        push_line(lines, note_line_text(total - HANDSHAKE_CAP));
    }
    push_blank_rows(lines, HANDSHAKE_CAP + 1 - shown);
    assert(line_views(lines@) =~= line_views(old(lines)@) + handshake_section(oxide@));
}

/// The line of a message, given the text of its moment.
pub fn report_message_text(moment: &str, kind: &str, content: &str) -> (line: String)
    ensures
        line@ == report_message_of(moment@, kind@, content@),
{
    let mut line = String::from_str(moment);
    line.append(": (");
    line.append(kind);
    line.append(") ");
    line.append(content);
    assert(line@ =~= report_message_of(moment@, kind@, content@));
    line
}

/// Adds the status messages of a report under `lines`.
fn push_message_section(lines: &mut Vec<String>, log: &Vec<StatusMessage>)
    ensures
        line_views(final(lines)@) == line_views(old(lines)@) + (seq![MESSAGES_TITLE@]
            + report_message_rows(log@.map_values(|m: StatusMessage| m@))),
{
    let ghost rows = report_message_rows(log@.map_values(|m: StatusMessage| m@));
    push_line(lines, String::from_str(MESSAGES_TITLE));
    let ghost head = line_views(lines@);
    let count = if log.len() < MESSAGE_CAP {
        log.len()
    } else {
        MESSAGE_CAP
    };
    let mut i: usize = 0;
    assert(line_views(lines@) =~= head + rows.take(0));
    while i < count
        invariant
            i <= count <= log.len(),
            count == rows.len(),
            rows == report_message_rows(log@.map_values(|m: StatusMessage| m@)),
            line_views(lines@) == head + rows.take(i as int),
        decreases count - i,
    {
        let m = &log[log.len() - 1 - i];
        let moment = moment_label(m.timestamp);
        let row = report_message_text(moment.as_str(), m.kind.as_str(), m.content.as_str());
        assert(row@ == rows[i as int]);
        push_line(lines, row);
        assert(line_views(lines@) =~= head + rows.take(i + 1));
        i += 1;
    }
    assert(rows.take(count as int) =~= rows);
    assert(line_views(lines@) =~= line_views(old(lines)@) + (seq![MESSAGES_TITLE@] + rows));
}

/// The lines of the report at the clock reading `clock`.
pub fn render_report_lines(oxide: &Snapshot, clock: &Clock, framerate: u64) -> (lines: Vec<String>)
    ensures
        line_views(lines@) == report_lines(oxide@, clock@, framerate as nat),
{
    let mut lines: Vec<String> = Vec::new();
    push_line(&mut lines, head_line_text(oxide, clock, framerate));
    push_line(&mut lines, dash_rule_text());
    push_ap_section(&mut lines, oxide, clock.now);
    push_client_section(&mut lines, oxide, clock.now);
    push_line(&mut lines, dash_rule_text());
    push_handshake_section(&mut lines, oxide);
    push_message_section(&mut lines, &oxide.status_log);
    assert(line_views(lines@) =~= report_lines(oxide@, clock@, framerate as nat));
    lines
}

/// The report at the clock reading `clock`, each line ended by a line feed.
pub fn render_report(oxide: &Snapshot, clock: &Clock, framerate: u64) -> (text: String)
    ensures
        text@ == report_text(oxide@, clock@, framerate as nat),
{
    let lines = render_report_lines(oxide, clock, framerate);
    let ghost views = line_views(lines@);
    let mut text = String::new();
    let mut i: usize = 0;
    assert(text@ =~= ended_lines(views, 0));
    while i < lines.len()
        invariant
            i <= lines.len(),
            views == line_views(lines@),
            text@ == ended_lines(views, i as int),
        decreases lines.len() - i,
    {
        text.append(lines[i].as_str());
        text.append("\n");
        assert(text@ =~= ended_lines(views, i + 1));
        i += 1;
    }
    text
}

/// The report as it stands now, `start_time` being the moment at which the
/// monitor started. Each call gives one full report; a caller that wants a
/// running record writes each under the one before.
pub fn default_ui(oxide: &Snapshot, start_time: Instant, framerate: u64) -> (text: String)
    ensures
        exists|clock: Clock| text@ == report_text(oxide@, clock@, framerate as nat),
{
    let clock = Clock::read(&start_time);
    let text = render_report(oxide, &clock, framerate);
    assert(text@ == report_text(oxide@, clock@, framerate as nat));
    text
}

} // verus!
