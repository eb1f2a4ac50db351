//! The messages pane: the most recent status messages, the newest first.

use crate::chrome::{
    chrome_text, complete, errors, errors_text, status_fits, HEAD_LINES, MIN_HEIGHT, MIN_WIDTH,
};
use crate::listing::{lemma_pane_len, lemma_stacked_len, pane, stacked, visible_rows};
use crate::model::{Snapshot, SnapshotView, StatusMessage, StatusMessageView, Tab};
use crate::text::{append_left, clip, clipped, left_aligned, lemma_clipped_len};
use crate::time::{moment_label, moment_text, Clock, ClockView};
use std::time::Instant;
use vstd::prelude::*;

verus! {

pub const MESSAGE_HEADER: &'static str = "  Date / Time               Type   Message";

/// The row of a message in `w` columns, given the text of its moment: the
/// moment, the category and the content, cut to the terminal's width.
pub open spec fn message_row_of(
    moment: Seq<char>,
    kind: Seq<char>,
    content: Seq<char>,
    w: int,
) -> Seq<char> {
    clipped("  "@ + left_aligned(moment, 25) + " "@ + left_aligned(kind, 6) + " "@ + content, w)
}

/// The row of the message `m` in `w` columns.
pub open spec fn message_row(m: StatusMessageView, w: int) -> Seq<char> {
    message_row_of(moment_text(m.timestamp), m.kind, m.content, w)
}

/// How many messages are shown of a log of `total`, where at most `limit`
/// may be.
pub open spec fn recent_count(total: int, limit: int) -> int {
    if limit <= 0 {
        0
    } else if total < limit {
        total
    } else {
        limit
    }
}

/// The rows of the `limit` most recent messages of `log`, the newest first.
pub open spec fn recent_rows(log: Seq<StatusMessageView>, limit: int, w: int) -> Seq<Seq<char>> {
    Seq::new(
        recent_count(log.len() as int, limit) as nat,
        |i: int| message_row(log[log.len() - 1 - i], w),
    )
}

/// The list of the messages pane: as many of the most recent messages as
/// there are visible rows.
pub open spec fn message_list(s: SnapshotView, w: int, h: int) -> Seq<char> {
    let rows = recent_rows(s.status_log, visible_rows(h), w);
    stacked(rows, w, rows.len() as int)
}

/// The messages pane in a terminal of `w` columns and `h` lines.
pub open spec fn messages_text(
    s: SnapshotView,
    w: int,
    h: int,
    clock: ClockView,
    rate: nat,
) -> Seq<char> {
    pane(
        Tab::Messages,
        w,
        h,
        clock.uptime,
        s.frame_count,
        rate,
        errors_text(s.error_count),
        MESSAGE_HEADER@,
        message_list(s, w, h),
    )
}

/// In a terminal of at least the smallest size, the messages pane takes
/// exactly as many lines as the terminal has, each of the terminal's width,
/// wherever the status texts fit beside the tab bar: a row never runs over.
pub proof fn lemma_messages_pane_fills_screen(
    oxide: Snapshot,
    w: int,
    h: int,
    clock: Clock,
    rate: u64,
)
    requires
        w >= MIN_WIDTH,
        h >= MIN_HEIGHT,
        status_fits(w, oxide@.frame_count, rate as nat, errors_text(oxide@.error_count)),
    ensures
        messages_text(oxide@, w, h, clock@, rate as nat).len() == w * h,
{
    let s = oxide@;
    let rows = recent_rows(s.status_log, visible_rows(h), w);
    reveal_strlit("  Date / Time               Type   Message");
    assert forall|i: int| 0 <= i < rows.len() implies (#[trigger] rows[i]).len() <= w by {
        let m = s.status_log[s.status_log.len() - 1 - i];
        lemma_clipped_len(
            "  "@ + left_aligned(moment_text(m.timestamp), 25) + " "@ + left_aligned(m.kind, 6) + " "@
                + m.content,
            w,
        );
    }
    lemma_stacked_len(rows, w, rows.len() as int);
    lemma_pane_len(
        Tab::Messages,
        w,
        h,
        clock@.uptime,
        s.frame_count,
        rate as nat,
        errors_text(s.error_count),
        MESSAGE_HEADER@,
        message_list(s, w, h),
        rows.len() as int,
    );
}

/// The row of a message in `w` columns, given the text of its moment.
pub fn message_row_text(moment: &str, kind: &str, content: &str, w: usize) -> (row: String)
    requires
        w >= 3,
    ensures
        row@ == message_row_of(moment@, kind@, content@, w as int),
{
    let mut line = String::from_str("  ");
    append_left(&mut line, moment, 25);
    line.append(" ");
    append_left(&mut line, kind, 6);
    line.append(" ");
    line.append(content);
    clip(line.as_str(), w)
}

/// Appends the rows of the `limit` most recent messages, the newest first,
/// each laid out in `w` columns.
pub fn append_recent_messages(out: &mut String, log: &Vec<StatusMessage>, limit: usize, w: usize)
    requires
        w >= 3,
    ensures
        final(out)@ == old(out)@ + stacked(
            recent_rows(log@.map_values(|m: StatusMessage| m@), limit as int, w as int),
            w as int,
            recent_count(log@.len() as int, limit as int),
        ),
{
    let ghost rows = recent_rows(log@.map_values(|m: StatusMessage| m@), limit as int, w as int);
    let count = if log.len() < limit {
        log.len()
    } else {
        limit
    };
    let mut i: usize = 0;
    assert(out@ =~= old(out)@ + stacked(rows, w as int, 0));
    while i < count
        invariant
            w >= 3,
            i <= count <= log.len(),
            count == recent_count(log@.len() as int, limit as int),
            rows == recent_rows(log@.map_values(|m: StatusMessage| m@), limit as int, w as int),
            out@ == old(out)@ + stacked(rows, w as int, i as int),
        decreases count - i,
    {
        let m = &log[log.len() - 1 - i];
        let moment = moment_label(m.timestamp);
        let row = message_row_text(moment.as_str(), m.kind.as_str(), m.content.as_str(), w);
        assert(row@ == rows[i as int]);
        append_left(out, row.as_str(), w);
        assert(out@ =~= old(out)@ + stacked(rows, w as int, i + 1));
        i += 1;
    }
}

/// The messages pane at the clock reading `clock`, for a terminal of
/// `winsize.0` columns and `winsize.1` lines.
pub fn render_messages(
    oxide: &Snapshot,
    winsize: (u16, u16),
    clock: &Clock,
    framerate: u64,
) -> (frame: String)
    requires
        winsize.0 >= MIN_WIDTH,
        winsize.1 >= MIN_HEIGHT,
    ensures
        frame@ == messages_text(
            oxide@,
            winsize.0 as int,
            winsize.1 as int,
            clock@,
            framerate as nat,
        ),
{
    let w = winsize.0 as usize;
    let h = winsize.1 as usize;
    let status = errors(oxide.error_count);
    let mut frame = chrome_text(
        Tab::Messages,
        w,
        clock.uptime,
        oxide.frame_count,
        framerate,
        status.as_str(),
    );
    append_left(&mut frame, MESSAGE_HEADER, w);
    append_recent_messages(&mut frame, &oxide.status_log, h - HEAD_LINES - 2, w);
    complete(&mut frame, w, h);
    assert(frame@ =~= messages_text(oxide@, w as int, h as int, clock@, framerate as nat));
    frame
}

/// The messages pane as it stands now, `start_time` being the moment at
/// which the dashboard started.
pub fn messages_pane(
    oxide: &Snapshot,
    winsize: (u16, u16),
    start_time: Instant,
    framerate: u64,
) -> (frame: String)
    requires
        winsize.0 >= MIN_WIDTH,
        winsize.1 >= MIN_HEIGHT,
    ensures
        exists|clock: Clock|
            frame@ == messages_text(
                oxide@,
                winsize.0 as int,
                winsize.1 as int,
                clock@,
                framerate as nat,
            ),
{
    let clock = Clock::read(&start_time);
    let frame = render_messages(oxide, winsize, &clock, framerate);
    assert(frame@ == messages_text(
        oxide@,
        winsize.0 as int,
        winsize.1 as int,
        clock@,
        framerate as nat,
    ));
    frame
}

} // verus!
