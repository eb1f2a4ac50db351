//! What is drawn at one tick: a notice where the terminal is too small for a
//! pane, else the pane that the active tab selects.

use crate::access_points::{
    access_points_text, ap_lines_fit, lemma_access_points_pane_fills_screen, render_access_points,
};
use crate::chrome::{blank_lines, errors_text, status_fits, MIN_HEIGHT, MIN_WIDTH};
use crate::clients::{
    client_status, clients_text, lemma_clients_pane_fills_screen, render_clients, stations,
};
use crate::handshakes::{
    handshake_lines_fit, handshakes_text, lemma_handshakes_pane_fills_screen, render_handshakes,
};
use crate::messages::{lemma_messages_pane_fills_screen, messages_text, render_messages};
use crate::model::{tab_at, Snapshot, SnapshotView, Tab};
use crate::text::{append_blanks, append_centered, centered};
use crate::time::{Clock, ClockView};
use std::time::Instant;
use vstd::prelude::*;

verus! {

pub const NOTICE_TOP: &'static str = "┏━━━━━━━━━━━━━━━━━━━━━━━━━━━━━━━┓";

pub const NOTICE_TEXT: &'static str = "┃ AngryOxide terminal too small ┃";

pub const NOTICE_BOTTOM: &'static str = "┗━━━━━━━━━━━━━━━━━━━━━━━━━━━━━━━┛";

/// Whether a terminal of `w` columns and `h` lines is too small for a pane.
pub open spec fn too_small(w: int, h: int) -> bool {
    w < MIN_WIDTH || h < MIN_HEIGHT
}

/// The notice that the terminal is too small: a box of three lines, centered
/// in the width that the terminal reports, under blank lines that take half
/// of its height.
pub open spec fn notice(w: int, h: int) -> Seq<char> {
    blank_lines(w, h / 2) + centered(NOTICE_TOP@, w) + centered(NOTICE_TEXT@, w) + centered(
        NOTICE_BOTTOM@,
        w,
    )
}

/// The pane that the active tab selects; nothing where the tab index selects
/// none.
pub open spec fn active_pane(
    s: SnapshotView,
    w: int,
    h: int,
    clock: ClockView,
    rate: nat,
) -> Seq<char> {
    match tab_at(s.menu) {
        Some(Tab::AccessPoints) => access_points_text(s, w, h, clock, rate),
        Some(Tab::Clients) => clients_text(s, w, h, clock, rate),
        Some(Tab::Handshakes) => handshakes_text(s, w, h, clock, rate),
        Some(Tab::Messages) => messages_text(s, w, h, clock, rate),
        None => Seq::empty(),
    }
}

/// What is drawn in a terminal of `w` columns and `h` lines.
pub open spec fn screen_text(
    s: SnapshotView,
    w: int,
    h: int,
    clock: ClockView,
    rate: nat,
) -> Seq<char> {
    if too_small(w, h) {
        notice(w, h)
    } else {
        active_pane(s, w, h, clock, rate)
    }
}

/// Whether a pane is drawn and each of its lines fits the terminal: the
/// status texts beside the tab bar and, in the two panes that do not cut
/// their rows, each row that is shown.
pub open spec fn drawn_lines_fit(s: SnapshotView, w: int, h: int, clock: ClockView, rate: nat) -> bool {
    match tab_at(s.menu) {
        Some(Tab::AccessPoints) => ap_lines_fit(s, w, h, clock, rate),
        Some(Tab::Clients) => stations(s).len() <= usize::MAX && status_fits(
            w,
            s.frame_count,
            rate,
            client_status(s),
        ),
        Some(Tab::Handshakes) => handshake_lines_fit(s, w, h, rate),
        Some(Tab::Messages) => status_fits(w, s.frame_count, rate, errors_text(s.error_count)),
        None => false,
    }
}

/// In a terminal that is large enough, whichever pane is drawn takes exactly
/// as many lines as the terminal has, each of the terminal's width, wherever
/// its lines fit.
pub proof fn lemma_drawn_pane_fills_screen(oxide: Snapshot, w: int, h: int, clock: Clock, rate: u64)
    requires
        !too_small(w, h),
        drawn_lines_fit(oxide@, w, h, clock@, rate as nat),
    ensures
        screen_text(oxide@, w, h, clock@, rate as nat).len() == w * h,
{
    match tab_at(oxide@.menu) {
        Some(Tab::AccessPoints) => lemma_access_points_pane_fills_screen(oxide, w, h, clock, rate),
        Some(Tab::Clients) => lemma_clients_pane_fills_screen(oxide, w, h, clock, rate),
        Some(Tab::Handshakes) => lemma_handshakes_pane_fills_screen(oxide, w, h, clock, rate),
        Some(Tab::Messages) => lemma_messages_pane_fills_screen(oxide, w, h, clock, rate),
        None => {},
    }
}

/// The notice that a terminal of `w` columns and `h` lines is too small.
pub fn render_notice(w: usize, h: usize) -> (frame: String)
    ensures
        frame@ == notice(w as int, h as int),
{
    let mut frame = String::new();
    let half = h / 2;
    let mut line: usize = 0;
    assert(frame@ =~= blank_lines(w as int, 0));
    while line < half
        invariant
            line <= half,
            frame@ == blank_lines(w as int, line as int),
        decreases half - line,
    {
        append_blanks(&mut frame, w);
        proof {
            assert(w * line + w == w * (line + 1)) by (nonlinear_arith);
            assert(w * line >= 0) by (nonlinear_arith)
                requires
                    w >= 0,
                    line >= 0,
            ;
            assert(frame@ =~= blank_lines(w as int, line + 1));
        }
        line += 1;
    }
    append_centered(&mut frame, NOTICE_TOP, w);
    append_centered(&mut frame, NOTICE_TEXT, w);
    append_centered(&mut frame, NOTICE_BOTTOM, w);
    assert(frame@ =~= notice(w as int, h as int));
    frame
}

/// What is drawn at the clock reading `clock` in a terminal of `winsize.0`
/// columns and `winsize.1` lines: in a terminal that is too small only the
/// notice, never a pane.
pub fn render_screen(
    oxide: &Snapshot,
    winsize: (u16, u16),
    clock: &Clock,
    framerate: u64,
) -> (frame: String)
    ensures
        frame@ == screen_text(
            oxide@,
            winsize.0 as int,
            winsize.1 as int,
            clock@,
            framerate as nat,
        ),
        too_small(winsize.0 as int, winsize.1 as int) ==> frame@ == notice(
            winsize.0 as int,
            winsize.1 as int,
        ),
{
    if winsize.0 < MIN_WIDTH || winsize.1 < MIN_HEIGHT {
        return render_notice(winsize.0 as usize, winsize.1 as usize);
    }
    match Tab::from_index(oxide.ui_state.menu) {
        Some(Tab::AccessPoints) => render_access_points(oxide, winsize, clock, framerate),
        Some(Tab::Clients) => render_clients(oxide, winsize, clock, framerate),
        Some(Tab::Handshakes) => render_handshakes(oxide, winsize, clock, framerate),
        Some(Tab::Messages) => render_messages(oxide, winsize, clock, framerate),
        None => String::new(),
    }
}

/// What is drawn now, `start_time` being the moment at which the dashboard
/// started.
pub fn compose_screen(
    oxide: &Snapshot,
    winsize: (u16, u16),
    start_time: Instant,
    framerate: u64,
) -> (frame: String)
    ensures
        exists|clock: Clock|
            frame@ == screen_text(
                oxide@,
                winsize.0 as int,
                winsize.1 as int,
                clock@,
                framerate as nat,
            ),
        too_small(winsize.0 as int, winsize.1 as int) ==> frame@ == notice(
            winsize.0 as int,
            winsize.1 as int,
        ),
{
    let clock = Clock::read(&start_time);
    let frame = render_screen(oxide, winsize, &clock, framerate);
    assert(frame@ == screen_text(
        oxide@,
        winsize.0 as int,
        winsize.1 as int,
        clock@,
        framerate as nat,
    ));
    frame
}

} // verus!
