use std::time::Instant;

use oxide_ui::messages::{
    append_recent_messages, message_row_text, messages_pane, render_messages,
};
use oxide_ui::model::{
    ApSort, ClientSort, Interface, MacAddress, Snapshot, StatusMessage, UiState,
};
use oxide_ui::time::Clock;

fn message(timestamp: i64, kind: &str, content: &str) -> StatusMessage {
    StatusMessage { timestamp, kind: kind.to_string(), content: content.to_string() }
}

fn snapshot(status_log: Vec<StatusMessage>) -> Snapshot {
    Snapshot {
        interface: Interface { index: None, channel: None },
        access_points: Vec::new(),
        unassoc_clients: Vec::new(),
        handshakes: Vec::new(),
        status_log,
        frame_count: 1,
        error_count: 0,
        rogue_client: MacAddress { octets: [0; 6] },
        ui_state: UiState {
            menu: 3,
            ap_sort: ApSort::Last,
            cl_sort: ClientSort::Last,
            sort_reverse: false,
        },
    }
}

fn numbered(n: usize) -> Vec<StatusMessage> {
    (0..n).map(|i| message(60 * i as i64, "Info", &format!("message {}", i))).collect()
}

fn clock() -> Clock {
    Clock { uptime: 0, now: Some(0) }
}

fn lines(frame: &str, width: usize) -> Vec<String> {
    let glyphs: Vec<char> = frame.chars().collect();
    glyphs.chunks(width).map(|line| line.iter().collect()).collect()
}

#[test]
fn a_message_row_shows_moment_category_and_content() {
    let row = message_row_text("2023-11-14 22:13:20 UTC", "Error", "no route", 100);
    assert_eq!(row, "  2023-11-14 22:13:20 UTC   Error  no route");
    assert_eq!(row, format!("  {:<25} {:<6} {}", "2023-11-14 22:13:20 UTC", "Error", "no route"));
}

#[test]
fn a_message_row_wider_than_the_terminal_is_cut() {
    let content = "é".repeat(100);
    let row = message_row_text("m", "Priority", &content, 100);
    assert_eq!(row, format!("  {:<25} Priority {}...", "m", "é".repeat(60)));
    assert_eq!(row.chars().count(), 100);
    let fitting = message_row_text("m", "Info", &"é".repeat(65), 100);
    assert_eq!(fitting.chars().count(), 100);
    assert!(fitting.ends_with("éé"));
}

#[test]
fn the_newest_message_comes_first() {
    let oxide = snapshot(numbered(3));
    let frame = render_messages(&oxide, (100, 12), &clock(), 1);
    let lines = lines(&frame, 100);
    assert_eq!(lines.len(), 12);
    assert_eq!(lines[4], format!("{:<100}", "  Date / Time               Type   Message"));
    assert_eq!(lines[5], format!("{:<100}", "  1970-01-01 00:02:00 UTC   Info   message 2"));
    assert_eq!(lines[6], format!("{:<100}", "  1970-01-01 00:01:00 UTC   Info   message 1"));
    assert_eq!(lines[7], format!("{:<100}", "  1970-01-01 00:00:00 UTC   Info   message 0"));
    assert_eq!(lines[8], " ".repeat(100));
    assert_eq!(lines[9], " ".repeat(100));
    assert_eq!(lines[10], "━".repeat(100));
}

#[test]
fn only_as_many_messages_as_rows_are_shown_and_no_note() {
    let oxide = snapshot(numbered(10));
    let frame = render_messages(&oxide, (100, 10), &clock(), 1);
    let lines = lines(&frame, 100);
    assert_eq!(lines.len(), 10);
    assert!(lines[5].ends_with(&format!(" Info   {:<65}", "message 9")));
    assert!(lines[6].contains("message 8"));
    assert!(lines[7].contains("message 7"));
    assert_eq!(lines[8], "━".repeat(100));
    assert!(!frame.contains("more"));
}

#[test]
fn recent_messages_stop_at_the_limit_or_at_the_end_of_the_log() {
    let log = numbered(4);
    let mut out = String::from(">");
    append_recent_messages(&mut out, &log, 2, 50);
    assert_eq!(
        out,
        format!(
            ">{:<50}{:<50}",
            "  1970-01-01 00:03:00 UTC   Info   message 3",
            "  1970-01-01 00:02:00 UTC   Info   message 2"
        )
    );
    let mut out = String::new();
    append_recent_messages(&mut out, &log, 9, 50);
    assert_eq!(out.chars().count(), 200);
    let mut out = String::new();
    append_recent_messages(&mut out, &log, 0, 50);
    assert_eq!(out, "");
}

#[test]
fn a_message_from_a_moment_that_cannot_be_printed_says_so() {
    let oxide = snapshot(vec![message(i64::MAX, "Status", "odd")]);
    let frame = render_messages(&oxide, (100, 9), &clock(), 1);
    let lines = lines(&frame, 100);
    assert_eq!(lines[5], format!("{:<100}", "  Invalid timestamp         Status odd"));
}

#[test]
fn the_seam_is_open_under_the_messages_tab() {
    let frame = render_messages(&snapshot(Vec::new()), (100, 9), &clock(), 1);
    let lines = lines(&frame, 100);
    assert_eq!(
        lines[3],
        format!(
            "┻━━━━━━━━━━━━━━━┻━┻━━━━━━━━━━━┻━┻━━━━━━━━━━━━━━┻━┛            ┗{}",
            "━".repeat(37)
        )
    );
    assert!(lines[2].ends_with("   Errors: 0"));
}

#[test]
fn the_messages_pane_fills_the_screen() {
    for (w, h) in [(100u16, 9u16), (100, 10), (160, 45)] {
        for n in [0usize, 1, 2, 3, 100] {
            let mut log = numbered(n);
            log.push(message(1, "Warning", &"long ".repeat(50)));
            let frame = render_messages(&snapshot(log), (w, h), &clock(), 1);
            assert_eq!(frame.chars().count(), w as usize * h as usize);
        }
    }
}

#[test]
fn the_messages_pane_reads_the_clocks_itself() {
    let frame = messages_pane(&snapshot(numbered(1)), (100, 9), Instant::now(), 1);
    let lines = lines(&frame, 100);
    assert_eq!(lines.len(), 9);
    assert!(lines[0].contains("| 00:00:00"));
    assert!(lines[5].contains("message 0"));
}
