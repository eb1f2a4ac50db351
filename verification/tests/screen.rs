use std::time::Instant;

use oxide_ui::access_points::{access_points_pane, render_access_points};
use oxide_ui::clients::render_clients;
use oxide_ui::handshakes::render_handshakes;
use oxide_ui::messages::render_messages;
use oxide_ui::model::{
    AccessPoint, ApSort, ClientSort, Interface, MacAddress, Snapshot, Tab, UiState,
};
use oxide_ui::screen::{compose_screen, render_notice, render_screen};
use oxide_ui::time::Clock;

const TOP: &str = "┏━━━━━━━━━━━━━━━━━━━━━━━━━━━━━━━┓";
const TEXT: &str = "┃ AngryOxide terminal too small ┃";
const BOTTOM: &str = "┗━━━━━━━━━━━━━━━━━━━━━━━━━━━━━━━┛";

fn snapshot(menu: u8) -> Snapshot {
    let ap = AccessPoint {
        mac: MacAddress { octets: [1, 2, 3, 4, 5, 6] },
        ssid: Some("lab".to_string()),
        last_recv: 90,
        rssi: -33,
        channel: Some(44),
        clients: Vec::new(),
        interactions: 3,
    };
    Snapshot {
        interface: Interface { index: Some(1), channel: Some(44) },
        access_points: vec![ap],
        unassoc_clients: Vec::new(),
        handshakes: Vec::new(),
        status_log: Vec::new(),
        frame_count: 9,
        error_count: 0,
        rogue_client: MacAddress { octets: [0; 6] },
        ui_state: UiState {
            menu,
            ap_sort: ApSort::Last,
            cl_sort: ClientSort::Last,
            sort_reverse: false,
        },
    }
}

fn clock() -> Clock {
    Clock { uptime: 7, now: Some(100) }
}

fn notice(w: usize, h: usize) -> String {
    let mut expected = String::new();
    for _ in 0..h / 2 {
        expected.push_str(&" ".repeat(w));
    }
    expected.push_str(&format!("{:^w$}{:^w$}{:^w$}", TOP, TEXT, BOTTOM, w = w));
    expected
}

#[test]
fn the_notice_is_centered_under_half_the_height_in_blank_lines() {
    assert_eq!(render_notice(40, 6), notice(40, 6));
    assert_eq!(render_notice(40, 7), notice(40, 7));
    let frame = render_notice(99, 30);
    assert_eq!(frame.chars().count(), 99 * 18);
    assert_eq!(&frame[..99 * 15], " ".repeat(99 * 15));
}

#[test]
fn a_terminal_of_unknown_size_gets_the_bare_notice() {
    assert_eq!(render_notice(0, 0), format!("{}{}{}", TOP, TEXT, BOTTOM));
    assert_eq!(render_screen(&snapshot(0), (0, 0), &clock(), 1), format!("{}{}{}", TOP, TEXT, BOTTOM));
}

#[test]
fn a_narrow_notice_is_not_padded() {
    assert_eq!(render_notice(10, 2), format!("{}{}{}{}", " ".repeat(10), TOP, TEXT, BOTTOM));
}

#[test]
fn a_terminal_that_is_too_small_gets_only_the_notice() {
    for menu in [0u8, 1, 2, 3, 4, 200] {
        for (w, h) in [(99u16, 9u16), (100, 8), (99, 8), (0, 50), (500, 0), (1, 1), (99, 500)] {
            let frame = render_screen(&snapshot(menu), (w, h), &clock(), 1);
            assert_eq!(frame, notice(w as usize, h as usize), "{}x{} tab {}", w, h, menu);
            assert!(!frame.contains("Access Points"));
            assert!(!frame.contains("quit"));
        }
    }
}

#[test]
fn the_smallest_terminal_that_is_large_enough_gets_a_pane() {
    let frame = render_screen(&snapshot(0), (100, 9), &clock(), 1);
    assert_eq!(frame, render_access_points(&snapshot(0), (100, 9), &clock(), 1));
    assert_eq!(frame.chars().count(), 900);
    assert!(!frame.contains("too small"));
}

#[test]
fn the_tab_index_selects_the_pane() {
    let size = (120, 20);
    assert_eq!(
        render_screen(&snapshot(0), size, &clock(), 5),
        render_access_points(&snapshot(0), size, &clock(), 5)
    );
    assert_eq!(
        render_screen(&snapshot(1), size, &clock(), 5),
        render_clients(&snapshot(1), size, &clock(), 5)
    );
    assert_eq!(
        render_screen(&snapshot(2), size, &clock(), 5),
        render_handshakes(&snapshot(2), size, &clock(), 5)
    );
    assert_eq!(
        render_screen(&snapshot(3), size, &clock(), 5),
        render_messages(&snapshot(3), size, &clock(), 5)
    );
}

#[test]
fn each_pane_draws_its_own_seam() {
    let size = (100, 9);
    let seams: Vec<String> = (0..4u8)
        .map(|menu| {
            let frame = render_screen(&snapshot(menu), size, &clock(), 5);
            frame.chars().skip(300).take(63).collect()
        })
        .collect();
    assert_eq!(seams[0], "┛               ┗━┻━━━━━━━━━━━┻━┻━━━━━━━━━━━━━━┻━┻━━━━━━━━━━━━┻");
    assert_eq!(seams[1], "┻━━━━━━━━━━━━━━━┻━┛           ┗━┻━━━━━━━━━━━━━━┻━┻━━━━━━━━━━━━┻");
    assert_eq!(seams[2], "┻━━━━━━━━━━━━━━━┻━┻━━━━━━━━━━━┻━┛              ┗━┻━━━━━━━━━━━━┻");
    assert_eq!(seams[3], "┻━━━━━━━━━━━━━━━┻━┻━━━━━━━━━━━┻━┻━━━━━━━━━━━━━━┻━┛            ┗");
}

#[test]
fn a_tab_index_beyond_the_fourth_draws_nothing() {
    assert_eq!(render_screen(&snapshot(4), (100, 9), &clock(), 1), "");
    assert_eq!(render_screen(&snapshot(255), (300, 90), &clock(), 1), "");
}

#[test]
fn tabs_are_numbered_from_zero() {
    assert_eq!(Tab::from_index(0), Some(Tab::AccessPoints));
    assert_eq!(Tab::from_index(1), Some(Tab::Clients));
    assert_eq!(Tab::from_index(2), Some(Tab::Handshakes));
    assert_eq!(Tab::from_index(3), Some(Tab::Messages));
    assert_eq!(Tab::from_index(4), None);
    assert_eq!(Tab::from_index(255), None);
}

#[test]
fn the_screen_is_composed_at_the_current_clock() {
    let frame = compose_screen(&snapshot(0), (100, 9), Instant::now(), 1);
    assert_eq!(frame.chars().count(), 900);
    assert!(frame.contains("| 00:00:00"));
    assert!(frame.contains("  010203040506    44   -33  "));
    assert_eq!(compose_screen(&snapshot(0), (80, 24), Instant::now(), 1), notice(80, 24));
    assert_eq!(compose_screen(&snapshot(9), (100, 9), Instant::now(), 1), "");
}

#[test]
fn the_access_points_pane_reads_the_clocks_itself() {
    let frame = access_points_pane(&snapshot(0), (100, 9), Instant::now(), 1);
    assert_eq!(frame.chars().count(), 900);
    assert!(frame.contains("| 00:00:00"));
    let row: String = frame.chars().skip(500).take(100).collect();
    assert!(row.starts_with("  010203040506    44   -33  "));
    assert!(row.contains("h lab "));
}
