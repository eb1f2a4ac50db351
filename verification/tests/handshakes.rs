use std::time::Instant;

use oxide_ui::handshakes::{
    handshake_row_text, handshake_sort_keys, handshakes_pane, render_handshakes,
};
use oxide_ui::model::{ApSort, ClientSort, Handshake, Interface, MacAddress, Snapshot, UiState};
use oxide_ui::time::Clock;

fn mac(first: u8, last: u8) -> MacAddress {
    MacAddress { octets: [first, 0x11, 0x22, 0x33, 0x44, last] }
}

fn handshake(client: u8, essid: &str, last_msg: Option<u64>) -> Handshake {
    Handshake {
        ap: mac(0xa0, 1),
        client: mac(0xc0, client),
        essid: essid.to_string(),
        progress: "[M1 M2 M3 M4 MC] | [PM] | COMPLETE".to_string(),
        last_msg,
        complete: true,
        pmkid: false,
    }
}

fn snapshot(handshakes: Vec<Handshake>) -> Snapshot {
    Snapshot {
        interface: Interface { index: None, channel: None },
        access_points: Vec::new(),
        unassoc_clients: Vec::new(),
        handshakes,
        status_log: Vec::new(),
        frame_count: 77,
        error_count: 5,
        rogue_client: mac(0, 0),
        ui_state: UiState {
            menu: 2,
            ap_sort: ApSort::Last,
            cl_sort: ClientSort::Last,
            sort_reverse: true,
        },
    }
}

fn clock() -> Clock {
    Clock { uptime: 59, now: None }
}

fn lines(frame: &str, width: usize) -> Vec<String> {
    let glyphs: Vec<char> = frame.chars().collect();
    glyphs.chunks(width).map(|line| line.iter().collect()).collect()
}

fn shown_clients(oxide: &Snapshot, h: u16) -> Vec<String> {
    let frame = render_handshakes(oxide, (100, h), &clock(), 1);
    lines(&frame, 100)[5..]
        .iter()
        .filter(|line| line.starts_with("  a0"))
        .map(|line| line[28..30].to_string())
        .collect()
}

#[test]
fn a_handshake_row_lays_out_every_column() {
    let hs = handshake(7, "home", Some(1));
    let expected = format!(
        "  {:<15} {:<15} {:<30} {:<30}",
        "a01122334401", "c01122334407", "home", "[M1 M2 M3 M4 MC] | [PM] | COMPLETE"
    );
    assert_eq!(handshake_row_text(&hs), expected);
    assert_eq!(expected.chars().count(), 99);
}

#[test]
fn a_long_network_name_is_cut_in_a_handshake_row() {
    let hs = handshake(7, &"ñ".repeat(31), Some(1));
    let row = handshake_row_text(&hs);
    assert!(row.contains(&format!(" {}... [M1", "ñ".repeat(27))));
    let hs = handshake(7, &"ñ".repeat(30), Some(1));
    assert!(handshake_row_text(&hs).contains(&format!(" {} [M1", "ñ".repeat(30))));
}

#[test]
fn a_handshake_without_a_message_sorts_below_all_others() {
    let oxide = snapshot(vec![
        handshake(1, "a", None),
        handshake(2, "b", Some(0)),
        handshake(3, "c", Some(u64::MAX)),
    ]);
    assert_eq!(handshake_sort_keys(&oxide), vec![-1, 0, u64::MAX as i128]);
    assert_eq!(shown_clients(&oxide, 20), vec!["03", "02", "01"]);
}

#[test]
fn the_handshake_with_the_most_recent_message_comes_first_whatever_the_flag() {
    let mut oxide = snapshot(vec![
        handshake(1, "a", Some(100)),
        handshake(2, "b", Some(300)),
        handshake(3, "c", Some(200)),
        handshake(4, "d", Some(300)),
    ]);
    assert_eq!(shown_clients(&oxide, 20), vec!["02", "04", "03", "01"]);
    oxide.ui_state.sort_reverse = false;
    assert_eq!(shown_clients(&oxide, 20), vec!["02", "04", "03", "01"]);
}

#[test]
fn hidden_handshakes_are_counted_exactly() {
    let many = (0..9u8).map(|i| handshake(i, "x", Some(100 - i as u64))).collect();
    let oxide = snapshot(many);
    let frame = render_handshakes(&oxide, (100, 11), &clock(), 1);
    let lines = lines(&frame, 100);
    assert_eq!(lines.len(), 11);
    assert_eq!(shown_clients(&oxide, 11), vec!["00", "01", "02"]);
    assert_eq!(lines[8], format!("{:^100}", "---- +6 more ----"));
    assert_eq!(lines[9], "━".repeat(100));
}

#[test]
fn the_status_band_of_the_handshakes_shows_the_errors_alone() {
    let frame = render_handshakes(&snapshot(Vec::new()), (100, 9), &clock(), 40);
    let lines = lines(&frame, 100);
    assert_eq!(lines[0], format!("{:^100}", "𝘈𝘯𝘨𝘳𝘺𝘖𝘹𝘪𝘥𝘦 | v0.1 | rage 2023 | 00:00:59"));
    assert!(lines[1].ends_with(&format!("{:^15} | {:^10}", "Frames #: 77", "Rate: 40/s")));
    assert!(lines[2].ends_with("          Errors: 5"));
    assert_eq!(
        lines[3],
        format!(
            "┻━━━━━━━━━━━━━━━┻━┻━━━━━━━━━━━┻━┛              ┗━┻━━━━━━━━━━━━┻{}",
            "━".repeat(37)
        )
    );
    assert_eq!(
        lines[4],
        format!(
            "{:<100}",
            format!(
                "  {:<15} {:<15} {:<30} {:<30}",
                "AP MAC", "Client MAC", "SSID", "[M1 M2 M3 M4 MC] | [PM] | COMPLETE"
            )
        )
    );
}

#[test]
fn the_handshakes_pane_fills_the_screen() {
    for (w, h) in [(100u16, 9u16), (140, 30)] {
        for n in [0u8, 1, 2, 23, 40] {
            let many = (0..n).map(|i| handshake(i, "x", Some(i as u64))).collect();
            let frame = render_handshakes(&snapshot(many), (w, h), &clock(), 1);
            assert_eq!(frame.chars().count(), w as usize * h as usize);
        }
    }
}

#[test]
fn the_handshakes_pane_reads_the_clocks_itself() {
    let oxide = snapshot(vec![handshake(1, "a", Some(1))]);
    let frame = handshakes_pane(&oxide, (100, 9), Instant::now(), 1);
    let lines = lines(&frame, 100);
    assert_eq!(lines.len(), 9);
    assert!(lines[0].contains("| 00:00:00"));
    assert!(lines[5].starts_with("  a01122334401    c01122334401    a "));
}
