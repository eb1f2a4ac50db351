use std::time::Instant;

use oxide_ui::clients::{
    all_stations, client_row_text, clients_pane, probes_label, render_clients,
};
use oxide_ui::model::{
    AccessPoint, ApSort, ClientSort, Interface, MacAddress, Snapshot, Station, UiState,
};
use oxide_ui::time::Clock;

const NOW: u64 = 1_700_000_000;

fn mac(last: u8) -> MacAddress {
    MacAddress { octets: [0xaa, 0xbb, 0xcc, 0x00, 0x00, last] }
}

fn station(last: u8, ap: Option<u8>, rssi: i8, seen: u64, probes: &[&str]) -> Station {
    Station {
        mac: mac(last),
        access_point: ap.map(mac),
        rssi,
        last_recv: seen,
        probes: probes.iter().map(|p| p.to_string()).collect(),
    }
}

fn access_point(last: u8, clients: Vec<Station>) -> AccessPoint {
    AccessPoint {
        mac: mac(last),
        ssid: None,
        last_recv: NOW,
        rssi: -50,
        channel: None,
        clients,
        interactions: 0,
    }
}

fn snapshot(
    unassoc_clients: Vec<Station>,
    access_points: Vec<AccessPoint>,
    cl_sort: ClientSort,
    sort_reverse: bool,
) -> Snapshot {
    Snapshot {
        interface: Interface { index: None, channel: None },
        access_points,
        unassoc_clients,
        handshakes: Vec::new(),
        status_log: Vec::new(),
        frame_count: 0,
        error_count: 0,
        rogue_client: mac(0xff),
        ui_state: UiState { menu: 1, ap_sort: ApSort::Last, cl_sort, sort_reverse },
    }
}

fn mixed() -> Snapshot {
    snapshot(
        vec![station(1, None, -60, NOW - 5, &[]), station(2, None, 0, NOW - 1, &["a"])],
        vec![
            access_point(0xa1, vec![station(3, Some(0xa1), -30, NOW - 5, &[])]),
            access_point(0xa2, Vec::new()),
            access_point(
                0xa3,
                vec![
                    station(4, Some(0xa3), -60, NOW - 9, &[]),
                    station(5, Some(0xa3), -10, NOW - 2, &[]),
                ],
            ),
        ],
        ClientSort::Last,
        false,
    )
}

fn clock() -> Clock {
    Clock { uptime: 0, now: Some(NOW) }
}

fn lines(frame: &str, width: usize) -> Vec<String> {
    let glyphs: Vec<char> = frame.chars().collect();
    glyphs.chunks(width).map(|line| line.iter().collect()).collect()
}

fn shown_order(oxide: &Snapshot) -> Vec<String> {
    let frame = render_clients(oxide, (100, 20), &clock(), 1);
    lines(&frame, 100)[5..18]
        .iter()
        .filter(|line| line.starts_with("  aabbcc"))
        .map(|line| line[2..14].to_string())
        .collect()
}

#[test]
fn the_stations_without_an_access_point_come_before_those_of_the_access_points() {
    let oxide = mixed();
    let macs: Vec<u8> = all_stations(&oxide).iter().map(|c| c.mac.octets[5]).collect();
    assert_eq!(macs, vec![1, 2, 3, 4, 5]);
}

#[test]
fn a_station_in_two_places_is_listed_twice() {
    let twice = station(7, None, -1, NOW, &[]);
    let oxide = snapshot(
        vec![twice.clone()],
        vec![access_point(0xa1, vec![twice])],
        ClientSort::Last,
        false,
    );
    assert_eq!(all_stations(&oxide).len(), 2);
    assert_eq!(shown_order(&oxide), vec!["aabbcc000007", "aabbcc000007"]);
}

#[test]
fn probed_names_are_joined_by_commas() {
    assert_eq!(probes_label(&Vec::new()), "");
    assert_eq!(probes_label(&vec!["home".to_string()]), "home");
    assert_eq!(
        probes_label(&vec!["home".to_string(), "café".to_string(), "".to_string()]),
        "home, café, "
    );
}

#[test]
fn a_client_row_lays_out_every_column() {
    let c = station(9, Some(0xa1), -55, NOW - 61, &["home", "work"]);
    let expected = format!(
        "  {:<15} {:<15} {:<8} {:<6} {:<30}",
        "aabbcc000009", "aabbcc0000a1", "-55", "1m", "home, work"
    );
    assert_eq!(client_row_text(&c, Some(NOW), 100), expected);
    assert_eq!(expected.chars().count(), 80);
}

#[test]
fn a_signal_strength_of_zero_is_left_blank() {
    let c = station(9, None, 0, NOW, &[]);
    let expected = format!("  {:<15} {:<15} {:<8} {:<6} {:<30}", "aabbcc000009", "", "", "0s", "");
    assert_eq!(client_row_text(&c, Some(NOW), 100), expected);
}

#[test]
fn a_row_wider_than_the_terminal_is_cut_and_ends_in_an_ellipsis() {
    let long = "x".repeat(80);
    let c = station(9, None, -1, NOW, &[&long]);
    let row = client_row_text(&c, Some(NOW), 100);
    let full = format!("  {:<15} {:<15} {:<8} {:<6} {:<30}", "aabbcc000009", "", "-1", "0s", long);
    assert_eq!(full.chars().count(), 130);
    assert_eq!(row, format!("{}...", &full[..97]));
    assert_eq!(row.chars().count(), 100);
}

#[test]
fn the_station_seen_last_comes_first() {
    assert_eq!(
        shown_order(&mixed()),
        vec!["aabbcc000002", "aabbcc000005", "aabbcc000001", "aabbcc000003", "aabbcc000004"]
    );
}

#[test]
fn the_strongest_station_comes_first_under_the_signal_key() {
    let mut oxide = mixed();
    oxide.ui_state.cl_sort = ClientSort::Rssi;
    assert_eq!(
        shown_order(&oxide),
        vec!["aabbcc000002", "aabbcc000005", "aabbcc000003", "aabbcc000001", "aabbcc000004"]
    );
}

#[test]
fn the_reverse_flag_reverses_the_clients_too() {
    for key in [ClientSort::Last, ClientSort::Rssi] {
        let mut oxide = mixed();
        oxide.ui_state.cl_sort = key;
        let down = shown_order(&oxide);
        oxide.ui_state.sort_reverse = true;
        let mut up = shown_order(&oxide);
        up.reverse();
        assert_eq!(down, up);
    }
}

#[test]
fn the_status_band_names_the_client_key() {
    let mut oxide = mixed();
    oxide.ui_state.cl_sort = ClientSort::Rssi;
    oxide.error_count = 11;
    let frame = render_clients(&oxide, (120, 10), &clock(), 1);
    let lines = lines(&frame, 120);
    assert!(lines[2].ends_with("  Sort: RSSI ▼ | Errors: 11"));
    assert!(lines[3].starts_with("┻━━━━━━━━━━━━━━━┻━┛           ┗━┻"));
    assert_eq!(
        lines[4].trim_end(),
        "  MAC Address     Access Point    RSSI     Last   Probes"
    );
}

#[test]
fn the_note_counts_exactly_the_hidden_stations() {
    let many = (0..10u8).map(|i| station(i, None, -1, NOW - i as u64, &[])).collect();
    let oxide = snapshot(many, Vec::new(), ClientSort::Last, false);
    let frame = render_clients(&oxide, (100, 10), &clock(), 1);
    let lines = lines(&frame, 100);
    assert_eq!(lines.len(), 10);
    assert!(lines[5].starts_with("  aabbcc000000"));
    assert!(lines[6].starts_with("  aabbcc000001"));
    assert_eq!(lines[7], format!("{:^100}", "---- +8 more ----"));
    assert_eq!(lines[8], "━".repeat(100));
}

#[test]
fn as_many_stations_as_rows_leave_the_last_row_to_the_note() {
    let three = (0..3u8).map(|i| station(i, None, -1, NOW - i as u64, &[])).collect();
    let oxide = snapshot(three, Vec::new(), ClientSort::Last, false);
    let tight = lines(&render_clients(&oxide, (100, 10), &clock(), 1), 100);
    let roomy = lines(&render_clients(&oxide, (100, 11), &clock(), 1), 100);
    assert!(tight[6].starts_with("  aabbcc000001"));
    assert_eq!(tight[7], format!("{:^100}", "---- +1 more ----"));
    assert!(roomy[7].starts_with("  aabbcc000002"));
    assert_eq!(roomy[8], " ".repeat(100));
}

#[test]
fn the_clients_pane_fills_the_screen() {
    for (w, h) in [(100u16, 9u16), (101, 15), (180, 50)] {
        for n in [0u8, 1, 7, 60] {
            let long = "probe ".repeat(40);
            let many = (0..n).map(|i| station(i, None, -1, NOW, &[&long])).collect();
            let oxide = snapshot(many, Vec::new(), ClientSort::Rssi, true);
            let frame = render_clients(&oxide, (w, h), &clock(), 1);
            assert_eq!(frame.chars().count(), w as usize * h as usize);
        }
    }
}

#[test]
fn the_clients_pane_reads_the_clocks_itself() {
    let frame = clients_pane(&mixed(), (100, 12), Instant::now(), 25);
    let lines = lines(&frame, 100);
    assert_eq!(lines.len(), 12);
    assert_eq!(lines[0], format!("{:^100}", "𝘈𝘯𝘨𝘳𝘺𝘖𝘹𝘪𝘥𝘦 | v0.1 | rage 2023 | 00:00:00"));
    assert!(lines[1].ends_with(&format!("{:^15} | {:^10}", "Frames #: 0", "Rate: 25/s")));
    assert!(lines[5].starts_with("  aabbcc000002"));
}
