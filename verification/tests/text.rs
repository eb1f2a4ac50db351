use oxide_ui::model::MacAddress;
use oxide_ui::order::{sort_descending, sort_for_display};
use oxide_ui::text::{
    append_blanks, append_centered, append_decimal, append_hex_pair, append_left,
    append_repeated, append_right, append_signed, append_two_digits, clip, decimal_text, width_of,
};

#[test]
fn decimal_text_of_zero_is_one_digit() {
    assert_eq!(decimal_text(0), "0");
}

#[test]
fn decimal_text_of_the_largest_value() {
    assert_eq!(decimal_text(u64::MAX), "18446744073709551615");
}

#[test]
fn decimal_text_has_no_leading_zeros() {
    assert_eq!(decimal_text(9), "9");
    assert_eq!(decimal_text(10), "10");
    assert_eq!(decimal_text(1_000_000), "1000000");
    assert_eq!(decimal_text(9_405), "9405");
}

#[test]
fn append_decimal_keeps_what_stands_before() {
    let mut out = String::from("n=");
    append_decimal(&mut out, 42);
    assert_eq!(out, "n=42");
}

#[test]
fn a_negative_number_gets_a_minus_sign() {
    let mut out = String::new();
    append_signed(&mut out, -42);
    out.push(' ');
    append_signed(&mut out, 0);
    out.push(' ');
    append_signed(&mut out, 127);
    out.push(' ');
    append_signed(&mut out, i64::MIN);
    assert_eq!(out, "-42 0 127 -9223372036854775808");
}

#[test]
fn two_digits_pad_with_a_zero() {
    let mut out = String::new();
    append_two_digits(&mut out, 0);
    append_two_digits(&mut out, 7);
    append_two_digits(&mut out, 10);
    append_two_digits(&mut out, 123);
    assert_eq!(out, "000710123");
}

#[test]
fn an_octet_is_two_lower_case_hexadecimal_digits() {
    let mut out = String::new();
    for b in [0x00u8, 0x09, 0x0a, 0x1f, 0xa0, 0xff] {
        append_hex_pair(&mut out, b);
    }
    assert_eq!(out, "00090a1fa0ff");
}

#[test]
fn an_address_is_twelve_hexadecimal_digits() {
    let mac = MacAddress { octets: [0xde, 0xad, 0xbe, 0xef, 0x00, 0x01] };
    assert_eq!(mac.text(), "deadbeef0001");
    let mut out = String::from("Mac: ");
    mac.append_to(&mut out);
    assert_eq!(out, "Mac: deadbeef0001");
}

#[test]
fn addresses_are_the_same_when_every_octet_is() {
    let a = MacAddress { octets: [1, 2, 3, 4, 5, 6] };
    assert!(a.same(&MacAddress { octets: [1, 2, 3, 4, 5, 6] }));
    for i in 0..6 {
        let mut octets = [1, 2, 3, 4, 5, 6];
        octets[i] = 0;
        assert!(!a.same(&MacAddress { octets }));
    }
}

#[test]
fn width_counts_characters() {
    assert_eq!(width_of(""), 0);
    assert_eq!(width_of("abc"), 3);
    assert_eq!(width_of("┏━┓"), 3);
    assert_eq!(width_of("𝘈𝘯𝘨𝘳𝘺"), 5);
}

#[test]
fn repeated_glyphs_and_blanks() {
    let mut out = String::from("a");
    append_repeated(&mut out, "━", 3);
    append_blanks(&mut out, 2);
    append_repeated(&mut out, "x", 0);
    out.push('b');
    assert_eq!(out, "a━━━  b");
}

#[test]
fn left_alignment_pads_on_the_right() {
    let mut out = String::new();
    append_left(&mut out, "ab", 5);
    out.push('|');
    append_left(&mut out, "abcdef", 5);
    out.push('|');
    append_left(&mut out, "é", 3);
    out.push('|');
    append_left(&mut out, "", 2);
    assert_eq!(out, "ab   |abcdef|é  |  ");
}

#[test]
fn right_alignment_pads_on_the_left() {
    let mut out = String::new();
    append_right(&mut out, "ab", 5);
    out.push('|');
    append_right(&mut out, "abcdef", 5);
    out.push('|');
    append_right(&mut out, "▲", 2);
    assert_eq!(out, "   ab|abcdef| ▲");
}

#[test]
fn centering_puts_the_odd_blank_on_the_right() {
    let mut out = String::new();
    append_centered(&mut out, "ab", 5);
    out.push('|');
    append_centered(&mut out, "ab", 6);
    out.push('|');
    append_centered(&mut out, "abcdef", 5);
    out.push('|');
    append_centered(&mut out, "", 3);
    assert_eq!(out, " ab  |  ab  |abcdef|   ");
    assert_eq!(out, format!("{:^5}|{:^6}|{:^5}|{:^3}", "ab", "ab", "abcdef", ""));
}

#[test]
fn clip_cuts_to_the_width_in_characters() {
    assert_eq!(clip("äbcdefghij", 8), "äbcde...");
    assert_eq!(clip("abcdefgh", 8), "abcdefgh");
    assert_eq!(clip("abcdefghi", 8), "abcde...");
    assert_eq!(clip("abcd", 3), "...");
    assert_eq!(clip("", 3), "");
}

#[test]
fn the_largest_key_comes_first() {
    assert_eq!(sort_descending(&vec![1, 5, 3]), vec![1, 2, 0]);
    assert_eq!(sort_descending(&vec![-1, i128::MAX, 0, i128::MIN]), vec![1, 2, 0, 3]);
    assert_eq!(sort_descending(&Vec::new()), Vec::<usize>::new());
    assert_eq!(sort_descending(&vec![7]), vec![0]);
}

#[test]
fn equal_keys_keep_the_order_in_which_they_came() {
    assert_eq!(sort_descending(&vec![3, 1, 3, 2, 1, 3]), vec![0, 2, 5, 3, 1, 4]);
    assert_eq!(sort_descending(&vec![4, 4, 4, 4]), vec![0, 1, 2, 3]);
}

#[test]
fn the_reverse_flag_turns_the_whole_order_round() {
    let keys = vec![3, 1, 3, 2, 1, 3];
    assert_eq!(sort_for_display(&keys, false), vec![0, 2, 5, 3, 1, 4]);
    assert_eq!(sort_for_display(&keys, true), vec![4, 1, 3, 5, 2, 0]);
    let mut up = sort_for_display(&keys, true);
    up.reverse();
    assert_eq!(up, sort_for_display(&keys, false));
    assert_eq!(sort_for_display(&Vec::new(), true), Vec::<usize>::new());
}
