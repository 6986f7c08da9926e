use languages_info::bar::bar_width;
use languages_info::legend::{percentage_text, round_to_tenths};
use languages_info::text::{blank_text, decimal_text, digit_text};

#[test]
fn bar_width_of_some_shares() {
    assert_eq!(bar_width(100_000), 26);
    assert_eq!(bar_width(50_000), 13);
    assert_eq!(bar_width(12_500), 3);
    assert_eq!(bar_width(33_333), 9);
    assert_eq!(bar_width(200_000), 52);
}

#[test]
fn bar_width_rounds_halves_up() {
    assert_eq!(bar_width(25_000), 7);
    assert_eq!(bar_width(75_000), 20);
    assert_eq!(bar_width(5_769), 1);
    assert_eq!(bar_width(5_770), 2);
}

#[test]
fn bar_width_is_never_zero() {
    assert_eq!(bar_width(0), 1);
    assert_eq!(bar_width(10), 1);
    assert_eq!(bar_width(1), 1);
    assert_eq!(bar_width(1_923), 1);
}

#[test]
fn bar_width_takes_the_largest_share() {
    let cells = u128::MAX / 100_000 * 26 + (u128::MAX % 100_000 * 26 + 50_000) / 100_000;
    assert_eq!(bar_width(u128::MAX), cells);
}

#[test]
fn bar_width_agrees_with_floating_point() {
    for thousandths in 0..=100_000u32 {
        let percentage = thousandths as f64 / 1000.0;
        let cells = std::cmp::max((percentage / 100. * 26_f64).round() as usize, 1);
        assert_eq!(bar_width(thousandths as u128), cells as u128, "at {}", thousandths);
    }
}

#[test]
fn percentage_text_has_one_decimal() {
    assert_eq!(percentage_text(100_000), "100.0");
    assert_eq!(percentage_text(33_333), "33.3");
    assert_eq!(percentage_text(12_500), "12.5");
    assert_eq!(percentage_text(25_000), "25.0");
    assert_eq!(percentage_text(0), "0.0");
    assert_eq!(percentage_text(10), "0.0");
    assert_eq!(percentage_text(99_999), "100.0");
    assert_eq!(percentage_text(9_949), "9.9");
    assert_eq!(percentage_text(9_951), "10.0");
}

#[test]
fn percentage_text_rounds_halves_to_the_even_tenth() {
    assert_eq!(percentage_text(250), "0.2");
    assert_eq!(percentage_text(750), "0.8");
    assert_eq!(percentage_text(12_250), "12.2");
    assert_eq!(percentage_text(12_350), "12.4");
    assert_eq!(round_to_tenths(50), 0);
    assert_eq!(round_to_tenths(150), 2);
    assert_eq!(round_to_tenths(51), 1);
    assert_eq!(round_to_tenths(149), 1);
}

#[test]
fn percentage_text_agrees_with_floating_point_off_the_halves() {
    for thousandths in 0..=100_000u32 {
        if thousandths % 100 == 50 {
            continue;
        }
        let percentage = thousandths as f64 / 1000.0;
        let expected = format!("{:.*}", 1, percentage);
        assert_eq!(percentage_text(thousandths as u128), expected, "at {}", thousandths);
    }
}

#[test]
fn percentage_text_agrees_with_floating_point_on_exact_halves() {
    for thousandths in [250u32, 750, 1_250, 12_250, 12_750, 50_250, 99_750] {
        let percentage = thousandths as f64 / 1000.0;
        let expected = format!("{:.*}", 1, percentage);
        assert_eq!(percentage_text(thousandths as u128), expected, "at {}", thousandths);
    }
}

#[test]
fn percentage_text_always_ends_in_point_and_digit() {
    for thousandths in (0..2_000_000u128).step_by(37) {
        let text = percentage_text(thousandths);
        let chars: Vec<char> = text.chars().collect();
        assert!(chars.len() >= 3);
        assert_eq!(chars[chars.len() - 2], '.');
        assert!(chars[chars.len() - 1].is_ascii_digit());
        assert!(chars[..chars.len() - 2].iter().all(|c| c.is_ascii_digit()));
    }
}

#[test]
fn decimal_text_writes_numbers() {
    assert_eq!(decimal_text(0), "0");
    assert_eq!(decimal_text(7), "7");
    assert_eq!(decimal_text(10), "10");
    assert_eq!(decimal_text(1_234_567_890), "1234567890");
    assert_eq!(decimal_text(u128::MAX), u128::MAX.to_string());
}

#[test]
fn digit_text_writes_each_digit() {
    for d in 0..10u8 {
        assert_eq!(digit_text(d), d.to_string());
    }
}

#[test]
fn blank_text_writes_blanks() {
    assert_eq!(blank_text(0), "");
    assert_eq!(blank_text(1), " ");
    assert_eq!(blank_text(26), " ".repeat(26));
}
