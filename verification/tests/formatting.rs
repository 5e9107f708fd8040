use pomodoro::{draw_timer_ascii, format_hms, format_time};

#[test]
fn clock_pads_minutes_and_seconds() {
    assert_eq!(format_time(125), "02:05");
    assert_eq!(format_time(0), "00:00");
    assert_eq!(format_time(59), "00:59");
    assert_eq!(format_time(60), "01:00");
    assert_eq!(format_time(1500), "25:00");
    assert_eq!(format_time(3599), "59:59");
}

#[test]
fn clock_minute_field_grows_past_two_digits() {
    assert_eq!(format_time(6000), "100:00");
    assert_eq!(format_time(3600), "60:00");
}

#[test]
fn overview_time_suppresses_zero_hours() {
    assert_eq!(format_hms(3661), "1h 01m 01s");
    assert_eq!(format_hms(65), "1m 05s");
    assert_eq!(format_hms(0), "0m 00s");
    assert_eq!(format_hms(59), "0m 59s");
    assert_eq!(format_hms(3599), "59m 59s");
    assert_eq!(format_hms(3600), "1h 00m 00s");
    assert_eq!(format_hms(7325), "2h 02m 05s");
    assert_eq!(format_hms(36000), "10h 00m 00s");
}

fn expected_rows(glyphs: [[&str; 5]; 5]) -> Vec<String> {
    let mut rows = Vec::new();
    for r in 0..5 {
        let mut row = String::new();
        for g in glyphs.iter() {
            row.push_str(g[r]);
            row.push(' ');
        }
        rows.push(row);
    }
    rows
}

const ZERO: [&str; 5] = [" ███ ", "█   █", "█   █", "█   █", " ███ "];
const ONE: [&str; 5] = ["  █  ", " ██  ", "  █  ", "  █  ", "█████"];
const TWO: [&str; 5] = [" ███ ", "█   █", "  ██ ", "██   ", "█████"];
const FIVE: [&str; 5] = ["█████", "█    ", "████ ", "    █", "████ "];
const COLON: [&str; 5] = ["   ", " █ ", "   ", " █ ", "   "];

#[test]
fn timer_glyphs_render_zero_clock() {
    let lines = draw_timer_ascii(0);
    assert_eq!(lines, expected_rows([ZERO, ZERO, COLON, ZERO, ZERO]));
}

#[test]
fn timer_glyphs_render_mixed_digits() {
    // 125 seconds show as 02:05
    let lines = draw_timer_ascii(125);
    assert_eq!(lines, expected_rows([ZERO, TWO, COLON, ZERO, FIVE]));
}

#[test]
fn timer_glyphs_have_five_rows() {
    let lines = draw_timer_ascii(61);
    assert_eq!(lines.len(), 5);
    assert_eq!(lines, expected_rows([ZERO, ONE, COLON, ZERO, ONE]));
}
