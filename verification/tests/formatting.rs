use cpu_fanout::snapshot::Snapshot;
use cpu_fanout::text::{content_type_value, format_text};

fn render(values: Vec<u32>) -> String {
    format_text(&Snapshot::from_reading(values))
}

#[test]
fn two_cores_render_as_two_exact_lines() {
    assert_eq!(render(vec![125, 480]), "CPU 1 12.5%\nCPU 2 48%\n");
}

#[test]
fn a_whole_percentage_drops_the_fraction() {
    assert_eq!(render(vec![480]), "CPU 1 48%\n");
}

#[test]
fn a_fractional_percentage_keeps_one_digit() {
    assert_eq!(render(vec![125]), "CPU 1 12.5%\n");
}

#[test]
fn zero_and_full_utilization_render_exactly() {
    assert_eq!(render(vec![0, 1000]), "CPU 1 0%\nCPU 2 100%\n");
}

#[test]
fn a_value_below_one_percent_keeps_the_leading_zero() {
    assert_eq!(render(vec![5]), "CPU 1 0.5%\n");
}

#[test]
fn an_empty_snapshot_renders_an_empty_body() {
    assert_eq!(render(vec![]), "");
}

#[test]
fn core_numbers_are_one_based_and_decimal() {
    let values: Vec<u32> = (0..12).map(|i| i * 10).collect();
    let text = render(values);
    let lines: Vec<&str> = text.lines().collect();
    assert_eq!(lines.len(), 12);
    assert_eq!(lines[0], "CPU 1 0%");
    assert_eq!(lines[9], "CPU 10 9%");
    assert_eq!(lines[11], "CPU 12 11%");
}

#[test]
fn an_out_of_range_reading_is_clamped_to_one_hundred_percent() {
    assert_eq!(render(vec![2000]), "CPU 1 100%\n");
}

#[test]
fn content_type_values_carry_the_charset() {
    assert_eq!(content_type_value("application/javascript"), "application/javascript;charset=utf-8");
    assert_eq!(content_type_value("text/css"), "text/css;charset=utf-8");
}

#[test]
fn formatting_matches_the_float_display_of_the_raw_readings() {
    // 12.5 and 48.0 as f32, converted at the edge to tenths of a percent,
    // render exactly as the float display of the raw readings does.
    let readings: Vec<f32> = vec![12.5, 48.0];
    let tenths: Vec<u32> = readings.iter().map(|v| (v * 10.0).round() as u32).collect();
    let mut expected = String::new();
    for (i, v) in readings.iter().enumerate() {
        expected.push_str(&format!("CPU {} {}%\n", i + 1, v));
    }
    assert_eq!(render(tenths), expected);
}
