use clash_tui::ui::components::status_bar;
use clash_tui::ui::pages::{connections, dashboard, settings};

fn float_bytes_gb(b: u64) -> String {
    if b >= 1_073_741_824 {
        format!("{:.1}GB", b as f64 / 1_073_741_824.0)
    } else if b >= 1_048_576 {
        format!("{:.1}MB", b as f64 / 1_048_576.0)
    } else if b >= 1024 {
        format!("{:.1}KB", b as f64 / 1024.0)
    } else {
        format!("{}B", b)
    }
}

fn float_bytes(b: u64) -> String {
    if b >= 1_048_576 {
        format!("{:.1}MB", b as f64 / 1_048_576.0)
    } else if b >= 1024 {
        format!("{:.1}KB", b as f64 / 1024.0)
    } else {
        format!("{}B", b)
    }
}

fn float_memory(b: u64) -> String {
    if b >= 1_048_576 {
        format!("{:.1} MB", b as f64 / 1_048_576.0)
    } else if b >= 1024 {
        format!("{:.0} KB", b as f64 / 1024.0)
    } else {
        format!("{} B", b)
    }
}

fn float_speed(b: u64) -> String {
    if b >= 1_048_576 {
        format!("{:.1} MB/s", b as f64 / 1_048_576.0)
    } else if b >= 1024 {
        format!("{:.1} KB/s", b as f64 / 1024.0)
    } else {
        format!("{} B/s", b)
    }
}

fn samples() -> Vec<u64> {
    let mut v = vec![
        0, 1, 1023, 1024, 1075, 1126, 1177, 1280, 1331, 1536, 2560, 3584, 10_239, 10_240,
        1_048_575, 1_048_576, 1_153_433, 1_310_720, 1_572_864, 2_621_440, 1_073_741_823,
        1_073_741_824, 1_181_116_006, 1_342_177_280, 5_000_000_000, 9_007_199_254_740_991,
        9_007_199_254_740_993, 18_014_398_509_481_985, u64::MAX - 1, u64::MAX,
    ];
    let mut x: u64 = 12345;
    for _ in 0..3000 {
        x = x.wrapping_mul(6364136223846793005).wrapping_add(1442695040888963407);
        v.push(x >> (x % 60));
        v.push((x >> 40) * 512);
        v.push((x >> 44) * 51);
    }
    v
}

#[test]
fn status_bar_bytes_match_float_formatting() {
    for b in samples() {
        assert_eq!(status_bar::format_bytes(b), float_bytes_gb(b), "{}", b);
    }
}

#[test]
fn connection_bytes_match_float_formatting() {
    for b in samples() {
        assert_eq!(connections::format_bytes(b), float_bytes(b), "{}", b);
    }
}

#[test]
fn memory_and_speed_match_float_formatting() {
    for b in samples() {
        assert_eq!(dashboard::format_memory(b), float_memory(b), "{}", b);
        assert_eq!(dashboard::format_speed(b), float_speed(b), "{}", b);
        assert_eq!(settings::format_speed(b), float_speed(b), "{}", b);
    }
}

#[test]
fn halfway_values_round_to_even() {
    assert_eq!(connections::format_bytes(1280), "1.2KB");
    assert_eq!(connections::format_bytes(1331), "1.3KB");
    assert_eq!(dashboard::format_memory(2560), "2 KB");
    assert_eq!(dashboard::format_memory(3584), "4 KB");
    assert_eq!(status_bar::format_bytes(1_342_177_280), "1.2GB");
}
