use rustberry_poe_monitor::stats::{
    first_whitespace_token, format_temp, format_tenths, gather_stats, get_cpu_temperature,
    get_disk_usage, get_ip_address, get_ram_usage,
};

#[test]
fn format_tenths_exact() {
    assert_eq!(format_tenths(0), "0.0");
    assert_eq!(format_tenths(5), "0.5");
    assert_eq!(format_tenths(554), "55.4");
    assert_eq!(format_tenths(1000), "100.0");
    assert_eq!(format_tenths(12345), "1234.5");
}

#[test]
fn format_temp_exact() {
    assert_eq!(format_temp(55_432), "55.4");
    assert_eq!(format_temp(0), "0.0");
    assert_eq!(format_temp(-3_250), "-3.2");
    assert_eq!(format_temp(100), "0.1");
    assert_eq!(format_temp(99), "0.0");
}

#[test]
fn first_token_skips_leading_whitespace() {
    assert_eq!(
        first_whitespace_token(&b"  192.168.1.7 10.0.0.1\n".to_vec()),
        b"192.168.1.7".to_vec()
    );
    assert_eq!(first_whitespace_token(&b"one".to_vec()), b"one".to_vec());
    assert_eq!(first_whitespace_token(&b"   \n\t ".to_vec()), Vec::<u8>::new());
    assert_eq!(first_whitespace_token(&Vec::new()), Vec::<u8>::new());
}

#[test]
fn ip_address_takes_first_token() {
    let out = Some(b"192.168.1.7 10.0.0.1 \n".to_vec());
    assert_eq!(get_ip_address(&out), "192.168.1.7");
}

#[test]
fn ip_address_falls_back_on_failure() {
    assert_eq!(get_ip_address(&None), "0.0.0.0");
    assert_eq!(get_ip_address(&Some(Vec::new())), "0.0.0.0");
    assert_eq!(get_ip_address(&Some(b" \n ".to_vec())), "0.0.0.0");
    // A non-ASCII token is not shown.
    assert_eq!(get_ip_address(&Some(vec![0xC3, 0xA9, b' ', b'x'])), "0.0.0.0");
}

#[test]
fn cpu_temperature_parses_millidegrees() {
    assert_eq!(get_cpu_temperature(&Some(b"55432\n".to_vec())), 55_432);
    assert_eq!(get_cpu_temperature(&Some(b"  61000 \n".to_vec())), 61_000);
    assert_eq!(get_cpu_temperature(&Some(b"-5000\n".to_vec())), -5_000);
    assert_eq!(get_cpu_temperature(&Some(b"0".to_vec())), 0);
}

#[test]
fn cpu_temperature_defaults_to_zero_on_bad_input() {
    assert_eq!(get_cpu_temperature(&None), 0);
    assert_eq!(get_cpu_temperature(&Some(Vec::new())), 0);
    assert_eq!(get_cpu_temperature(&Some(b"\n".to_vec())), 0);
    assert_eq!(get_cpu_temperature(&Some(b"abc\n".to_vec())), 0);
    assert_eq!(get_cpu_temperature(&Some(b"55a00\n".to_vec())), 0);
    assert_eq!(get_cpu_temperature(&Some(b"-\n".to_vec())), 0);
    // A value that cannot fit a 32-bit integer reads as zero.
    assert_eq!(get_cpu_temperature(&Some(b"99999999999999\n".to_vec())), 0);
    assert_eq!(get_cpu_temperature(&Some(b"2147483648".to_vec())), 0);
    assert_eq!(get_cpu_temperature(&Some(b"2147483647".to_vec())), 2_147_483_647);
}

#[test]
fn ram_usage_in_tenths() {
    assert_eq!(get_ram_usage(0, 0), 0);
    assert_eq!(get_ram_usage(8_000_000, 2_000_000), 250);
    assert_eq!(get_ram_usage(3, 1), 333);
    assert_eq!(get_ram_usage(100, 100), 1000);
    assert_eq!(get_ram_usage(100, 200), 1000);
}

#[test]
fn disk_usage_in_tenths() {
    assert_eq!(get_disk_usage(0, 0), 0);
    assert_eq!(get_disk_usage(1000, 250), 750);
    assert_eq!(get_disk_usage(1000, 1000), 0);
    assert_eq!(get_disk_usage(1000, 0), 1000);
    // Inconsistent counters read as zero.
    assert_eq!(get_disk_usage(100, 200), 0);
    assert_eq!(get_disk_usage(3, 1), 666);
}

#[test]
fn gather_stats_builds_all_strings() {
    let stats = gather_stats(
        &Some(b"10.1.2.3 \n".to_vec()),
        &Some(b"55432\n".to_vec()),
        123,
        8_000_000,
        2_000_000,
        750,
    );
    assert_eq!(stats.ip_address, "10.1.2.3");
    assert_eq!(stats.cpu_usage, "12.3");
    assert_eq!(stats.cpu_temp, 55_432);
    assert_eq!(stats.cpu_temp_str, "55.4");
    assert_eq!(stats.ram_usage, "25.0");
    assert_eq!(stats.disk_usage, "75.0");
}
