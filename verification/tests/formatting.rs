use human_units::formatting::{format_bytes, format_number};

#[test]
fn test_format_bytes() {
    // Test bytes format (below 1500 bytes)
    assert_eq!(format_bytes(0), "0 B");
    assert_eq!(format_bytes(1), "1 B");
    assert_eq!(format_bytes(1000), "1000 B");
    assert_eq!(format_bytes(1499), "1499 B");

    // Test kilobytes format (1500 bytes to 1500 * 1024 bytes)
    assert_eq!(format_bytes(1500), "1.46 KiB");
    assert_eq!(format_bytes(2048), "2.00 KiB");
    assert_eq!(format_bytes(5120), "5.00 KiB");
    assert_eq!(format_bytes(10240), "10.0 KiB");
    assert_eq!(format_bytes(51200), "50.0 KiB");
    assert_eq!(format_bytes(102400), "100 KiB");
    assert_eq!(format_bytes(512000), "500 KiB");
    assert_eq!(format_bytes(1048575), "1024 KiB");

    // Test megabytes format (above 1500 * 1024 bytes)
    assert_eq!(format_bytes(1536000), "1.46 MiB");
    assert_eq!(format_bytes(2097152), "2.00 MiB");
    assert_eq!(format_bytes(5242880), "5.00 MiB");
    assert_eq!(format_bytes(10485760), "10.0 MiB");
    assert_eq!(format_bytes(52428800), "50.0 MiB");
    assert_eq!(format_bytes(104857600), "100 MiB");
    assert_eq!(format_bytes(1073741824), "1024 MiB");
}

#[test]
fn test_format_number() {
    // Test numbers without suffix (below 1500)
    assert_eq!(format_number(0), "0");
    assert_eq!(format_number(1), "1");
    assert_eq!(format_number(1000), "1000");
    assert_eq!(format_number(1499), "1499");

    // Test numbers with k suffix (1500 to 1500 * 1000)
    assert_eq!(format_number(1500), "1.5K");
    assert_eq!(format_number(2000), "2.0K");
    assert_eq!(format_number(5000), "5.0K");
    assert_eq!(format_number(10000), "10K");
    assert_eq!(format_number(50000), "50K");
    assert_eq!(format_number(100000), "100K");
    assert_eq!(format_number(500000), "500K");
    assert_eq!(format_number(999999), "1000K");

    // Test numbers with M suffix (above 1500 * 1000)
    assert_eq!(format_number(1500000), "1.5M");
    assert_eq!(format_number(2000000), "2.0M");
    assert_eq!(format_number(5000000), "5.0M");
    assert_eq!(format_number(10000000), "10M");
    assert_eq!(format_number(50000000), "50M");
    assert_eq!(format_number(100000000), "100M");
    assert_eq!(format_number(1000000000), "1000M");
}

#[test]
fn test_format_bytes_halfway_values() {
    // Scaled values that land exactly between two displayed numbers round
    // to the even neighbour, as double-precision printing does.
    assert_eq!(format_bytes(1664), "1.62 KiB"); // 1.625
    assert_eq!(format_bytes(1920), "1.88 KiB"); // 1.875
    assert_eq!(format_bytes(10496), "10.2 KiB"); // 10.25
    assert_eq!(format_bytes(102912), "100 KiB"); // 100.5
    assert_eq!(format_bytes(103936), "102 KiB"); // 101.5
}

#[test]
fn test_format_bytes_rounds_up_to_next_width() {
    // The decimal places are chosen before rounding, so a value just under
    // a width boundary may round up and show one digit more.
    assert_eq!(format_bytes(10239), "10.00 KiB");
    assert_eq!(format_bytes(102399), "100.0 KiB");
    assert_eq!(format_bytes(1535999), "1500 KiB");
    assert_eq!(format_bytes(u32::MAX), "4096 MiB");
}

#[test]
fn test_format_number_halfway_values() {
    // A count whose scaled value lies exactly between two displayed tenths
    // goes the way the double-precision quotient lies.
    assert_eq!(format_number(1550), "1.6K"); // 1.55
    assert_eq!(format_number(2550), "2.5K"); // 2.55
    assert_eq!(format_number(4450), "4.5K"); // 4.45
    assert_eq!(format_number(9950), "9.9K"); // 9.95
    assert_eq!(format_number(1550000), "1.6M");
    assert_eq!(format_number(2550000), "2.5M");
    // Halves that reduce to quarters are exact and tie to even tenths.
    assert_eq!(format_number(1750), "1.8K"); // 1.75
    assert_eq!(format_number(6250), "6.2K"); // 6.25
    assert_eq!(format_number(2750000), "2.8M");
    // Whole-number halves are exact and round to even.
    assert_eq!(format_number(998500), "998K");
    assert_eq!(format_number(999500), "1000K");
}

#[test]
fn test_format_number_edges() {
    assert_eq!(format_number(9999), "10.0K");
    assert_eq!(format_number(1499999), "1500K");
    assert_eq!(format_number(u32::MAX), "4295M");
}

#[test]
fn test_byte_unit_ranges() {
    // Verbatim below 1500; " KiB" up to 1500 * 1024; " MiB" beyond.
    assert_eq!(format_bytes(7), "7 B");
    assert!(format_bytes(1500).ends_with(" KiB"));
    assert!(format_bytes(1535999).ends_with(" KiB"));
    assert!(format_bytes(1536000).ends_with(" MiB"));
    assert!(format_bytes(u32::MAX).ends_with(" MiB"));
}

#[test]
fn test_number_suffix_ranges() {
    // Verbatim below 1500; "K" up to 1,500,000; "M" beyond.
    assert_eq!(format_number(7), "7");
    assert!(format_number(1500).ends_with('K'));
    assert!(format_number(1499999).ends_with('K'));
    assert!(format_number(1500000).ends_with('M'));
    assert!(format_number(u32::MAX).ends_with('M'));
}

#[test]
fn test_bytes_numeric_portion_at_most_four_digits() {
    let samples: Vec<u32> = vec![
        0,
        1499,
        1500,
        10239,
        10240,
        102399,
        102400,
        1048575,
        1535999,
        1536000,
        10485759,
        104857599,
        1073741824,
        u32::MAX,
    ];
    for b in samples {
        let s = format_bytes(b);
        let digits = s.chars().filter(|c| c.is_ascii_digit()).count();
        assert!(digits <= 4, "{} digits in {:?}", digits, s);
    }
}
