use qol_cli::platform::{linux, macos};

#[test]
fn parses_available_memory_from_proc_meminfo() {
    let cases = [
        ("MemTotal: 100 kB\nMemAvailable: 2048 kB\n", Some(2)),
        ("MemAvailable: 1048576 kB\n", Some(1024)),
        ("MemAvailable: nope kB\n", None),
        ("MemAvailable: 100 bytes\n", None),
        ("MemTotal: 2048 kB\n", None),
        ("", None),
    ];
    for (content, expected) in cases {
        assert_eq!(linux::parse_available_memory_mb(content), expected, "{content:?}");
    }
}

#[test]
fn parses_vm_stat_available_pages() {
    let output = "Mach Virtual Memory Statistics: (page size of 4096 bytes)\nPages free: 256.\nPages active: 999.\nPages inactive: 512.\nPages speculative: 256.\n";
    assert_eq!(macos::parse_available_memory_mb(output), Some(4));
    assert_eq!(
        macos::parse_available_memory_mb(
            "Mach Virtual Memory Statistics: (page size of 4096 bytes)\nPages active: 999.\n"
        ),
        None
    );
    assert_eq!(macos::parse_available_memory_mb("bad"), None);
}

#[test]
fn meminfo_later_lines_are_read_when_an_earlier_one_is_malformed() {
    assert_eq!(
        linux::parse_available_memory_mb("MemAvailable: x kB\nMemAvailable: 4096 kB\n"),
        Some(4)
    );
}

#[test]
fn vm_stat_overflow_and_skipped_counts() {
    assert_eq!(
        macos::parse_available_memory_mb(
            "(page size of 16384 bytes)\nPages free: 18446744073709551615.\nPages inactive: 1.\n"
        ),
        None,
        "a page total beyond u64 gives nothing"
    );
    assert_eq!(
        macos::parse_available_memory_mb(
            "(page size of 16384 bytes)\nPages free: lots.\nPages inactive: 64..\n"
        ),
        Some(1),
        "an unreadable count is skipped and trailing dots are dropped"
    );
}

#[test]
fn platforms_name_themselves() {
    assert_eq!(qol_cli::platform::linux::os_name(), "linux");
    assert_eq!(qol_cli::platform::macos::os_name(), "macos");
}
