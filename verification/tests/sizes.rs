use ll::entry::Entry;

fn entry_of_bytes(bytes: u64) -> Entry {
    Entry {
        icon: "\u{f036}".to_string(),
        name: "f".to_string(),
        bytes,
        mode: 0o644,
        modified: 0,
        executable: false,
        dir: false,
    }
}

#[test]
fn size_small_values_have_no_prefix() {
    assert_eq!(entry_of_bytes(0).pretty_size(), "0B");
    assert_eq!(entry_of_bytes(1).pretty_size(), "1B");
    assert_eq!(entry_of_bytes(999).pretty_size(), "999B");
}

#[test]
fn size_kilo_boundary() {
    assert_eq!(entry_of_bytes(1000).pretty_size(), "1.0kB");
    assert_eq!(entry_of_bytes(1999).pretty_size(), "1.9kB");
    assert_eq!(entry_of_bytes(55_000).pretty_size(), "55.0kB");
    assert_eq!(entry_of_bytes(999_999).pretty_size(), "999.9kB");
}

#[test]
fn size_larger_prefixes() {
    assert_eq!(entry_of_bytes(1_000_000).pretty_size(), "1.0MB");
    assert_eq!(entry_of_bytes(387_854_348_875).pretty_size(), "387.8GB");
    assert_eq!(entry_of_bytes(123_456_789_999_999).pretty_size(), "123.4TB");
    assert_eq!(entry_of_bytes(499_999_999_999_999_999).pretty_size(), "499.9PB");
    assert_eq!(entry_of_bytes(1_000_000_000_000_000_000).pretty_size(), "1.0EB");
    assert_eq!(entry_of_bytes(u64::MAX).pretty_size(), "18.4EB");
}

#[test]
fn size_prefix_monotone_samples() {
    // The SI prefix index never shrinks as the byte count grows.
    let samples: [u64; 8] = [0, 999, 1000, 999_999, 1_000_000, 5_000_000_000, 1_000_000_000_000, u64::MAX];
    let prefix_rank = |s: &str| -> usize {
        let prefixes = ["k", "M", "G", "T", "P", "E"];
        for (i, p) in prefixes.iter().enumerate().rev() {
            if s.contains(p) {
                return i + 1;
            }
        }
        0
    };
    let mut last_rank = 0usize;
    for b in samples {
        let rank = prefix_rank(&entry_of_bytes(b).pretty_size());
        assert!(rank >= last_rank, "prefix shrank at {}", b);
        last_rank = rank;
    }
}
