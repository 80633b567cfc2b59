use ll::entry::Entry;

fn entry_with(icon: &str, executable: bool) -> Entry {
    Entry {
        icon: icon.to_string(),
        name: "f".to_string(),
        bytes: 10,
        mode: if executable { 0o755 } else { 0o644 },
        modified: 0,
        executable,
        dir: false,
    }
}

#[test]
fn executable_with_default_icon_gets_substitute_glyph() {
    let e = entry_with("\u{f036}", true);
    assert_eq!(e.pretty_icon(), "\u{1b}[38;5;196m\u{f96d}\u{1b}[0m");
}

#[test]
fn executable_with_specific_icon_keeps_it_colored() {
    let e = entry_with("\u{e7a8}", true);
    assert_eq!(e.pretty_icon(), "\u{1b}[38;5;196m\u{e7a8}\u{1b}[0m");
}

#[test]
fn non_executable_renders_unmodified() {
    let e = entry_with("\u{f036}", false);
    assert_eq!(e.pretty_icon(), "\u{f036}");
    let e2 = entry_with("\u{e7a8}", false);
    assert_eq!(e2.pretty_icon(), "\u{e7a8}");
}

#[test]
fn time_has_fixed_shape() {
    // The digits depend on the local time zone; the shape does not.
    let e = entry_with("\u{f036}", false);
    let shaped = |t: &str| {
        let cs: Vec<char> = t.chars().collect();
        assert_eq!(cs.len(), 20, "time was {:?}", t);
        assert_eq!(&cs[0..3], [' ', ' ', ' ']);
        assert_eq!(cs[5], '/');
        assert_eq!(cs[8], '/');
        assert_eq!(&cs[11..15], [' ', ' ', ' ', ' ']);
        assert_eq!(cs[17], ':');
        for i in [3, 4, 6, 7, 9, 10, 15, 16, 18, 19] {
            assert!(cs[i].is_ascii_digit(), "time was {:?}", t);
        }
    };
    shaped(&e.pretty_time());
    let recent = Entry { modified: 1_700_000_000_000, ..entry_with("\u{f036}", false) };
    shaped(&recent.pretty_time());
    // A timestamp past year 9999 falls back to the epoch instead of failing.
    let far = Entry { modified: u64::MAX, ..entry_with("\u{f036}", false) };
    shaped(&far.pretty_time());
}

fn civil_from_days(days: i64) -> (i64, i64, i64) {
    let z = days + 719_468;
    let era = z.div_euclid(146_097);
    let doe = z - era * 146_097;
    let yoe = (doe - doe / 1461 + doe / 36_524 - doe / 146_096) / 365;
    let y = yoe + era * 400;
    let doy = doe - (365 * yoe + yoe / 4 - yoe / 100);
    let mp = (5 * doy + 2) / 153;
    let d = doy - (153 * mp + 2) / 5 + 1;
    let m = if mp < 10 { mp + 3 } else { mp - 9 };
    (if m <= 2 { y + 1 } else { y }, m, d)
}

#[test]
fn time_value_matches_some_bounded_offset() {
    // Whatever the machine's time zone, the rendered fields must be the
    // Gregorian reading of the timestamp shifted by some offset of less
    // than a day.
    for &(ms, base) in &[(0u64, 0i64), (1_700_000_000_000, 1_700_000_000)] {
        let e = Entry {
            icon: "\u{f036}".to_string(),
            name: "f".to_string(),
            bytes: 0,
            mode: 0o644,
            modified: ms,
            executable: false,
            dir: false,
        };
        let t: Vec<char> = e.pretty_time().chars().collect();
        let num = |i: usize| -> i64 {
            (t[i].to_digit(10).unwrap() * 10 + t[i + 1].to_digit(10).unwrap()) as i64
        };
        let (mo, dd, yy, hh, mi) = (num(3), num(6), num(9), num(15), num(18));
        let found = (-86_399i64..86_400).any(|off| {
            let s = base + off;
            let sod = s.rem_euclid(86_400);
            let (y, m, d) = civil_from_days(s.div_euclid(86_400));
            m == mo && d == dd && y.rem_euclid(100) == yy && sod / 3600 == hh
                && (sod % 3600) / 60 == mi
        });
        assert!(found, "time {:?} matches no bounded offset for {}", e.pretty_time(), ms);
    }
}

#[test]
fn any_execute_bit_marks_executable() {
    assert!(ll::entry::is_executable(0o755));
    assert!(ll::entry::is_executable(0o100700));
    assert!(ll::entry::is_executable(0o010));
    assert!(ll::entry::is_executable(0o001));
    assert!(!ll::entry::is_executable(0o644));
    assert!(!ll::entry::is_executable(0o000));
}
