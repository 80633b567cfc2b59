use ll::entry::Entry;
use ll::listing::compose_line;
use ll::listing::format_entries;

fn plain(name: &str) -> Entry {
    Entry {
        icon: "\u{f036}".to_string(),
        name: name.to_string(),
        bytes: 10,
        mode: 0o644,
        modified: 0,
        executable: false,
        dir: false,
    }
}

#[test]
fn hidden_entries_dropped_by_default() {
    let entries = vec![plain("a"), plain(".b"), plain("c")];
    let lines = format_entries(&entries, false);
    assert_eq!(lines.len(), 2);
    assert!(lines[0].starts_with("\u{f036}  a  "));
    assert!(lines[1].starts_with("\u{f036}  c  "));
    assert!(!lines.iter().any(|l| l.contains(".b")));
}

#[test]
fn hidden_entries_kept_when_shown() {
    let entries = vec![plain("a"), plain(".b"), plain("c")];
    let lines = format_entries(&entries, true);
    assert_eq!(lines.len(), 3);
    // the longest kept name is ".b", so names pad to width 2
    assert!(lines[0].starts_with("\u{f036}  a   "));
    assert!(lines[1].starts_with("\u{f036}  .b  "));
    assert!(lines[2].starts_with("\u{f036}  c   "));
}

#[test]
fn name_column_caps_at_eighty_without_truncating() {
    let long = "d".repeat(120);
    let entries = vec![plain("aaa"), plain(&"b".repeat(10)), plain(&"c".repeat(80)), plain(&long)];
    let lines = format_entries(&entries, false);
    assert_eq!(lines.len(), 4);
    // the width is capped at 80: a 3-character name pads to 80 characters
    let padded = format!("aaa{}", " ".repeat(77));
    assert!(lines[0].contains(&padded));
    assert_eq!(lines[0].chars().count(), 1 + 2 + 80 + 2 + 8 + 1 + 20 + 1 + 6);
    // the 120-character name is kept whole, only the padding is capped
    assert!(lines[3].contains(&long));
    assert_eq!(lines[3].chars().count(), 1 + 2 + 120 + 2 + 8 + 1 + 20 + 1 + 6);
}

#[test]
fn permission_bits_render_in_octal() {
    let entries = vec![
        Entry { mode: 0o755, ..plain("x") },
        Entry { mode: 0o100644, ..plain("y") },
        Entry { mode: 0, ..plain("z") },
    ];
    let lines = format_entries(&entries, false);
    assert!(lines[0].ends_with("    755"));
    assert!(lines[1].ends_with(" 100644"));
    assert!(lines[2].ends_with("      0"));
}

#[test]
fn composed_line_layout_is_exact() {
    let e = Entry {
        icon: "\u{e7a8}".to_string(),
        name: "main.rs".to_string(),
        bytes: 1234,
        mode: 0o644,
        modified: 0,
        executable: false,
        dir: false,
    };
    let time = "   01/02/93    04:05".to_string();
    let line = compose_line(&e, &time, 10);
    let expected =
        "\u{e7a8}".to_string() + "  " + "main.rs   " + "  " + "   1.2kB" + " " + &time + " "
            + "   644";
    assert_eq!(line, expected);
}

#[test]
fn executable_line_starts_with_red_substitute() {
    let e = Entry { executable: true, mode: 0o755, ..plain("run") };
    let lines = format_entries(&vec![e], false);
    assert!(lines[0].starts_with("\u{1b}[38;5;196m\u{f96d}\u{1b}[0m  run"));
}
