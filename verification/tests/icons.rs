use ll::icons::EntryKind;
use ll::icons::IconResolver;

#[test]
fn file_name_mapping_beats_extension() {
    let r = IconResolver::default();
    // "Cargo.toml" is in the file-name table; ".toml" is in the extension
    // table with a different icon. The name mapping must win.
    assert_eq!(r.resolve(EntryKind::Regular, &"Cargo.toml".to_string()), "\u{f8d6}");
    // A plain .toml file falls through to the extension mapping.
    assert_eq!(r.resolve(EntryKind::Regular, &"other.toml".to_string()), "\u{f669}");
}

#[test]
fn extension_mapping() {
    let r = IconResolver::default();
    assert_eq!(r.resolve(EntryKind::Regular, &"main.rs".to_string()), "\u{e7a8}");
    assert_eq!(r.resolve(EntryKind::Regular, &"archive.tar.gz".to_string()), "\u{f1c6}");
    assert_eq!(r.resolve(EntryKind::Regular, &"notes.md".to_string()), "\u{e609}");
}

#[test]
fn default_file_icon_when_unmapped() {
    let r = IconResolver::default();
    assert_eq!(r.resolve(EntryKind::Regular, &"unknown.xyz".to_string()), "\u{f036}");
    assert_eq!(r.resolve(EntryKind::Regular, &"noextension".to_string()), "\u{f036}");
    // A trailing dot means an empty extension, which maps to nothing.
    assert_eq!(r.resolve(EntryKind::Regular, &"oddname.".to_string()), "\u{f036}");
}

#[test]
fn leading_dot_names_use_the_name_table_first() {
    let r = IconResolver::default();
    // ".gitignore" and ".bashrc" are mapped by their exact names, which
    // takes precedence over any extension lookup.
    assert_eq!(r.resolve(EntryKind::Regular, &".gitignore".to_string()), "\u{f113}");
    assert_eq!(r.resolve(EntryKind::Regular, &".bashrc".to_string()), "\u{f120}");
}

#[test]
fn leading_dot_alone_still_yields_an_extension() {
    let r = IconResolver::default();
    // The extension is what follows the last dot, a leading one included:
    // a file named ".rs" gets the rust extension icon.
    assert_eq!(r.resolve(EntryKind::Regular, &".rs".to_string()), "\u{e7a8}");
    // An unmapped trailing part still falls through to the default.
    assert_eq!(r.resolve(EntryKind::Regular, &".hiddenfile".to_string()), "\u{f036}");
}

#[test]
fn directory_mapped_and_fallback() {
    let r = IconResolver::default();
    assert_eq!(r.resolve(EntryKind::Directory, &".git".to_string()), "\u{e5fb}");
    assert_eq!(r.resolve(EntryKind::Directory, &"somedir".to_string()), "\u{f07b}");
    // A directory named like a mapped file still resolves by the
    // directory table, never by the file tables, and never to the
    // default file icon.
    assert_eq!(r.resolve(EntryKind::Directory, &"Cargo.toml".to_string()), "\u{f07b}");
    assert_ne!(r.resolve(EntryKind::Directory, &"unknown.xyz".to_string()), "\u{f036}");
}

#[test]
fn directory_icon_is_colored_yellow() {
    let r = IconResolver::default();
    assert_eq!(
        r.icon(EntryKind::Directory, &".git".to_string()),
        "\u{1b}[38;5;3m\u{e5fb}\u{1b}[0m"
    );
}

#[test]
fn symlink_icon_unconditional() {
    let r = IconResolver::default();
    // Even a name both tables would map resolves to the link glyph.
    assert_eq!(r.resolve(EntryKind::Symlink, &"Cargo.toml".to_string()), "\u{f481}");
    assert_eq!(r.resolve(EntryKind::Symlink, &"main.rs".to_string()), "\u{f481}");
    assert_eq!(
        r.icon(EntryKind::Symlink, &"main.rs".to_string()),
        "\u{1b}[38;5;86m\u{f481}\u{1b}[0m"
    );
}

#[test]
fn regular_file_icon_is_uncolored() {
    let r = IconResolver::default();
    assert_eq!(r.icon(EntryKind::Regular, &"main.rs".to_string()), "\u{e7a8}");
}

#[test]
fn extension_helper() {
    assert_eq!(ll::icons::extension_of("foo.rs"), "rs");
    assert_eq!(ll::icons::extension_of("foo.tar.gz"), "gz");
    assert_eq!(ll::icons::extension_of(".gitignore"), "gitignore");
    assert_eq!(ll::icons::extension_of(".rs"), "rs");
    assert_eq!(ll::icons::extension_of("plain"), "");
    assert_eq!(ll::icons::extension_of("dot."), "");
    assert_eq!(ll::icons::extension_of(""), "");
}
