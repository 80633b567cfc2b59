use vstd::prelude::*;
use vstd::string::StrSliceExecFns;
use vstd::string::StringExecFns;
use crate::style::GlyphColor;
use crate::style::colorize;
use crate::style::colorize_spec;

verus! {

/// The kind of a directory child, as far as icon resolution cares.
#[derive(Clone, Copy)]
pub enum EntryKind {
    Regular,
    Directory,
    Symlink,
}

/// Glyph used for regular files that match no name or extension mapping.
pub open spec fn default_icon_spec() -> Seq<char> {
    "\u{f036}"@
}

/// Fallback glyph for directories whose name has no mapping of its own.
pub open spec fn folder_icon_spec() -> Seq<char> {
    "\u{f07b}"@
}

/// Glyph for symbolic links, whatever their name.
pub open spec fn link_icon_spec() -> Seq<char> {
    "\u{f481}"@
}

pub fn default_icon() -> (r: &'static str)
    ensures
        r@ == default_icon_spec(),
{
    "\u{f036}"
}

pub fn folder_icon() -> (r: &'static str)
    ensures
        r@ == folder_icon_spec(),
{
    "\u{f07b}"
}

pub fn link_icon() -> (r: &'static str)
    ensures
        r@ == link_icon_spec(),
{
    "\u{f481}"
}

/// The first icon bound to `key` in an association table, scanning front
/// to back.
pub open spec fn lookup(t: Seq<(Seq<char>, Seq<char>)>, key: Seq<char>) -> Option<Seq<char>>
    decreases t.len(),
{
    if t.len() == 0 {
        None
    } else if t[0].0 == key {
        Some(t[0].1)
    } else {
        lookup(t.drop_first(), key)
    }
}

/// An icon table as a sequence of (key, icon) character sequences.
pub open spec fn table_view(t: Seq<(String, String)>) -> Seq<(Seq<char>, Seq<char>)> {
    t.map_values(|p: (String, String)| (p.0@, p.1@))
}

/// Linear scan of an icon table for an exact key.
pub fn table_get(t: &Vec<(String, String)>, key: &String) -> (r: Option<String>)
    ensures
        (match r {
            Some(v) => lookup(table_view(t@), key@) == Some(v@),
            None => lookup(table_view(t@), key@) is None,
        }),
{
    let ghost tv = table_view(t@);
    proof {
        assert(tv.skip(0) =~= tv);
    }
    let mut i: usize = 0;
    while i < t.len()
        invariant
            i <= t@.len(),
            tv == table_view(t@),
            tv.len() == t@.len(),
            lookup(tv, key@) == lookup(tv.skip(i as int), key@),
        decreases t@.len() - i,
    {
        if t[i].0 == *key {
            proof {
                assert(tv.skip(i as int)[0] == tv[i as int]);
            }
            return Some(t[i].1.clone());
        }
        proof {
            assert(tv.skip(i as int)[0] == tv[i as int]);
            assert(tv.skip(i as int).drop_first() =~= tv.skip(i as int + 1));
        }
        i += 1;
    }
    proof {
        assert(tv.skip(i as int) =~= Seq::<(Seq<char>, Seq<char>)>::empty());
    }
    None
}

/// Index of the last '.' in a name, or -1 when there is none.
pub open spec fn last_dot_index(s: Seq<char>) -> int
    decreases s.len(),
{
    if s.len() == 0 {
        -1
    } else if s.last() == '.' {
        s.len() - 1
    } else {
        last_dot_index(s.drop_last())
    }
}

/// The extension of a file name: the characters after the last '.', and
/// empty when the name holds no dot at all.
pub open spec fn ext_of(name: Seq<char>) -> Seq<char> {
    let i = last_dot_index(name);
    if i < 0 {
        Seq::empty()
    } else {
        name.subrange(i + 1, name.len() as int)
    }
}

/// The extension of `name`, as `ext_of` defines it.
pub fn extension_of(name: &str) -> (r: String)
    ensures
        r@ == ext_of(name@),
{
    let n = name.unicode_len();
    let mut last: usize = 0;
    let mut j: usize = 0;
    while j < n
        invariant
            j <= n,
            n == name@.len(),
            last <= j,
            last_dot_index(name@.take(j as int)) == last as int - 1,
        decreases n - j,
    {
        let c = name.get_char(j);
        proof {
            let t1 = name@.take(j as int + 1);
            assert(t1.drop_last() =~= name@.take(j as int));
            assert(t1.last() == name@[j as int]);
        }
        if c == '.' {
            last = j + 1;
        }
        j += 1;
    }
    proof {
        assert(name@.take(n as int) =~= name@);
    }
    if last == 0 {
        String::new()
    } else {
        let sub = name.substring_char(last, n);
        String::from_str(sub)
    }
}

/// The three icon mappings: exact file names, extensions, directory names.
pub struct IconResolver {
    pub file_icons: Vec<(String, String)>,
    pub ext_icons: Vec<(String, String)>,
    pub dir_icons: Vec<(String, String)>,
}

impl IconResolver {
    /// The file-name table as character sequences.
    pub open spec fn file_table(&self) -> Seq<(Seq<char>, Seq<char>)> {
        table_view(self.file_icons@)
    }

    /// The extension table as character sequences.
    pub open spec fn ext_table(&self) -> Seq<(Seq<char>, Seq<char>)> {
        table_view(self.ext_icons@)
    }

    /// The directory-name table as character sequences.
    pub open spec fn dir_table(&self) -> Seq<(Seq<char>, Seq<char>)> {
        table_view(self.dir_icons@)
    }

    /// No directory mapping yields the default file icon, so a directory's
    /// icon is always distinguishable from a plain file's fallback.
    pub open spec fn wf(&self) -> bool {
        forall|i: int|
            0 <= i < self.dir_table().len() ==> (#[trigger] self.dir_table()[i]).1
                != default_icon_spec()
    }

    /// The icon `resolve` chooses: directories by the directory table with
    /// the folder glyph as fallback; symbolic links always the link glyph;
    /// regular files by exact name first, extension second, default last.
    pub open spec fn resolve_spec(&self, kind: EntryKind, name: Seq<char>) -> Seq<char> {
        match kind {
            EntryKind::Directory => match lookup(self.dir_table(), name) {
                Some(v) => v,
                None => folder_icon_spec(),
            },
            EntryKind::Symlink => link_icon_spec(),
            EntryKind::Regular => match lookup(self.file_table(), name) {
                Some(v) => v,
                None => match lookup(self.ext_table(), ext_of(name)) {
                    Some(v) => v,
                    None => default_icon_spec(),
                },
            },
        }
    }

    /// The uncolored icon for one directory child.
    pub fn resolve(&self, kind: EntryKind, name: &String) -> (r: String)
        ensures
            r@ == self.resolve_spec(kind, name@),
    {
        match kind {
            EntryKind::Directory => match table_get(&self.dir_icons, name) {
                Some(v) => v,
                None => String::from_str(folder_icon()),
            },
            EntryKind::Symlink => String::from_str(link_icon()),
            EntryKind::Regular => match table_get(&self.file_icons, name) {
                Some(v) => v,
                None => {
                    let ext = extension_of(name.as_str());
                    match table_get(&self.ext_icons, &ext) {
                        Some(v) => v,
                        None => String::from_str(default_icon()),
                    }
                },
            },
        }
    }

    /// The icon as the listing shows it: directories colored yellow,
    /// symbolic links aquamarine, regular files uncolored.
    pub fn icon(&self, kind: EntryKind, name: &String) -> (r: String)
        ensures
            r@ == (match kind {
                EntryKind::Directory => colorize_spec(
                    self.resolve_spec(kind, name@),
                    GlyphColor::Yellow,
                ),
                EntryKind::Symlink => colorize_spec(link_icon_spec(), GlyphColor::Aqua),
                EntryKind::Regular => self.resolve_spec(kind, name@),
            }),
    {
        let ico = self.resolve(kind, name);
        match kind {
            EntryKind::Directory => colorize(ico.as_str(), GlyphColor::Yellow),
            EntryKind::Symlink => colorize(ico.as_str(), GlyphColor::Aqua),
            EntryKind::Regular => ico,
        }
    }
}

/// The file-name table of the built-in resolver, in insertion order.
pub open spec fn default_file_table() -> Seq<(Seq<char>, Seq<char>)> {
    Seq::empty()
        .push((".gitignore"@, "\u{f113}"@))
        .push(("Makefile"@, "\u{e20f}"@))
        .push(("justfile"@, "\u{e20f}"@))
        .push(("Dockerfile"@, "\u{e7b0}"@))
        .push(("brigade.js"@, "\u{f0c3}"@))
        .push(("glide.yaml"@, "\u{f1d8}"@))
        .push(("Gopkg.toml"@, "\u{f1d8}"@))
        .push(("go.mod"@, "\u{f6f6}"@))
        .push(("go.sum"@, "\u{f6f6}"@))
        .push(("package.json"@, "\u{e718}"@))
        .push((".DS_Store"@, "\u{e711}"@))
        .push(("LICENSE"@, "\u{f071}"@))
        .push(("COPYING"@, "\u{f071}"@))
        .push(("LICENSE"@, "\u{f071}"@))
        .push(("license.txt"@, "\u{f071}"@))
        .push(("LICENSE.txt"@, "\u{f071}"@))
        .push(("COPYING.txt"@, "\u{f071}"@))
        .push(("Cargo.toml"@, "\u{f8d6}"@))
        .push((".bashrc"@, "\u{f120}"@))
        .push((".zshrc"@, "\u{f120}"@))
        .push((".profile"@, "\u{f120}"@))
        .push(("NOTES.txt"@, "\u{f15c}"@))
        .push(("notes.txt"@, "\u{f15c}"@))
        .push(("TODO.txt"@, "\u{f0cb}"@))
        .push(("code-of-conduct.md"@, "\u{fad0}"@))
        .push(("conduct.md"@, "\u{fad0}"@))
        .push(("conduct.txt"@, "\u{fad0}"@))
        .push(("CONTRIBUTING"@, "\u{f278}"@))
        .push(("CONTRIBUTING.md"@, "\u{f278}"@))
        .push(("CODEOWNERS"@, "\u{f0c0}"@))
        .push(("OWNERS"@, "\u{f0c0}"@))
        .push(("README.md"@, "\u{f1ea}"@))
        .push(("README.txt"@, "\u{f1ea}"@))
        .push(("README"@, "\u{f1ea}"@))
}

/// One quarter of the built-in extension table, in insertion order.
pub open spec fn default_ext_table_a() -> Seq<(Seq<char>, Seq<char>)> {
    Seq::empty()
        .push(("rs"@, "\u{e7a8}"@))
        .push(("lock"@, "\u{f023}"@))
        .push(("sh"@, "\u{f120}"@))
        .push(("bash"@, "\u{f120}"@))
        .push(("zsh"@, "\u{f120}"@))
        .push(("ksh"@, "\u{f120}"@))
        .push(("js"@, "\u{e781}"@))
        .push(("log"@, "\u{f18d}"@))
        .push(("yaml"@, "\u{f19e}"@))
        .push(("yml"@, "\u{f19e}"@))
        .push(("json"@, "\u{e60b}"@))
        .push(("conf"@, "\u{f085}"@))
        .push(("config"@, "\u{f085}"@))
        .push(("cfg"@, "\u{f085}"@))
        .push(("bin"@, "\u{f1b3}"@))
        .push(("exe"@, "\u{fab2}"@))
        .push(("err"@, "\u{f1e2}"@))
        .push(("ts"@, "\u{fbe4}"@))
        .push(("py"@, "\u{e73c}"@))
        .push(("pyc"@, "\u{e73c}"@))
        .push(("pyo"@, "\u{e73c}"@))
        .push(("md"@, "\u{e609}"@))
        .push(("markdown"@, "\u{e609}"@))
        .push(("rb"@, "\u{e739}"@))
        .push(("java"@, "\u{e738}"@))
        .push(("class"@, "\u{e738}"@))
        .push(("go"@, "\u{e626}"@))
        .push(("html"@, "\u{f1c9}"@))
        .push(("htm"@, "\u{f1c9}"@))
}

/// One quarter of the built-in extension table, in insertion order.
pub open spec fn default_ext_table_b() -> Seq<(Seq<char>, Seq<char>)> {
    Seq::empty()
        .push(("xhtml"@, "\u{f1c9}"@))
        .push(("css"@, "\u{e749}"@))
        .push(("less"@, "\u{e758}"@))
        .push(("scss"@, "\u{e74b}"@))
        .push(("sass"@, "\u{e74b}"@))
        .push(("php"@, "\u{e73d}"@))
        .push(("phar"@, "\u{e73d}"@))
        .push(("tpl"@, "\u{e60e}"@))
        .push(("tmpl"@, "\u{e60e}"@))
        .push(("coffee"@, "\u{e61b}"@))
        .push(("tgz"@, "\u{f1c6}"@))
        .push(("gz"@, "\u{f1c6}"@))
        .push(("zip"@, "\u{f1c6}"@))
        .push(("bz2"@, "\u{f1c6}"@))
        .push(("bz"@, "\u{f1c6}"@))
        .push(("pdf"@, "\u{f1c1}"@))
        .push(("png"@, "\u{e60d}"@))
        .push(("gif"@, "\u{e60d}"@))
        .push(("jpg"@, "\u{e60d}"@))
        .push(("jpeg"@, "\u{e60d}"@))
        .push(("ico"@, "\u{e60d}"@))
        .push(("svg"@, "\u{e60d}"@))
        .push(("tiff"@, "\u{e60d}"@))
        .push(("bmp"@, "\u{e60d}"@))
        .push(("doc"@, "\u{f1c2}"@))
        .push(("docx"@, "\u{f1c2}"@))
        .push(("odt"@, "\u{f1c2}"@))
        .push(("ppt"@, "\u{f1c4}"@))
}

/// One quarter of the built-in extension table, in insertion order.
pub open spec fn default_ext_table_c() -> Seq<(Seq<char>, Seq<char>)> {
    Seq::empty()
        .push(("pptx"@, "\u{f1c4}"@))
        .push(("xls"@, "\u{f1c3}"@))
        .push(("xlsx"@, "\u{f1c3}"@))
        .push(("csv"@, "\u{f0ce}"@))
        .push(("tsv"@, "\u{f0ce}"@))
        .push(("tab"@, "\u{f0ce}"@))
        .push(("pgp"@, "\u{f084}"@))
        .push(("gpg"@, "\u{f084}"@))
        .push(("gpg~"@, "\u{f084}"@))
        .push(("kbx"@, "\u{f084}"@))
        .push(("kbx~"@, "\u{f084}"@))
        .push(("db"@, "\u{f1c0}"@))
        .push(("sqlite"@, "\u{f1c0}"@))
        .push(("sqlite3"@, "\u{f1c0}"@))
        .push(("mov"@, "\u{f008}"@))
        .push(("mp4"@, "\u{f008}"@))
        .push(("backup"@, "\u{f0fa}"@))
        .push(("old"@, "\u{f0fa}"@))
        .push(("OLD"@, "\u{f0fa}"@))
        .push(("vim"@, "\u{e7c5}"@))
        .push(("mk"@, "\u{e20f}"@))
        .push(("make"@, "\u{e20f}"@))
        .push(("h"@, "\u{f0fd}"@))
        .push(("c"@, "\u{e61e}"@))
        .push(("cc"@, "\u{e61d}"@))
        .push(("c++"@, "\u{e61d}"@))
        .push(("toml"@, "\u{f669}"@))
        .push(("tml"@, "\u{f669}"@))
}

/// One quarter of the built-in extension table, in insertion order.
pub open spec fn default_ext_table_d() -> Seq<(Seq<char>, Seq<char>)> {
    Seq::empty()
        .push(("ex"@, "\u{e7b1}"@))
        .push(("exs"@, "\u{e7b1}"@))
        .push(("txt"@, "\u{f0f6}"@))
        .push(("so"@, "\u{e712}"@))
        .push(("dylib"@, "\u{e711}"@))
        .push(("sql"@, "\u{e704}"@))
        .push(("mysql"@, "\u{e704}"@))
        .push(("msql"@, "\u{e704}"@))
        .push(("pgsql"@, "\u{e76e}"@))
        .push(("psql"@, "\u{e76e}"@))
        .push(("scala"@, "\u{e737}"@))
        .push(("applescript"@, "\u{e713}"@))
        .push(("wasm"@, "\u{f085}"@))
        .push(("tmp"@, "\u{f253}"@))
        .push(("temp"@, "\u{f253}"@))
        .push(("crt"@, "\u{f623}"@))
        .push(("csr"@, "\u{f623}"@))
        .push(("key"@, "\u{f805}"@))
        .push(("pem"@, "\u{f736}"@))
        .push(("pub"@, "\u{f736}"@))
        .push(("cs"@, "\u{f81a}"@))
        .push(("asc"@, "\u{f840}"@))
        .push(("sha"@, "\u{fafa}"@))
        .push(("sha256"@, "\u{fafa}"@))
        .push(("sha512"@, "\u{fafa}"@))
        .push(("test"@, "\u{f499}"@))
        .push(("script"@, "\u{f977}"@))
        .push(("lua"@, "\u{e620}"@))
}

/// The extension table of the built-in resolver, in insertion order.
pub open spec fn default_ext_table() -> Seq<(Seq<char>, Seq<char>)> {
    default_ext_table_a() + default_ext_table_b() + default_ext_table_c() + default_ext_table_d()
}

/// The directory-name table of the built-in resolver, in insertion order.
pub open spec fn default_dir_table() -> Seq<(Seq<char>, Seq<char>)> {
    Seq::empty()
        .push((".git"@, "\u{e5fb}"@))
        .push(("Pictures"@, "\u{f74e}"@))
        .push(("Movies"@, "\u{f74e}"@))
        .push(("Applications"@, "\u{e713}"@))
        .push(("Library"@, "\u{e713}"@))
        .push(("Code"@, "\u{e780}"@))
        .push(("_scratch"@, "\u{e238}"@))
        .push((".azure"@, "\u{fd03}"@))
        .push(("target"@, "\u{fadc}"@))
        .push(("Documents"@, "\u{f64e}"@))
        .push(("Desktop"@, "\u{fcbe}"@))
        .push(("Downloads"@, "\u{f6d9}"@))
        .push(("Music"@, "\u{f832}"@))
        .push(("Users"@, "\u{fd24}"@))
        .push(("home"@, "\u{fd24}"@))
        .push(("test"@, "\u{f499}"@))
        .push(("testdata"@, "\u{f499}"@))
        .push(("deis"@, "\u{fd2f}"@))
        .push(("deislabs"@, "\u{fd2f}"@))
        .push(("charts"@, "\u{fd31}"@))
        .push(("helm"@, "\u{fd31}"@))
        .push(("scripts"@, "\u{f482}"@))
        .push(("hack"@, "\u{f482}"@))
        .push(("pkg"@, "\u{f414}"@))
        .push(("lib"@, "\u{f414}"@))
        .push(("vendor"@, "\u{f43f}"@))
        .push(("node_modules"@, "\u{f43f}"@))
}

/// Appends one (key, icon) pair to a table under construction.
fn put(t: &mut Vec<(String, String)>, key: &str, icon: &str)
    ensures
        table_view(final(t)@) == table_view(old(t)@).push((key@, icon@)),
{
    t.push((String::from_str(key), String::from_str(icon)));
    proof {
        assert(table_view(t@) =~= table_view(old(t)@).push((key@, icon@)));
    }
}

impl Default for IconResolver {
    /// The built-in mappings.
    fn default() -> (r: IconResolver)
        ensures
            r.wf(),
            r.file_table() == default_file_table(),
            r.ext_table() == default_ext_table(),
            r.dir_table() == default_dir_table(),
    {
        let mut file_icons: Vec<(String, String)> = Vec::new();
        proof {
            assert(table_view(file_icons@) =~= Seq::<(Seq<char>, Seq<char>)>::empty());
        }
        put(&mut file_icons, ".gitignore", "\u{f113}");
        put(&mut file_icons, "Makefile", "\u{e20f}");
        put(&mut file_icons, "justfile", "\u{e20f}");
        put(&mut file_icons, "Dockerfile", "\u{e7b0}");
        put(&mut file_icons, "brigade.js", "\u{f0c3}");
        put(&mut file_icons, "glide.yaml", "\u{f1d8}");
        put(&mut file_icons, "Gopkg.toml", "\u{f1d8}");
        put(&mut file_icons, "go.mod", "\u{f6f6}");
        put(&mut file_icons, "go.sum", "\u{f6f6}");
        put(&mut file_icons, "package.json", "\u{e718}");
        put(&mut file_icons, ".DS_Store", "\u{e711}");
        put(&mut file_icons, "LICENSE", "\u{f071}");
        put(&mut file_icons, "COPYING", "\u{f071}");
        put(&mut file_icons, "LICENSE", "\u{f071}");
        put(&mut file_icons, "license.txt", "\u{f071}");
        put(&mut file_icons, "LICENSE.txt", "\u{f071}");
        put(&mut file_icons, "COPYING.txt", "\u{f071}");
        put(&mut file_icons, "Cargo.toml", "\u{f8d6}");
        put(&mut file_icons, ".bashrc", "\u{f120}");
        put(&mut file_icons, ".zshrc", "\u{f120}");
        put(&mut file_icons, ".profile", "\u{f120}");
        put(&mut file_icons, "NOTES.txt", "\u{f15c}");
        put(&mut file_icons, "notes.txt", "\u{f15c}");
        put(&mut file_icons, "TODO.txt", "\u{f0cb}");
        put(&mut file_icons, "code-of-conduct.md", "\u{fad0}");
        put(&mut file_icons, "conduct.md", "\u{fad0}");
        put(&mut file_icons, "conduct.txt", "\u{fad0}");
        put(&mut file_icons, "CONTRIBUTING", "\u{f278}");
        put(&mut file_icons, "CONTRIBUTING.md", "\u{f278}");
        put(&mut file_icons, "CODEOWNERS", "\u{f0c0}");
        put(&mut file_icons, "OWNERS", "\u{f0c0}");
        put(&mut file_icons, "README.md", "\u{f1ea}");
        put(&mut file_icons, "README.txt", "\u{f1ea}");
        put(&mut file_icons, "README", "\u{f1ea}");
        let mut ext_icons: Vec<(String, String)> = Vec::new();
        proof {
            assert(table_view(ext_icons@) =~= Seq::<(Seq<char>, Seq<char>)>::empty());
        }
        put(&mut ext_icons, "rs", "\u{e7a8}");
        put(&mut ext_icons, "lock", "\u{f023}");
        put(&mut ext_icons, "sh", "\u{f120}");
        put(&mut ext_icons, "bash", "\u{f120}");
        put(&mut ext_icons, "zsh", "\u{f120}");
        put(&mut ext_icons, "ksh", "\u{f120}");
        put(&mut ext_icons, "js", "\u{e781}");
        put(&mut ext_icons, "log", "\u{f18d}");
        put(&mut ext_icons, "yaml", "\u{f19e}");
        put(&mut ext_icons, "yml", "\u{f19e}");
        put(&mut ext_icons, "json", "\u{e60b}");
        put(&mut ext_icons, "conf", "\u{f085}");
        put(&mut ext_icons, "config", "\u{f085}");
        put(&mut ext_icons, "cfg", "\u{f085}");
        put(&mut ext_icons, "bin", "\u{f1b3}");
        put(&mut ext_icons, "exe", "\u{fab2}");
        put(&mut ext_icons, "err", "\u{f1e2}");
        put(&mut ext_icons, "ts", "\u{fbe4}");
        put(&mut ext_icons, "py", "\u{e73c}");
        put(&mut ext_icons, "pyc", "\u{e73c}");
        put(&mut ext_icons, "pyo", "\u{e73c}");
        put(&mut ext_icons, "md", "\u{e609}");
        put(&mut ext_icons, "markdown", "\u{e609}");
        put(&mut ext_icons, "rb", "\u{e739}");
        put(&mut ext_icons, "java", "\u{e738}");
        put(&mut ext_icons, "class", "\u{e738}");
        put(&mut ext_icons, "go", "\u{e626}");
        put(&mut ext_icons, "html", "\u{f1c9}");
        put(&mut ext_icons, "htm", "\u{f1c9}");
        proof {
            assert(table_view(ext_icons@) == default_ext_table_a());
        }
        let mut ext_chunk_b: Vec<(String, String)> = Vec::new();
        proof {
            assert(table_view(ext_chunk_b@) =~= Seq::<(Seq<char>, Seq<char>)>::empty());
        }
        put(&mut ext_chunk_b, "xhtml", "\u{f1c9}");
        put(&mut ext_chunk_b, "css", "\u{e749}");
        put(&mut ext_chunk_b, "less", "\u{e758}");
        put(&mut ext_chunk_b, "scss", "\u{e74b}");
        put(&mut ext_chunk_b, "sass", "\u{e74b}");
        put(&mut ext_chunk_b, "php", "\u{e73d}");
        put(&mut ext_chunk_b, "phar", "\u{e73d}");
        put(&mut ext_chunk_b, "tpl", "\u{e60e}");
        put(&mut ext_chunk_b, "tmpl", "\u{e60e}");
        put(&mut ext_chunk_b, "coffee", "\u{e61b}");
        put(&mut ext_chunk_b, "tgz", "\u{f1c6}");
        put(&mut ext_chunk_b, "gz", "\u{f1c6}");
        put(&mut ext_chunk_b, "zip", "\u{f1c6}");
        put(&mut ext_chunk_b, "bz2", "\u{f1c6}");
        put(&mut ext_chunk_b, "bz", "\u{f1c6}");
        put(&mut ext_chunk_b, "pdf", "\u{f1c1}");
        put(&mut ext_chunk_b, "png", "\u{e60d}");
        put(&mut ext_chunk_b, "gif", "\u{e60d}");
        put(&mut ext_chunk_b, "jpg", "\u{e60d}");
        put(&mut ext_chunk_b, "jpeg", "\u{e60d}");
        put(&mut ext_chunk_b, "ico", "\u{e60d}");
        put(&mut ext_chunk_b, "svg", "\u{e60d}");
        put(&mut ext_chunk_b, "tiff", "\u{e60d}");
        put(&mut ext_chunk_b, "bmp", "\u{e60d}");
        put(&mut ext_chunk_b, "doc", "\u{f1c2}");
        put(&mut ext_chunk_b, "docx", "\u{f1c2}");
        put(&mut ext_chunk_b, "odt", "\u{f1c2}");
        put(&mut ext_chunk_b, "ppt", "\u{f1c4}");
        proof {
            assert(table_view(ext_chunk_b@) == default_ext_table_b());
        }
        proof {
            lemma_table_view_append(ext_icons@, ext_chunk_b@);
        }
        ext_icons.append(&mut ext_chunk_b);
        let mut ext_chunk_c: Vec<(String, String)> = Vec::new();
        proof {
            assert(table_view(ext_chunk_c@) =~= Seq::<(Seq<char>, Seq<char>)>::empty());
        }
        put(&mut ext_chunk_c, "pptx", "\u{f1c4}");
        put(&mut ext_chunk_c, "xls", "\u{f1c3}");
        put(&mut ext_chunk_c, "xlsx", "\u{f1c3}");
        put(&mut ext_chunk_c, "csv", "\u{f0ce}");
        put(&mut ext_chunk_c, "tsv", "\u{f0ce}");
        put(&mut ext_chunk_c, "tab", "\u{f0ce}");
        put(&mut ext_chunk_c, "pgp", "\u{f084}");
        put(&mut ext_chunk_c, "gpg", "\u{f084}");
        put(&mut ext_chunk_c, "gpg~", "\u{f084}");
        put(&mut ext_chunk_c, "kbx", "\u{f084}");
        put(&mut ext_chunk_c, "kbx~", "\u{f084}");
        put(&mut ext_chunk_c, "db", "\u{f1c0}");
        put(&mut ext_chunk_c, "sqlite", "\u{f1c0}");
        put(&mut ext_chunk_c, "sqlite3", "\u{f1c0}");
        put(&mut ext_chunk_c, "mov", "\u{f008}");
        put(&mut ext_chunk_c, "mp4", "\u{f008}");
        put(&mut ext_chunk_c, "backup", "\u{f0fa}");
        put(&mut ext_chunk_c, "old", "\u{f0fa}");
        put(&mut ext_chunk_c, "OLD", "\u{f0fa}");
        put(&mut ext_chunk_c, "vim", "\u{e7c5}");
        put(&mut ext_chunk_c, "mk", "\u{e20f}");
        put(&mut ext_chunk_c, "make", "\u{e20f}");
        put(&mut ext_chunk_c, "h", "\u{f0fd}");
        put(&mut ext_chunk_c, "c", "\u{e61e}");
        put(&mut ext_chunk_c, "cc", "\u{e61d}");
        put(&mut ext_chunk_c, "c++", "\u{e61d}");
        put(&mut ext_chunk_c, "toml", "\u{f669}");
        put(&mut ext_chunk_c, "tml", "\u{f669}");
        proof {
            assert(table_view(ext_chunk_c@) == default_ext_table_c());
        }
        proof {
            lemma_table_view_append(ext_icons@, ext_chunk_c@);
        }
        ext_icons.append(&mut ext_chunk_c);
        let mut ext_chunk_d: Vec<(String, String)> = Vec::new();
        proof {
            assert(table_view(ext_chunk_d@) =~= Seq::<(Seq<char>, Seq<char>)>::empty());
        }
        put(&mut ext_chunk_d, "ex", "\u{e7b1}");
        put(&mut ext_chunk_d, "exs", "\u{e7b1}");
        put(&mut ext_chunk_d, "txt", "\u{f0f6}");
        put(&mut ext_chunk_d, "so", "\u{e712}");
        put(&mut ext_chunk_d, "dylib", "\u{e711}");
        put(&mut ext_chunk_d, "sql", "\u{e704}");
        put(&mut ext_chunk_d, "mysql", "\u{e704}");
        put(&mut ext_chunk_d, "msql", "\u{e704}");
        put(&mut ext_chunk_d, "pgsql", "\u{e76e}");
        put(&mut ext_chunk_d, "psql", "\u{e76e}");
        put(&mut ext_chunk_d, "scala", "\u{e737}");
        put(&mut ext_chunk_d, "applescript", "\u{e713}");
        put(&mut ext_chunk_d, "wasm", "\u{f085}");
        put(&mut ext_chunk_d, "tmp", "\u{f253}");
        put(&mut ext_chunk_d, "temp", "\u{f253}");
        put(&mut ext_chunk_d, "crt", "\u{f623}");
        put(&mut ext_chunk_d, "csr", "\u{f623}");
        put(&mut ext_chunk_d, "key", "\u{f805}");
        put(&mut ext_chunk_d, "pem", "\u{f736}");
        put(&mut ext_chunk_d, "pub", "\u{f736}");
        put(&mut ext_chunk_d, "cs", "\u{f81a}");
        put(&mut ext_chunk_d, "asc", "\u{f840}");
        put(&mut ext_chunk_d, "sha", "\u{fafa}");
        put(&mut ext_chunk_d, "sha256", "\u{fafa}");
        put(&mut ext_chunk_d, "sha512", "\u{fafa}");
        put(&mut ext_chunk_d, "test", "\u{f499}");
        put(&mut ext_chunk_d, "script", "\u{f977}");
        put(&mut ext_chunk_d, "lua", "\u{e620}");
        proof {
            assert(table_view(ext_chunk_d@) == default_ext_table_d());
        }
        proof {
            lemma_table_view_append(ext_icons@, ext_chunk_d@);
        }
        ext_icons.append(&mut ext_chunk_d);
        let mut dir_icons: Vec<(String, String)> = Vec::new();
        proof {
            assert(table_view(dir_icons@) =~= Seq::<(Seq<char>, Seq<char>)>::empty());
        }
        put(&mut dir_icons, ".git", "\u{e5fb}");
        put(&mut dir_icons, "Pictures", "\u{f74e}");
        put(&mut dir_icons, "Movies", "\u{f74e}");
        put(&mut dir_icons, "Applications", "\u{e713}");
        put(&mut dir_icons, "Library", "\u{e713}");
        put(&mut dir_icons, "Code", "\u{e780}");
        put(&mut dir_icons, "_scratch", "\u{e238}");
        put(&mut dir_icons, ".azure", "\u{fd03}");
        put(&mut dir_icons, "target", "\u{fadc}");
        put(&mut dir_icons, "Documents", "\u{f64e}");
        put(&mut dir_icons, "Desktop", "\u{fcbe}");
        put(&mut dir_icons, "Downloads", "\u{f6d9}");
        put(&mut dir_icons, "Music", "\u{f832}");
        put(&mut dir_icons, "Users", "\u{fd24}");
        put(&mut dir_icons, "home", "\u{fd24}");
        put(&mut dir_icons, "test", "\u{f499}");
        put(&mut dir_icons, "testdata", "\u{f499}");
        put(&mut dir_icons, "deis", "\u{fd2f}");
        put(&mut dir_icons, "deislabs", "\u{fd2f}");
        put(&mut dir_icons, "charts", "\u{fd31}");
        put(&mut dir_icons, "helm", "\u{fd31}");
        put(&mut dir_icons, "scripts", "\u{f482}");
        put(&mut dir_icons, "hack", "\u{f482}");
        put(&mut dir_icons, "pkg", "\u{f414}");
        put(&mut dir_icons, "lib", "\u{f414}");
        put(&mut dir_icons, "vendor", "\u{f43f}");
        put(&mut dir_icons, "node_modules", "\u{f43f}");
        let r = IconResolver { file_icons, ext_icons, dir_icons };
        proof {
            assert(r.file_table() == default_file_table());
            assert(r.ext_table() == default_ext_table());
            assert(r.dir_table() == default_dir_table());
            lemma_default_dir_table_wf();
        }
        r
    }
}

/// The built-in directory table binds no name to the default file icon.
proof fn lemma_default_dir_table_wf()
    ensures
        forall|i: int|
            0 <= i < default_dir_table().len() ==> (#[trigger] default_dir_table()[i]).1
                != default_icon_spec(),
{
    reveal_strlit("\u{f036}");
    reveal_strlit("\u{e238}");
    reveal_strlit("\u{e5fb}");
    reveal_strlit("\u{e713}");
    reveal_strlit("\u{e780}");
    reveal_strlit("\u{f414}");
    reveal_strlit("\u{f43f}");
    reveal_strlit("\u{f482}");
    reveal_strlit("\u{f499}");
    reveal_strlit("\u{f64e}");
    reveal_strlit("\u{f6d9}");
    reveal_strlit("\u{f74e}");
    reveal_strlit("\u{f832}");
    reveal_strlit("\u{fadc}");
    reveal_strlit("\u{fcbe}");
    reveal_strlit("\u{fd03}");
    reveal_strlit("\u{fd24}");
    reveal_strlit("\u{fd2f}");
    reveal_strlit("\u{fd31}");

    assert forall|i: int|
        0 <= i < default_dir_table().len() implies (#[trigger] default_dir_table()[i]).1
        != default_icon_spec() by {
        let v = default_dir_table()[i].1;
        assert(v.len() == 1 && v[0] != '\u{f036}');
    }
}

/// Mapping a table to character sequences distributes over concatenation.
proof fn lemma_table_view_append(s1: Seq<(String, String)>, s2: Seq<(String, String)>)
    ensures
        table_view(s1 + s2) == table_view(s1) + table_view(s2),
{
    assert(table_view(s1 + s2) =~= table_view(s1) + table_view(s2));
}

/// A key that no table entry carries finds nothing.
proof fn lemma_lookup_misses(t: Seq<(Seq<char>, Seq<char>)>, key: Seq<char>)
    requires
        forall|i: int| 0 <= i < t.len() ==> (#[trigger] t[i]).0 != key,
    ensures
        lookup(t, key) is None,
    decreases t.len(),
{
    if t.len() > 0 {
        assert forall|i: int| 0 <= i < t.drop_first().len() implies (#[trigger] t.drop_first()[i]).0
            != key by {
            assert(t.drop_first()[i] == t[i + 1]);
        }
        lemma_lookup_misses(t.drop_first(), key);
    }
}

/// No key of this quarter of the extension table is empty.
proof fn lemma_ext_keys_nonempty_a()
    ensures
        forall|i: int|
            0 <= i < default_ext_table_a().len() ==> (#[trigger] default_ext_table_a()[i]).0.len()
                > 0,
{
    reveal_strlit("bash");
    reveal_strlit("bin");
    reveal_strlit("cfg");
    reveal_strlit("class");
    reveal_strlit("conf");
    reveal_strlit("config");
    reveal_strlit("err");
    reveal_strlit("exe");
    reveal_strlit("go");
    reveal_strlit("htm");
    reveal_strlit("html");
    reveal_strlit("java");
    reveal_strlit("js");
    reveal_strlit("json");
    reveal_strlit("ksh");
    reveal_strlit("lock");
    reveal_strlit("log");
    reveal_strlit("markdown");
    reveal_strlit("md");
    reveal_strlit("py");
    reveal_strlit("pyc");
    reveal_strlit("pyo");
    reveal_strlit("rb");
    reveal_strlit("rs");
    reveal_strlit("sh");
    reveal_strlit("ts");
    reveal_strlit("yaml");
    reveal_strlit("yml");
    reveal_strlit("zsh");
    assert forall|i: int|
        0 <= i < default_ext_table_a().len() implies (#[trigger] default_ext_table_a()[i]).0.len()
        > 0 by {
        assert(default_ext_table_a()[i].0.len() > 0);
    }
}

/// No key of this quarter of the extension table is empty.
proof fn lemma_ext_keys_nonempty_b()
    ensures
        forall|i: int|
            0 <= i < default_ext_table_b().len() ==> (#[trigger] default_ext_table_b()[i]).0.len()
                > 0,
{
    reveal_strlit("bmp");
    reveal_strlit("bz");
    reveal_strlit("bz2");
    reveal_strlit("coffee");
    reveal_strlit("css");
    reveal_strlit("doc");
    reveal_strlit("docx");
    reveal_strlit("gif");
    reveal_strlit("gz");
    reveal_strlit("ico");
    reveal_strlit("jpeg");
    reveal_strlit("jpg");
    reveal_strlit("less");
    reveal_strlit("odt");
    reveal_strlit("pdf");
    reveal_strlit("phar");
    reveal_strlit("php");
    reveal_strlit("png");
    reveal_strlit("ppt");
    reveal_strlit("sass");
    reveal_strlit("scss");
    reveal_strlit("svg");
    reveal_strlit("tgz");
    reveal_strlit("tiff");
    reveal_strlit("tmpl");
    reveal_strlit("tpl");
    reveal_strlit("xhtml");
    reveal_strlit("zip");
    assert forall|i: int|
        0 <= i < default_ext_table_b().len() implies (#[trigger] default_ext_table_b()[i]).0.len()
        > 0 by {
        assert(default_ext_table_b()[i].0.len() > 0);
    }
}

/// No key of this quarter of the extension table is empty.
proof fn lemma_ext_keys_nonempty_c()
    ensures
        forall|i: int|
            0 <= i < default_ext_table_c().len() ==> (#[trigger] default_ext_table_c()[i]).0.len()
                > 0,
{
    reveal_strlit("OLD");
    reveal_strlit("backup");
    reveal_strlit("c");
    reveal_strlit("c++");
    reveal_strlit("cc");
    reveal_strlit("csv");
    reveal_strlit("db");
    reveal_strlit("gpg");
    reveal_strlit("gpg~");
    reveal_strlit("h");
    reveal_strlit("kbx");
    reveal_strlit("kbx~");
    reveal_strlit("make");
    reveal_strlit("mk");
    reveal_strlit("mov");
    reveal_strlit("mp4");
    reveal_strlit("old");
    reveal_strlit("pgp");
    reveal_strlit("pptx");
    reveal_strlit("sqlite");
    reveal_strlit("sqlite3");
    reveal_strlit("tab");
    reveal_strlit("tml");
    reveal_strlit("toml");
    reveal_strlit("tsv");
    reveal_strlit("vim");
    reveal_strlit("xls");
    reveal_strlit("xlsx");
    assert forall|i: int|
        0 <= i < default_ext_table_c().len() implies (#[trigger] default_ext_table_c()[i]).0.len()
        > 0 by {
        assert(default_ext_table_c()[i].0.len() > 0);
    }
}

/// No key of this quarter of the extension table is empty.
proof fn lemma_ext_keys_nonempty_d()
    ensures
        forall|i: int|
            0 <= i < default_ext_table_d().len() ==> (#[trigger] default_ext_table_d()[i]).0.len()
                > 0,
{
    reveal_strlit("applescript");
    reveal_strlit("asc");
    reveal_strlit("crt");
    reveal_strlit("cs");
    reveal_strlit("csr");
    reveal_strlit("dylib");
    reveal_strlit("ex");
    reveal_strlit("exs");
    reveal_strlit("key");
    reveal_strlit("lua");
    reveal_strlit("msql");
    reveal_strlit("mysql");
    reveal_strlit("pem");
    reveal_strlit("pgsql");
    reveal_strlit("psql");
    reveal_strlit("pub");
    reveal_strlit("scala");
    reveal_strlit("script");
    reveal_strlit("sha");
    reveal_strlit("sha256");
    reveal_strlit("sha512");
    reveal_strlit("so");
    reveal_strlit("sql");
    reveal_strlit("temp");
    reveal_strlit("test");
    reveal_strlit("tmp");
    reveal_strlit("txt");
    reveal_strlit("wasm");
    assert forall|i: int|
        0 <= i < default_ext_table_d().len() implies (#[trigger] default_ext_table_d()[i]).0.len()
        > 0 by {
        assert(default_ext_table_d()[i].0.len() > 0);
    }
}

/// The built-in extension table has no empty key, so a name without a
/// dot — whose extension is empty — never hits the extension table and
/// falls through to the default icon.
pub proof fn lemma_default_ext_table_misses_empty()
    ensures
        lookup(default_ext_table(), Seq::<char>::empty()) is None,
{
    lemma_ext_keys_nonempty_a();
    lemma_ext_keys_nonempty_b();
    lemma_ext_keys_nonempty_c();
    lemma_ext_keys_nonempty_d();
    assert forall|i: int|
        0 <= i < default_ext_table().len() implies (#[trigger] default_ext_table()[i]).0
        != Seq::<char>::empty() by {
        let a = default_ext_table_a();
        let b = default_ext_table_b();
        let c = default_ext_table_c();
        let d = default_ext_table_d();
        if i < a.len() {
            assert(default_ext_table()[i] == a[i]);
        } else if i < a.len() + b.len() {
            assert(default_ext_table()[i] == b[i - a.len()]);
        } else if i < a.len() + b.len() + c.len() {
            assert(default_ext_table()[i] == c[i - a.len() - b.len()]);
        } else {
            assert(default_ext_table()[i] == d[i - a.len() - b.len() - c.len()]);
        }
    }
    lemma_lookup_misses(default_ext_table(), Seq::<char>::empty());
}

/// A found icon is one of the table's values.
proof fn lemma_lookup_found_is_value(t: Seq<(Seq<char>, Seq<char>)>, key: Seq<char>)
    requires
        lookup(t, key) is Some,
    ensures
        exists|i: int| 0 <= i < t.len() && t[i].1 == lookup(t, key)->Some_0,
    decreases t.len(),
{
    if t.len() == 0 {
    } else if t[0].0 == key {
        assert(t[0].1 == lookup(t, key)->Some_0);
    } else {
        lemma_lookup_found_is_value(t.drop_first(), key);
        let i = choose|i: int|
            0 <= i < t.drop_first().len() && t.drop_first()[i].1 == lookup(
                t.drop_first(),
                key,
            )->Some_0;
        assert(t[i + 1].1 == lookup(t, key)->Some_0);
    }
}

/// A directory resolves to its mapped icon when its name is in the
/// directory table, to the folder glyph otherwise, and in a well-formed
/// resolver never to the default file icon.
pub proof fn lemma_directory_never_default_icon(r: &IconResolver, name: Seq<char>)
    requires
        r.wf(),
    ensures
        lookup(r.dir_table(), name) is Some ==> r.resolve_spec(EntryKind::Directory, name)
            == lookup(r.dir_table(), name)->Some_0,
        lookup(r.dir_table(), name) is None ==> r.resolve_spec(EntryKind::Directory, name)
            == folder_icon_spec(),
        r.resolve_spec(EntryKind::Directory, name) != default_icon_spec(),
{
    assert(folder_icon_spec() != default_icon_spec()) by {
        reveal_strlit("\u{f07b}");
        reveal_strlit("\u{f036}");
        assert(folder_icon_spec()[0] != default_icon_spec()[0]);
    }
    if lookup(r.dir_table(), name) is Some {
        lemma_lookup_found_is_value(r.dir_table(), name);
    }
}

/// A symbolic link resolves to the link glyph whatever its name, even one
/// that the file-name or extension table also maps.
pub proof fn lemma_symlink_icon_unconditional(r: &IconResolver, name: Seq<char>)
    ensures
        r.resolve_spec(EntryKind::Symlink, name) == link_icon_spec(),
{
}

/// For regular files an exact file-name mapping beats any extension
/// mapping: when the name itself is mapped, the extension table is not
/// consulted.
pub proof fn lemma_name_mapping_precedence(r: &IconResolver, name: Seq<char>, v: Seq<char>)
    requires
        lookup(r.file_table(), name) == Some(v),
    ensures
        r.resolve_spec(EntryKind::Regular, name) == v,
{
}

} // verus!
