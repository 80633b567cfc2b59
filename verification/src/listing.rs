use vstd::prelude::*;
use vstd::string::StrSliceExecFns;
use vstd::string::StringExecFns;
use crate::entry::Entry;
use crate::entry::clamped_ms;
use crate::entry::is_local_time_of;
use crate::entry::time_shaped;
use crate::numfmt::oct_seq;
use crate::numfmt::oct_string;
use crate::numfmt::pad_left;
use crate::numfmt::pad_left_spec;
use crate::numfmt::pad_right;
use crate::numfmt::pad_right_spec;
use crate::size::si_size_spec;

verus! {

/// Hidden names start with a dot.
pub open spec fn is_hidden(name: Seq<char>) -> bool {
    name.len() > 0 && name[0] == '.'
}

/// Whether a listing keeps an entry of this name.
pub open spec fn keep_spec(name: Seq<char>, show_hidden: bool) -> bool {
    show_hidden || !is_hidden(name)
}

/// Whether a listing keeps an entry of this name.
pub fn keep(name: &String, show_hidden: bool) -> (r: bool)
    ensures
        r == keep_spec(name@, show_hidden),
{
    if show_hidden {
        true
    } else {
        let n = name.as_str().unicode_len();
        if n == 0 {
            true
        } else {
            name.as_str().get_char(0) != '.'
        }
    }
}

/// Cap on the width of the name column.
pub const NAME_COLUMN_CAP: usize = 80;

/// The kept entries, in listing order.
pub open spec fn filtered(entries: Seq<Entry>, show_hidden: bool) -> Seq<Entry>
    decreases entries.len(),
{
    if entries.len() == 0 {
        Seq::empty()
    } else {
        let init = filtered(entries.drop_last(), show_hidden);
        if keep_spec(entries.last().name@, show_hidden) {
            init.push(entries.last())
        } else {
            init
        }
    }
}

/// Width of the name column for these entries: the length of the longest
/// name among them, capped at `NAME_COLUMN_CAP` (zero when there are none).
pub open spec fn width_spec(entries: Seq<Entry>) -> nat
    decreases entries.len(),
{
    if entries.len() == 0 {
        0
    } else {
        let w = width_spec(entries.drop_last());
        let l = entries.last().name@.len();
        let m: nat = if l > w {
            l
        } else {
            w
        };
        if m > NAME_COLUMN_CAP as nat {
            NAME_COLUMN_CAP as nat
        } else {
            m
        }
    }
}

/// The name column never grows beyond the cap, however long a name is;
/// the name itself is never truncated (see `line_spec`, which keeps it
/// whole and only pads).
pub proof fn lemma_width_capped(entries: Seq<Entry>)
    ensures
        width_spec(entries) <= NAME_COLUMN_CAP as nat,
    decreases entries.len(),
{
    if entries.len() > 0 {
        lemma_width_capped(entries.drop_last());
    }
}

/// One printed line: the colorized icon, two spaces, the name padded on
/// the right to `width`, two spaces, the size right-aligned to eight
/// characters, a space, the formatted time, a space, and the permission
/// word in octal right-aligned to six characters.
pub open spec fn line_spec(e: Entry, time: Seq<char>, width: nat) -> Seq<char> {
    e.pretty_icon_spec() + "  "@ + pad_right_spec(e.name@, width) + "  "@ + pad_left_spec(
        si_size_spec(e.bytes as nat),
        8,
    ) + " "@ + time + " "@ + pad_left_spec(oct_seq(e.mode as nat), 6)
}

/// Does `l` render `e` at this column width: the exact line for some
/// local rendering of the entry's modification time.
pub open spec fn line_matches(l: Seq<char>, e: Entry, width: nat) -> bool {
    exists|t: Seq<char>|
        time_shaped(t) && is_local_time_of(t, clamped_ms(e.modified)) && l == line_spec(
            e,
            t,
            width,
        )
}

/// One printed line for `e`, with its already-formatted time given.
pub fn compose_line(e: &Entry, time: &String, width: usize) -> (r: String)
    ensures
        r@ == line_spec(*e, time@, width as nat),
{
    let mut s = e.pretty_icon();
    s.append("  ");
    let padded_name = pad_right(&e.name, width);
    s.append(padded_name.as_str());
    s.append("  ");
    let size = pad_left(&e.pretty_size(), 8);
    s.append(size.as_str());
    s.append(" ");
    s.append(time.as_str());
    s.append(" ");
    let mode = pad_left(&oct_string(e.mode), 6);
    s.append(mode.as_str());
    s
}

/// One printed line for `e`, formatting its modification time now.
pub fn format_line(e: &Entry, width: usize) -> (r: String)
    ensures
        line_matches(r@, *e, width as nat),
{
    let time = e.pretty_time();
    let r = compose_line(e, &time, width);
    proof {
        assert(time_shaped(time@) && is_local_time_of(time@, clamped_ms(e.modified)) && r@
            == line_spec(*e, time@, width as nat));
        assert(line_matches(r@, *e, width as nat));
    }
    r
}

/// All lines of one listing: hidden entries dropped unless shown, the
/// name column sized to the longest kept name (capped), and one line per
/// kept entry, in order.
pub fn format_entries(entries: &Vec<Entry>, show_hidden: bool) -> (r: Vec<String>)
    ensures
        ({
            let kept = filtered(entries@, show_hidden);
            &&& r@.len() == kept.len()
            &&& forall|i: int|
                0 <= i < kept.len() ==> line_matches(
                    (#[trigger] r@[i])@,
                    kept[i],
                    width_spec(kept),
                )
        }),
{
    let ghost kept_all = filtered(entries@, show_hidden);
    let mut width: usize = 0;
    let mut i: usize = 0;
    while i < entries.len()
        invariant
            i <= entries@.len(),
            width == width_spec(filtered(entries@.take(i as int), show_hidden)),
            width <= NAME_COLUMN_CAP,
        decreases entries@.len() - i,
    {
        proof {
            assert(entries@.take(i as int + 1).drop_last() =~= entries@.take(i as int));
            assert(entries@.take(i as int + 1).last() == entries@[i as int]);
            let fi = filtered(entries@.take(i as int), show_hidden);
            let fi1 = filtered(entries@.take(i as int + 1), show_hidden);
            if keep_spec(entries@[i as int].name@, show_hidden) {
                assert(fi1 == fi.push(entries@[i as int]));
                assert(fi1.drop_last() =~= fi);
                assert(fi1.last() == entries@[i as int]);
            } else {
                assert(fi1 == fi);
            }
        }
        if keep(&entries[i].name, show_hidden) {
            let n = entries[i].name.as_str().unicode_len();
            let m = if n > width {
                n
            } else {
                width
            };
            width = if m > NAME_COLUMN_CAP {
                NAME_COLUMN_CAP
            } else {
                m
            };
        }
        i += 1;
    }
    proof {
        assert(entries@.take(entries@.len() as int) =~= entries@);
    }
    let mut lines: Vec<String> = Vec::new();
    let mut j: usize = 0;
    while j < entries.len()
        invariant
            j <= entries@.len(),
            width == width_spec(kept_all),
            kept_all == filtered(entries@, show_hidden),
            lines@.len() == filtered(entries@.take(j as int), show_hidden).len(),
            forall|k: int|
                0 <= k < lines@.len() ==> line_matches(
                    (#[trigger] lines@[k])@,
                    filtered(entries@.take(j as int), show_hidden)[k],
                    width_spec(kept_all),
                ),
        decreases entries@.len() - j,
    {
        proof {
            assert(entries@.take(j as int + 1).drop_last() =~= entries@.take(j as int));
            assert(entries@.take(j as int + 1).last() == entries@[j as int]);
            let fj = filtered(entries@.take(j as int), show_hidden);
            let fj1 = filtered(entries@.take(j as int + 1), show_hidden);
            if keep_spec(entries@[j as int].name@, show_hidden) {
                assert(fj1 == fj.push(entries@[j as int]));
                assert(fj1.drop_last() =~= fj);
                assert(fj1.last() == entries@[j as int]);
                assert(forall|k: int| 0 <= k < fj.len() ==> fj1[k] == #[trigger] fj[k]);
            } else {
                assert(fj1 == fj);
            }
        }
        if keep(&entries[j].name, show_hidden) {
            let line = format_line(&entries[j], width);
            let ghost prev = lines@;
            lines.push(line);
            proof {
                let fj = filtered(entries@.take(j as int), show_hidden);
                let fj1 = filtered(entries@.take(j as int + 1), show_hidden);
                assert(lines@ == prev.push(line));
                assert(lines@[lines@.len() - 1] == line);
                assert(fj1[fj1.len() - 1] == entries@[j as int]);
                assert(forall|k: int| 0 <= k < prev.len() ==> lines@[k] == #[trigger] prev[k]);
            }
        }
        j += 1;
    }
    proof {
        assert(entries@.take(entries@.len() as int) =~= entries@);
    }
    lines
}

/// Filtering keeps exactly the admitted entries: every kept entry has a
/// name the flag admits and comes from the input, and every input entry
/// whose name the flag admits is kept.
pub proof fn lemma_filtered_keeps_exactly(entries: Seq<Entry>, show_hidden: bool)
    ensures
        forall|i: int|
            0 <= i < filtered(entries, show_hidden).len() ==> keep_spec(
                (#[trigger] filtered(entries, show_hidden)[i]).name@,
                show_hidden,
            ),
        forall|i: int|
            0 <= i < filtered(entries, show_hidden).len() ==> entries.contains(
                #[trigger] filtered(entries, show_hidden)[i],
            ),
        forall|i: int|
            0 <= i < entries.len() && keep_spec((#[trigger] entries[i]).name@, show_hidden)
                ==> filtered(entries, show_hidden).contains(entries[i]),
    decreases entries.len(),
{
    if entries.len() > 0 {
        let init = entries.drop_last();
        lemma_filtered_keeps_exactly(init, show_hidden);
        let f = filtered(entries, show_hidden);
        let fi = filtered(init, show_hidden);
        assert forall|i: int| 0 <= i < f.len() implies keep_spec(
            (#[trigger] f[i]).name@,
            show_hidden,
        ) by {
            if i < fi.len() {
                assert(f[i] == fi[i]);
            } else {
                assert(f[i] == entries.last());
            }
        }
        assert forall|i: int| 0 <= i < f.len() implies entries.contains(#[trigger] f[i]) by {
            if i < fi.len() {
                assert(f[i] == fi[i]);
                let k = choose|k: int| 0 <= k < init.len() && init[k] == fi[i];
                assert(entries[k] == fi[i]);
            } else {
                assert(f[i] == entries.last());
                assert(entries[entries.len() - 1] == entries.last());
            }
        }
        assert forall|i: int|
            0 <= i < entries.len() && keep_spec(
                (#[trigger] entries[i]).name@,
                show_hidden,
            ) implies f.contains(entries[i]) by {
            if i < entries.len() - 1 {
                assert(init[i] == entries[i]);
                assert(fi.contains(entries[i]));
                let k = choose|k: int| 0 <= k < fi.len() && fi[k] == entries[i];
                assert(f[k] == entries[i]);
            } else {
                assert(entries[i] == entries.last());
                assert(f[f.len() - 1] == entries.last());
            }
        }
    }
}

} // verus!
