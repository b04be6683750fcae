//! The `KEY=value` environment file handed to the application server:
//! blank lines and `#` comments are skipped, keys and values are trimmed,
//! values lose their surrounding quotes, and a later key replaces an
//! earlier one.

use vstd::prelude::*;
use crate::artifact::before_first;
use crate::text::{chars_of, string_of};

verus! {

/// The characters `char::is_whitespace` accepts: Unicode `White_Space`.
pub open spec fn is_white(c: char) -> bool {
    c == '\t' || c == '\n' || c == '\u{0B}' || c == '\u{0C}' || c == '\r' || c == ' ' || c
        == '\u{85}' || c == '\u{A0}' || c == '\u{1680}' || ('\u{2000}' <= c && c <= '\u{200A}')
        || c == '\u{2028}' || c == '\u{2029}' || c == '\u{202F}' || c == '\u{205F}' || c
        == '\u{3000}'
}

/// What a trim removes from both ends of a text.
#[derive(Clone, Copy, Debug, PartialEq, Eq, Structural)]
pub enum Strip {
    /// Whitespace, as `str::trim` does.
    White,
    /// Every copy of one character, as `str::trim_matches` does.
    Only { c: char },
}

/// Whether the trim removes `c`.
pub open spec fn strips(m: Strip, c: char) -> bool {
    match m {
        Strip::White => is_white(c),
        Strip::Only { c: x } => c == x,
    }
}

fn strips_exec(m: Strip, c: char) -> (r: bool)
    ensures
        r == strips(m, c),
{
    match m {
        Strip::White => {
            c == '\t' || c == '\n' || c == '\u{0B}' || c == '\u{0C}' || c == '\r' || c == ' ' || c
                == '\u{85}' || c == '\u{A0}' || c == '\u{1680}' || ('\u{2000}' <= c && c
                <= '\u{200A}') || c == '\u{2028}' || c == '\u{2029}' || c == '\u{202F}' || c
                == '\u{205F}' || c == '\u{3000}'
        },
        Strip::Only { c: x } => c == x,
    }
}

/// `s` without the removable characters at its start.
pub open spec fn trim_front(s: Seq<char>, m: Strip) -> Seq<char>
    decreases s.len(),
{
    if s.len() > 0 && strips(m, s[0]) {
        trim_front(s.drop_first(), m)
    } else {
        s
    }
}

/// `s` without the removable characters at its end.
pub open spec fn trim_back(s: Seq<char>, m: Strip) -> Seq<char>
    decreases s.len(),
{
    if s.len() > 0 && strips(m, s.last()) {
        trim_back(s.drop_last(), m)
    } else {
        s
    }
}

/// `s` without the removable characters at either end.
pub open spec fn trim_spec(s: Seq<char>, m: Strip) -> Seq<char> {
    trim_back(trim_front(s, m), m)
}

proof fn lemma_trim_front(s: Seq<char>, m: Strip, i: int)
    requires
        0 <= i <= s.len(),
        forall|k: int| 0 <= k < i ==> strips(m, #[trigger] s[k]),
        i == s.len() || !strips(m, s[i]),
    ensures
        trim_front(s, m) == s.subrange(i, s.len() as int),
    decreases i,
{
    if i > 0 {
        assert forall|k: int| 0 <= k < i - 1 implies strips(m, #[trigger] s.drop_first()[k]) by {
            assert(s.drop_first()[k] == s[k + 1]);
        }
        lemma_trim_front(s.drop_first(), m, i - 1);
        assert(s.drop_first().subrange(i - 1, s.len() - 1) =~= s.subrange(i, s.len() as int));
    } else {
        assert(s.subrange(0, s.len() as int) =~= s);
    }
}

proof fn lemma_trim_back(s: Seq<char>, m: Strip, j: int)
    requires
        0 <= j <= s.len(),
        forall|k: int| j <= k < s.len() ==> strips(m, #[trigger] s[k]),
        j == 0 || !strips(m, s[j - 1]),
    ensures
        trim_back(s, m) == s.subrange(0, j),
    decreases s.len() - j,
{
    if j < s.len() {
        assert forall|k: int| j <= k < s.len() - 1 implies strips(m, #[trigger] s.drop_last()[k]) by {
            assert(s.drop_last()[k] == s[k]);
        }
        lemma_trim_back(s.drop_last(), m, j);
        assert(s.drop_last().subrange(0, j) =~= s.subrange(0, j));
    } else {
        assert(s.subrange(0, j) =~= s);
    }
}

/// The characters of `cs` between `from` and `to`.
fn slice_chars(cs: &Vec<char>, from: usize, to: usize) -> (r: Vec<char>)
    requires
        from <= to <= cs@.len(),
    ensures
        r@ == cs@.subrange(from as int, to as int),
{
    let mut out: Vec<char> = Vec::new();
    let mut i: usize = from;
    while i < to
        invariant
            from <= i <= to,
            to <= cs@.len(),
            out@ == cs@.subrange(from as int, i as int),
        decreases to - i,
    {
        out.push(cs[i]);
        i = i + 1;
        assert(out@ =~= cs@.subrange(from as int, i as int));
    }
    out
}

/// `cs` without the removable characters at either end.
pub fn trim_chars(cs: &Vec<char>, m: Strip) -> (r: Vec<char>)
    ensures
        r@ == trim_spec(cs@, m),
{
    let mut i: usize = 0;
    while i < cs.len() && strips_exec(m, cs[i])
        invariant
            i <= cs@.len(),
            forall|k: int| 0 <= k < i ==> strips(m, #[trigger] cs@[k]),
        decreases cs@.len() - i,
    {
        i = i + 1;
    }
    proof {
        lemma_trim_front(cs@, m, i as int);
    }
    let mut j: usize = cs.len();
    while j > i && strips_exec(m, cs[j - 1])
        invariant
            i <= j <= cs@.len(),
            forall|k: int| j <= k < cs@.len() ==> strips(m, #[trigger] cs@[k]),
        decreases j,
    {
        j = j - 1;
    }
    proof {
        let f = cs@.subrange(i as int, cs@.len() as int);
        assert forall|k: int| j - i <= k < f.len() implies strips(m, #[trigger] f[k]) by {
            assert(f[k] == cs@[i + k]);
        }
        if j > i {
            assert(f[j - i - 1] == cs@[j - 1]);
        }
        lemma_trim_back(f, m, j - i);
        assert(f.subrange(0, j - i) =~= cs@.subrange(i as int, j as int));
    }
    slice_chars(cs, i, j)
}

/// One line of the file read as an entry: `None` for a blank line, a
/// comment, or a line without `=`; otherwise the trimmed key before the
/// first `=` and the trimmed value after it, without surrounding double
/// and then single quotes.
pub open spec fn parse_line_spec(line: Seq<char>) -> Option<(Seq<char>, Seq<char>)> {
    let t = trim_spec(line, Strip::White);
    let k = before_first(t, '=');
    if t.len() == 0 || t[0] == '#' || k.len() == t.len() {
        None
    } else {
        let raw = t.subrange(k.len() + 1int, t.len() as int);
        Some(
            (
                trim_spec(k, Strip::White),
                trim_spec(
                    trim_spec(trim_spec(raw, Strip::White), Strip::Only { c: '"' }),
                    Strip::Only { c: '\'' },
                ),
            ),
        )
    }
}

/// The position of the first `c` in `cs`, or its length.
fn index_of(cs: &Vec<char>, c: char) -> (r: usize)
    ensures
        r <= cs@.len(),
        before_first(cs@, c) == cs@.subrange(0, r as int),
        r < cs@.len() ==> cs@[r as int] == c,
{
    let mut j: usize = 0;
    while j < cs.len() && cs[j] != c
        invariant
            j <= cs@.len(),
            forall|k: int| 0 <= k < j ==> cs@[k] != c,
        decreases cs@.len() - j,
    {
        j = j + 1;
    }
    proof {
        crate::artifact::lemma_before_first_is_prefix(cs@, c, j as int);
    }
    j
}

/// Reads one line of the file.
pub fn parse_env_line(line: &str) -> (r: Option<(String, String)>)
    ensures
        r matches Some(e) ==> parse_line_spec(line@) == Some((e.0@, e.1@)),
        r is None ==> parse_line_spec(line@) is None,
{
    parse_line_chars(&chars_of(line))
}

fn parse_line_chars(line: &Vec<char>) -> (r: Option<(String, String)>)
    ensures
        r matches Some(e) ==> parse_line_spec(line@) == Some((e.0@, e.1@)),
        r is None ==> parse_line_spec(line@) is None,
{
    let t = trim_chars(line, Strip::White);
    if t.len() == 0 || t[0] == '#' {
        return None;
    }
    let idx = index_of(&t, '=');
    if idx == t.len() {
        return None;
    }
    let key = trim_chars(&slice_chars(&t, 0, idx), Strip::White);
    let raw = slice_chars(&t, idx + 1, t.len());
    let value = trim_chars(
        &trim_chars(&trim_chars(&raw, Strip::White), Strip::Only { c: '"' }),
        Strip::Only { c: '\'' },
    );
    Some((string_of(&key), string_of(&value)))
}

/// The lines of `s`, split at each line feed.
pub open spec fn split_lines(s: Seq<char>) -> Seq<Seq<char>>
    decreases s.len(),
{
    if s.len() == 0 {
        seq![Seq::empty()]
    } else {
        let prev = split_lines(s.drop_last());
        if s.last() == '\n' {
            prev.push(Seq::empty())
        } else {
            prev.update(prev.len() - 1, prev.last().push(s.last()))
        }
    }
}

/// `entries` with `key` set to `value`: replaced in place where the key is
/// already there, appended otherwise.
pub open spec fn upsert(entries: Seq<(Seq<char>, Seq<char>)>, key: Seq<char>, value: Seq<char>) -> Seq<
    (Seq<char>, Seq<char>),
> {
    if exists|i: int| 0 <= i < entries.len() && entries[i].0 == key {
        let i = choose|i: int| 0 <= i < entries.len() && entries[i].0 == key;
        entries.update(i, (key, value))
    } else {
        entries.push((key, value))
    }
}

/// The entries that a sequence of lines defines, read in order.
pub open spec fn entries_of_lines(lines: Seq<Seq<char>>) -> Seq<(Seq<char>, Seq<char>)>
    decreases lines.len(),
{
    if lines.len() == 0 {
        Seq::empty()
    } else {
        let prev = entries_of_lines(lines.drop_last());
        match parse_line_spec(lines.last()) {
            Some((k, v)) => upsert(prev, k, v),
            None => prev,
        }
    }
}

/// The entries of a whole file.
pub open spec fn env_entries_spec(content: Seq<char>) -> Seq<(Seq<char>, Seq<char>)> {
    entries_of_lines(split_lines(content))
}

/// The views of a list of entries.
pub open spec fn entry_views(v: Seq<(String, String)>) -> Seq<(Seq<char>, Seq<char>)> {
    v.map_values(|e: (String, String)| (e.0@, e.1@))
}

proof fn lemma_split_lines_nonempty(s: Seq<char>)
    ensures
        split_lines(s).len() >= 1,
    decreases s.len(),
{
    if s.len() > 0 {
        lemma_split_lines_nonempty(s.drop_last());
    }
}

/// Sets `key` to `value` in `entries`.
fn upsert_entry(entries: &mut Vec<(String, String)>, key: String, value: String)
    requires
        forall|a: int, b: int|
            0 <= a < b < old(entries)@.len() ==> old(entries)@[a].0@ != old(entries)@[b].0@,
    ensures
        entry_views(final(entries)@) == upsert(entry_views(old(entries)@), key@, value@),
        forall|a: int, b: int|
            0 <= a < b < final(entries)@.len() ==> final(entries)@[a].0@ != final(entries)@[b].0@,
{
    let ghost ev = entry_views(entries@);
    let mut i: usize = 0;
    while i < entries.len()
        invariant
            i <= entries@.len(),
            entries@ == old(entries)@,
            ev == entry_views(entries@),
            forall|a: int, b: int|
                0 <= a < b < entries@.len() ==> entries@[a].0@ != entries@[b].0@,
            forall|k: int| 0 <= k < i ==> entries@[k].0@ != key@,
        decreases entries@.len() - i,
    {
        if entries[i].0 == key {
            proof {
                assert(ev[i as int].0 == key@);
                assert forall|j: int| 0 <= j < ev.len() && ev[j].0 == key@ implies j == i by {
                    if j != i {
                        if j < i {
                            assert(entries@[j].0@ != key@);
                        } else {
                            assert(ev[j].0 == entries@[j].0@);
                            assert(entries@[i as int].0@ != entries@[j].0@);
                        }
                    }
                }
            }
            let ghost old_entries = entries@;
            entries.set(i, (key, value));
            proof {
                assert(entry_views(entries@) =~= ev.update(i as int, (key@, value@)));
                assert forall|a: int, b: int|
                    0 <= a < b < entries@.len() implies entries@[a].0@ != entries@[b].0@ by {
                    assert(entries@[a].0@ == old_entries[a].0@);
                    assert(entries@[b].0@ == old_entries[b].0@);
                }
            }
            return ;
        }
        i = i + 1;
    }
    proof {
        assert forall|j: int| 0 <= j < ev.len() implies ev[j].0 != key@ by {
            assert(entries@[j].0@ != key@);
        }
    }
    let ghost kv = key@;
    entries.push((key, value));
    proof {
        assert(entry_views(entries@) =~= ev.push((kv, value@)));
    }
}

/// Reads a whole environment file: one entry per key, in order of first
/// appearance, each with the value of its last definition.
pub fn parse_env(content: &str) -> (r: Vec<(String, String)>)
    ensures
        entry_views(r@) == env_entries_spec(content@),
{
    let cs = chars_of(content);
    let mut entries: Vec<(String, String)> = Vec::new();
    let mut line: Vec<char> = Vec::new();
    let mut i: usize = 0;
    proof {
        assert(cs@.subrange(0, 0) =~= Seq::<char>::empty());
        assert(entry_views(entries@) =~= Seq::empty());
    }
    while i < cs.len()
        invariant
            cs@ == content@,
            i <= cs@.len(),
            split_lines(cs@.subrange(0, i as int)).last() == line@,
            entry_views(entries@) == entries_of_lines(
                split_lines(cs@.subrange(0, i as int)).drop_last(),
            ),
            forall|a: int, b: int|
                0 <= a < b < entries@.len() ==> entries@[a].0@ != entries@[b].0@,
        decreases cs@.len() - i,
    {
        let c = cs[i];
        let ghost before = cs@.subrange(0, i as int);
        proof {
            assert(cs@.subrange(0, i + 1).drop_last() =~= before);
            assert(cs@.subrange(0, i + 1).last() == c);
            lemma_split_lines_nonempty(before);
        }
        if c == '\n' {
            match parse_line_chars(&line) {
                Some((k, v)) => {
                    upsert_entry(&mut entries, k, v);
                },
                None => {},
            }
            line = Vec::new();
            proof {
                let prev = split_lines(before);
                assert(prev.drop_last().push(prev.last()) =~= prev);
                assert(split_lines(cs@.subrange(0, i + 1)).drop_last() =~= prev);
                assert(line@ =~= Seq::<char>::empty());
            }
        } else {
            line.push(c);
            proof {
                let prev = split_lines(before);
                assert(split_lines(cs@.subrange(0, i + 1)).drop_last() =~= prev.drop_last());
            }
        }
        i = i + 1;
    }
    proof {
        assert(cs@.subrange(0, cs@.len() as int) =~= content@);
        lemma_split_lines_nonempty(content@);
        let all = split_lines(content@);
        assert(all.drop_last().push(all.last()) =~= all);
    }
    match parse_line_chars(&line) {
        Some((k, v)) => {
            upsert_entry(&mut entries, k, v);
        },
        None => {},
    }
    entries
}

} // verus!
