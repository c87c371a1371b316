//! The list files that stress runs draw streamers, chatters and message texts from.
//!
//! A list file holds one entry per line. Spaces, tabs and carriage returns around an
//! entry are not part of it, and lines left empty by that hold no entry.

use vstd::prelude::*;
use vstd::string::StrSliceExecFns;
use crate::models::texts;

verus! {

/// The characters that surround entries without belonging to them.
pub open spec fn is_blank(c: char) -> bool {
    c == ' ' || c == '\t' || c == '\r'
}

/// The lines of a text: the pieces between line feeds, the last one after the final
/// line feed (empty when the text ends with one).
pub open spec fn split_lines(s: Seq<char>) -> Seq<Seq<char>>
    decreases s.len(),
{
    if s.len() == 0 {
        seq![Seq::empty()]
    } else {
        let before = split_lines(s.drop_last());
        if s.last() == '\n' {
            before.push(Seq::empty())
        } else {
            before.update(before.len() - 1, before.last().push(s.last()))
        }
    }
}

/// A text without its leading blanks.
pub open spec fn trim_start(s: Seq<char>) -> Seq<char>
    decreases s.len(),
{
    if s.len() > 0 && is_blank(s[0]) {
        trim_start(s.drop_first())
    } else {
        s
    }
}

/// A text without its trailing blanks.
pub open spec fn trim_end(s: Seq<char>) -> Seq<char>
    decreases s.len(),
{
    if s.len() > 0 && is_blank(s.last()) {
        trim_end(s.drop_last())
    } else {
        s
    }
}

/// A line without the blanks around it.
pub open spec fn trimmed(s: Seq<char>) -> Seq<char> {
    trim_end(trim_start(s))
}

/// The entries of a sequence of lines: each line trimmed, the empty ones left out.
pub open spec fn line_entries(lines: Seq<Seq<char>>) -> Seq<Seq<char>>
    decreases lines.len(),
{
    if lines.len() == 0 {
        Seq::empty()
    } else {
        let before = line_entries(lines.drop_last());
        if trimmed(lines.last()).len() > 0 {
            before.push(trimmed(lines.last()))
        } else {
            before
        }
    }
}

/// The entries of a list file.
pub open spec fn list_entries(text: Seq<char>) -> Seq<Seq<char>> {
    line_entries(split_lines(text))
}

/// Dropping `k` leading blanks, up to a character that is no blank or the end, is
/// dropping all leading blanks.
proof fn trim_start_skips(s: Seq<char>, k: int)
    requires
        0 <= k <= s.len(),
        forall|j: int| 0 <= j < k ==> is_blank(#[trigger] s[j]),
        k == s.len() || !is_blank(s[k]),
    ensures
        trim_start(s) == s.skip(k),
    decreases k,
{
    if k == 0 {
        assert(s.skip(0) =~= s);
    } else {
        let rest = s.drop_first();
        assert forall|j: int| 0 <= j < k - 1 implies is_blank(#[trigger] rest[j]) by {
            assert(rest[j] == s[j + 1]);
        }
        trim_start_skips(rest, k - 1);
        assert(rest.skip(k - 1) =~= s.skip(k));
    }
}

/// Keeping the first `m` characters, where all after them are blanks and the last kept
/// one is none, is dropping all trailing blanks.
proof fn trim_end_takes(s: Seq<char>, m: int)
    requires
        0 <= m <= s.len(),
        forall|j: int| m <= j < s.len() ==> is_blank(#[trigger] s[j]),
        m == 0 || !is_blank(s[m - 1]),
    ensures
        trim_end(s) == s.take(m),
    decreases s.len() - m,
{
    if m == s.len() {
        assert(s.take(m) =~= s);
    } else {
        let rest = s.drop_last();
        assert forall|j: int| m <= j < rest.len() implies is_blank(#[trigger] rest[j]) by {
            assert(rest[j] == s[j]);
        }
        assert(is_blank(s[s.len() - 1]));
        trim_end_takes(rest, m);
        assert(rest.take(m) =~= s.take(m));
    }
}

/// True of a text made of blanks only (the empty text among them).
pub open spec fn all_blank(s: Seq<char>) -> bool {
    forall|i: int| 0 <= i < s.len() ==> is_blank(#[trigger] s[i])
}

/// Dropping leading blanks leaves nothing exactly from a text of blanks, and otherwise
/// leaves a text that starts with a character that is no blank.
proof fn trim_start_empties_blanks(s: Seq<char>)
    ensures
        trim_start(s).len() == 0 <==> all_blank(s),
        trim_start(s).len() > 0 ==> !is_blank(trim_start(s)[0]),
    decreases s.len(),
{
    if s.len() > 0 && is_blank(s[0]) {
        let rest = s.drop_first();
        trim_start_empties_blanks(rest);
        if all_blank(rest) {
            assert forall|i: int| 0 <= i < s.len() implies is_blank(#[trigger] s[i]) by {
                if i > 0 {
                    assert(s[i] == rest[i - 1]);
                }
            }
        }
        if all_blank(s) {
            assert forall|i: int| 0 <= i < rest.len() implies is_blank(#[trigger] rest[i]) by {
                assert(rest[i] == s[i + 1]);
            }
        }
    }
}

/// Dropping trailing blanks leaves nothing exactly from a text of blanks.
proof fn trim_end_empties_blanks(s: Seq<char>)
    ensures
        trim_end(s).len() == 0 <==> all_blank(s),
    decreases s.len(),
{
    if s.len() > 0 && is_blank(s.last()) {
        let rest = s.drop_last();
        trim_end_empties_blanks(rest);
        if all_blank(rest) {
            assert forall|i: int| 0 <= i < s.len() implies is_blank(#[trigger] s[i]) by {
                if i < s.len() - 1 {
                    assert(s[i] == rest[i]);
                }
            }
        }
        if all_blank(s) {
            assert forall|i: int| 0 <= i < rest.len() implies is_blank(#[trigger] rest[i]) by {
                assert(rest[i] == s[i]);
            }
        }
    }
}

/// Trimming a line leaves nothing exactly when the line is made of blanks only, and
/// leaves a line that neither starts nor ends with a blank untouched, however short.
pub proof fn trimming_drops_only_blanks(line: Seq<char>)
    ensures
        trimmed(line).len() == 0 <==> all_blank(line),
        line.len() > 0 && !is_blank(line[0]) && !is_blank(line.last()) ==> trimmed(line) == line,
{
    trim_start_empties_blanks(line);
    let t = trim_start(line);
    trim_end_empties_blanks(t);
    if t.len() > 0 {
        assert(!all_blank(t)) by {
            assert(!is_blank(t[0]));
        }
    }
}

/// A text without line feeds is a single line.
proof fn one_line_without_line_feeds(s: Seq<char>)
    requires
        forall|i: int| 0 <= i < s.len() ==> #[trigger] s[i] != '\n',
    ensures
        split_lines(s) == seq![s],
    decreases s.len(),
{
    if s.len() == 0 {
        assert(s =~= Seq::<char>::empty());
    } else {
        let rest = s.drop_last();
        assert forall|i: int| 0 <= i < rest.len() implies #[trigger] rest[i] != '\n' by {
            assert(rest[i] == s[i]);
        }
        one_line_without_line_feeds(rest);
        assert(s.last() != '\n');
        assert(rest.push(s.last()) =~= s);
        assert(seq![rest].update(0, rest.push(s.last())) =~= seq![s]);
    }
}

/// The lines of two texts joined by a line feed are the lines of the first followed by
/// the lines of the second.
pub proof fn line_feed_separates_lines(a: Seq<char>, b: Seq<char>)
    ensures
        split_lines(a + seq!['\n'] + b) == split_lines(a) + split_lines(b),
    decreases b.len(),
{
    let s = a + seq!['\n'] + b;
    if b.len() == 0 {
        assert(s.drop_last() =~= a);
        assert(s.last() == '\n');
        assert(split_lines(a).push(Seq::empty()) =~= split_lines(a) + seq![Seq::<char>::empty()]);
    } else {
        line_feed_separates_lines(a, b.drop_last());
        assert(s.drop_last() =~= a + seq!['\n'] + b.drop_last());
        assert(s.last() == b.last());
        let x = split_lines(a);
        let y = split_lines(b.drop_last());
        assert(y.len() > 0) by {
            reveal_with_fuel(split_lines, 2);
            if b.drop_last().len() > 0 {
                split_lines_nonempty(b.drop_last());
            }
        }
        let p = x + y;
        if b.last() == '\n' {
            assert(p.push(Seq::empty()) =~= x + y.push(Seq::empty()));
        } else {
            assert(p.update(p.len() - 1, p.last().push(b.last())) =~= x + y.update(
                y.len() - 1,
                y.last().push(b.last()),
            ));
        }
    }
}

/// Every text has at least one line.
proof fn split_lines_nonempty(s: Seq<char>)
    ensures
        split_lines(s).len() > 0,
    decreases s.len(),
{
    if s.len() > 0 {
        split_lines_nonempty(s.drop_last());
    }
}

/// The entries of two runs of lines are the entries of the first run followed by those
/// of the second.
proof fn entries_of_joined_lines(x: Seq<Seq<char>>, y: Seq<Seq<char>>)
    ensures
        line_entries(x + y) == line_entries(x) + line_entries(y),
    decreases y.len(),
{
    if y.len() == 0 {
        assert(x + y =~= x);
        assert(line_entries(x) + Seq::<Seq<char>>::empty() =~= line_entries(x));
    } else {
        entries_of_joined_lines(x, y.drop_last());
        assert((x + y).drop_last() =~= x + y.drop_last());
        assert((x + y).last() == y.last());
        let ex = line_entries(x);
        let ey = line_entries(y.drop_last());
        assert((ex + ey).push(trimmed(y.last())) =~= ex + ey.push(trimmed(y.last())));
    }
}

/// The entries of a list file: a line feed splits the text, and each piece gives its
/// own entries in order; a line without line feeds gives itself when it neither starts
/// nor ends with a blank, nothing when it is made of blanks, and otherwise itself
/// without the blanks around it. Every line that holds anything but blanks gives an
/// entry, however short.
pub proof fn list_entries_are_the_lines(a: Seq<char>, b: Seq<char>, line: Seq<char>)
    ensures
        list_entries(a + seq!['\n'] + b) == list_entries(a) + list_entries(b),
        (forall|i: int| 0 <= i < line.len() ==> #[trigger] line[i] != '\n') ==> list_entries(line)
            == if all_blank(line) {
            Seq::<Seq<char>>::empty()
        } else {
            seq![trimmed(line)]
        },
        (forall|i: int| 0 <= i < line.len() ==> #[trigger] line[i] != '\n') && line.len() > 0
            && !is_blank(line[0]) && !is_blank(line.last()) ==> list_entries(line) == seq![line],
{
    line_feed_separates_lines(a, b);
    entries_of_joined_lines(split_lines(a), split_lines(b));
    trimming_drops_only_blanks(line);
    if forall|i: int| 0 <= i < line.len() ==> #[trigger] line[i] != '\n' {
        one_line_without_line_feeds(line);
        let one = seq![line];
        assert(one.drop_last() =~= Seq::<Seq<char>>::empty());
        assert(line_entries(Seq::<Seq<char>>::empty()) == Seq::<Seq<char>>::empty());
        assert(Seq::<Seq<char>>::empty().push(trimmed(line)) =~= seq![trimmed(line)]);
    }
}

/// Appends the entry of the line `text[from..to]`, if it has one.
fn push_entry(res: &mut Vec<String>, text: &str, from: usize, to: usize)
    requires
        from <= to <= text@.len(),
    ensures
        texts(final(res)@) == if trimmed(text@.subrange(from as int, to as int)).len() > 0 {
            texts(old(res)@).push(trimmed(text@.subrange(from as int, to as int)))
        } else {
            texts(old(res)@)
        },
{
    let ghost line = text@.subrange(from as int, to as int);
    let mut a: usize = from;
    while a < to && is_blank_char(text.get_char(a))
        invariant
            from <= a <= to <= text@.len(),
            forall|j: int| from <= j < a ==> is_blank(#[trigger] text@[j]),
        decreases to - a,
    {
        a = a + 1;
    }
    let mut b: usize = to;
    while b > a && is_blank_char(text.get_char(b - 1))
        invariant
            from <= a <= b <= to <= text@.len(),
            forall|j: int| b <= j < to ==> is_blank(#[trigger] text@[j]),
        decreases b - a,
    {
        b = b - 1;
    }
    proof {
        assert forall|j: int| 0 <= j < a - from implies is_blank(#[trigger] line[j]) by {
            assert(line[j] == text@[from + j]);
        }
        if a < to {
            assert(line[a - from] == text@[a as int]);
        }
        trim_start_skips(line, a - from);
        let rest = line.skip(a - from);
        assert(rest =~= text@.subrange(a as int, to as int));
        assert forall|j: int| b - a <= j < rest.len() implies is_blank(#[trigger] rest[j]) by {
            assert(rest[j] == text@[a + j]);
        }
        if b > a {
            assert(rest[b - a - 1] == text@[b - 1]);
        } else if a < to {
            assert(!is_blank(text@[a as int]));
            assert(is_blank(text@[a as int]));
        }
        trim_end_takes(rest, b - a);
        assert(rest.take(b - a) =~= text@.subrange(a as int, b as int));
    }
    if a < b {
        let ghost before = res@;
        let entry = text.substring_char(a, b).to_owned();
        res.push(entry);
        assert(texts(res@) =~= texts(before).push(text@.subrange(a as int, b as int)));
    }
}

/// Whether a character is one of the blanks around entries.
fn is_blank_char(c: char) -> (res: bool)
    ensures
        res == is_blank(c),
{
    c == ' ' || c == '\t' || c == '\r'
}

/// The entries of a list file, in order: one per line, without the spaces, tabs and
/// carriage returns around it, lines left empty skipped.
pub fn payload_entries(text: &str) -> (res: Vec<String>)
    ensures
        texts(res@) == list_entries(text@),
{
    let n = text.unicode_len();
    let mut res: Vec<String> = Vec::new();
    let mut start: usize = 0;
    let mut i: usize = 0;
    let ghost mut done: Seq<Seq<char>> = Seq::empty();
    assert(text@.take(0) =~= Seq::<char>::empty());
    assert(text@.subrange(0, 0) =~= Seq::<char>::empty());
    while i < n
        invariant
            n == text@.len(),
            start <= i <= n,
            split_lines(text@.take(i as int)) == done.push(text@.subrange(start as int, i as int)),
            texts(res@) == line_entries(done),
        decreases n - i,
    {
        let c = text.get_char(i);
        let ghost prefix = text@.take(i as int);
        assert(text@.take(i + 1).drop_last() =~= prefix);
        assert(text@.take(i + 1).last() == c);
        if c == '\n' {
            push_entry(&mut res, text, start, i);
            proof {
                let line = text@.subrange(start as int, i as int);
                assert(done.push(line).drop_last() =~= done);
                done = done.push(line);
                assert(text@.subrange(i + 1, i + 1) =~= Seq::<char>::empty());
            }
            start = i + 1;
        } else {
            proof {
                let p = done.push(text@.subrange(start as int, i as int));
                assert(text@.subrange(start as int, i as int).push(c) =~= text@.subrange(
                    start as int,
                    i + 1,
                ));
                assert(p.update(p.len() - 1, p.last().push(c)) =~= done.push(
                    text@.subrange(start as int, i + 1),
                ));
            }
        }
        i = i + 1;
    }
    push_entry(&mut res, text, start, n);
    proof {
        let last = text@.subrange(start as int, n as int);
        assert(text@.take(n as int) =~= text@);
        assert(done.push(last).drop_last() =~= done);
    }
    res
}

} // verus!
