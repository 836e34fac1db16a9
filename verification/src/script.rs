//! Setup scripts: plain text that holds statements separated by `;`.

use vstd::prelude::*;
use vstd::string::*;
use crate::text::{is_space, is_whitespace, text_of, texts};

verus! {

/// The character that separates the statements of a script.
pub open spec fn separator() -> char {
    ';'
}

/// The segments of `text` between its separators, in order. A text without a
/// separator is one segment; two separators in a row enclose an empty one.
pub open spec fn segments(text: Seq<char>) -> Seq<Seq<char>>
    decreases text.len(),
{
    if text.len() == 0 {
        seq![Seq::<char>::empty()]
    } else {
        let before = segments(text.drop_last());
        if text.last() == separator() {
            before.push(Seq::<char>::empty())
        } else {
            before.update(before.len() - 1, before.last().push(text.last()))
        }
    }
}

/// `parts` written one after the other with a separator between neighbours.
pub open spec fn joined(parts: Seq<Seq<char>>) -> Seq<char>
    decreases parts.len(),
{
    if parts.len() == 0 {
        Seq::<char>::empty()
    } else if parts.len() == 1 {
        parts[0]
    } else {
        joined(parts.drop_last()) + seq![separator()] + parts.last()
    }
}

/// Whether `s` holds nothing but white space.
pub open spec fn is_blank(s: Seq<char>) -> bool {
    forall|i: int| 0 <= i < s.len() ==> is_space(#[trigger] s[i])
}

/// The number of white-space characters `s` begins with.
pub open spec fn leading_spaces(s: Seq<char>) -> nat
    decreases s.len(),
{
    if s.len() > 0 && is_space(s[0]) {
        1 + leading_spaces(s.drop_first())
    } else {
        0
    }
}

/// The number of white-space characters `s` ends with.
pub open spec fn trailing_spaces(s: Seq<char>) -> nat
    decreases s.len(),
{
    if s.len() > 0 && is_space(s.last()) {
        1 + trailing_spaces(s.drop_last())
    } else {
        0
    }
}

/// `s` without the white space at its two ends.
pub open spec fn trimmed(s: Seq<char>) -> Seq<char> {
    if is_blank(s) {
        Seq::<char>::empty()
    } else {
        s.subrange(leading_spaces(s) as int, s.len() - trailing_spaces(s))
    }
}

/// The segments of `parts` that are not blank, in order; each one trimmed if
/// `trim` is set and as it stands otherwise.
pub open spec fn kept(parts: Seq<Seq<char>>, trim: bool) -> Seq<Seq<char>>
    decreases parts.len(),
{
    if parts.len() == 0 {
        Seq::<Seq<char>>::empty()
    } else {
        let before = kept(parts.drop_last(), trim);
        let part = parts.last();
        if is_blank(part) {
            before
        } else if trim {
            before.push(trimmed(part))
        } else {
            before.push(part)
        }
    }
}

/// The statements of a script: its segments that are not blank, trimmed.
pub open spec fn statements(text: Seq<char>) -> Seq<Seq<char>> {
    kept(segments(text), true)
}

/// The segments of a script that are not blank, white space included.
pub open spec fn raw_statements(text: Seq<char>) -> Seq<Seq<char>> {
    kept(segments(text), false)
}

/// `leading_spaces(s)` is the index of the first character of `s` that is
/// not white space, or the length of `s` if there is none.
pub proof fn lemma_leading_spaces(s: Seq<char>, n: int)
    requires
        0 <= n <= s.len(),
        forall|i: int| 0 <= i < n ==> is_space(#[trigger] s[i]),
        n < s.len() ==> !is_space(s[n]),
    ensures
        leading_spaces(s) == n,
    decreases s.len(),
{
    if n > 0 {
        let rest = s.drop_first();
        assert forall|i: int| 0 <= i < n - 1 implies is_space(#[trigger] rest[i]) by {
            assert(rest[i] == s[i + 1]);
        }
        lemma_leading_spaces(rest, n - 1);
    }
}

/// `trailing_spaces(s)` counts the characters after the last one that is not
/// white space.
pub proof fn lemma_trailing_spaces(s: Seq<char>, n: int)
    requires
        0 <= n <= s.len(),
        forall|i: int| s.len() - n <= i < s.len() ==> is_space(#[trigger] s[i]),
        n < s.len() ==> !is_space(s[s.len() - n - 1]),
    ensures
        trailing_spaces(s) == n,
    decreases s.len(),
{
    if n > 0 {
        let rest = s.drop_last();
        assert forall|i: int| rest.len() - (n - 1) <= i < rest.len() implies is_space(
            #[trigger] rest[i],
        ) by {
            assert(rest[i] == s[i]);
        }
        lemma_trailing_spaces(rest, n - 1);
    }
}

/// Whether no part holds a separator.
pub open spec fn separator_free(parts: Seq<Seq<char>>) -> bool {
    forall|k: int, i: int|
        0 <= k < parts.len() && 0 <= i < parts[k].len() ==> #[trigger] parts[k][i] != separator()
}

/// Splitting can be undone: the segments of a text, joined, spell the text
/// again, and no segment holds a separator.
pub proof fn lemma_segments_rejoin(text: Seq<char>)
    ensures
        segments(text).len() >= 1,
        joined(segments(text)) == text,
        separator_free(segments(text)),
    decreases text.len(),
{
    if text.len() == 0 {
        assert(joined(segments(text)) =~= text);
    } else {
        let shorter = text.drop_last();
        lemma_segments_rejoin(shorter);
        let before = segments(shorter);
        let c = text.last();
        if c == separator() {
            let now = before.push(Seq::<char>::empty());
            assert(now.drop_last() =~= before);
            assert(joined(now) =~= joined(before) + seq![separator()] + now.last());
            assert(joined(now) =~= text);
        } else {
            let now = before.update(before.len() - 1, before.last().push(c));
            if before.len() == 1 {
                assert(joined(now) =~= text);
            } else {
                assert(now.drop_last() =~= before.drop_last());
                assert(joined(before) == joined(before.drop_last()) + seq![separator()]
                    + before.last());
                assert(joined(now) == joined(now.drop_last()) + seq![separator()] + now.last());
                assert(text =~= shorter.push(c));
                assert(joined(now) =~= text);
            }
        }
    }
}

/// Splitting is the only way to undo joining: parts that hold no separator
/// are the segments of what they spell when joined. So the segments of a
/// text are the one way to cut it at every separator and nowhere else.
pub proof fn lemma_segments_unique(parts: Seq<Seq<char>>)
    requires
        parts.len() >= 1,
        separator_free(parts),
    ensures
        segments(joined(parts)) == parts,
    decreases joined(parts).len(),
{
    let text = joined(parts);
    let n = parts.len() as int;
    let last = parts[n - 1];
    if last.len() > 0 {
        let c = last.last();
        let shorter = parts.update(n - 1, last.drop_last());
        assert(last =~= last.drop_last().push(c));
        assert(c != separator()) by {
            assert(parts[n - 1][last.len() - 1] != separator());
        }
        assert(separator_free(shorter)) by {
            assert forall|k: int, i: int|
                0 <= k < shorter.len() && 0 <= i < shorter[k].len() implies #[trigger] shorter[k][i]
                != separator() by {
                assert(parts[k][i] != separator());
            }
        }
        if n > 1 {
            assert(shorter.drop_last() =~= parts.drop_last());
        }
        assert(text =~= joined(shorter).push(c));
        lemma_segments_unique(shorter);
        assert(text.drop_last() =~= joined(shorter));
        assert(segments(text) =~= parts);
    } else if n == 1 {
        assert(text =~= Seq::<char>::empty());
        assert(segments(text) =~= parts);
    } else {
        let shorter = parts.drop_last();
        assert(separator_free(shorter)) by {
            assert forall|k: int, i: int|
                0 <= k < shorter.len() && 0 <= i < shorter[k].len() implies #[trigger] shorter[k][i]
                != separator() by {
                assert(parts[k][i] != separator());
            }
        }
        assert(last =~= Seq::<char>::empty());
        assert(text =~= joined(shorter).push(separator()));
        lemma_segments_unique(shorter);
        assert(text.drop_last() =~= joined(shorter));
        assert(text.last() == separator());
        assert(shorter.push(last) =~= parts);
        assert(segments(text) =~= parts);
    }
}

/// What trimming leaves of a text that is not blank: a part of the text
/// that is not empty and neither begins nor ends with white space, with
/// nothing but white space before and after it.
pub proof fn lemma_trimmed(s: Seq<char>)
    requires
        !is_blank(s),
    ensures
        trimmed(s).len() >= 1,
        !is_space(trimmed(s).first()),
        !is_space(trimmed(s).last()),
        leading_spaces(s) + trimmed(s).len() + trailing_spaces(s) == s.len(),
        is_blank(s.subrange(0, leading_spaces(s) as int)),
        is_blank(s.subrange(s.len() - trailing_spaces(s), s.len() as int)),
        trimmed(s) == s.subrange(leading_spaces(s) as int, s.len() - trailing_spaces(s)),
{
    let first = choose|i: int|
        0 <= i < s.len() && !is_space(#[trigger] s[i]) && forall|j: int|
            0 <= j < i ==> is_space(#[trigger] s[j]);
    lemma_first_mark(s, s.len() as int);
    lemma_leading_spaces(s, first);
    let last = choose|i: int|
        0 <= i < s.len() && !is_space(#[trigger] s[i]) && forall|j: int|
            i < j < s.len() ==> is_space(#[trigger] s[j]);
    lemma_last_mark(s, 0);
    lemma_trailing_spaces(s, s.len() - 1 - last);
    assert(first <= last);
}

/// Among the first `n` characters of a text, if one is not white space,
/// there is a first such one.
proof fn lemma_first_mark(s: Seq<char>, n: int)
    requires
        0 <= n <= s.len(),
    ensures
        (exists|i: int| 0 <= i < n && !is_space(#[trigger] s[i])) ==> exists|i: int|
            0 <= i < n && !is_space(#[trigger] s[i]) && forall|j: int|
                0 <= j < i ==> is_space(#[trigger] s[j]),
    decreases n,
{
    if n > 0 {
        lemma_first_mark(s, n - 1);
        if exists|i: int| 0 <= i < n - 1 && !is_space(#[trigger] s[i]) {
        } else if !is_space(s[n - 1]) {
            assert(forall|j: int| 0 <= j < n - 1 ==> is_space(#[trigger] s[j]));
        }
    }
}

/// From place `n` on, if a character of a text is not white space, there
/// is a last such one.
proof fn lemma_last_mark(s: Seq<char>, n: int)
    requires
        0 <= n <= s.len(),
    ensures
        (exists|i: int| n <= i < s.len() && !is_space(#[trigger] s[i])) ==> exists|i: int|
            n <= i < s.len() && !is_space(#[trigger] s[i]) && forall|j: int|
                i < j < s.len() ==> is_space(#[trigger] s[j]),
    decreases s.len() - n,
{
    if n < s.len() {
        lemma_last_mark(s, n + 1);
        if exists|i: int| n + 1 <= i < s.len() && !is_space(#[trigger] s[i]) {
        } else if !is_space(s[n]) {
            assert(forall|j: int| n < j < s.len() ==> is_space(#[trigger] s[j]));
        }
    }
}

/// What is kept of the segments of a script: as many statements as there
/// are segments that are not blank, and none of them blank. Trimmed
/// statements neither begin nor end with white space.
pub proof fn lemma_kept(parts: Seq<Seq<char>>, trim: bool)
    ensures
        kept(parts, trim).len() <= parts.len(),
        forall|k: int| 0 <= k < kept(parts, trim).len() ==> !is_blank(#[trigger] kept(parts, trim)[k]),
        trim ==> forall|k: int|
            0 <= k < kept(parts, trim).len() ==> !is_space((#[trigger] kept(parts, trim)[k]).first())
                && !is_space(kept(parts, trim)[k].last()),
        (forall|i: int| 0 <= i < parts.len() ==> is_blank(#[trigger] parts[i])) <==> kept(
            parts,
            trim,
        ).len() == 0,
    decreases parts.len(),
{
    if parts.len() > 0 {
        let shorter = parts.drop_last();
        let part = parts.last();
        lemma_kept(shorter, trim);
        if !is_blank(part) {
            lemma_trimmed(part);
            let t = trimmed(part);
            assert(!is_blank(t)) by {
                assert(!is_space(t[0]));
            }
        }
        if forall|i: int| 0 <= i < parts.len() ==> is_blank(#[trigger] parts[i]) {
            assert forall|i: int| 0 <= i < shorter.len() implies is_blank(#[trigger] shorter[i]) by {
                assert(shorter[i] == parts[i]);
            }
            assert(is_blank(parts[parts.len() - 1]));
        }
        if kept(parts, trim).len() == 0 {
            assert forall|i: int| 0 <= i < parts.len() implies is_blank(#[trigger] parts[i]) by {
                if i < shorter.len() {
                    assert(shorter[i] == parts[i]);
                }
            }
        }
    }
}

/// Finishes one segment: appends it to `out` unless it is blank.
fn keep_segment(out: &mut Vec<String>, segment: &Vec<char>, trim: bool)
    ensures
        texts(final(out)@) == texts(old(out)@) + kept(seq![segment@], trim),
{
    let n = segment.len();
    let mut start: usize = 0;
    while start < n && is_whitespace(segment[start])
        invariant
            start <= n == segment.len(),
            forall|i: int| 0 <= i < start ==> is_space(#[trigger] segment@[i]),
        decreases n - start,
    {
        start = start + 1;
    }
    proof {
        assert(seq![segment@].drop_last() =~= Seq::<Seq<char>>::empty());
        assert(seq![segment@].last() == segment@);
        assert(kept(Seq::<Seq<char>>::empty(), trim) =~= Seq::<Seq<char>>::empty());
        lemma_leading_spaces(segment@, start as int);
    }
    if start == n {
        assert(is_blank(segment@));
        assert(texts(out@) =~= texts(old(out)@) + kept(seq![segment@], trim));
        return ;
    }
    let mut end: usize = n;
    while end > start + 1 && is_whitespace(segment[end - 1])
        invariant
            start < end <= n == segment.len(),
            !is_space(segment@[start as int]),
            forall|i: int| end <= i < n ==> is_space(#[trigger] segment@[i]),
        decreases end,
    {
        end = end - 1;
    }
    proof {
        assert(!is_space(segment@[end - 1]));
        lemma_trailing_spaces(segment@, n - end);
        assert(!is_blank(segment@));
    }
    let statement = if trim {
        text_of(segment, start, end)
    } else {
        text_of(segment, 0, n)
    };
    proof {
        assert(segment@.subrange(0, n as int) =~= segment@);
    }
    out.push(statement);
    assert(texts(out@) =~= texts(old(out)@) + kept(seq![segment@], trim));
}

/// Splits `script` at its separators and keeps the segments that are not
/// blank, in order.
fn split(script: &str, trim: bool) -> (out: Vec<String>)
    ensures
        texts(out@) == kept(segments(script@), trim),
{
    broadcast use group_string_axioms;

    let mut out: Vec<String> = Vec::new();
    let mut current: Vec<char> = Vec::new();
    let ghost mut done: Seq<Seq<char>> = Seq::empty();
    proof {
        assert(script@.subrange(0, 0) =~= Seq::<char>::empty());
        assert(segments(Seq::<char>::empty()) =~= done.push(current@));
        assert(texts(out@) =~= kept(done, trim));
    }
    for c in it: script.chars()
        invariant
            it.seq() == script@,
            segments(script@.subrange(0, it.index() as int)) == done.push(current@),
            texts(out@) == kept(done, trim),
    {
        let ghost seen = script@.subrange(0, it.index() as int);
        let ghost next = script@.subrange(0, it.index() + 1);
        proof {
            assert(next.drop_last() =~= seen);
            assert(next.last() == c);
        }
        if c == ';' {
            keep_segment(&mut out, &current, trim);
            proof {
                let finished = done.push(current@);
                assert(finished.drop_last() =~= done);
                assert(kept(seq![current@], trim) =~= kept(finished, trim).skip(
                    kept(done, trim).len() as int,
                )) by {
                    assert(seq![current@].drop_last() =~= Seq::<Seq<char>>::empty());
                    assert(kept(Seq::<Seq<char>>::empty(), trim) =~= Seq::<Seq<char>>::empty());
                }
                assert(texts(out@) =~= kept(finished, trim));
                done = finished;
            }
            current = Vec::new();
            assert(segments(next) =~= done.push(current@));
        } else {
            current.push(c);
            assert(segments(next) =~= done.push(current@));
        }
    }
    proof {
        assert(script@.subrange(0, script@.len() as int) =~= script@);
    }
    keep_segment(&mut out, &current, trim);
    proof {
        let finished = done.push(current@);
        assert(finished.drop_last() =~= done);
        assert(kept(seq![current@], trim) =~= kept(finished, trim).skip(
            kept(done, trim).len() as int,
        )) by {
            assert(seq![current@].drop_last() =~= Seq::<Seq<char>>::empty());
            assert(kept(Seq::<Seq<char>>::empty(), trim) =~= Seq::<Seq<char>>::empty());
        }
        assert(texts(out@) =~= kept(finished, trim));
    }
    out
}

/// The statements of `script`, in order: its text is cut at every `;`, each
/// piece is trimmed, and pieces that hold only white space are left out.
pub fn split_statements(script: &str) -> (out: Vec<String>)
    ensures
        texts(out@) == statements(script@),
{
    split(script, true)
}

/// The pieces of `script` between its `;` that hold more than white space,
/// in order and as they stand in the script.
pub fn split_raw_statements(script: &str) -> (out: Vec<String>)
    ensures
        texts(out@) == raw_statements(script@),
{
    split(script, false)
}

} // verus!
