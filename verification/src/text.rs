//! Text of the command line: comparing, trimming and splitting strings.
use vstd::prelude::*;

verus! {

/// Whether two strings hold the same characters.
pub fn str_eq(a: &str, b: &str) -> (equal: bool)
    ensures
        equal == (a@ == b@),
{
    let n: usize = a.unicode_len();
    if n != b.unicode_len() {
        return false;
    }
    let mut i: usize = 0;
    while i < n
        invariant
            i <= n,
            n == a@.len(),
            n == b@.len(),
            forall|j: int| 0 <= j < i ==> a@[j] == b@[j],
        decreases n - i,
    {
        if a.get_char(i) != b.get_char(i) {
            return false;
        }
        i = i + 1;
    }
    assert(a@ =~= b@);
    true
}

/// Characters with the Unicode property White_Space.
pub open spec fn is_white_space(c: char) -> bool {
    ||| '\u{9}' <= c <= '\u{d}'
    ||| c == ' '
    ||| c == '\u{85}'
    ||| c == '\u{a0}'
    ||| c == '\u{1680}'
    ||| '\u{2000}' <= c <= '\u{200a}'
    ||| c == '\u{2028}'
    ||| c == '\u{2029}'
    ||| c == '\u{202f}'
    ||| c == '\u{205f}'
    ||| c == '\u{3000}'
}

/// Whether a character has the Unicode property White_Space.
pub fn char_is_white_space(c: char) -> (white: bool)
    ensures
        white == is_white_space(c),
{
    ('\u{9}' <= c && c <= '\u{d}') || c == ' ' || c == '\u{85}' || c == '\u{a0}' || c == '\u{1680}'
        || ('\u{2000}' <= c && c <= '\u{200a}') || c == '\u{2028}' || c == '\u{2029}' || c
        == '\u{202f}' || c == '\u{205f}' || c == '\u{3000}'
}

/// `s` without the white space it starts and ends with.
pub open spec fn trimmed(s: Seq<char>) -> Seq<char>
    decreases s.len(),
{
    if s.len() == 0 {
        s
    } else if is_white_space(s.first()) {
        trimmed(s.drop_first())
    } else if is_white_space(s.last()) {
        trimmed(s.drop_last())
    } else {
        s
    }
}

/// `s` without the white space it starts and ends with.
pub fn trim(s: &str) -> (t: &str)
    ensures
        t@ == trimmed(s@),
{
    let mut from: usize = 0;
    let mut to: usize = s.unicode_len();
    assert(s@.subrange(0, to as int) =~= s@);
    while from < to && char_is_white_space(s.get_char(from))
        invariant
            from <= to,
            to == s@.len(),
            trimmed(s@.subrange(from as int, to as int)) == trimmed(s@),
        decreases to - from,
    {
        assert(s@.subrange(from as int, to as int).drop_first() =~= s@.subrange(
            from + 1,
            to as int,
        ));
        from = from + 1;
    }
    while from < to && char_is_white_space(s.get_char((to - 1) as usize))
        invariant
            from <= to <= s@.len(),
            from < to ==> !is_white_space(s@[from as int]),
            trimmed(s@.subrange(from as int, to as int)) == trimmed(s@),
        decreases to - from,
    {
        assert(s@.subrange(from as int, to as int).drop_last() =~= s@.subrange(
            from as int,
            to - 1,
        ));
        to = to - 1;
    }
    s.substring_char(from, to)
}

/// The pieces of `s` between the separators: one more than there are separators.
pub open spec fn split_on(s: Seq<char>, sep: char) -> Seq<Seq<char>>
    decreases s.len(),
{
    if s.len() == 0 {
        seq![s]
    } else {
        let pieces = split_on(s.drop_last(), sep);
        if s.last() == sep {
            pieces.push(Seq::empty())
        } else {
            pieces.drop_last().push(pieces.last().push(s.last()))
        }
    }
}

/// The characters of each string.
pub open spec fn views(v: Seq<String>) -> Seq<Seq<char>> {
    v.map_values(|s: String| s@)
}

proof fn lemma_split_nonempty(s: Seq<char>, sep: char)
    ensures
        split_on(s, sep).len() > 0,
    decreases s.len(),
{
    if s.len() > 0 {
        lemma_split_nonempty(s.drop_last(), sep);
    }
}

/// The pieces of `s` between the separators.
pub fn split(s: &str, sep: char) -> (pieces: Vec<String>)
    ensures
        views(pieces@) == split_on(s@, sep),
{
    let n: usize = s.unicode_len();
    let mut pieces: Vec<String> = Vec::new();
    let mut from: usize = 0;
    let mut i: usize = 0;
    assert(split_on(s@.take(0), sep) =~= views(pieces@).push(s@.subrange(0, 0)));
    while i < n
        invariant
            n == s@.len(),
            from <= i <= n,
            split_on(s@.take(i as int), sep) == views(pieces@).push(
                s@.subrange(from as int, i as int),
            ),
        decreases n - i,
    {
        let ghost before = pieces@;
        let ghost piece = s@.subrange(from as int, i as int);
        assert(s@.take(i + 1).drop_last() =~= s@.take(i as int));
        if s.get_char(i) == sep {
            pieces.push(s.substring_char(from, i).to_owned());
            from = i + 1;
            assert(views(pieces@) =~= views(before).push(piece));
            assert(s@.subrange(from as int, i + 1) =~= Seq::<char>::empty());
        } else {
            assert(s@.subrange(from as int, i + 1) =~= piece.push(s@[i as int]));
            assert(views(before).push(piece).drop_last() =~= views(before));
        }
        i = i + 1;
    }
    assert(s@.take(n as int) =~= s@);
    let ghost before = pieces@;
    pieces.push(s.substring_char(from, n).to_owned());
    assert(views(pieces@) =~= views(before).push(s@.subrange(from as int, n as int)));
    pieces
}

/// `pieces`, with a separator between every two.
pub open spec fn join_with(pieces: Seq<Seq<char>>, sep: char) -> Seq<char>
    decreases pieces.len(),
{
    if pieces.len() == 0 {
        Seq::empty()
    } else if pieces.len() == 1 {
        pieces[0]
    } else {
        join_with(pieces.drop_last(), sep).push(sep) + pieces.last()
    }
}

/// Splitting takes a string apart at every separator and nowhere else: the
/// pieces hold no separator and give the string back when joined.
pub proof fn law_split(s: Seq<char>, sep: char)
    ensures
        forall|k: int|
            0 <= k < split_on(s, sep).len() ==> !(#[trigger] split_on(s, sep)[k]).contains(sep),
        join_with(split_on(s, sep), sep) == s,
    decreases s.len(),
{
    if s.len() > 0 {
        let init = s.drop_last();
        let pieces = split_on(init, sep);
        let c = s.last();
        law_split(init, sep);
        lemma_split_nonempty(init, sep);
        assert(s =~= init.push(c));
        if c == sep {
            let new = pieces.push(Seq::empty());
            assert(new.drop_last() =~= pieces);
            assert(init.push(sep) + Seq::<char>::empty() =~= s);
        } else {
            let last = pieces.last().push(c);
            let new = pieces.drop_last().push(last);
            assert(new.drop_last() =~= pieces.drop_last());
            assert forall|k: int| 0 <= k < new.len() implies !(#[trigger] new[k]).contains(sep) by {
                if k < pieces.len() - 1 {
                    assert(new[k] == pieces[k]);
                } else if last.contains(sep) {
                    let j = choose|j: int| 0 <= j < last.len() && last[j] == sep;
                    assert(pieces.last()[j] == sep);
                    assert(pieces[pieces.len() - 1].contains(sep));
                }
            }
            if pieces.len() > 1 {
                let head = join_with(pieces.drop_last(), sep).push(sep);
                assert(head + last =~= (head + pieces.last()).push(c));
            }
        }
    } else {
        assert(split_on(s, sep)[0] =~= s);
    }
}

/// Whether `s` is nothing but white space.
pub open spec fn all_white_space(s: Seq<char>) -> bool {
    forall|i: int| 0 <= i < s.len() ==> is_white_space(#[trigger] s[i])
}

/// White space before and after a name does not matter.
pub proof fn law_white_space_round(before: Seq<char>, s: Seq<char>, after: Seq<char>)
    requires
        all_white_space(before),
        all_white_space(after),
    ensures
        trimmed(before + s + after) == trimmed(s),
    decreases before.len() + s.len() + after.len(),
{
    let t = before + s + after;
    if before.len() > 0 {
        assert(t.first() == before[0]);
        assert(t.drop_first() =~= before.drop_first() + s + after);
        law_white_space_round(before.drop_first(), s, after);
    } else if s.len() > 0 && is_white_space(s.first()) {
        assert(t.first() == s.first());
        assert(t.drop_first() =~= before + s.drop_first() + after);
        law_white_space_round(before, s.drop_first(), after);
    } else if s.len() == 0 {
        assert(t =~= after);
        assert(s =~= Seq::<char>::empty());
        if after.len() > 0 {
            assert(after.first() == after[0]);
            assert(after.drop_first() =~= before + s + after.drop_first());
            law_white_space_round(before, s, after.drop_first());
        }
    } else if after.len() > 0 {
        assert(t.first() == s.first());
        assert(t.last() == after[after.len() - 1]);
        assert(t.drop_last() =~= before + s + after.drop_last());
        law_white_space_round(before, s, after.drop_last());
    } else {
        assert(t =~= s);
    }
}

/// The white space characters are the tab, the line breaks and the spaces of
/// Unicode, by their codes. No letter, digit or mark is one of them.
pub proof fn law_white_space(c: char)
    ensures
        is_white_space(c) <==> {
            let code = c as u32;
            ||| 9 <= code <= 13
            ||| code == 32
            ||| code == 133
            ||| code == 160
            ||| code == 5760
            ||| 8192 <= code <= 8202
            ||| 8232 <= code <= 8233
            ||| code == 8239
            ||| code == 8287
            ||| code == 12288
        },
{
}

/// Bounds of what trimming leaves of `s`.
proof fn lemma_trim_bounds(s: Seq<char>) -> (bounds: (int, int))
    ensures
        0 <= bounds.0 <= bounds.1 <= s.len(),
        trimmed(s) == s.subrange(bounds.0, bounds.1),
        forall|i: int| 0 <= i < bounds.0 ==> is_white_space(#[trigger] s[i]),
        forall|i: int| bounds.1 <= i < s.len() ==> is_white_space(#[trigger] s[i]),
        bounds.0 < bounds.1 ==> !is_white_space(s[bounds.0]) && !is_white_space(s[bounds.1 - 1]),
    decreases s.len(),
{
    if s.len() == 0 {
        assert(s.subrange(0, 0) =~= s);
        (0, 0)
    } else if is_white_space(s.first()) {
        let rest = s.drop_first();
        let (from, to) = lemma_trim_bounds(rest);
        assert(s.subrange(from + 1, to + 1) =~= rest.subrange(from, to));
        assert forall|i: int| 0 <= i < from + 1 implies is_white_space(#[trigger] s[i]) by {
            if i > 0 {
                assert(rest[i - 1] == s[i]);
            }
        }
        assert forall|i: int| to + 1 <= i < s.len() implies is_white_space(#[trigger] s[i]) by {
            assert(rest[i - 1] == s[i]);
        }
        (from + 1, to + 1)
    } else if is_white_space(s.last()) {
        let rest = s.drop_last();
        let (from, to) = lemma_trim_bounds(rest);
        assert(s.subrange(from, to) =~= rest.subrange(from, to));
        assert forall|i: int| 0 <= i < from implies is_white_space(#[trigger] s[i]) by {
            assert(rest[i] == s[i]);
        }
        assert forall|i: int| to <= i < s.len() implies is_white_space(#[trigger] s[i]) by {
            if i < rest.len() {
                assert(rest[i] == s[i]);
            }
        }
        (from, to)
    } else {
        assert(s.subrange(0, s.len() as int) =~= s);
        (0, s.len() as int)
    }
}

/// Trimming takes white space away from both ends of a string, all of it and
/// nothing else.
pub proof fn law_trimmed(s: Seq<char>)
    ensures
        exists|from: int, to: int|
            {
                &&& 0 <= from <= to <= s.len()
                &&& trimmed(s) == #[trigger] s.subrange(from, to)
                &&& forall|i: int| 0 <= i < from ==> is_white_space(#[trigger] s[i])
                &&& forall|i: int| to <= i < s.len() ==> is_white_space(#[trigger] s[i])
            },
        trimmed(s).len() > 0 ==> !is_white_space(trimmed(s).first()) && !is_white_space(
            trimmed(s).last(),
        ),
{
    let (from, to) = lemma_trim_bounds(s);
    assert(trimmed(s) == s.subrange(from, to));
}

/// A string that neither starts nor ends with white space is left as it is.
pub proof fn law_trimmed_kept(s: Seq<char>)
    requires
        s.len() > 0,
        !is_white_space(s.first()),
        !is_white_space(s.last()),
    ensures
        trimmed(s) == s,
{
}

/// Nothing is left of a string of white space.
pub proof fn law_trimmed_away(s: Seq<char>)
    requires
        forall|i: int| 0 <= i < s.len() ==> is_white_space(#[trigger] s[i]),
    ensures
        trimmed(s) == Seq::<char>::empty(),
{
    let (from, to) = lemma_trim_bounds(s);
    assert(trimmed(s) =~= Seq::<char>::empty());
}

/// A string without a separator is one piece.
pub proof fn law_split_whole(s: Seq<char>, sep: char)
    requires
        !s.contains(sep),
    ensures
        split_on(s, sep) == seq![s],
    decreases s.len(),
{
    if s.len() > 0 {
        let init = s.drop_last();
        assert forall|i: int| 0 <= i < init.len() implies init[i] != sep by {
            assert(s[i] == init[i]);
        }
        assert(s[s.len() - 1] != sep);
        law_split_whole(init, sep);
        assert(init.push(s.last()) =~= s);
        assert(split_on(s, sep) =~= seq![s]);
    }
}

/// A separator ends the pieces before it and starts those behind it.
pub proof fn law_split_at(before: Seq<char>, after: Seq<char>, sep: char)
    ensures
        split_on(before + seq![sep] + after, sep) == split_on(before, sep) + split_on(after, sep),
    decreases after.len(),
{
    let s = before + seq![sep] + after;
    if after.len() == 0 {
        assert(s.drop_last() =~= before);
        assert(after =~= Seq::<char>::empty());
        assert(split_on(s, sep) =~= split_on(before, sep) + split_on(after, sep));
    } else {
        let init = after.drop_last();
        law_split_at(before, init, sep);
        lemma_split_nonempty(init, sep);
        assert(s.drop_last() =~= before + seq![sep] + init);
        assert(s.last() == after.last());
        assert(split_on(s, sep) =~= split_on(before, sep) + split_on(after, sep));
    }
}

/// The characters of strings are those of each string, in order.
pub proof fn law_views(v: Seq<String>)
    ensures
        views(v).len() == v.len(),
        forall|i: int| 0 <= i < v.len() ==> #[trigger] views(v)[i] == v[i]@,
{
}

} // verus!
