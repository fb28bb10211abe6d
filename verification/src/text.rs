//! Text handling: Unicode whitespace, splitting into words and into lines.

use vstd::prelude::*;

verus! {

/// The Unicode `White_Space` property, the set that `char::is_whitespace`
/// and `str::split_whitespace` use.
pub open spec fn is_ws(c: char) -> bool {
    let n = c as u32;
    ||| 0x09 <= n <= 0x0d
    ||| n == 0x20
    ||| n == 0x85
    ||| n == 0xa0
    ||| n == 0x1680
    ||| 0x2000 <= n <= 0x200a
    ||| n == 0x2028
    ||| n == 0x2029
    ||| n == 0x202f
    ||| n == 0x205f
    ||| n == 0x3000
}

/// Whether `c` is Unicode whitespace.
pub fn is_whitespace(c: char) -> (r: bool)
    ensures
        r == is_ws(c),
{
    let n = c as u32;
    (0x09 <= n && n <= 0x0d) || n == 0x20 || n == 0x85 || n == 0xa0 || n == 0x1680
        || (0x2000 <= n && n <= 0x200a) || n == 0x2028 || n == 0x2029 || n == 0x202f
        || n == 0x205f || n == 0x3000
}

} // verus!

verus! {

/// `String::push` appends one character.
pub assume_specification[ String::push ](s: &mut String, ch: char)
    ensures
        final(s)@ == old(s)@.push(ch),
;

/// The characters of `s`, in order.
pub fn chars_of(s: &str) -> (v: Vec<char>)
    ensures
        v@ == s@,
{
    broadcast use vstd::string::group_string_axioms;
    let mut v: Vec<char> = Vec::new();
    for c in it: s.chars()
        invariant
            v@ == it.seq().take(it.index() as int),
            it.seq() == s@,
    {
        v.push(c);
    }
    v
}

} // verus!

verus! {

/// Index just past the run of non-whitespace characters of `s` that starts
/// at `i`.
pub open spec fn word_end(s: Seq<char>, i: int) -> int
    decreases s.len() - i,
{
    if i >= s.len() || is_ws(s[i]) {
        i
    } else {
        word_end(s, i + 1)
    }
}

pub proof fn lemma_word_end(s: Seq<char>, i: int)
    requires
        0 <= i <= s.len(),
    ensures
        i <= word_end(s, i) <= s.len(),
        i < s.len() && !is_ws(s[i]) ==> i < word_end(s, i),
        word_end(s, i) < s.len() ==> is_ws(s[word_end(s, i)]),
        forall|k: int| i <= k < word_end(s, i) ==> !is_ws(#[trigger] s[k]),
    decreases s.len() - i,
{
    if i < s.len() && !is_ws(s[i]) {
        lemma_word_end(s, i + 1);
    }
}

/// The whitespace-separated words of `s` from position `i` on, in order.
pub open spec fn words_from(s: Seq<char>, i: int) -> Seq<Seq<char>>
    decreases s.len() - i,
{
    if i >= s.len() || i < 0 {
        seq![]
    } else if is_ws(s[i]) {
        words_from(s, i + 1)
    } else {
        proof {
            lemma_word_end(s, i);
        }
        seq![s.subrange(i, word_end(s, i))] + words_from(s, word_end(s, i))
    }
}

/// The whitespace-separated words of `s`, in order (what
/// `str::split_whitespace` yields).
pub open spec fn words(s: Seq<char>) -> Seq<Seq<char>> {
    words_from(s, 0)
}

/// Splits `s` at runs of Unicode whitespace, dropping empty pieces.
pub fn split_whitespace(s: &str) -> (r: Vec<String>)
    ensures
        r.deep_view() == words(s@),
{
    let cs = chars_of(s);
    let n = cs.len();
    let mut out: Vec<String> = Vec::new();
    let mut i: usize = 0;
    while i < n
        invariant
            i <= n,
            n == cs@.len(),
            cs@ == s@,
            words(s@) == out.deep_view() + words_from(s@, i as int),
        decreases n - i,
    {
        if is_whitespace(cs[i]) {
            i = i + 1;
        } else {
            let ghost start = i as int;
            proof {
                lemma_word_end(s@, start);
            }
            let mut w = String::new();
            let mut j: usize = i;
            while j < n && !is_whitespace(cs[j])
                invariant
                    0 <= start <= j <= n,
                    n == cs@.len(),
                    cs@ == s@,
                    start < s@.len(),
                    w@ == s@.subrange(start, j as int),
                    word_end(s@, start) == word_end(s@, j as int),
                decreases n - j,
            {
                let ghost prev = w@;
                let c = cs[j];
                w.push(c);
                assert(w@ == prev.push(c));
                assert(c == s@[j as int]);
                j = j + 1;
                assert(w@ =~= s@.subrange(start, j as int));
            }
            let ghost before = out.deep_view();
            out.push(w);
            assert(out.deep_view() =~= before.push(s@.subrange(start, j as int)));
            assert(words_from(s@, start) == seq![s@.subrange(start, j as int)] + words_from(
                s@,
                j as int,
            ));
            assert(words(s@) =~= out.deep_view() + words_from(s@, j as int));
            i = j;
        }
    }
    assert(words_from(s@, n as int) =~= Seq::<Seq<char>>::empty());
    assert(words(s@) =~= out.deep_view());
    out
}

} // verus!

verus! {

/// The characters `cs[from..to]` as a `String`.
pub fn string_from(cs: &Vec<char>, from: usize, to: usize) -> (r: String)
    requires
        from <= to <= cs@.len(),
    ensures
        r@ == cs@.subrange(from as int, to as int),
{
    let mut w = String::new();
    let mut k: usize = from;
    while k < to
        invariant
            from <= k <= to <= cs@.len(),
            w@ == cs@.subrange(from as int, k as int),
        decreases to - k,
    {
        let ghost prev = w@;
        w.push(cs[k]);
        k = k + 1;
        assert(w@ =~= cs@.subrange(from as int, k as int));
    }
    w
}

/// Index of the first line feed at or after `i`, or the length of `s` if
/// there is none.
pub open spec fn line_end(s: Seq<char>, i: int) -> int
    decreases s.len() - i,
{
    if i >= s.len() || s[i] == '\n' {
        i
    } else {
        line_end(s, i + 1)
    }
}

pub proof fn lemma_line_end(s: Seq<char>, i: int)
    requires
        0 <= i <= s.len(),
    ensures
        i <= line_end(s, i) <= s.len(),
        line_end(s, i) < s.len() ==> s[line_end(s, i)] == '\n',
        forall|k: int| i <= k < line_end(s, i) ==> #[trigger] s[k] != '\n',
    decreases s.len() - i,
{
    if i < s.len() && s[i] != '\n' {
        lemma_line_end(s, i + 1);
    }
}

/// `l` without one trailing carriage return.
pub open spec fn strip_cr(l: Seq<char>) -> Seq<char> {
    if l.len() > 0 && l.last() == '\r' {
        l.drop_last()
    } else {
        l
    }
}

/// The lines of `s` from position `i` on: pieces ended by `\n` or `\r\n`;
/// the last piece needs no ending, and an empty remainder gives no line.
pub open spec fn lines_from(s: Seq<char>, i: int) -> Seq<Seq<char>>
    decreases s.len() - i,
{
    if i >= s.len() || i < 0 {
        seq![]
    } else {
        proof {
            lemma_line_end(s, i);
        }
        let e = line_end(s, i);
        if e < s.len() {
            seq![strip_cr(s.subrange(i, e))] + lines_from(s, e + 1)
        } else {
            seq![s.subrange(i, e)]
        }
    }
}

/// The lines of `s` (what `str::lines` yields).
pub open spec fn lines_of(s: Seq<char>) -> Seq<Seq<char>> {
    lines_from(s, 0)
}

/// Splits `s` into lines ended by `\n` or `\r\n`; a final line ending is
/// optional.
pub fn lines(s: &str) -> (r: Vec<String>)
    ensures
        r.deep_view() == lines_of(s@),
{
    let cs = chars_of(s);
    let n = cs.len();
    let mut out: Vec<String> = Vec::new();
    let mut i: usize = 0;
    while i < n
        invariant
            i <= n,
            n == cs@.len(),
            cs@ == s@,
            lines_of(s@) == out.deep_view() + lines_from(s@, i as int),
        decreases n - i,
    {
        proof {
            lemma_line_end(s@, i as int);
        }
        let mut j: usize = i;
        while j < n && cs[j] != '\n'
            invariant
                i <= j <= n,
                n == cs@.len(),
                cs@ == s@,
                line_end(s@, i as int) == line_end(s@, j as int),
            decreases n - j,
        {
            j = j + 1;
        }
        let ghost before = out.deep_view();
        if j < n {
            let end = if j > i && cs[j - 1] == '\r' {
                j - 1
            } else {
                j
            };
            let w = string_from(&cs, i, end);
            assert(w@ =~= strip_cr(s@.subrange(i as int, j as int)));
            out.push(w);
            assert(out.deep_view() =~= before.push(w@));
            assert(lines_of(s@) =~= out.deep_view() + lines_from(s@, j + 1));
            i = j + 1;
        } else {
            let w = string_from(&cs, i, j);
            out.push(w);
            assert(out.deep_view() =~= before.push(w@));
            assert(lines_from(s@, j as int) =~= Seq::<Seq<char>>::empty());
            assert(lines_of(s@) =~= out.deep_view() + lines_from(s@, j as int));
            i = j;
        }
    }
    assert(lines_from(s@, n as int) =~= Seq::<Seq<char>>::empty());
    assert(lines_of(s@) =~= out.deep_view());
    out
}

/// What precedes the last `c` in `s`, or `None` when `c` does not occur
/// (the first half of `str::rsplit_once`).
pub open spec fn before_last(s: Seq<char>, c: char) -> Option<Seq<char>>
    decreases s.len(),
{
    if s.len() == 0 {
        None
    } else if s.last() == c {
        Some(s.drop_last())
    } else {
        before_last(s.drop_last(), c)
    }
}

/// The part of `s` before the last occurrence of `c`, if `c` occurs.
pub fn prefix_before_last(s: &str, c: char) -> (r: Option<String>)
    ensures
        match r {
            Some(p) => before_last(s@, c) == Some(p@),
            None => before_last(s@, c) is None,
        },
{
    let cs = chars_of(s);
    let mut k: usize = cs.len();
    assert(s@.take(k as int) =~= s@);
    while k > 0
        invariant
            k <= cs@.len(),
            cs@ == s@,
            before_last(s@, c) == before_last(s@.take(k as int), c),
        decreases k,
    {
        assert(s@.take(k as int).drop_last() =~= s@.take(k - 1));
        if cs[k - 1] == c {
            let p = string_from(&cs, 0, k - 1);
            assert(p@ =~= s@.take(k - 1));
            return Some(p);
        }
        k = k - 1;
    }
    None
}

} // verus!

verus! {

/// A non-empty run of characters none of which is whitespace.
pub open spec fn is_word(w: Seq<char>) -> bool {
    w.len() > 0 && forall|k: int| 0 <= k < w.len() ==> !is_ws(#[trigger] w[k])
}

proof fn lemma_words_from_are_words(s: Seq<char>, i: int)
    requires
        0 <= i <= s.len(),
    ensures
        forall|j: int| 0 <= j < words_from(s, i).len() ==> is_word(#[trigger] words_from(s, i)[j]),
    decreases s.len() - i,
{
    if i < s.len() {
        if is_ws(s[i]) {
            lemma_words_from_are_words(s, i + 1);
            assert(words_from(s, i) == words_from(s, i + 1));
        } else {
            lemma_word_end(s, i);
            let e = word_end(s, i);
            lemma_words_from_are_words(s, e);
            let w = s.subrange(i, e);
            assert(is_word(w));
            let rest = words_from(s, e);
            assert(words_from(s, i) == seq![w] + rest);
            assert forall|j: int| 0 <= j < words_from(s, i).len() implies is_word(
                #[trigger] words_from(s, i)[j],
            ) by {
                if j > 0 {
                    assert(words_from(s, i)[j] == rest[j - 1]);
                }
            }
        }
    }
}

/// Splitting at whitespace yields only non-empty words without whitespace,
/// so trimming a word leaves it as it is.
pub proof fn law_words_have_no_whitespace(s: Seq<char>)
    ensures
        forall|j: int| 0 <= j < words(s).len() ==> is_word(#[trigger] words(s)[j]),
{
    lemma_words_from_are_words(s, 0);
}

/// No line contains a line feed.
pub open spec fn is_line(l: Seq<char>) -> bool {
    forall|k: int| 0 <= k < l.len() ==> #[trigger] l[k] != '\n'
}

proof fn lemma_lines_from_are_lines(s: Seq<char>, i: int)
    requires
        0 <= i <= s.len(),
    ensures
        forall|j: int| 0 <= j < lines_from(s, i).len() ==> is_line(#[trigger] lines_from(s, i)[j]),
    decreases s.len() - i,
{
    if i < s.len() {
        lemma_line_end(s, i);
        let e = line_end(s, i);
        let piece = s.subrange(i, e);
        assert(is_line(piece));
        assert(is_line(strip_cr(piece)));
        if e < s.len() {
            lemma_lines_from_are_lines(s, e + 1);
            let rest = lines_from(s, e + 1);
            assert forall|j: int| 0 <= j < lines_from(s, i).len() implies is_line(
                #[trigger] lines_from(s, i)[j],
            ) by {
                if j > 0 {
                    assert(lines_from(s, i)[j] == rest[j - 1]);
                }
            }
        }
    }
}

/// Splitting into lines removes every line feed.
pub proof fn law_lines_have_no_line_feed(s: Seq<char>)
    ensures
        forall|j: int| 0 <= j < lines_of(s).len() ==> is_line(#[trigger] lines_of(s)[j]),
{
    lemma_lines_from_are_lines(s, 0);
}

/// When `c` occurs in `s`, `s` is what comes before its last occurrence,
/// then `c`, then a tail without `c`; when it does not, there is no split.
pub proof fn law_before_last_splits_at_last(s: Seq<char>, c: char)
    ensures
        match before_last(s, c) {
            Some(p) => exists|v: Seq<char>| s == p.push(c) + v && !v.contains(c),
            None => !s.contains(c),
        },
    decreases s.len(),
{
    if s.len() == 0 {
    } else if s.last() == c {
        let p = s.drop_last();
        let v = Seq::<char>::empty();
        assert(s =~= p.push(c) + v);
        assert(s == p.push(c) + v && !v.contains(c));
    } else {
        let t = s.drop_last();
        assert(s =~= t.push(s.last()));
        law_before_last_splits_at_last(t, c);
        match before_last(t, c) {
            Some(p) => {
                let v0 = choose|v: Seq<char>| t == p.push(c) + v && !v.contains(c);
                let v = v0.push(s.last());
                assert(t == p.push(c) + v0);
                assert(s =~= p.push(c) + v);
                assert(!v.contains(c)) by {
                    if v.contains(c) {
                        let k = choose|k: int| 0 <= k < v.len() && v[k] == c;
                        if k < v0.len() {
                            assert(v0[k] == c);
                        }
                    }
                }
                assert(s == p.push(c) + v && !v.contains(c));
            },
            None => {
                assert(!s.contains(c)) by {
                    if s.contains(c) {
                        let k = choose|k: int| 0 <= k < s.len() && s[k] == c;
                        assert(t[k] == c);
                    }
                }
            },
        }
    }
}

} // verus!
