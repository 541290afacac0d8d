//! Text as sequences of characters: trimming, lines, searching, replacing.
//!
//! Every function works on `Vec<char>` and is specified over `Seq<char>`;
//! `chars_of` and `string_of` move between that form and `str` / `String`.

use vstd::prelude::*;

verus! {

/// `String::push` appends one character to the end of the string.
pub assume_specification[ String::push ](s: &mut String, c: char)
    ensures
        final(s)@ == old(s)@.push(c),
;

/// The characters of `s`, in order.
pub fn chars_of(s: &str) -> (v: Vec<char>)
    ensures
        v@ == s@,
{
    let mut v: Vec<char> = Vec::new();
    for c in it: s.chars()
        invariant
            v@ == it.seq().take(it.index() as int),
    {
        v.push(c);
    }
    v
}

/// The string made of the characters of `v`, in order.
pub fn string_of(v: &Vec<char>) -> (s: String)
    ensures
        s@ == v@,
{
    let mut s = String::new();
    let mut i: usize = 0;
    while i < v.len()
        invariant
            i <= v.len(),
            s@ == v@.take(i as int),
        decreases v.len() - i,
    {
        s.push(v[i]);
        i += 1;
    }
    s
}

/// The views of a vector of character vectors.
pub open spec fn rows(v: Seq<Vec<char>>) -> Seq<Seq<char>> {
    v.map_values(|r: Vec<char>| r@)
}

/// The views of a vector of strings.
pub open spec fn texts(v: Seq<String>) -> Seq<Seq<char>> {
    v.map_values(|s: String| s@)
}

/// The views of a sequence of string slices.
pub open spec fn words(args: Seq<&str>) -> Seq<Seq<char>> {
    args.map_values(|a: &str| a@)
}

/// The view of an optional character vector.
pub open spec fn opt_view(o: Option<Vec<char>>) -> Option<Seq<char>> {
    match o {
        Some(v) => Some(v@),
        None => None,
    }
}

/// Whether `a` and `b` hold the same characters.
pub fn same(a: &Vec<char>, b: &Vec<char>) -> (r: bool)
    ensures
        r == (a@ == b@),
{
    if a.len() != b.len() {
        return false;
    }
    let mut i: usize = 0;
    while i < a.len()
        invariant
            i <= a.len(),
            a.len() == b.len(),
            forall|j: int| 0 <= j < i ==> a@[j] == b@[j],
        decreases a.len() - i,
    {
        if a[i] != b[i] {
            return false;
        }
        i += 1;
    }
    assert(a@ =~= b@);
    true
}

/// A copy of `v[from..to]`; indices past the end are clipped.
pub fn slice(v: &Vec<char>, from: usize, to: usize) -> (out: Vec<char>)
    ensures
        from <= to <= v.len() ==> out@ == v@.subrange(from as int, to as int),
        to > v.len() && from <= v.len() ==> out@ == v@.subrange(from as int, v.len() as int),
        from > to || from > v.len() ==> out@ == Seq::<char>::empty(),
{
    let stop = if to > v.len() { v.len() } else { to };
    let mut out: Vec<char> = Vec::new();
    if from > stop {
        return out;
    }
    let mut i: usize = from;
    while i < stop
        invariant
            from <= i <= stop <= v.len(),
            out@ == v@.subrange(from as int, i as int),
        decreases stop - i,
    {
        out.push(v[i]);
        i += 1;
    }
    out
}

/// Appends the characters of `tail` to `out`.
pub fn extend(out: &mut Vec<char>, tail: &Vec<char>)
    ensures
        final(out)@ == old(out)@ + tail@,
{
    let mut i: usize = 0;
    while i < tail.len()
        invariant
            i <= tail.len(),
            out@ == old(out)@ + tail@.take(i as int),
        decreases tail.len() - i,
    {
        out.push(tail[i]);
        i += 1;
    }
    assert(tail@.take(tail.len() as int) == tail@);
}

/// Appends the characters of the string `tail` to `out`.
pub fn extend_str(out: &mut Vec<char>, tail: &str)
    ensures
        final(out)@ == old(out)@ + tail@,
{
    let t = chars_of(tail);
    extend(out, &t);
}

// ----------------------------------------------------------------------
// Trimming
// ----------------------------------------------------------------------

/// White space, as Unicode's property `White_Space` has it.
pub open spec fn is_space(c: char) -> bool {
    ||| ('\u{9}' <= c && c <= '\u{d}')
    ||| c == ' '
    ||| c == '\u{85}'
    ||| c == '\u{a0}'
    ||| c == '\u{1680}'
    ||| ('\u{2000}' <= c && c <= '\u{200a}')
    ||| c == '\u{2028}'
    ||| c == '\u{2029}'
    ||| c == '\u{202f}'
    ||| c == '\u{205f}'
    ||| c == '\u{3000}'
}

/// Whether `c` is white space.
pub fn is_whitespace(c: char) -> (b: bool)
    ensures
        b == is_space(c),
{
    ('\u{9}' <= c && c <= '\u{d}') || c == ' ' || c == '\u{85}' || c == '\u{a0}' || c
        == '\u{1680}' || ('\u{2000}' <= c && c <= '\u{200a}') || c == '\u{2028}' || c
        == '\u{2029}' || c == '\u{202f}' || c == '\u{205f}' || c == '\u{3000}'
}

/// What is stripped from the two ends of a text.
#[derive(Clone, Copy, Debug)]
pub enum Margin {
    /// White space.
    Space,
    /// Double quotes.
    Quote,
}

/// Whether `c` belongs to the margin `m`.
pub open spec fn in_margin(m: Margin, c: char) -> bool {
    match m {
        Margin::Space => is_space(c),
        Margin::Quote => c == '"',
    }
}

/// `s` without its leading margin characters.
pub open spec fn strip_start(s: Seq<char>, m: Margin) -> Seq<char>
    decreases s.len(),
{
    if s.len() > 0 && in_margin(m, s[0]) {
        strip_start(s.drop_first(), m)
    } else {
        s
    }
}

/// `s` without its trailing margin characters.
pub open spec fn strip_end(s: Seq<char>, m: Margin) -> Seq<char>
    decreases s.len(),
{
    if s.len() > 0 && in_margin(m, s.last()) {
        strip_end(s.drop_last(), m)
    } else {
        s
    }
}

/// `s` without margin characters at either end.
pub open spec fn stripped(s: Seq<char>, m: Margin) -> Seq<char> {
    strip_end(strip_start(s, m), m)
}

/// `s` without leading and trailing white space.
pub open spec fn trimmed(s: Seq<char>) -> Seq<char> {
    stripped(s, Margin::Space)
}

/// `s` without leading and trailing double quotes.
pub open spec fn unquoted(s: Seq<char>) -> Seq<char> {
    stripped(s, Margin::Quote)
}

/// A text that is not empty and has no white space at either end.
pub open spec fn neat(s: Seq<char>) -> bool {
    s.len() > 0 && !is_space(s[0]) && !is_space(s.last())
}

/// The trimmed text, where anything is left of it.
pub open spec fn clean(s: Seq<char>) -> Option<Seq<char>> {
    if trimmed(s).len() == 0 {
        None
    } else {
        Some(trimmed(s))
    }
}

/// `strip_start` yields a suffix that does not begin with a margin character.
pub proof fn lemma_strip_start(s: Seq<char>, m: Margin)
    ensures
        strip_start(s, m).len() <= s.len(),
        strip_start(s, m) == s.skip(s.len() - strip_start(s, m).len()),
        strip_start(s, m).len() > 0 ==> !in_margin(m, strip_start(s, m)[0]),
    decreases s.len(),
{
    if s.len() > 0 && in_margin(m, s[0]) {
        lemma_strip_start(s.drop_first(), m);
        let r = strip_start(s.drop_first(), m);
        assert(s.drop_first().skip(s.len() - 1 - r.len()) =~= s.skip(s.len() - r.len()));
    } else {
        assert(s.skip(0) =~= s);
    }
}

/// `strip_end` yields a prefix that does not end with a margin character.
pub proof fn lemma_strip_end(s: Seq<char>, m: Margin)
    ensures
        strip_end(s, m).len() <= s.len(),
        strip_end(s, m) == s.take(strip_end(s, m).len() as int),
        strip_end(s, m).len() > 0 ==> !in_margin(m, strip_end(s, m).last()),
    decreases s.len(),
{
    if s.len() > 0 && in_margin(m, s.last()) {
        lemma_strip_end(s.drop_last(), m);
        let r = strip_end(s.drop_last(), m);
        assert(s.drop_last().take(r.len() as int) =~= s.take(r.len() as int));
    } else {
        assert(s.take(s.len() as int) =~= s);
    }
}

/// What `clean` yields is neat.
pub proof fn lemma_clean_is_neat(s: Seq<char>)
    ensures
        clean(s) matches Some(v) ==> neat(v),
{
    let a = strip_start(s, Margin::Space);
    lemma_strip_start(s, Margin::Space);
    lemma_strip_end(a, Margin::Space);
    let b = strip_end(a, Margin::Space);
    if b.len() > 0 {
        assert(b[0] == a.take(b.len() as int)[0]);
    }
}

/// A text is neat exactly if it is not empty and trimming leaves it as it is.
pub proof fn law_neat_is_trimmed(s: Seq<char>)
    ensures
        neat(s) <==> s.len() > 0 && trimmed(s) == s,
{
    lemma_clean_is_neat(s);
}

/// `v` without margin characters at either end.
pub fn strip(v: &Vec<char>, m: Margin) -> (out: Vec<char>)
    ensures
        out@ == stripped(v@, m),
{
    let n = v.len();
    let mut i: usize = 0;
    proof {
        assert(v@.skip(0) =~= v@);
    }
    while i < n && on_margin(m, v[i])
        invariant
            i <= n,
            n == v.len(),
            strip_start(v@, m) == strip_start(v@.skip(i as int), m),
        decreases n - i,
    {
        proof {
            assert(v@.skip(i as int).drop_first() =~= v@.skip(i + 1));
        }
        i += 1;
    }
    assert(strip_start(v@, m) == v@.skip(i as int));
    assert(v@.skip(i as int) =~= v@.subrange(i as int, n as int));
    let mut j: usize = n;
    while j > i && on_margin(m, v[j - 1])
        invariant
            i <= j <= n,
            n == v.len(),
            strip_end(v@.subrange(i as int, n as int), m) == strip_end(
                v@.subrange(i as int, j as int),
                m,
            ),
        decreases j - i,
    {
        proof {
            assert(v@.subrange(i as int, j as int).drop_last() =~= v@.subrange(
                i as int,
                j - 1,
            ));
        }
        j -= 1;
    }
    slice(v, i, j)
}

/// Whether `c` belongs to the margin `m`.
pub fn on_margin(m: Margin, c: char) -> (b: bool)
    ensures
        b == in_margin(m, c),
{
    match m {
        Margin::Space => is_whitespace(c),
        Margin::Quote => c == '"',
    }
}

/// `v` without leading and trailing white space.
pub fn trim(v: &Vec<char>) -> (out: Vec<char>)
    ensures
        out@ == trimmed(v@),
{
    strip(v, Margin::Space)
}

/// The trimmed text, or `None` where nothing is left of it.
pub fn cleaned(v: &Vec<char>) -> (out: Option<Vec<char>>)
    ensures
        opt_view(out) == clean(v@),
        out matches Some(t) ==> neat(t@),
{
    proof {
        lemma_clean_is_neat(v@);
    }
    let t = trim(v);
    if t.len() == 0 {
        None
    } else {
        Some(t)
    }
}

// ----------------------------------------------------------------------
// Prefixes and occurrences
// ----------------------------------------------------------------------

/// `s` begins with `p`.
pub open spec fn has_prefix(s: Seq<char>, p: Seq<char>) -> bool {
    p.len() <= s.len() && s.take(p.len() as int) == p
}

/// Where `p` first occurs in `s`.
pub open spec fn index_of(s: Seq<char>, p: Seq<char>) -> Option<int>
    decreases s.len(),
{
    if has_prefix(s, p) {
        Some(0)
    } else if s.len() == 0 {
        None
    } else {
        match index_of(s.drop_first(), p) {
            Some(i) => Some(i + 1),
            None => None,
        }
    }
}

/// `p` occurs somewhere in `s`.
pub open spec fn has_part(s: Seq<char>, p: Seq<char>) -> bool {
    index_of(s, p) is Some
}

/// Whether `p` stands in `v` at position `at`.
pub fn matches_at(v: &Vec<char>, at: usize, p: &Vec<char>) -> (b: bool)
    ensures
        b == (at <= v.len() && has_prefix(v@.skip(at as int), p@)),
{
    if at > v.len() || p.len() > v.len() - at {
        return false;
    }
    let mut k: usize = 0;
    while k < p.len()
        invariant
            at + p.len() <= v.len(),
            k <= p.len(),
            forall|j: int| 0 <= j < k ==> v@[at + j] == p@[j],
        decreases p.len() - k,
    {
        if v[at + k] != p[k] {
            proof {
                assert(v@.skip(at as int).take(p.len() as int)[k as int] == v@[at + k]);
            }
            return false;
        }
        k += 1;
    }
    proof {
        assert(v@.skip(at as int).take(p.len() as int) =~= p@);
    }
    true
}

/// Whether `v` begins with `p`.
pub fn starts_with(v: &Vec<char>, p: &Vec<char>) -> (b: bool)
    ensures
        b == has_prefix(v@, p@),
{
    proof {
        assert(v@.skip(0) =~= v@);
    }
    matches_at(v, 0, p)
}

/// The first position at or after `from` at which `p` stands in `v`.
pub fn find_from(v: &Vec<char>, from: usize, p: &Vec<char>) -> (r: Option<usize>)
    ensures
        from <= v.len() ==> match r {
            Some(i) => from <= i && i + p.len() <= v.len() && index_of(
                v@.skip(from as int),
                p@,
            ) == Some(i - from),
            None => index_of(v@.skip(from as int), p@) is None,
        },
        from > v.len() ==> r is None,
        r matches Some(i) ==> has_prefix(v@.skip(i as int), p@) && forall|j: int|
            from <= j < i ==> !has_prefix(#[trigger] v@.skip(j), p@),
        r is None ==> forall|j: int|
            from <= j <= v.len() ==> !has_prefix(#[trigger] v@.skip(j), p@),
{
    let n = v.len();
    if from > n {
        return None;
    }
    let mut i: usize = from;
    loop
        invariant
            from <= i <= n,
            n == v.len(),
            index_of(v@.skip(from as int), p@) == match index_of(v@.skip(i as int), p@) {
                Some(k) => Some(k + i - from),
                None => None,
            },
            forall|j: int| from <= j < i ==> !has_prefix(#[trigger] v@.skip(j), p@),
        decreases n - i,
    {
        if matches_at(v, i, p) {
            return Some(i);
        }
        if i == n {
            return None;
        }
        proof {
            assert(v@.skip(i as int).drop_first() =~= v@.skip(i + 1));
        }
        i += 1;
    }
}

/// The first position at which `p` stands in `v`.
pub fn find(v: &Vec<char>, p: &Vec<char>) -> (r: Option<usize>)
    ensures
        match r {
            Some(i) => index_of(v@, p@) == Some(i as int),
            None => index_of(v@, p@) is None,
        },
        r matches Some(i) ==> has_prefix(v@.skip(i as int), p@) && forall|j: int|
            0 <= j < i ==> !has_prefix(#[trigger] v@.skip(j), p@),
        r is None ==> forall|j: int| 0 <= j <= v.len() ==> !has_prefix(#[trigger] v@.skip(j), p@),
{
    proof {
        assert(v@.skip(0) =~= v@);
    }
    find_from(v, 0, p)
}

/// Whether `p` occurs in `v`.
pub fn contains(v: &Vec<char>, p: &Vec<char>) -> (b: bool)
    ensures
        b == has_part(v@, p@),
{
    find(v, p).is_some()
}

// ----------------------------------------------------------------------
// Pieces between separators
// ----------------------------------------------------------------------

/// The piece of `s` between the first and the second occurrence of `sep`
/// (to the end where `sep` occurs once); `None` where `sep` does not occur.
pub open spec fn second_piece(s: Seq<char>, sep: Seq<char>) -> Option<Seq<char>> {
    match index_of(s, sep) {
        None => None,
        Some(i) => {
            let rest = s.skip(i + sep.len());
            match index_of(rest, sep) {
                Some(j) => Some(rest.take(j)),
                None => Some(rest),
            }
        },
    }
}

/// What follows the last of the occurrences of `sep` that a scan from the
/// left finds, one after the other; all of `s` where there is none.
pub open spec fn last_piece(s: Seq<char>, sep: Seq<char>) -> Seq<char>
    decreases s.len(),
{
    match index_of(s, sep) {
        Some(i) => if sep.len() > 0 && 0 <= i && i + sep.len() <= s.len() {
            last_piece(s.skip(i + sep.len()), sep)
        } else {
            s
        },
        None => s,
    }
}

/// The piece of `v` between the first and the second occurrence of `sep`.
pub fn piece_after(v: &Vec<char>, sep: &Vec<char>) -> (r: Option<Vec<char>>)
    ensures
        opt_view(r) == second_piece(v@, sep@),
{
    proof {
        assert(v@.skip(0) =~= v@);
    }
    match find_from(v, 0, sep) {
        None => None,
        Some(i) => {
            let start = i + sep.len();
            let ghost rest = v@.skip(start as int);
            match find_from(v, start, sep) {
                Some(j) => {
                    proof {
                        assert(v@.subrange(start as int, j as int) =~= rest.take(j - start));
                    }
                    Some(slice(v, start, j))
                },
                None => {
                    proof {
                        assert(v@.subrange(start as int, v.len() as int) =~= rest);
                    }
                    Some(slice(v, start, v.len()))
                },
            }
        },
    }
}

/// What follows the last occurrence of `sep` that a scan from the left finds.
pub fn piece_last(v: &Vec<char>, sep: &Vec<char>) -> (r: Vec<char>)
    ensures
        r@ == last_piece(v@, sep@),
{
    let n = v.len();
    let mut start: usize = 0;
    proof {
        assert(v@.skip(0) =~= v@);
    }
    if sep.len() > 0 {
        loop
            invariant
                start <= n,
                n == v.len(),
                sep.len() > 0,
                last_piece(v@, sep@) == last_piece(v@.skip(start as int), sep@),
            ensures
                start <= n,
                last_piece(v@, sep@) == v@.skip(start as int),
            decreases n - start,
        {
            match find_from(v, start, sep) {
                Some(i) => {
                    proof {
                        assert(v@.skip(start as int).skip(i - start + sep.len()) =~= v@.skip(
                            i + sep.len(),
                        ));
                    }
                    start = i + sep.len();
                },
                None => {
                    assert(last_piece(v@.skip(start as int), sep@) == v@.skip(start as int));
                    break ;
                },
            }
        }
    } else {
        assert(last_piece(v@, sep@) == v@);
    }
    proof {
        assert(v@.skip(start as int) =~= v@.subrange(start as int, n as int));
    }
    slice(v, start, n)
}

// ----------------------------------------------------------------------
// Replacing
// ----------------------------------------------------------------------

/// `s` with each occurrence of `from` that a scan from the left finds, one
/// after the other, replaced by `to`; `s` itself where `from` is empty.
pub open spec fn replaced(s: Seq<char>, from: Seq<char>, to: Seq<char>) -> Seq<char>
    decreases s.len(),
{
    if from.len() == 0 || s.len() == 0 {
        s
    } else if has_prefix(s, from) {
        to + replaced(s.skip(from.len() as int), from, to)
    } else {
        seq![s[0]] + replaced(s.drop_first(), from, to)
    }
}

/// `v` with the occurrences of `from` replaced by `to`.
pub fn replace(v: &Vec<char>, from: &Vec<char>, to: &Vec<char>) -> (out: Vec<char>)
    ensures
        out@ == replaced(v@, from@, to@),
{
    let n = v.len();
    let mut out: Vec<char> = Vec::new();
    let mut i: usize = 0;
    proof {
        assert(v@.skip(0) =~= v@);
    }
    if from.len() == 0 {
        extend(&mut out, v);
        assert(out@ =~= v@);
        return out;
    }
    while i < n
        invariant
            i <= n,
            n == v.len(),
            from.len() > 0,
            replaced(v@, from@, to@) == out@ + replaced(v@.skip(i as int), from@, to@),
        decreases n - i,
    {
        let ghost rest = v@.skip(i as int);
        let ghost before = out@;
        if matches_at(v, i, from) {
            extend(&mut out, to);
            proof {
                assert(rest.skip(from.len() as int) =~= v@.skip(i + from.len()));
                assert(before + (to@ + replaced(v@.skip(i + from.len()), from@, to@)) =~= (before
                    + to@) + replaced(v@.skip(i + from.len()), from@, to@));
            }
            i += from.len();
        } else {
            out.push(v[i]);
            proof {
                assert(rest.drop_first() =~= v@.skip(i + 1));
                assert(before + (seq![rest[0]] + replaced(v@.skip(i + 1), from@, to@))
                    =~= before.push(v@[i as int]) + replaced(v@.skip(i + 1), from@, to@));
            }
            i += 1;
        }
    }
    assert(out@ + replaced(v@.skip(n as int), from@, to@) =~= out@);
    out
}

// ----------------------------------------------------------------------
// Pieces between characters, and lines
// ----------------------------------------------------------------------

/// The position of the first `c` in `s`, or the length of `s` where it has none.
pub open spec fn first_at(s: Seq<char>, c: char) -> int
    decreases s.len(),
{
    if s.len() == 0 || s[0] == c {
        0
    } else {
        1 + first_at(s.drop_first(), c)
    }
}

/// The pieces of `s` between the occurrences of `c`.
pub open spec fn split_on(s: Seq<char>, c: char) -> Seq<Seq<char>>
    decreases s.len(),
{
    let k = first_at(s, c);
    if 0 <= k < s.len() {
        seq![s.take(k)] + split_on(s.skip(k + 1), c)
    } else {
        seq![s]
    }
}

/// `first_at` is the least position that holds `c`.
pub proof fn lemma_first_at(s: Seq<char>, c: char, k: int)
    requires
        0 <= k <= s.len(),
        forall|j: int| 0 <= j < k ==> s[j] != c,
        k < s.len() ==> s[k] == c,
    ensures
        first_at(s, c) == k,
    decreases s.len(),
{
    if s.len() == 0 || s[0] == c {
    } else {
        let t = s.drop_first();
        assert forall|j: int| 0 <= j < k - 1 implies t[j] != c by {
            assert(t[j] == s[j + 1]);
        }
        lemma_first_at(t, c, k - 1);
    }
}

/// The pieces of `v` between the occurrences of `c`.
pub fn split(v: &Vec<char>, c: char) -> (out: Vec<Vec<char>>)
    ensures
        rows(out@) == split_on(v@, c),
{
    let n = v.len();
    let mut out: Vec<Vec<char>> = Vec::new();
    let mut start: usize = 0;
    proof {
        assert(v@.skip(0) =~= v@);
        assert(rows(out@) + split_on(v@, c) =~= split_on(v@, c));
    }
    loop
        invariant_except_break
            split_on(v@, c) == rows(out@) + split_on(v@.skip(start as int), c),
        invariant
            start <= n,
            n == v.len(),
        ensures
            rows(out@) == split_on(v@, c),
        decreases n - start,
    {
        let mut end: usize = start;
        while end < n && v[end] != c
            invariant
                start <= end <= n,
                n == v.len(),
                forall|j: int| start <= j < end ==> v@[j] != c,
            decreases n - end,
        {
            end += 1;
        }
        let ghost rest = v@.skip(start as int);
        let ghost before = rows(out@);
        proof {
            lemma_first_at(rest, c, end - start);
        }
        let piece = slice(v, start, end);
        out.push(piece);
        proof {
            assert(rows(out@) =~= before.push(piece@));
        }
        if end == n {
            proof {
                assert(piece@ =~= rest);
                assert(before + seq![rest] =~= before.push(rest));
            }
            break ;
        }
        proof {
            assert(piece@ =~= rest.take(end - start));
            assert(rest.skip(end - start + 1) =~= v@.skip(end + 1));
            assert(before + (seq![piece@] + split_on(v@.skip(end + 1), c)) =~= before.push(piece@)
                + split_on(v@.skip(end + 1), c));
        }
        start = end + 1;
    }
    out
}

/// `l` without one carriage return at its end.
pub open spec fn without_cr(l: Seq<char>) -> Seq<char> {
    if l.len() > 0 && l.last() == '\r' {
        l.drop_last()
    } else {
        l
    }
}

/// The lines of `s`. A line ends at a line feed, which is left out together
/// with a carriage return before it; what follows the last line feed is a
/// line of its own where it is not empty.
pub open spec fn lines_of(s: Seq<char>) -> Seq<Seq<char>>
    decreases s.len(),
{
    if s.len() == 0 {
        Seq::empty()
    } else {
        let k = first_at(s, '\n');
        if 0 <= k < s.len() {
            seq![without_cr(s.take(k))] + lines_of(s.skip(k + 1))
        } else {
            seq![s]
        }
    }
}

/// The lines of `v`.
pub fn lines(v: &Vec<char>) -> (out: Vec<Vec<char>>)
    ensures
        rows(out@) == lines_of(v@),
{
    let n = v.len();
    let mut out: Vec<Vec<char>> = Vec::new();
    let mut start: usize = 0;
    proof {
        assert(v@.skip(0) =~= v@);
        assert(rows(out@) + lines_of(v@) =~= lines_of(v@));
    }
    while start < n
        invariant
            start <= n,
            n == v.len(),
            lines_of(v@) == rows(out@) + lines_of(v@.skip(start as int)),
        decreases n - start,
    {
        let mut end: usize = start;
        while end < n && v[end] != '\n'
            invariant
                start <= end <= n,
                n == v.len(),
                forall|j: int| start <= j < end ==> v@[j] != '\n',
            decreases n - end,
        {
            end += 1;
        }
        let ghost rest = v@.skip(start as int);
        let ghost before = rows(out@);
        proof {
            lemma_first_at(rest, '\n', end - start);
        }
        if end == n {
            let line = slice(v, start, n);
            out.push(line);
            proof {
                assert(line@ =~= rest);
                assert(rows(out@) =~= before.push(rest));
                assert(lines_of(v@.skip(n as int)) =~= Seq::<Seq<char>>::empty());
                assert(before + seq![rest] =~= before.push(rest) + lines_of(v@.skip(n as int)));
            }
            start = n;
        } else {
            let stop = if end > start && v[end - 1] == '\r' {
                end - 1
            } else {
                end
            };
            let line = slice(v, start, stop);
            out.push(line);
            proof {
                let whole = rest.take(end - start);
                assert(whole =~= v@.subrange(start as int, end as int));
                assert(line@ =~= without_cr(whole));
                assert(rest.skip(end - start + 1) =~= v@.skip(end + 1));
                assert(rows(out@) =~= before.push(line@));
                assert(before + (seq![line@] + lines_of(v@.skip(end + 1))) =~= before.push(line@)
                    + lines_of(v@.skip(end + 1)));
            }
            start = end + 1;
        }
    }
    proof {
        assert(rows(out@) + lines_of(v@.skip(n as int)) =~= rows(out@));
    }
    out
}

// ----------------------------------------------------------------------
// Choosing among lines
// ----------------------------------------------------------------------

/// `s` begins with one of `ps`.
pub open spec fn has_prefix_among(s: Seq<char>, ps: Seq<Seq<char>>) -> bool
    decreases ps.len(),
{
    ps.len() > 0 && (has_prefix(s, ps[0]) || has_prefix_among(s, ps.drop_first()))
}

/// One of `ps` occurs in `s`.
pub open spec fn has_part_among(s: Seq<char>, ps: Seq<Seq<char>>) -> bool
    decreases ps.len(),
{
    ps.len() > 0 && (has_part(s, ps[0]) || has_part_among(s, ps.drop_first()))
}

/// The first of `rows` that begins with one of `ps`.
pub open spec fn first_with_prefix(rows: Seq<Seq<char>>, ps: Seq<Seq<char>>) -> Option<Seq<char>>
    decreases rows.len(),
{
    if rows.len() == 0 {
        None
    } else if has_prefix_among(rows[0], ps) {
        Some(rows[0])
    } else {
        first_with_prefix(rows.drop_first(), ps)
    }
}

/// The last of `rows` that begins with `a` and holds `sep`.
pub open spec fn last_with_prefix(rows: Seq<Seq<char>>, a: Seq<char>, sep: Seq<char>) -> Option<
    Seq<char>,
>
    decreases rows.len(),
{
    if rows.len() == 0 {
        None
    } else if has_prefix(rows.last(), a) && has_part(rows.last(), sep) {
        Some(rows.last())
    } else {
        last_with_prefix(rows.drop_last(), a, sep)
    }
}

/// The first of `rows` that, once trimmed, begins with `a`.
pub open spec fn first_with_trimmed_prefix(rows: Seq<Seq<char>>, a: Seq<char>) -> Option<
    Seq<char>,
>
    decreases rows.len(),
{
    if rows.len() == 0 {
        None
    } else if has_prefix(trimmed(rows[0]), a) {
        Some(rows[0])
    } else {
        first_with_trimmed_prefix(rows.drop_first(), a)
    }
}

/// The first of `rows` in which one of `ps` occurs.
pub open spec fn first_with_part(rows: Seq<Seq<char>>, ps: Seq<Seq<char>>) -> Option<Seq<char>>
    decreases rows.len(),
{
    if rows.len() == 0 {
        None
    } else if has_part_among(rows[0], ps) {
        Some(rows[0])
    } else {
        first_with_part(rows.drop_first(), ps)
    }
}

/// How many of `rows` begin with `a`.
pub open spec fn count_with_prefix(rows: Seq<Seq<char>>, a: Seq<char>) -> nat
    decreases rows.len(),
{
    if rows.len() == 0 {
        0
    } else {
        count_with_prefix(rows.drop_last(), a) + if has_prefix(rows.last(), a) {
            1nat
        } else {
            0nat
        }
    }
}

/// The character vectors of the words `ws`.
pub fn patterns(ws: &Vec<&str>) -> (ps: Vec<Vec<char>>)
    ensures
        rows(ps@) == words(ws@),
{
    let mut ps: Vec<Vec<char>> = Vec::new();
    let mut i: usize = 0;
    while i < ws.len()
        invariant
            i <= ws.len(),
            ps.len() == i,
            forall|j: int| 0 <= j < i ==> ps@[j]@ == ws@[j]@,
        decreases ws.len() - i,
    {
        ps.push(chars_of(ws[i]));
        i += 1;
    }
    assert(rows(ps@) =~= words(ws@));
    ps
}

/// Whether `v` begins with one of `ps`.
pub fn starts_with_any(v: &Vec<char>, ps: &Vec<Vec<char>>) -> (b: bool)
    ensures
        b == has_prefix_among(v@, rows(ps@)),
{
    let mut i: usize = 0;
    proof {
        assert(rows(ps@).skip(0) =~= rows(ps@));
    }
    while i < ps.len()
        invariant
            i <= ps.len(),
            has_prefix_among(v@, rows(ps@)) == has_prefix_among(v@, rows(ps@).skip(i as int)),
        decreases ps.len() - i,
    {
        proof {
            assert(rows(ps@).skip(i as int).drop_first() =~= rows(ps@).skip(i + 1));
            assert(rows(ps@).skip(i as int)[0] == ps@[i as int]@);
        }
        if starts_with(v, &ps[i]) {
            return true;
        }
        i += 1;
    }
    false
}

/// Whether one of `ps` occurs in `v`.
pub fn contains_any(v: &Vec<char>, ps: &Vec<Vec<char>>) -> (b: bool)
    ensures
        b == has_part_among(v@, rows(ps@)),
{
    let mut i: usize = 0;
    proof {
        assert(rows(ps@).skip(0) =~= rows(ps@));
    }
    while i < ps.len()
        invariant
            i <= ps.len(),
            has_part_among(v@, rows(ps@)) == has_part_among(v@, rows(ps@).skip(i as int)),
        decreases ps.len() - i,
    {
        proof {
            assert(rows(ps@).skip(i as int).drop_first() =~= rows(ps@).skip(i + 1));
            assert(rows(ps@).skip(i as int)[0] == ps@[i as int]@);
        }
        if contains(v, &ps[i]) {
            return true;
        }
        i += 1;
    }
    false
}

/// The first line of `table` that begins with one of `ps`.
pub fn line_with_prefix(table: &Vec<Vec<char>>, ps: &Vec<Vec<char>>) -> (r: Option<usize>)
    ensures
        match r {
            Some(i) => i < table.len() && first_with_prefix(rows(table@), rows(ps@)) == Some(
                table@[i as int]@,
            ) && has_prefix_among(table@[i as int]@, rows(ps@)),
            None => first_with_prefix(rows(table@), rows(ps@)) is None,
        },
{
    let mut i: usize = 0;
    proof {
        assert(rows(table@).skip(0) =~= rows(table@));
    }
    while i < table.len()
        invariant
            i <= table.len(),
            first_with_prefix(rows(table@), rows(ps@)) == first_with_prefix(
                rows(table@).skip(i as int),
                rows(ps@),
            ),
        decreases table.len() - i,
    {
        if starts_with_any(&table[i], ps) {
            return Some(i);
        }
        proof {
            assert(rows(table@).skip(i as int).drop_first() =~= rows(table@).skip(i + 1));
        }
        i += 1;
    }
    None
}

/// The last line of `table` that begins with `a` and holds `sep`.
pub fn last_line_with_prefix(table: &Vec<Vec<char>>, a: &Vec<char>, sep: &Vec<char>) -> (r:
    Option<usize>)
    ensures
        match r {
            Some(i) => i < table.len() && last_with_prefix(rows(table@), a@, sep@) == Some(
                table@[i as int]@,
            ),
            None => last_with_prefix(rows(table@), a@, sep@) is None,
        },
{
    let mut i: usize = table.len();
    proof {
        assert(rows(table@).take(i as int) =~= rows(table@));
    }
    while i > 0
        invariant
            i <= table.len(),
            last_with_prefix(rows(table@), a@, sep@) == last_with_prefix(
                rows(table@).take(i as int),
                a@,
                sep@,
            ),
        decreases i,
    {
        if starts_with(&table[i - 1], a) && contains(&table[i - 1], sep) {
            return Some(i - 1);
        }
        proof {
            assert(rows(table@).take(i as int).drop_last() =~= rows(table@).take(i - 1));
        }
        i -= 1;
    }
    None
}

/// The first line of `table` that, once trimmed, begins with `a`.
pub fn line_with_trimmed_prefix(table: &Vec<Vec<char>>, a: &Vec<char>) -> (r: Option<usize>)
    ensures
        match r {
            Some(i) => i < table.len() && first_with_trimmed_prefix(rows(table@), a@) == Some(
                table@[i as int]@,
            ),
            None => first_with_trimmed_prefix(rows(table@), a@) is None,
        },
{
    let mut i: usize = 0;
    proof {
        assert(rows(table@).skip(0) =~= rows(table@));
    }
    while i < table.len()
        invariant
            i <= table.len(),
            first_with_trimmed_prefix(rows(table@), a@) == first_with_trimmed_prefix(
                rows(table@).skip(i as int),
                a@,
            ),
        decreases table.len() - i,
    {
        let t = trim(&table[i]);
        if starts_with(&t, a) {
            return Some(i);
        }
        proof {
            assert(rows(table@).skip(i as int).drop_first() =~= rows(table@).skip(i + 1));
        }
        i += 1;
    }
    None
}

/// The first line of `table` in which one of `ps` occurs.
pub fn line_with_part(table: &Vec<Vec<char>>, ps: &Vec<Vec<char>>) -> (r: Option<usize>)
    ensures
        match r {
            Some(i) => i < table.len() && first_with_part(rows(table@), rows(ps@)) == Some(
                table@[i as int]@,
            ),
            None => first_with_part(rows(table@), rows(ps@)) is None,
        },
{
    let mut i: usize = 0;
    proof {
        assert(rows(table@).skip(0) =~= rows(table@));
    }
    while i < table.len()
        invariant
            i <= table.len(),
            first_with_part(rows(table@), rows(ps@)) == first_with_part(
                rows(table@).skip(i as int),
                rows(ps@),
            ),
        decreases table.len() - i,
    {
        if contains_any(&table[i], ps) {
            return Some(i);
        }
        proof {
            assert(rows(table@).skip(i as int).drop_first() =~= rows(table@).skip(i + 1));
        }
        i += 1;
    }
    None
}

/// How many lines of `table` begin with `a`.
pub fn count_lines_with_prefix(table: &Vec<Vec<char>>, a: &Vec<char>) -> (n: usize)
    ensures
        n == count_with_prefix(rows(table@), a@),
{
    let mut n: usize = 0;
    let mut i: usize = 0;
    while i < table.len()
        invariant
            i <= table.len(),
            n <= i,
            n == count_with_prefix(rows(table@).take(i as int), a@),
        decreases table.len() - i,
    {
        proof {
            assert(rows(table@).take(i + 1).drop_last() =~= rows(table@).take(i as int));
        }
        if starts_with(&table[i], a) {
            n += 1;
        }
        i += 1;
    }
    proof {
        assert(rows(table@).take(table.len() as int) =~= rows(table@));
    }
    n
}

} // verus!
