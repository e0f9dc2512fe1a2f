//! Text helpers: decimal rendering, splitting on a separator, trimming
//! Unicode white space, and ASCII byte comparison.
use vstd::prelude::*;

verus! {

/// Appends one character to a string (`String::push`).
#[verifier::external_body]
pub(crate) fn push_char(s: &mut String, c: char)
    ensures
        final(s)@ == old(s)@.push(c),
{
    s.push(c);
}

/// The character of a decimal digit.
pub open spec fn digit_char(d: nat) -> char {
    (48 + d) as char
}

/// The decimal rendering of a natural number, without leading zeros.
pub open spec fn decimal(n: nat) -> Seq<char>
    decreases n,
{
    if n < 10 {
        seq![digit_char(n)]
    } else {
        decimal(n / 10).push(digit_char(n % 10))
    }
}

fn digit(d: u64) -> (c: char)
    requires
        d < 10,
    ensures
        c == digit_char(d as nat),
{
    let b: u8 = 48u8 + (d as u8);
    b as char
}

/// Appends the decimal rendering of `n` to `s`.
pub fn push_decimal(s: &mut String, n: u64)
    ensures
        final(s)@ == old(s)@ + decimal(n as nat),
    decreases n,
{
    if n >= 10 {
        push_decimal(s, n / 10);
    }
    push_char(s, digit(n % 10));
}


/// The pieces of `s` between occurrences of `sep`, as `str::split` yields
/// them: an empty text gives one empty piece, and a trailing separator
/// gives a trailing empty piece.
pub open spec fn split_on(s: Seq<char>, sep: char) -> Seq<Seq<char>>
    decreases s.len(),
{
    if s.len() == 0 {
        seq![Seq::<char>::empty()]
    } else {
        let before = split_on(s.drop_last(), sep);
        if s.last() == sep {
            before.push(Seq::<char>::empty())
        } else {
            before.update(before.len() - 1, before.last().push(s.last()))
        }
    }
}

/// The pieces joined back together with the separator between them.
pub open spec fn join_with(pieces: Seq<Seq<char>>, sep: char) -> Seq<char>
    decreases pieces.len(),
{
    if pieces.len() == 0 {
        Seq::<char>::empty()
    } else if pieces.len() == 1 {
        pieces[0]
    } else {
        join_with(pieces.drop_last(), sep).push(sep) + pieces.last()
    }
}

/// The views of a vector of strings.
pub open spec fn string_views(v: Seq<String>) -> Seq<Seq<char>> {
    v.map_values(|x: String| x@)
}

/// Splitting never yields an empty list of pieces.
pub proof fn lemma_split_nonempty(s: Seq<char>, sep: char)
    ensures
        split_on(s, sep).len() >= 1,
    decreases s.len(),
{
    if s.len() > 0 {
        lemma_split_nonempty(s.drop_last(), sep);
    }
}

/// Joining the pieces of a split with the same separator gives the text back.
pub proof fn lemma_split_join(s: Seq<char>, sep: char)
    ensures
        join_with(split_on(s, sep), sep) == s,
    decreases s.len(),
{
    if s.len() > 0 {
        let t = s.drop_last();
        lemma_split_join(t, sep);
        lemma_split_nonempty(t, sep);
        let before = split_on(t, sep);
        if s.last() == sep {
            let after = before.push(Seq::<char>::empty());
            assert(after.drop_last() =~= before);
            assert(s =~= t.push(sep));
        } else {
            let after = before.update(before.len() - 1, before.last().push(s.last()));
            if before.len() == 1 {
                assert(s =~= before[0].push(s.last()));
            } else {
                assert(after.drop_last() =~= before.drop_last());
                let a = join_with(before.drop_last(), sep).push(sep);
                assert(join_with(before, sep) == a + before.last());
                assert(s =~= t.push(s.last()));
                assert((a + before.last()).push(s.last()) =~= a + before.last().push(s.last()));
                assert(after.last() == before.last().push(s.last()));
                assert(join_with(after, sep) == join_with(after.drop_last(), sep).push(sep)
                    + after.last());
            }
        }
    }
}

/// No piece of a split holds the separator.
pub proof fn lemma_split_pieces_free_of_sep(s: Seq<char>, sep: char)
    ensures
        forall|i: int| 0 <= i < split_on(s, sep).len() ==> !(#[trigger] split_on(s, sep)[i]).contains(sep),
    decreases s.len(),
{
    if s.len() > 0 {
        let t = s.drop_last();
        lemma_split_pieces_free_of_sep(t, sep);
        lemma_split_nonempty(t, sep);
        let before = split_on(t, sep);
        if s.last() != sep {
            let after = split_on(s, sep);
            assert forall|i: int| 0 <= i < after.len() implies !(#[trigger] after[i]).contains(sep) by {
                if i == before.len() - 1 {
                    let p = before.last().push(s.last());
                    assert(after[i] == p);
                    if p.contains(sep) {
                        let k = choose|k: int| 0 <= k < p.len() && p[k] == sep;
                        if k < before.last().len() {
                            assert(before.last()[k] == sep);
                            assert(before[before.len() - 1].contains(sep));
                        }
                    }
                } else {
                    assert(after[i] == before[i]);
                }
            }
        } else {
            let after = split_on(s, sep);
            assert forall|i: int| 0 <= i < after.len() implies !(#[trigger] after[i]).contains(sep) by {
                if i < before.len() {
                    assert(after[i] == before[i]);
                } else {
                    assert(after[i] =~= Seq::<char>::empty());
                }
            }
        }
    }
}

/// Splits `s` on every occurrence of `sep`, like `str::split`.
pub fn split_text(s: &str, sep: char) -> (pieces: Vec<String>)
    ensures
        string_views(pieces@) == split_on(s@, sep),
{
    let n = s.unicode_len();
    let mut pieces: Vec<String> = Vec::new();
    let mut current = String::new();
    let mut i: usize = 0;
    while i < n
        invariant
            n == s@.len(),
            i <= n,
            string_views(pieces@).push(current@) == split_on(s@.take(i as int), sep),
        decreases n - i,
    {
        let c = s.get_char(i);
        let ghost prev_views = string_views(pieces@);
        let ghost prev_current = current@;
        proof {
            assert(s@.take(i + 1).drop_last() =~= s@.take(i as int));
            assert(s@.take(i + 1).last() == c);
        }
        if c == sep {
            let done = current;
            pieces.push(done);
            current = String::new();
            assert(string_views(pieces@) =~= prev_views.push(prev_current));
            assert(string_views(pieces@).push(current@) =~= split_on(s@.take(i + 1), sep));
        } else {
            push_char(&mut current, c);
            assert(string_views(pieces@) =~= prev_views);
            assert(string_views(pieces@).push(current@) =~= split_on(s@.take(i + 1), sep));
        }
        i = i + 1;
    }
    proof {
        assert(s@.take(n as int) =~= s@);
    }
    pieces.push(current);
    assert(string_views(pieces@) =~= split_on(s@, sep));
    pieces
}


/// Unicode `White_Space`, the property that `char::is_whitespace` tests.
pub open spec fn is_white_space(c: char) -> bool {
    ||| c == ' '
    ||| ('\u{9}' <= c && c <= '\u{d}')
    ||| c == '\u{85}'
    ||| c == '\u{a0}'
    ||| c == '\u{1680}'
    ||| ('\u{2000}' <= c && c <= '\u{200a}')
    ||| c == '\u{2028}'
    ||| c == '\u{2029}'
    ||| c == '\u{202f}'
    ||| c == '\u{205f}'
    ||| c == '\u{3000}'
}

/// Whether `c` is Unicode white space.
pub fn white_space(c: char) -> (b: bool)
    ensures
        b == is_white_space(c),
{
    c == ' ' || ('\u{9}' <= c && c <= '\u{d}') || c == '\u{85}' || c == '\u{a0}' || c
        == '\u{1680}' || ('\u{2000}' <= c && c <= '\u{200a}') || c == '\u{2028}' || c
        == '\u{2029}' || c == '\u{202f}' || c == '\u{205f}' || c == '\u{3000}'
}

/// `s` without its leading white space.
pub open spec fn trim_start(s: Seq<char>) -> Seq<char>
    decreases s.len(),
{
    if s.len() > 0 && is_white_space(s[0]) {
        trim_start(s.drop_first())
    } else {
        s
    }
}

/// `s` without its trailing white space.
pub open spec fn trim_end(s: Seq<char>) -> Seq<char>
    decreases s.len(),
{
    if s.len() > 0 && is_white_space(s.last()) {
        trim_end(s.drop_last())
    } else {
        s
    }
}

/// `s` without leading and trailing white space, as `str::trim` gives it.
pub open spec fn trim(s: Seq<char>) -> Seq<char> {
    trim_end(trim_start(s))
}

proof fn lemma_trim_start_skip(s: Seq<char>, i: int)
    requires
        0 <= i <= s.len(),
        forall|k: int| 0 <= k < i ==> is_white_space(#[trigger] s[k]),
    ensures
        trim_start(s) == trim_start(s.skip(i)),
    decreases i,
{
    if i > 0 {
        assert(s.drop_first().skip(i - 1) =~= s.skip(i));
        lemma_trim_start_skip(s.drop_first(), i - 1);
    } else {
        assert(s.skip(0) =~= s);
    }
}

proof fn lemma_trim_end_take(s: Seq<char>, j: int)
    requires
        0 <= j <= s.len(),
        forall|k: int| j <= k < s.len() ==> is_white_space(#[trigger] s[k]),
    ensures
        trim_end(s) == trim_end(s.take(j)),
    decreases s.len() - j,
{
    if j < s.len() {
        assert(s.drop_last().take(j) =~= s.take(j));
        lemma_trim_end_take(s.drop_last(), j);
    } else {
        assert(s.take(j) =~= s);
    }
}

/// Removes leading and trailing white space, like `str::trim`.
pub fn trim_text(s: &str) -> (t: &str)
    ensures
        t@ == trim(s@),
{
    let n = s.unicode_len();
    let mut start: usize = 0;
    while start < n && white_space(s.get_char(start))
        invariant
            n == s@.len(),
            start <= n,
            forall|k: int| 0 <= k < start ==> is_white_space(#[trigger] s@[k]),
        decreases n - start,
    {
        start = start + 1;
    }
    proof {
        lemma_trim_start_skip(s@, start as int);
    }
    let ghost rest = s@.skip(start as int);
    assert(trim_start(rest) == rest);
    let mut end: usize = n;
    while end > start && white_space(s.get_char(end - 1))
        invariant
            n == s@.len(),
            start <= end <= n,
            rest == s@.skip(start as int),
            forall|k: int| end - start <= k < rest.len() ==> is_white_space(#[trigger] rest[k]),
        decreases end,
    {
        assert(rest[end - 1 - start] == s@[end - 1]);
        end = end - 1;
    }
    proof {
        lemma_trim_end_take(rest, end - start);
        let kept = rest.take(end - start);
        if kept.len() > 0 {
            assert(kept.last() == s@[end - 1]);
        }
        assert(kept =~= s@.subrange(start as int, end as int));
    }
    s.substring_char(start, end)
}


/// The bytes of `a` followed by the bytes of `b`.
pub fn concat_bytes(a: &[u8], b: &[u8]) -> (c: Vec<u8>)
    ensures
        c@ == a@ + b@,
{
    let mut c: Vec<u8> = Vec::new();
    let mut i: usize = 0;
    while i < a.len()
        invariant
            i <= a@.len(),
            c@ == a@.take(i as int),
        decreases a@.len() - i,
    {
        c.push(a[i]);
        i = i + 1;
        assert(c@ =~= a@.take(i as int));
    }
    let mut j: usize = 0;
    while j < b.len()
        invariant
            j <= b@.len(),
            c@ == a@ + b@.take(j as int),
        decreases b@.len() - j,
    {
        c.push(b[j]);
        j = j + 1;
        assert(c@ =~= a@ + b@.take(j as int));
    }
    assert(a@.take(a@.len() as int) =~= a@);
    assert(b@.take(b@.len() as int) =~= b@);
    c
}

/// Whether two byte sequences are equal.
pub fn bytes_equal(a: &[u8], b: &[u8]) -> (eq: bool)
    ensures
        eq == (a@ == b@),
{
    if a.len() != b.len() {
        return false;
    }
    let mut i: usize = 0;
    while i < a.len()
        invariant
            a@.len() == b@.len(),
            i <= a@.len(),
            forall|k: int| 0 <= k < i ==> a@[k] == b@[k],
        decreases a@.len() - i,
    {
        if a[i] != b[i] {
            return false;
        }
        i = i + 1;
    }
    assert(a@ =~= b@);
    true
}

/// A copy of the bytes of a slice.
pub fn bytes_to_vec(a: &[u8]) -> (v: Vec<u8>)
    ensures
        v@ == a@,
{
    let empty: Vec<u8> = Vec::new();
    let v = concat_bytes(a, empty.as_slice());
    assert(a@ + Seq::<u8>::empty() =~= a@);
    v
}

} // verus!
