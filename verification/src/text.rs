//! Character-level views of text used by the key and header parsers.

use vstd::prelude::*;

verus! {

broadcast use vstd::string::group_string_axioms;

/// The characters of `s`, in order.
pub fn chars_of(s: &str) -> (v: Vec<char>)
    ensures
        v@ == s@,
{
    let mut v: Vec<char> = Vec::new();
    for c in it: s.chars()
        invariant
            it.seq() == s@,
            v@ == s@.take(it.index()),
    {
        v.push(c);
    }
    assert(v@ =~= s@);
    v
}


/// The part of `s` before the first occurrence of `sep`; all of `s` when
/// `sep` does not occur.
pub open spec fn prefix_before(s: Seq<char>, sep: char) -> Seq<char>
    decreases s.len(),
{
    if s.len() == 0 {
        s
    } else if s[0] == sep {
        Seq::empty()
    } else {
        seq![s[0]] + prefix_before(s.drop_first(), sep)
    }
}

/// The part of `s` that starts at `from` and ends right before the next
/// `sep` (or at the end of `s`) is what `prefix_before` gives for the
/// suffix of `s` from `from`.
pub proof fn lemma_prefix_before(s: Seq<char>, sep: char, from: int, to: int)
    requires
        0 <= from <= to <= s.len(),
        forall|k: int| from <= k < to ==> s[k] != sep,
        to == s.len() || s[to] == sep,
    ensures
        prefix_before(s.skip(from), sep) == s.subrange(from, to),
    decreases to - from,
{
    let t = s.skip(from);
    if from == to {
        assert(s.subrange(from, to) =~= Seq::<char>::empty());
    } else {
        lemma_prefix_before(s, sep, from + 1, to);
        assert(t.drop_first() =~= s.skip(from + 1));
        assert(s.subrange(from, to) =~= seq![s[from]] + s.subrange(from + 1, to));
    }
}

/// The part before the first `sep` of a text that starts with `x`, free of
/// `sep`, followed by `sep`, is `x`, whatever follows.
pub proof fn lemma_prefix_before_concat(x: Seq<char>, rest: Seq<char>, sep: char)
    requires
        forall|k: int| 0 <= k < x.len() ==> x[k] != sep,
    ensures
        prefix_before(x + seq![sep] + rest, sep) == x,
    decreases x.len(),
{
    let t = x + seq![sep] + rest;
    if x.len() == 0 {
        assert(t[0] == sep);
        assert(x =~= Seq::<char>::empty());
    } else {
        lemma_prefix_before_concat(x.drop_first(), rest, sep);
        assert(t.drop_first() =~= x.drop_first() + seq![sep] + rest);
        assert(x =~= seq![x[0]] + x.drop_first());
    }
}

/// A text free of `sep` is its own part before `sep`.
pub proof fn lemma_prefix_before_whole(x: Seq<char>, sep: char)
    requires
        forall|k: int| 0 <= k < x.len() ==> x[k] != sep,
    ensures
        prefix_before(x, sep) == x,
{
    lemma_prefix_before(x, sep, 0, x.len() as int);
    assert(x.skip(0) =~= x);
    assert(x.subrange(0, x.len() as int) =~= x);
}

/// The index of the first `sep` in `v` at or after `from`, or `v.len()`.
pub fn find_char(v: &Vec<char>, from: usize, sep: char) -> (i: usize)
    requires
        from <= v.len(),
    ensures
        from <= i <= v.len(),
        forall|k: int| from <= k < i ==> v@[k] != sep,
        i == v.len() || v@[i as int] == sep,
        prefix_before(v@.skip(from as int), sep) == v@.subrange(from as int, i as int),
{
    let mut i = from;
    while i < v.len() && v[i] != sep
        invariant
            from <= i <= v.len(),
            forall|k: int| from <= k < i ==> v@[k] != sep,
        decreases v.len() - i,
    {
        i = i + 1;
    }
    proof {
        lemma_prefix_before(v@, sep, from as int, i as int);
    }
    i
}

/// Whether `v[from..to]` spells out `lit`.
pub fn segment_is(v: &Vec<char>, from: usize, to: usize, lit: &str) -> (b: bool)
    requires
        from <= to <= v.len(),
    ensures
        b == (v@.subrange(from as int, to as int) == lit@),
{
    let l = chars_of(lit);
    if l.len() != to - from {
        return false;
    }
    let mut k: usize = 0;
    while k < l.len()
        invariant
            l@ == lit@,
            l.len() == to - from,
            from <= to <= v.len(),
            0 <= k <= l.len(),
            forall|j: int| 0 <= j < k ==> v@[from + j] == l@[j],
        decreases l.len() - k,
    {
        if v[from + k] != l[k] {
            assert(v@.subrange(from as int, to as int)[k as int] != lit@[k as int]);
            return false;
        }
        k = k + 1;
    }
    assert(v@.subrange(from as int, to as int) =~= lit@);
    true
}

/// Whether `c` has the Unicode `White_Space` property.
pub open spec fn is_white_space(c: char) -> bool {
    let u = c as u32;
    ||| 0x9 <= u <= 0xd
    ||| u == 0x20
    ||| u == 0x85
    ||| u == 0xa0
    ||| u == 0x1680
    ||| 0x2000 <= u <= 0x200a
    ||| u == 0x2028
    ||| u == 0x2029
    ||| u == 0x202f
    ||| u == 0x205f
    ||| u == 0x3000
}

/// Whether `c` has the Unicode `White_Space` property.
pub fn white_space(c: char) -> (b: bool)
    ensures
        b == is_white_space(c),
{
    let u = c as u32;
    (0x9 <= u && u <= 0xd) || u == 0x20 || u == 0x85 || u == 0xa0 || u == 0x1680 || (0x2000
        <= u && u <= 0x200a) || u == 0x2028 || u == 0x2029 || u == 0x202f || u == 0x205f || u
        == 0x3000
}

/// `s` without its leading white space.
pub open spec fn trim_start(s: Seq<char>) -> Seq<char>
    decreases s.len(),
{
    if s.len() > 0 && is_white_space(s[0]) {
        trim_start(s.drop_first())
    } else {
        s
    }
}

/// `s` without its trailing white space.
pub open spec fn trim_end(s: Seq<char>) -> Seq<char>
    decreases s.len(),
{
    if s.len() > 0 && is_white_space(s.last()) {
        trim_end(s.drop_last())
    } else {
        s
    }
}

/// `s` without its leading and trailing white space.
pub open spec fn trim(s: Seq<char>) -> Seq<char> {
    trim_end(trim_start(s))
}

/// The pieces of `s` between occurrences of `sep`, in order; there is always
/// one more piece than there are separators.
pub open spec fn split_on(s: Seq<char>, sep: char) -> Seq<Seq<char>>
    decreases s.len(),
{
    let head = prefix_before(s, sep);
    if head.len() >= s.len() {
        seq![s]
    } else {
        seq![head] + split_on(s.skip(head.len() + 1int), sep)
    }
}

proof fn lemma_trim_start(s: Seq<char>, from: int, a: int, to: int)
    requires
        0 <= from <= a <= to <= s.len(),
        forall|k: int| from <= k < a ==> is_white_space(s[k]),
        a == to || !is_white_space(s[a]),
    ensures
        trim_start(s.subrange(from, to)) == s.subrange(a, to),
    decreases a - from,
{
    if from < a {
        lemma_trim_start(s, from + 1, a, to);
        assert(s.subrange(from, to).drop_first() =~= s.subrange(from + 1, to));
    }
}

proof fn lemma_trim_end(s: Seq<char>, a: int, b: int, to: int)
    requires
        0 <= a <= b <= to <= s.len(),
        forall|k: int| b <= k < to ==> is_white_space(s[k]),
        a == b || !is_white_space(s[b - 1]),
    ensures
        trim_end(s.subrange(a, to)) == s.subrange(a, b),
    decreases to - b,
{
    if b < to {
        lemma_trim_end(s, a, b, to - 1);
        assert(s.subrange(a, to).drop_last() =~= s.subrange(a, to - 1));
    }
}

/// The bounds of `v[from..to]` once its leading and trailing white space is
/// left out.
pub fn trim_bounds(v: &Vec<char>, from: usize, to: usize) -> (r: (usize, usize))
    requires
        from <= to <= v.len(),
    ensures
        from <= r.0 <= r.1 <= to,
        v@.subrange(r.0 as int, r.1 as int) == trim(v@.subrange(from as int, to as int)),
{
    let mut a = from;
    while a < to && white_space(v[a])
        invariant
            from <= a <= to <= v.len(),
            forall|k: int| from <= k < a ==> is_white_space(v@[k]),
        decreases to - a,
    {
        a = a + 1;
    }
    let mut b = to;
    while b > a && white_space(v[b - 1])
        invariant
            a <= b <= to <= v.len(),
            forall|k: int| b <= k < to ==> is_white_space(v@[k]),
        decreases b,
    {
        b = b - 1;
    }
    proof {
        lemma_trim_start(v@, from as int, a as int, to as int);
        lemma_trim_end(v@, a as int, b as int, to as int);
    }
    (a, b)
}

/// The views of a list of strings.
pub open spec fn strings_view(v: Seq<String>) -> Seq<Seq<char>> {
    v.map_values(|s: String| s@)
}

/// The pieces of `s` between occurrences of `sep`, each without its leading
/// and trailing white space.
pub open spec fn split_trimmed(s: Seq<char>, sep: char) -> Seq<Seq<char>> {
    split_on(s, sep).map_values(|p: Seq<char>| trim(p))
}

/// Split `s` on `sep` and trim white space off each piece.
pub fn split_and_trim(s: &str, sep: char) -> (r: Vec<String>)
    ensures
        strings_view(r@) == split_trimmed(s@, sep),
{
    let v = chars_of(s);
    let mut out: Vec<String> = Vec::new();
    let mut start: usize = 0;
    proof {
        assert(v@.skip(0) =~= v@);
        assert(strings_view(out@) =~= Seq::<Seq<char>>::empty());
        assert(strings_view(out@) + split_trimmed(v@, sep) =~= split_trimmed(v@, sep));
    }
    loop
        invariant
            v@ == s@,
            start <= v.len(),
            strings_view(out@) + split_trimmed(v@.skip(start as int), sep) == split_trimmed(v@, sep),
        decreases v.len() - start,
    {
        let end = find_char(&v, start, sep);
        let (a, b) = trim_bounds(&v, start, end);
        let piece = s.substring_char(a, b).to_owned();
        let ghost rest = v@.skip(start as int);
        let ghost head = prefix_before(rest, sep);
        proof {
            assert(head == v@.subrange(start as int, end as int));
        }
        if end == v.len() {
            proof {
                assert(rest =~= v@.subrange(start as int, end as int));
                assert(split_on(rest, sep) == seq![rest]);
                assert(split_trimmed(rest, sep) =~= seq![trim(rest)]);
            }
            out.push(piece);
            assert(strings_view(out@) =~= strings_view(out@.drop_last()).push(piece@));
            assert(split_trimmed(v@, sep) =~= strings_view(out@));
            return out;
        }
        proof {
            assert(rest.skip(head.len() + 1int) =~= v@.skip(end + 1));
            assert(split_on(rest, sep) == seq![head] + split_on(v@.skip(end + 1), sep));
            assert(split_trimmed(rest, sep) =~= seq![trim(head)] + split_trimmed(v@.skip(end + 1), sep));
        }
        let ghost before = strings_view(out@);
        out.push(piece);
        assert(strings_view(out@) =~= before.push(piece@));
        assert(strings_view(out@) + split_trimmed(v@.skip(end + 1), sep) =~= before
            + split_trimmed(rest, sep));
        start = end + 1;
    }
}

/// The character of a decimal digit.
pub open spec fn digit_char(d: nat) -> char {
    (48 + d) as char
}

/// The decimal numeral of `n`, without sign or leading zeros.
pub open spec fn decimal(n: nat) -> Seq<char>
    decreases n,
{
    if n < 10 {
        seq![digit_char(n)]
    } else {
        decimal(n / 10).push(digit_char(n % 10))
    }
}

fn digit_str(d: u64) -> (s: &'static str)
    requires
        d < 10,
    ensures
        s@ == seq![digit_char(d as nat)],
{
    proof {
        reveal_strlit("0");
        reveal_strlit("1");
        reveal_strlit("2");
        reveal_strlit("3");
        reveal_strlit("4");
        reveal_strlit("5");
        reveal_strlit("6");
        reveal_strlit("7");
        reveal_strlit("8");
        reveal_strlit("9");
    }
    match d {
        0 => "0",
        1 => "1",
        2 => "2",
        3 => "3",
        4 => "4",
        5 => "5",
        6 => "6",
        7 => "7",
        8 => "8",
        _ => "9",
    }
}

/// Append the decimal numeral of `n` to `out`.
pub fn push_decimal(out: &mut String, n: u64)
    ensures
        final(out)@ == old(out)@ + decimal(n as nat),
    decreases n,
{
    if n >= 10 {
        push_decimal(out, n / 10);
    }
    out.append(digit_str(n % 10));
    assert(out@ =~= old(out)@ + decimal(n as nat)) by {
        if n >= 10 {
            assert(decimal(n as nat) == decimal((n / 10) as nat).push(digit_char((n % 10) as nat)));
        }
    }
}

} // verus!
