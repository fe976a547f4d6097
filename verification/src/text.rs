//! Text helpers: characters, decimal numerals, splitting and searching.

use vstd::prelude::*;

verus! {

broadcast use vstd::string::group_string_axioms;

/// The characters of `s`, in order.
pub fn chars_of(s: &str) -> (r: Vec<char>)
    ensures
        r@ == s@,
{
    let mut out: Vec<char> = Vec::new();
    for c in it: s.chars()
        invariant
            out@ == it.seq().take(it.index() as int),
            it.seq() == s@,
    {
        out.push(c);
    }
    out
}

/// Whether two texts hold the same characters.
pub fn same_text(a: &str, b: &str) -> (r: bool)
    ensures
        r == (a@ == b@),
{
    let x = chars_of(a);
    let y = chars_of(b);
    if x.len() != y.len() {
        return false;
    }
    let mut i: usize = 0;
    while i < x.len()
        invariant
            x@ == a@,
            y@ == b@,
            x.len() == y.len(),
            i <= x.len(),
            forall|j: int| 0 <= j < i ==> x@[j] == y@[j],
        decreases x.len() - i,
    {
        if x[i] != y[i] {
            return false;
        }
        i = i + 1;
    }
    assert(x@ =~= y@);
    true
}

/// `String::push`: appends one character.
#[verifier::external_body]
pub(crate) fn push_char(s: &mut String, c: char)
    ensures
        final(s)@ == old(s)@.push(c),
{
    s.push(c);
}

/// A string holding exactly the characters of `chars`.
pub fn string_from_chars(chars: &Vec<char>) -> (r: String)
    ensures
        r@ == chars@,
{
    let mut out = String::new();
    let mut i: usize = 0;
    while i < chars.len()
        invariant
            i <= chars.len(),
            out@ == chars@.take(i as int),
        decreases chars.len() - i,
    {
        push_char(&mut out, chars[i]);
        proof {
            assert(chars@.take(i + 1) =~= chars@.take(i as int).push(chars@[i as int]));
        }
        i = i + 1;
    }
    assert(chars@.take(chars.len() as int) =~= chars@);
    out
}


/// The character of a decimal digit.
pub open spec fn digit_char(d: nat) -> char {
    (d + 48) as char
}

/// The decimal numeral of `n`: no sign, no leading zero.
pub open spec fn decimal(n: nat) -> Seq<char>
    decreases n,
{
    if n < 10 {
        seq![digit_char(n)]
    } else {
        decimal(n / 10).push(digit_char(n % 10))
    }
}

/// The number that a string of decimal digits denotes.
pub open spec fn digits_value(s: Seq<char>) -> int
    decreases s.len(),
{
    if s.len() == 0 {
        0
    } else {
        digits_value(s.drop_last()) * 10 + (s.last() as int - 48)
    }
}

/// Whether every character of `s` is one of `0` to `9`.
pub open spec fn all_digits(s: Seq<char>) -> bool {
    forall|i: int| 0 <= i < s.len() ==> '0' <= #[trigger] s[i] <= '9'
}

/// `decimal(n)` is the usual decimal numeral of `n`: it is made of digits, it starts
/// with a zero only when it is `0`, and it reads back as `n`.
pub proof fn lemma_decimal(n: nat)
    ensures
        decimal(n).len() >= 1,
        all_digits(decimal(n)),
        decimal(n)[0] == '0' ==> n == 0,
        digits_value(decimal(n)) == n,
    decreases n,
{
    if n < 10 {
        assert(digits_value(decimal(n).drop_last()) == 0) by {
            assert(decimal(n).drop_last() =~= Seq::<char>::empty());
        }
    } else {
        lemma_decimal(n / 10);
        let p = decimal(n / 10);
        assert(decimal(n).drop_last() =~= p);
        assert(n == (n / 10) * 10 + n % 10) by (nonlinear_arith);
        assert(decimal(n)[0] == p[0]);
    }
}

fn digit(d: u64) -> (c: char)
    requires
        d < 10,
    ensures
        c == digit_char(d as nat),
{
    match d {
        0 => '0',
        1 => '1',
        2 => '2',
        3 => '3',
        4 => '4',
        5 => '5',
        6 => '6',
        7 => '7',
        8 => '8',
        _ => '9',
    }
}

/// Appends the decimal numeral of `n` to `out`.
pub fn push_decimal(out: &mut String, n: u64)
    ensures
        final(out)@ == old(out)@ + decimal(n as nat),
    decreases n,
{
    if n >= 10 {
        push_decimal(out, n / 10);
    }
    let ghost before = out@;
    push_char(out, digit(n % 10));
    proof {
        if n >= 10 {
            assert(before + seq![digit_char((n % 10) as nat)] =~= old(out)@ + decimal(n as nat));
        } else {
            assert(old(out)@ + decimal(n as nat) =~= before.push(digit_char(n as nat)));
        }
    }
}

/// The decimal numeral of `n`, as `n.to_string()` writes it.
pub fn decimal_string(n: u64) -> (r: String)
    ensures
        r@ == decimal(n as nat),
{
    let mut out = String::new();
    push_decimal(&mut out, n);
    assert(Seq::<char>::empty() + decimal(n as nat) =~= decimal(n as nat));
    out
}


/// The pieces of `s` between occurrences of `sep`, empty pieces included, as
/// `str::split` yields them: one piece more than there are separators.
pub open spec fn segments(s: Seq<char>, sep: char) -> Seq<Seq<char>>
    decreases s.len(),
{
    if s.len() == 0 {
        seq![Seq::empty()]
    } else {
        let p = segments(s.drop_last(), sep);
        if s.last() == sep {
            p.push(Seq::empty())
        } else {
            p.update(p.len() - 1, p.last().push(s.last()))
        }
    }
}

/// The non-empty pieces of `parts`, in order.
pub open spec fn keep_nonempty(parts: Seq<Seq<char>>) -> Seq<Seq<char>>
    decreases parts.len(),
{
    if parts.len() == 0 {
        parts
    } else if parts.last().len() == 0 {
        keep_nonempty(parts.drop_last())
    } else {
        keep_nonempty(parts.drop_last()).push(parts.last())
    }
}

/// The pieces of `parts` written one after another.
pub open spec fn flatten(parts: Seq<Seq<char>>) -> Seq<char>
    decreases parts.len(),
{
    if parts.len() == 0 {
        Seq::empty()
    } else {
        flatten(parts.drop_last()) + parts.last()
    }
}

/// The characters of `s` other than `c`, in order.
pub open spec fn without_char(s: Seq<char>, c: char) -> Seq<char>
    decreases s.len(),
{
    if s.len() == 0 {
        s
    } else if s.last() == c {
        without_char(s.drop_last(), c)
    } else {
        without_char(s.drop_last(), c).push(s.last())
    }
}

pub proof fn lemma_segments_len(s: Seq<char>, sep: char)
    ensures
        segments(s, sep).len() >= 1,
    decreases s.len(),
{
    if s.len() > 0 {
        lemma_segments_len(s.drop_last(), sep);
    }
}

/// Splitting never loses a character other than the separator, and no piece holds the
/// separator: the pieces written one after another are `s` with its separators left out.
pub proof fn lemma_segments_flatten(s: Seq<char>, sep: char)
    ensures
        flatten(segments(s, sep)) == without_char(s, sep),
        forall|i: int, j: int|
            0 <= i < segments(s, sep).len() && 0 <= j < segments(s, sep)[i].len()
                ==> segments(s, sep)[i][j] != sep,
    decreases s.len(),
{
    if s.len() > 0 {
        let p = segments(s.drop_last(), sep);
        lemma_segments_flatten(s.drop_last(), sep);
        lemma_segments_len(s.drop_last(), sep);
        if s.last() == sep {
            let q = p.push(Seq::empty());
            assert(q.drop_last() =~= p);
            assert(flatten(q) == flatten(q.drop_last()) + q.last());
            assert(flatten(p) + Seq::<char>::empty() =~= flatten(p));
            assert(flatten(q) == flatten(p));
        } else {
            let q = p.update(p.len() - 1, p.last().push(s.last()));
            assert(q.drop_last() =~= p.drop_last());
            assert(p.drop_last().push(p.last()) =~= p);
            assert(flatten(p) == flatten(p.drop_last()) + p.last());
            assert(flatten(q) == flatten(q.drop_last()) + q.last());
            assert(flatten(q) =~= flatten(p).push(s.last()));
        }
    } else {
        let q = segments(s, sep);
        assert(q.drop_last() =~= Seq::<Seq<char>>::empty());
        assert(flatten(q) == flatten(q.drop_last()) + q.last());
        assert(flatten(q) =~= Seq::<char>::empty());
    }
}

/// Leaving out the empty pieces does not change what the pieces spell, and leaves no
/// empty piece.
pub proof fn lemma_keep_nonempty(parts: Seq<Seq<char>>)
    ensures
        flatten(keep_nonempty(parts)) == flatten(parts),
        forall|i: int| 0 <= i < keep_nonempty(parts).len() ==> #[trigger] keep_nonempty(parts)[i].len() > 0,
        forall|i: int|
            0 <= i < keep_nonempty(parts).len() ==> exists|j: int|
                0 <= j < parts.len() && parts[j] == #[trigger] keep_nonempty(parts)[i],
    decreases parts.len(),
{
    if parts.len() > 0 {
        let p = parts.drop_last();
        lemma_keep_nonempty(p);
        let k = keep_nonempty(p);
        if parts.last().len() == 0 {
            assert(flatten(parts) =~= flatten(p));
            assert forall|i: int| 0 <= i < k.len() implies exists|j: int|
                0 <= j < parts.len() && parts[j] == #[trigger] k[i] by {
                let j = choose|j: int| 0 <= j < p.len() && p[j] == k[i];
                assert(parts[j] == p[j]);
            }
        } else {
            assert(k.push(parts.last()).drop_last() =~= k);
            assert forall|i: int| 0 <= i < k.len() + 1 implies exists|j: int|
                0 <= j < parts.len() && parts[j] == #[trigger] k.push(parts.last())[i] by {
                if i < k.len() {
                    let j = choose|j: int| 0 <= j < p.len() && p[j] == k[i];
                    assert(parts[j] == p[j]);
                } else {
                    assert(parts[parts.len() - 1] == parts.last());
                }
            }
        }
    }
}

/// Splits `v` at every `sep`, keeping empty pieces.
pub fn split_all(v: &Vec<char>, sep: char) -> (r: Vec<Vec<char>>)
    ensures
        r@.map_values(|x: Vec<char>| x@) == segments(v@, sep),
{
    let mut out: Vec<Vec<char>> = Vec::new();
    let mut cur: Vec<char> = Vec::new();
    let mut i: usize = 0;
    assert(v@.take(0) =~= Seq::<char>::empty());
    while i < v.len()
        invariant
            i <= v.len(),
            out@.map_values(|x: Vec<char>| x@).push(cur@) == segments(v@.take(i as int), sep),
        decreases v.len() - i,
    {
        let ghost before = out@.map_values(|x: Vec<char>| x@).push(cur@);
        proof {
            assert(v@.take(i + 1).drop_last() =~= v@.take(i as int));
            assert(v@.take(i + 1).last() == v@[i as int]);
        }
        if v[i] == sep {
            let piece = cur;
            cur = Vec::new();
            out.push(piece);
            assert(out@.map_values(|x: Vec<char>| x@).push(cur@) =~= before.push(Seq::empty()));
        } else {
            cur.push(v[i]);
            assert(out@.map_values(|x: Vec<char>| x@).push(cur@) =~= before.update(
                before.len() - 1,
                before.last().push(v@[i as int]),
            ));
        }
        i = i + 1;
    }
    assert(v@.take(v.len() as int) =~= v@);
    out.push(cur);
    out
}

/// The non-empty pieces of `s` between occurrences of `sep`, as strings, in order:
/// what `s.split(sep).filter(|p| !p.is_empty())` yields.
pub fn split_nonempty(s: &str, sep: char) -> (r: Vec<String>)
    ensures
        r@.map_values(|x: String| x@) == keep_nonempty(segments(s@, sep)),
{
    let chars = chars_of(s);
    let pieces = split_all(&chars, sep);
    let ghost all = pieces@.map_values(|x: Vec<char>| x@);
    let mut out: Vec<String> = Vec::new();
    let mut i: usize = 0;
    while i < pieces.len()
        invariant
            i <= pieces.len(),
            all == pieces@.map_values(|x: Vec<char>| x@),
            all == segments(s@, sep),
            out@.map_values(|x: String| x@) == keep_nonempty(all.take(i as int)),
        decreases pieces.len() - i,
    {
        proof {
            assert(all.take(i + 1).drop_last() =~= all.take(i as int));
            assert(all.take(i + 1).last() == pieces@[i as int]@);
        }
        if pieces[i].len() > 0 {
            let ghost before = out@.map_values(|x: String| x@);
            let piece = string_from_chars(&pieces[i]);
            out.push(piece);
            assert(out@.map_values(|x: String| x@) =~= before.push(pieces@[i as int]@));
        }
        i = i + 1;
    }
    assert(all.take(pieces.len() as int) =~= all);
    out
}

/// Whether `s` begins with `p`.
pub open spec fn starts_with(s: Seq<char>, p: Seq<char>) -> bool {
    p.len() <= s.len() && s.take(p.len() as int) == p
}

/// Whether `v` begins with `p`.
pub fn has_prefix(v: &Vec<char>, p: &Vec<char>) -> (r: bool)
    ensures
        r == starts_with(v@, p@),
{
    if p.len() > v.len() {
        return false;
    }
    let mut i: usize = 0;
    while i < p.len()
        invariant
            p.len() <= v.len(),
            i <= p.len(),
            forall|j: int| 0 <= j < i ==> v@[j] == p@[j],
        decreases p.len() - i,
    {
        if v[i] != p[i] {
            assert(v@.take(p.len() as int)[i as int] != p@[i as int]);
            return false;
        }
        i = i + 1;
    }
    assert(v@.take(p.len() as int) =~= p@);
    true
}

/// Whether `pat` occurs in `s` at position `i`.
pub open spec fn occurs_at(s: Seq<char>, pat: Seq<char>, i: int) -> bool {
    0 <= i && i + pat.len() <= s.len() && s.subrange(i, i + pat.len()) == pat
}

/// The first position at or after `i` where `pat` occurs in `s`.
pub open spec fn find_from(s: Seq<char>, pat: Seq<char>, i: nat) -> Option<nat>
    decreases s.len() + 1 - i,
{
    if i + pat.len() > s.len() {
        None
    } else if s.subrange(i as int, (i + pat.len()) as int) == pat {
        Some(i)
    } else {
        find_from(s, pat, i + 1)
    }
}

/// The first position at or after `start` where `pat` occurs in `v`.
pub fn find(v: &Vec<char>, pat: &Vec<char>, start: usize) -> (r: Option<usize>)
    ensures
        r matches Some(k) ==> find_from(v@, pat@, start as nat) == Some(k as nat),
        r matches Some(k) ==> start <= k && k + pat@.len() <= v@.len(),
        r is None ==> find_from(v@, pat@, start as nat) is None,
{
    let mut i: usize = start;
    while i <= v.len() && pat.len() <= v.len() - i
        invariant
            start <= i,
            find_from(v@, pat@, start as nat) == find_from(v@, pat@, i as nat),
        decreases v.len() + 1 - i,
    {
        let mut j: usize = 0;
        let mut same = true;
        while j < pat.len()
            invariant
                i + pat.len() <= v.len(),
                j <= pat.len(),
                same == (forall|k: int| 0 <= k < j ==> v@[i + k] == pat@[k]),
            decreases pat.len() - j,
        {
            if v[i + j] != pat[j] {
                same = false;
            }
            j = j + 1;
        }
        if same {
            assert(v@.subrange(i as int, i + pat.len()) =~= pat@);
            return Some(i);
        }
        assert(v@.subrange(i as int, i + pat.len()) != pat@) by {
            let k = choose|k: int| 0 <= k < pat.len() && v@[i + k] != pat@[k];
            assert(v@.subrange(i as int, i + pat.len())[k] == v@[i + k]);
        }
        i = i + 1;
    }
    None
}

/// The characters of `v` from `from` up to `to`.
pub fn slice_chars(v: &Vec<char>, from: usize, to: usize) -> (r: Vec<char>)
    requires
        from <= to <= v.len(),
    ensures
        r@ == v@.subrange(from as int, to as int),
{
    let mut out: Vec<char> = Vec::new();
    let mut i = from;
    while i < to
        invariant
            from <= i <= to <= v.len(),
            out@ == v@.subrange(from as int, i as int),
        decreases to - i,
    {
        out.push(v[i]);
        assert(out@ =~= v@.subrange(from as int, i + 1));
        i = i + 1;
    }
    out
}

} // verus!
