//! Character-level helpers on strings, with their specifications.

use vstd::prelude::*;

verus! {

/// `String::push`. Claimed: the string grows by that one character.
#[verifier::external_body]
pub(crate) fn push_char(s: &mut String, c: char)
    ensures
        final(s)@ == old(s)@.push(c),
{
    s.push(c);
}

/// The characters of a string, in order.
pub fn chars_of(s: &str) -> (r: Vec<char>)
    ensures
        r@ == s@,
{
    let mut r: Vec<char> = Vec::new();
    for c in it: s.chars()
        invariant
            r@ == it.seq().take(it.index() as int),
            it.seq() == s@,
    {
        r.push(c);
    }
    r
}

/// The string made of the given characters.
pub fn string_of(v: &Vec<char>) -> (r: String)
    ensures
        r@ == v@,
{
    let mut r = String::new();
    let mut i: usize = 0;
    while i < v.len()
        invariant
            i <= v.len(),
            r@ == v@.take(i as int),
        decreases v.len() - i,
    {
        push_char(&mut r, v[i]);
        assert(v@.take(i as int).push(v@[i as int]) =~= v@.take(i + 1));
        i = i + 1;
    }
    assert(v@.take(v.len() as int) =~= v@);
    r
}


/// The text that `str::replace` produces: every non-overlapping occurrence of
/// `from`, found left to right, replaced by `to`; an empty `from` occurs
/// before each character and at the end.
pub open spec fn replace_spec(s: Seq<char>, from: Seq<char>, to: Seq<char>) -> Seq<char>
    decreases s.len(),
{
    if from.len() == 0 {
        if s.len() == 0 {
            to
        } else {
            to + seq![s[0]] + replace_spec(s.skip(1), from, to)
        }
    } else if s.len() == 0 {
        Seq::empty()
    } else if from.len() <= s.len() && s.take(from.len() as int) == from {
        to + replace_spec(s.skip(from.len() as int), from, to)
    } else {
        seq![s[0]] + replace_spec(s.skip(1), from, to)
    }
}

/// Replacing a pattern whose first character does not occur in the text
/// leaves the text as it is.
pub proof fn lemma_replace_absent(s: Seq<char>, from: Seq<char>, to: Seq<char>)
    requires
        from.len() > 0,
        !s.contains(from[0]),
    ensures
        replace_spec(s, from, to) == s,
    decreases s.len(),
{
    if s.len() > 0 {
        if from.len() <= s.len() && s.take(from.len() as int) == from {
            assert(s.take(from.len() as int)[0] == s[0]);
            assert(s.contains(from[0]));
        }
        assert forall|c: char| s.skip(1).contains(c) implies s.contains(c) by {
            let k = choose|k: int| 0 <= k < s.skip(1).len() && s.skip(1)[k] == c;
            assert(s[k + 1] == c);
        }
        lemma_replace_absent(s.skip(1), from, to);
        assert(seq![s[0]] + s.skip(1) =~= s);
    }
}

/// Replacing a text that is exactly the pattern gives the replacement.
pub proof fn lemma_replace_whole(from: Seq<char>, to: Seq<char>)
    requires
        from.len() > 0,
    ensures
        replace_spec(from, from, to) == to,
{
    assert(from.take(from.len() as int) =~= from);
    assert(from.skip(from.len() as int) =~= Seq::<char>::empty());
    assert(replace_spec(Seq::<char>::empty(), from, to) == Seq::<char>::empty());
    assert(to + Seq::<char>::empty() =~= to);
}

/// Whether `pat` occurs in `v` at position `i`.
fn occurs_at(v: &Vec<char>, i: usize, pat: &Vec<char>) -> (r: bool)
    requires
        i <= v.len(),
    ensures
        r == (pat@.len() <= v@.len() - i && v@.skip(i as int).take(pat@.len() as int) == pat@),
{
    if pat.len() > v.len() - i {
        return false;
    }
    let mut j: usize = 0;
    while j < pat.len()
        invariant
            i <= v.len(),
            pat@.len() <= v@.len() - i,
            j <= pat.len(),
            forall|k: int| 0 <= k < j ==> v@[i + k] == pat@[k],
        decreases pat.len() - j,
    {
        if v[i + j] != pat[j] {
            assert(v@.skip(i as int).take(pat@.len() as int)[j as int] != pat@[j as int]);
            return false;
        }
        j = j + 1;
    }
    assert(v@.skip(i as int).take(pat@.len() as int) =~= pat@);
    true
}

/// Appends all of `w` to `out`.
fn extend_chars(out: &mut Vec<char>, w: &Vec<char>)
    ensures
        final(out)@ == old(out)@ + w@,
{
    let mut j: usize = 0;
    while j < w.len()
        invariant
            j <= w.len(),
            out@ == old(out)@ + w@.take(j as int),
        decreases w.len() - j,
    {
        out.push(w[j]);
        assert(w@.take(j as int).push(w@[j as int]) =~= w@.take(j + 1));
        j = j + 1;
    }
    assert(w@.take(w.len() as int) =~= w@);
}

/// Inserts `to` before each character of `s` and at its end, as
/// `str::replace` does for an empty pattern.
fn interleave(sv: &Vec<char>, tv: &Vec<char>) -> (r: Vec<char>)
    ensures
        r@ == replace_spec(sv@, Seq::<char>::empty(), tv@),
{
    let ghost empty = Seq::<char>::empty();
    let mut out: Vec<char> = Vec::new();
    let mut i: usize = 0;
    assert(sv@.skip(0) =~= sv@);
    while i < sv.len()
        invariant
            i <= sv.len(),
            empty == Seq::<char>::empty(),
            replace_spec(sv@, empty, tv@) == out@ + replace_spec(sv@.skip(i as int), empty, tv@),
        decreases sv.len() - i,
    {
        let ghost rest = sv@.skip(i as int);
        let ghost out0 = out@;
        assert(rest.skip(1) =~= sv@.skip(i + 1));
        assert(rest[0] == sv@[i as int]);
        assert(rest.len() > 0);
        assert(replace_spec(rest, empty, tv@) == tv@ + seq![rest[0]] + replace_spec(rest.skip(1), empty, tv@));
        extend_chars(&mut out, tv);
        out.push(sv[i]);
        assert(out@ + replace_spec(sv@.skip(i + 1), empty, tv@) =~= out0 + (tv@ + seq![sv@[i as int]]
            + replace_spec(sv@.skip(i + 1), empty, tv@)));
        i = i + 1;
    }
    assert(sv@.skip(i as int) =~= Seq::<char>::empty());
    extend_chars(&mut out, tv);
    out
}

/// `s.replace(from, to)`.
pub fn replace_all(s: &str, from: &str, to: &str) -> (r: String)
    ensures
        r@ == replace_spec(s@, from@, to@),
{
    let sv = chars_of(s);
    let fv = chars_of(from);
    let tv = chars_of(to);
    if fv.len() == 0 {
        assert(from@ =~= Seq::<char>::empty());
        let out = interleave(&sv, &tv);
        return string_of(&out);
    }
    let mut out: Vec<char> = Vec::new();
    let mut i: usize = 0;
    assert(sv@.skip(0) =~= sv@);
    while i < sv.len()
        invariant
            i <= sv.len(),
            sv@ == s@,
            fv@ == from@,
            tv@ == to@,
            fv@.len() > 0,
            replace_spec(s@, from@, to@) == out@ + replace_spec(sv@.skip(i as int), from@, to@),
        decreases sv.len() - i,
    {
        let rest = Ghost(sv@.skip(i as int));
        if occurs_at(&sv, i, &fv) {
            extend_chars(&mut out, &tv);
            assert(rest@.skip(fv@.len() as int) =~= sv@.skip(i + fv@.len()));
            i = i + fv.len();
        } else {
            out.push(sv[i]);
            assert(rest@.skip(1) =~= sv@.skip(i + 1));
            i = i + 1;
        }
    }
    assert(sv@.skip(i as int) =~= Seq::<char>::empty());
    string_of(&out)
}

/// The decimal digit character for `d`.
pub open spec fn digit_char(d: nat) -> char {
    (48 + d) as char
}

/// The decimal notation of `n`, as `u64`'s `Display` writes it.
pub open spec fn decimal(n: nat) -> Seq<char>
    decreases n,
{
    if n < 10 {
        seq![digit_char(n)]
    } else {
        decimal(n / 10).push(digit_char(n % 10))
    }
}

/// The number a string of decimal digits stands for, read left to right.
pub open spec fn digits_value(s: Seq<char>) -> int
    decreases s.len(),
{
    if s.len() == 0 {
        0
    } else {
        digits_value(s.drop_last()) * 10 + ((s.last() as int) - 48)
    }
}

/// The decimal text of a number is made of digits only, starts with a
/// non-zero digit unless the number is zero, and stands for the number.
pub proof fn lemma_decimal_reads_back(n: nat)
    ensures
        decimal(n).len() > 0,
        forall|i: int| 0 <= i < decimal(n).len() ==> '0' <= #[trigger] decimal(n)[i] <= '9',
        n > 0 ==> decimal(n)[0] != '0',
        digits_value(decimal(n)) == n,
    decreases n,
{
    if n >= 10 {
        lemma_decimal_reads_back(n / 10);
        let d = decimal(n);
        assert(d.drop_last() =~= decimal(n / 10));
        assert(d.last() == digit_char(n % 10));
        assert(((digit_char(n % 10)) as int) == 48 + (n % 10));
        assert(digits_value(d) == digits_value(decimal(n / 10)) * 10 + (n % 10));
        assert((n / 10) * 10 + n % 10 == n) by (nonlinear_arith);
        assert forall|i: int| 0 <= i < d.len() implies '0' <= #[trigger] d[i] <= '9' by {
            if i < d.len() - 1 {
                assert(d[i] == decimal(n / 10)[i]);
            }
        }
        assert(d[0] == decimal(n / 10)[0]);
    } else {
        assert(((digit_char(n)) as int) == 48 + n);
        assert(decimal(n).drop_last() =~= Seq::<char>::empty());
        assert(digits_value(Seq::<char>::empty()) == 0);
        assert(digits_value(decimal(n)) == digits_value(decimal(n).drop_last()) * 10 + ((decimal(n).last() as int) - 48));
    }
}

fn push_decimal(out: &mut Vec<char>, n: u64)
    ensures
        final(out)@ == old(out)@ + decimal(n as nat),
    decreases n,
{
    if n >= 10 {
        push_decimal(out, n / 10);
    }
    let d: u8 = (n % 10) as u8;
    let c: char = (48u8 + d) as char;
    assert(c == digit_char((n % 10) as nat));
    out.push(c);
}

/// `n.to_string()`.
pub fn decimal_string(n: u64) -> (r: String)
    ensures
        r@ == decimal(n as nat),
{
    let mut v: Vec<char> = Vec::new();
    push_decimal(&mut v, n);
    assert(v@ =~= decimal(n as nat));
    string_of(&v)
}

} // verus!
