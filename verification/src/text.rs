use vstd::prelude::*;

verus! {

/// `p` stands at the front of `s`.
pub open spec fn has_prefix(s: Seq<char>, p: Seq<char>) -> bool {
    &&& p.len() <= s.len()
    &&& forall|j: int| 0 <= j < p.len() ==> s[j] == p[j]
}

/// `s` with every occurrence of the non-empty pattern `pat` replaced by `rep`,
/// occurrences being found from left to right without overlapping.
pub open spec fn replaced(s: Seq<char>, pat: Seq<char>, rep: Seq<char>) -> Seq<char>
    decreases s.len(),
{
    if s.len() == 0 || pat.len() == 0 {
        s
    } else if has_prefix(s, pat) {
        rep + replaced(s.skip(pat.len() as int), pat, rep)
    } else {
        seq![s[0]] + replaced(s.skip(1), pat, rep)
    }
}

/// Appends one character to a string (`String::push`).
#[verifier::external_body]
fn push_char(s: &mut String, c: char)
    ensures
        final(s)@ == old(s)@.push(c),
{
    s.push(c);
}

/// Whether two texts are equal.
pub fn same_text(a: &str, b: &str) -> (r: bool)
    ensures
        r == (a@ == b@),
{
    let x = chars_of(a);
    let y = chars_of(b);
    if x.len() != y.len() {
        return false;
    }
    let mut i: usize = 0;
    while i < x.len()
        invariant
            i <= x.len(),
            x.len() == y.len(),
            x@ == a@,
            y@ == b@,
            forall|k: int| 0 <= k < i ==> x@[k] == y@[k],
        decreases x.len() - i,
    {
        if x[i] != y[i] {
            return false;
        }
        i = i + 1;
    }
    assert(x@ =~= y@);
    true
}

/// Whether `s` begins with `p`.
pub fn starts_with(s: &str, p: &str) -> (r: bool)
    ensures
        r == has_prefix(s@, p@),
{
    let v = chars_of(s);
    let q = chars_of(p);
    assert(v@.skip(0) =~= v@);
    occurs_at(&v, 0, &q)
}

/// The characters of `s`, in order.
pub fn chars_of(s: &str) -> (r: Vec<char>)
    ensures
        r@ == s@,
{
    let mut r: Vec<char> = Vec::new();
    for c in it: s.chars()
        invariant
            r@ == it.seq().take(it.index() as int),
    {
        r.push(c);
    }
    r
}


/// Whether `p` occurs in `v` at position `i`.
fn occurs_at(v: &Vec<char>, i: usize, p: &Vec<char>) -> (r: bool)
    requires
        i <= v.len(),
    ensures
        r == has_prefix(v@.skip(i as int), p@),
{
    if p.len() > v.len() - i {
        return false;
    }
    let mut j: usize = 0;
    while j < p.len()
        invariant
            j <= p.len(),
            i + p.len() <= v.len(),
            forall|k: int| 0 <= k < j ==> v@[i + k] == p@[k],
        decreases p.len() - j,
    {
        if v[i + j] != p[j] {
            assert(v@.skip(i as int)[j as int] != p@[j as int]);
            return false;
        }
        j = j + 1;
    }
    true
}

/// Replaces every occurrence of `pat` in `s` by `rep`, as `str::replace` does.
pub fn replace_all(s: &str, pat: &str, rep: &str) -> (r: String)
    requires
        pat@.len() > 0,
    ensures
        r@ == replaced(s@, pat@, rep@),
{
    let v = chars_of(s);
    let p = chars_of(pat);
    let mut out = String::new();
    let mut i: usize = 0;
    assert(v@.skip(0) =~= v@);
    while i < v.len()
        invariant
            i <= v.len(),
            v@ == s@,
            p@ == pat@,
            p@.len() > 0,
            replaced(s@, pat@, rep@) == out@ + replaced(v@.skip(i as int), p@, rep@),
        decreases v.len() - i,
    {
        let ghost rest = v@.skip(i as int);
        let ghost before = out@;
        if occurs_at(&v, i, &p) {
            assert(rest.skip(p@.len() as int) =~= v@.skip(i + p@.len()));
            out.append(rep);
            i = i + p.len();
            assert(out@ + replaced(v@.skip(i as int), p@, rep@) =~= before + replaced(rest, p@, rep@));
        } else {
            assert(rest.skip(1) =~= v@.skip(i + 1));
            push_char(&mut out, v[i]);
            i = i + 1;
            assert(out@ + replaced(v@.skip(i as int), p@, rep@) =~= before + replaced(rest, p@, rep@));
        }
    }
    assert(v@.skip(i as int).len() == 0);
    out
}


/// The character of the decimal digit `d` (for `0 <= d < 10`).
pub open spec fn digit_char(d: int) -> char {
    ('0' as int + d) as char
}

/// The decimal digits of `n`, most significant first, without leading zeros.
pub open spec fn digits(n: nat) -> Seq<char>
    decreases n,
{
    if n < 10 {
        seq![digit_char(n as int)]
    } else {
        digits(n / 10).push(digit_char((n % 10) as int))
    }
}

/// The decimal text of `n`, as `Display` writes an integer: a leading `-` for
/// negative numbers, then the digits of its magnitude.
pub open spec fn decimal(n: int) -> Seq<char> {
    if n < 0 {
        seq!['-'] + digits((-n) as nat)
    } else {
        digits(n as nat)
    }
}

/// The number that a sequence of decimal digits denotes.
pub open spec fn digits_value(s: Seq<char>) -> int
    decreases s.len(),
{
    if s.len() == 0 {
        0
    } else {
        digits_value(s.drop_last()) * 10 + (s.last() as int - '0' as int)
    }
}

fn digit(d: u64) -> (c: char)
    requires
        d < 10,
    ensures
        c == digit_char(d as int),
{
    match d {
        0 => '0',
        1 => '1',
        2 => '2',
        3 => '3',
        4 => '4',
        5 => '5',
        6 => '6',
        7 => '7',
        8 => '8',
        _ => '9',
    }
}

fn push_digits(out: &mut String, m: u64)
    ensures
        final(out)@ == old(out)@ + digits(m as nat),
    decreases m,
{
    if m >= 10 {
        push_digits(out, m / 10);
    }
    push_char(out, digit(m % 10));
    proof {
        if m >= 10 {
            assert(digits(m as nat) == digits((m / 10) as nat).push(digit_char((m % 10) as int)));
        }
    }
}

/// The decimal text of `n` (what `n.to_string()` gives).
pub fn i32_to_decimal(n: i32) -> (r: String)
    ensures
        r@ == decimal(n as int),
{
    let mut out = String::new();
    if n < 0 {
        out.append("-");
        let m: u64 = (0i64 - (n as i64)) as u64;
        proof {
            reveal_strlit("-");
        }
        push_digits(&mut out, m);
    } else {
        push_digits(&mut out, n as u64);
    }
    out
}

/// Every character of a digit sequence is a decimal digit, the sequence is
/// never empty, and it denotes `n`.
pub proof fn lemma_digits(n: nat)
    ensures
        digits(n).len() > 0,
        forall|i: int| 0 <= i < digits(n).len() ==> '0' <= #[trigger] digits(n)[i] <= '9',
        digits_value(digits(n)) == n,
        digits(n)[0] == '0' ==> n == 0,
    decreases n,
{
    let d = (n % 10) as int;
    assert(digit_char(d) as int == '0' as int + d);
    if n >= 10 {
        lemma_digits(n / 10);
        let s = digits(n);
        assert(s.drop_last() =~= digits(n / 10));
        assert(s.last() == digit_char(d));
        assert(digits_value(s) == digits_value(digits(n / 10)) * 10 + d);
        assert(s[0] == digits(n / 10)[0]);
    } else {
        let s = digits(n);
        assert(s.drop_last() =~= Seq::<char>::empty());
        assert(digits_value(s) == digits_value(s.drop_last()) * 10 + d);
    }
}

/// Different integers have different decimal texts.
pub proof fn lemma_decimal_injective(a: int, b: int)
    requires
        a != b,
    ensures
        decimal(a) != decimal(b),
{
    if a >= 0 {
        lemma_digits(a as nat);
    } else {
        lemma_digits((-a) as nat);
    }
    if b >= 0 {
        lemma_digits(b as nat);
    } else {
        lemma_digits((-b) as nat);
    }
    if a < 0 && b < 0 {
        if decimal(a) == decimal(b) {
            assert(decimal(a).skip(1) =~= digits((-a) as nat));
            assert(decimal(b).skip(1) =~= digits((-b) as nat));
        }
    } else if a < 0 {
        assert(decimal(a)[0] == '-');
        assert(decimal(b)[0] == digits(b as nat)[0]);
    } else if b < 0 {
        assert(decimal(b)[0] == '-');
        assert(decimal(a)[0] == digits(a as nat)[0]);
    }
}

/// Replacing a pattern that does not occur in a text leaves the text as it is.
pub proof fn lemma_replace_absent(s: Seq<char>, pat: Seq<char>, rep: Seq<char>)
    requires
        pat.len() > 0,
        forall|i: int| 0 <= i <= s.len() ==> !has_prefix(#[trigger] s.skip(i), pat),
    ensures
        replaced(s, pat, rep) == s,
    decreases s.len(),
{
    if s.len() > 0 {
        assert(s.skip(0) =~= s);
        let t = s.skip(1);
        assert forall|i: int| 0 <= i <= t.len() implies !has_prefix(#[trigger] t.skip(i), pat) by {
            assert(t.skip(i) =~= s.skip(i + 1));
        }
        lemma_replace_absent(t, pat, rep);
        assert(seq![s[0]] + t =~= s);
    }
}

/// The decimal text of an integer denotes it: for a number that is not
/// negative it is a non-empty run of decimal digits without a leading zero
/// (except for 0 itself) whose value is the number; for a negative number it is
/// `-` followed by such a run for its magnitude.
pub proof fn lemma_decimal_denotes(n: int)
    ensures
        n >= 0 ==> {
            &&& decimal(n).len() > 0
            &&& forall|i: int| 0 <= i < decimal(n).len() ==> '0' <= #[trigger] decimal(n)[i] <= '9'
            &&& digits_value(decimal(n)) == n
            &&& (decimal(n)[0] == '0' ==> n == 0)
        },
        n < 0 ==> {
            &&& decimal(n).len() > 1
            &&& decimal(n)[0] == '-'
            &&& forall|i: int| 1 <= i < decimal(n).len() ==> '0' <= #[trigger] decimal(n)[i] <= '9'
            &&& digits_value(decimal(n).skip(1)) == -n
            &&& decimal(n)[1] != '0'
        },
{
    if n >= 0 {
        lemma_digits(n as nat);
    } else {
        lemma_digits((-n) as nat);
        let d = digits((-n) as nat);
        assert(decimal(n).skip(1) =~= d);
        assert forall|i: int| 1 <= i < decimal(n).len() implies '0' <= #[trigger] decimal(n)[i] <= '9' by {
            assert(decimal(n)[i] == d[i - 1]);
        }
    }
}

/// A decimal text holds no `{`.
pub proof fn lemma_decimal_has_no_brace(n: int)
    ensures
        forall|i: int| 0 <= i < decimal(n).len() ==> #[trigger] decimal(n)[i] != '{',
{
    lemma_decimal_denotes(n);
}

/// Replacing a pattern one of whose characters never occurs in the text leaves
/// the text as it is.
pub proof fn lemma_replace_missing_char(s: Seq<char>, pat: Seq<char>, rep: Seq<char>, k: int)
    requires
        0 <= k < pat.len(),
        forall|i: int| 0 <= i < s.len() ==> #[trigger] s[i] != pat[k],
    ensures
        replaced(s, pat, rep) == s,
{
    assert forall|i: int| 0 <= i <= s.len() implies !has_prefix(#[trigger] s.skip(i), pat) by {
        if has_prefix(s.skip(i), pat) {
            assert(s.skip(i)[k] == pat[k]);
            assert(s[i + k] == pat[k]);
        }
    }
    lemma_replace_absent(s, pat, rep);
}

/// Replacing a pattern in a text that is exactly the pattern gives the replacement.
pub proof fn lemma_replace_whole(pat: Seq<char>, rep: Seq<char>)
    requires
        pat.len() > 0,
    ensures
        replaced(pat, pat, rep) == rep,
{
    assert(pat.skip(pat.len() as int) =~= Seq::<char>::empty());
    assert(has_prefix(pat, pat));
    assert(replaced(Seq::<char>::empty(), pat, rep) == Seq::<char>::empty());
    assert(replaced(pat, pat, rep) == rep + replaced(pat.skip(pat.len() as int), pat, rep));
    assert(rep + Seq::<char>::empty() =~= rep);
}

} // verus!
