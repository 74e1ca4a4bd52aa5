use vstd::prelude::*;

verus! {

/// `s` with every occurrence of the non-empty `pat` replaced by `rep`, scanning
/// left to right without overlaps.
pub open spec fn replace_all(s: Seq<char>, pat: Seq<char>, rep: Seq<char>) -> Seq<char>
    decreases s.len(),
{
    if s.len() == 0 {
        Seq::empty()
    } else if 0 < pat.len() <= s.len() && s.take(pat.len() as int) == pat {
        rep + replace_all(s.skip(pat.len() as int), pat, rep)
    } else {
        seq![s[0]] + replace_all(s.skip(1), pat, rep)
    }
}

/// The part of `s` before the first `c` (all of `s` when there is none).
pub open spec fn before_first(s: Seq<char>, c: char) -> Seq<char>
    decreases s.len(),
{
    if s.len() == 0 {
        s
    } else if s[0] == c {
        Seq::empty()
    } else {
        seq![s[0]] + before_first(s.skip(1), c)
    }
}

/// Whether two texts are equal.
pub(crate) fn same_text(a: &str, b: &str) -> (r: bool)
    ensures
        r == (a@ == b@),
{
    let x = String::from_str(a);
    let y = String::from_str(b);
    x == y
}

/// Replaces every occurrence of `pat` in `s` by `rep`, left to right.
pub fn replace(s: &str, pat: &str, rep: &str) -> (r: String)
    requires
        pat@.len() > 0,
    ensures
        r@ == replace_all(s@, pat@, rep@),
{
    let n = s.unicode_len();
    let m = pat.unicode_len();
    let mut out = String::new();
    let mut i: usize = 0;
    proof {
        assert(s@.skip(0) =~= s@);
        assert(out@ + replace_all(s@, pat@, rep@) =~= replace_all(s@, pat@, rep@));
    }
    while i < n
        invariant
            n == s@.len(),
            m == pat@.len(),
            m > 0,
            i <= n,
            out@ + replace_all(s@.skip(i as int), pat@, rep@) == replace_all(s@, pat@, rep@),
        decreases n - i,
    {
        let ghost rest = s@.skip(i as int);
        if m <= n - i && same_text(s.substring_char(i, i + m), pat) {
            proof {
                assert(rest.take(m as int) =~= s@.subrange(i as int, (i + m) as int));
                assert(rest.skip(m as int) =~= s@.skip((i + m) as int));
                assert(out@ + rep@ + replace_all(rest.skip(m as int), pat@, rep@) =~= out@ + (rep@
                    + replace_all(rest.skip(m as int), pat@, rep@)));
            }
            out.append(rep);
            i = i + m;
        } else {
            proof {
                if m <= n - i {
                    assert(rest.take(m as int) =~= s@.subrange(i as int, (i + m) as int));
                }
                assert(rest.skip(1) =~= s@.skip(i + 1));
                assert(s@.subrange(i as int, i + 1) =~= seq![rest[0]]);
                assert(out@ + s@.subrange(i as int, i + 1) + replace_all(rest.skip(1), pat@, rep@)
                    =~= out@ + (seq![rest[0]] + replace_all(rest.skip(1), pat@, rep@)));
            }
            out.append(s.substring_char(i, i + 1));
            i = i + 1;
        }
    }
    proof {
        assert(s@.skip(i as int) =~= Seq::<char>::empty());
        assert(out@ + Seq::<char>::empty() =~= out@);
    }
    out
}

/// The part of `s` before the first `c`.
pub fn prefix_before(s: &str, c: char) -> (r: String)
    ensures
        r@ == before_first(s@, c),
{
    let n = s.unicode_len();
    let mut i: usize = 0;
    proof {
        assert(s@.skip(0) =~= s@);
        assert(s@.take(0) + before_first(s@, c) =~= before_first(s@, c));
    }
    while i < n
        invariant
            n == s@.len(),
            i <= n,
            forall|j: int| 0 <= j < i ==> s@[j] != c,
            s@.take(i as int) + before_first(s@.skip(i as int), c) == before_first(s@, c),
        decreases n - i,
    {
        let ghost rest = s@.skip(i as int);
        if s.get_char(i) == c {
            proof {
                assert(s@.take(i as int) + Seq::<char>::empty() =~= s@.take(i as int));
            }
            let r = String::from_str(s.substring_char(0, i));
            proof {
                assert(s@.subrange(0, i as int) =~= s@.take(i as int));
            }
            return r;
        }
        proof {
            assert(rest.skip(1) =~= s@.skip(i + 1));
            assert(s@.take(i + 1) =~= s@.take(i as int) + seq![rest[0]]);
            assert(s@.take(i as int) + (seq![rest[0]] + before_first(rest.skip(1), c)) =~= s@.take(
                i + 1,
            ) + before_first(s@.skip(i + 1), c));
        }
        i = i + 1;
    }
    proof {
        assert(s@.skip(i as int) =~= Seq::<char>::empty());
        assert(s@.take(i as int) =~= s@);
        assert(s@ + Seq::<char>::empty() =~= s@);
    }
    String::from_str(s)
}

/// The decimal digit character of `d` (below 10).
pub open spec fn digit_char(d: nat) -> char {
    (d + 48) as char
}

/// The decimal text of `n`, without leading zeros.
pub open spec fn decimal_text(n: nat) -> Seq<char>
    decreases n,
{
    if n < 10 {
        seq![digit_char(n)]
    } else {
        decimal_text(n / 10).push(digit_char(n % 10))
    }
}

/// The decimal digits of `n` before its last one: nothing for a single digit.
spec fn leading_digits(n: nat) -> Seq<char> {
    if n == 0 {
        Seq::empty()
    } else {
        decimal_text(n)
    }
}

/// The one-character text of digit `d`.
fn digit_str(d: usize) -> (r: &'static str)
    requires
        d < 10,
    ensures
        r@ == seq![digit_char(d as nat)],
{
    proof {
        reveal_strlit("0");
        reveal_strlit("1");
        reveal_strlit("2");
        reveal_strlit("3");
        reveal_strlit("4");
        reveal_strlit("5");
        reveal_strlit("6");
        reveal_strlit("7");
        reveal_strlit("8");
        reveal_strlit("9");
    }
    let r = if d == 0 {
        "0"
    } else if d == 1 {
        "1"
    } else if d == 2 {
        "2"
    } else if d == 3 {
        "3"
    } else if d == 4 {
        "4"
    } else if d == 5 {
        "5"
    } else if d == 6 {
        "6"
    } else if d == 7 {
        "7"
    } else if d == 8 {
        "8"
    } else {
        "9"
    };
    proof {
        assert(r@ =~= seq![digit_char(d as nat)]);
    }
    r
}

/// The decimal text of `n`.
pub fn decimal(n: usize) -> (r: String)
    ensures
        r@ == decimal_text(n as nat),
{
    if n < 10 {
        let r = String::from_str(digit_str(n));
        return r;
    }
    let mut m: usize = n;
    let mut out = String::new();
    proof {
        assert(decimal_text(n as nat) =~= leading_digits(m as nat) + out@);
    }
    while m > 0
        invariant
            decimal_text(n as nat) == leading_digits(m as nat) + out@,
        decreases m,
    {
        let d = m % 10;
        let mut t = String::from_str(digit_str(d));
        t.append(out.as_str());
        proof {
            assert(leading_digits(m as nat) == leading_digits((m / 10) as nat).push(digit_char(d as nat)));
            assert(leading_digits(m as nat) + out@ =~= leading_digits((m / 10) as nat) + t@);
        }
        out = t;
        m = m / 10;
    }
    proof {
        assert(leading_digits(0) + out@ =~= out@);
    }
    out
}

} // verus!
