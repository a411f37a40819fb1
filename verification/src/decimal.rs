//! Decimal text for `i64` values, as used in pagination query strings.

use vstd::prelude::*;

verus! {

pub open spec fn is_digit(c: char) -> bool {
    '0' <= c && c <= '9'
}

pub open spec fn digit_value(c: char) -> int {
    c as int - '0' as int
}

pub open spec fn digit_char(d: int) -> char
    recommends
        0 <= d < 10,
{
    (d + '0' as int) as char
}

pub open spec fn all_digits(s: Seq<char>) -> bool {
    forall|i: int| 0 <= i < s.len() ==> is_digit(#[trigger] s[i])
}

/// The value of a string of decimal digits, most significant first.
pub open spec fn digits_value(s: Seq<char>) -> int
    decreases s.len(),
{
    if s.len() == 0 {
        0
    } else {
        digits_value(s.drop_last()) * 10 + digit_value(s.last())
    }
}

/// The integer a text denotes: an optional `+` or `-` sign followed by at
/// least one decimal digit, and nothing else.
pub open spec fn spec_parse_int(s: Seq<char>) -> Option<int> {
    if s.len() > 0 && (s[0] == '+' || s[0] == '-') {
        let d = s.skip(1);
        if d.len() > 0 && all_digits(d) {
            Some(if s[0] == '-' { -digits_value(d) } else { digits_value(d) })
        } else {
            None
        }
    } else if s.len() > 0 && all_digits(s) {
        Some(digits_value(s))
    } else {
        None
    }
}

/// What `str::parse::<i64>` gives: the denoted integer when it fits in an `i64`.
pub open spec fn spec_parse_i64(s: Seq<char>) -> Option<i64> {
    match spec_parse_int(s) {
        Some(v) => if i64::MIN <= v <= i64::MAX { Some(v as i64) } else { None },
        None => None,
    }
}

/// The shortest decimal digits of a natural number.
pub open spec fn spec_nat_text(m: nat) -> Seq<char>
    decreases m,
{
    if m < 10 {
        seq![digit_char(m as int)]
    } else {
        spec_nat_text(m / 10) + seq![digit_char((m % 10) as int)]
    }
}

/// The text that `Display` writes for an integer: a `-` before negative values.
pub open spec fn spec_int_text(n: int) -> Seq<char> {
    if n < 0 {
        seq!['-'] + spec_nat_text((-n) as nat)
    } else {
        spec_nat_text(n as nat)
    }
}

proof fn lemma_digits_value_push(s: Seq<char>, c: char)
    ensures
        digits_value(s.push(c)) == digits_value(s) * 10 + digit_value(c),
{
    assert(s.push(c).drop_last() =~= s);
}

proof fn lemma_nat_text(m: nat)
    ensures
        spec_nat_text(m).len() > 0,
        all_digits(spec_nat_text(m)),
        digits_value(spec_nat_text(m)) == m,
    decreases m,
{
    if m < 10 {
        let t = seq![digit_char(m as int)];
        assert(t.drop_last() =~= Seq::<char>::empty());
        assert(digits_value(t.drop_last()) == 0);
    } else {
        lemma_nat_text(m / 10);
        let t = spec_nat_text(m / 10);
        let c = digit_char((m % 10) as int);
        assert(t + seq![c] =~= t.push(c));
        lemma_digits_value_push(t, c);
    }
}

/// Reading back the text of an integer gives that integer.
pub proof fn lemma_parse_int_text(n: int)
    ensures
        spec_parse_int(spec_int_text(n)) == Some(n),
{
    if n < 0 {
        let m = (-n) as nat;
        lemma_nat_text(m);
        let t = seq!['-'] + spec_nat_text(m);
        assert(t.skip(1) =~= spec_nat_text(m));
    } else {
        lemma_nat_text(n as nat);
        let t = spec_nat_text(n as nat);
        assert(t[0] != '+' && t[0] != '-') by {
            assert(is_digit(t[0]));
        }
    }
}

/// The decimal text of an `i64`, read back, is the same `i64`.
pub proof fn lemma_parse_format_i64(n: i64)
    ensures
        spec_parse_i64(spec_int_text(n as int)) == Some(n),
{
    lemma_parse_int_text(n as int);
}


proof fn lemma_digits_value_monotone(s: Seq<char>, k: int)
    requires
        0 <= k <= s.len(),
        all_digits(s),
    ensures
        digits_value(s.take(k)) <= digits_value(s),
        0 <= digits_value(s.take(k)),
    decreases s.len(),
{
    if s.len() == 0 {
        assert(s.take(k) =~= s);
    } else if k == s.len() {
        assert(s.take(k) =~= s);
        lemma_digits_value_nonneg(s);
    } else {
        let p = s.drop_last();
        assert(all_digits(p)) by {
            assert forall|i: int| 0 <= i < p.len() implies is_digit(#[trigger] p[i]) by {
                assert(p[i] == s[i]);
            }
        }
        lemma_digits_value_monotone(p, k);
        assert(p.take(k) =~= s.take(k));
        lemma_digits_value_nonneg(p);
        assert(is_digit(s[s.len() - 1]));
    }
}

proof fn lemma_digits_value_nonneg(s: Seq<char>)
    requires
        all_digits(s),
    ensures
        0 <= digits_value(s),
    decreases s.len(),
{
    if s.len() > 0 {
        let p = s.drop_last();
        assert(all_digits(p)) by {
            assert forall|i: int| 0 <= i < p.len() implies is_digit(#[trigger] p[i]) by {
                assert(p[i] == s[i]);
            }
        }
        lemma_digits_value_nonneg(p);
        assert(is_digit(s[s.len() - 1]));
    }
}

/// Parses an `i64` the way `str::parse::<i64>` does: an optional `+` or `-`
/// sign, then one or more decimal digits; `None` for any other text and for
/// values outside the range of `i64`.
pub fn parse_i64(s: &str) -> (r: Option<i64>)
    ensures
        r == spec_parse_i64(s@),
{
    let n = s.unicode_len();
    if n == 0 {
        return None;
    }
    let first = s.get_char(0);
    let negative = first == '-';
    let start: usize = if first == '+' || first == '-' { 1 } else { 0 };
    if start == n {
        return None;
    }
    let ghost body = s@.skip(start as int);
    let mut acc: i64 = 0;
    let mut i: usize = start;
    while i < n
        invariant
            n == s@.len(),
            start <= i <= n,
            start < n,
            start == 0 || start == 1,
            start == 1 <==> (s@[0] == '+' || s@[0] == '-'),
            negative <==> s@[0] == '-',
            body == s@.skip(start as int),
            all_digits(body.take(i - start)),
            acc == (if negative { -digits_value(body.take(i - start)) } else { digits_value(body.take(i - start)) }),
        decreases n - i,
    {
        let c = s.get_char(i);
        let ghost prefix = body.take(i - start);
        assert(body.take(i - start + 1) =~= prefix.push(c));
        if !('0' <= c && c <= '9') {
            proof {
                assert(body[i - start] == c);
                assert(!all_digits(body));
                if start == 0 {
                    assert(body =~= s@);
                }
            }
            return None;
        }
        let d: i128 = ((c as u32) - ('0' as u32)) as i128;
        proof {
            lemma_digits_value_push(prefix, c);
            lemma_digits_value_nonneg(prefix);
        }
        let next: i128 = if negative { (acc as i128) * 10 - d } else { (acc as i128) * 10 + d };
        if next < i64::MIN as i128 || next > i64::MAX as i128 {
            proof {
                let k = i - start + 1;
                if all_digits(body) {
                    lemma_digits_value_monotone(body, k);
                }
                if start == 0 {
                    assert(body =~= s@);
                }
            }
            return None;
        }
        acc = next as i64;
        i = i + 1;
    }
    proof {
        assert(body.take(n - start) =~= body);
        if start == 0 {
            assert(body =~= s@);
        }
    }
    Some(acc)
}

fn digit_text(d: u64) -> (r: &'static str)
    requires
        d < 10,
    ensures
        r@ == seq![digit_char(d as int)],
{
    proof {
        reveal_strlit("0");
        reveal_strlit("1");
        reveal_strlit("2");
        reveal_strlit("3");
        reveal_strlit("4");
        reveal_strlit("5");
        reveal_strlit("6");
        reveal_strlit("7");
        reveal_strlit("8");
        reveal_strlit("9");
    }
    if d == 0 {
        "0"
    } else if d == 1 {
        "1"
    } else if d == 2 {
        "2"
    } else if d == 3 {
        "3"
    } else if d == 4 {
        "4"
    } else if d == 5 {
        "5"
    } else if d == 6 {
        "6"
    } else if d == 7 {
        "7"
    } else if d == 8 {
        "8"
    } else {
        "9"
    }
}

fn append_nat_text(m: u64, out: &mut String)
    ensures
        final(out)@ == old(out)@ + spec_nat_text(m as nat),
    decreases m,
{
    if m >= 10 {
        append_nat_text(m / 10, out);
    }
    out.append(digit_text(m % 10));
    proof {
        if m >= 10 {
            assert(spec_nat_text(m as nat) == spec_nat_text((m / 10) as nat) + seq![digit_char((m % 10) as int)]);
        }
    }
}

/// The decimal text of an `i64`, as `to_string` writes it.
pub fn format_i64(n: i64) -> (r: String)
    ensures
        r@ == spec_int_text(n as int),
{
    let mut r = String::new();
    let magnitude: u64 = if n < 0 { (0i128 - (n as i128)) as u64 } else { n as u64 };
    if n < 0 {
        r.append("-");
        proof {
            reveal_strlit("-");
        }
    }
    append_nat_text(magnitude, &mut r);
    r
}

} // verus!
