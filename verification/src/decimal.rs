//! Decimal rendering and parsing of unsigned integers, as used in replies
//! ("Try this again in 3 seconds.") and in command arguments (`slow_mode 10`).

use vstd::prelude::*;

verus! {

/// The character of a decimal digit `d` (0 <= d < 10).
pub open spec fn digit_char(d: int) -> char {
    (('0' as int) + d) as char
}

/// Whether `c` is one of the ASCII digits `0`..`9`.
pub open spec fn is_digit(c: char) -> bool {
    '0' <= c && c <= '9'
}

/// The value of a digit character.
pub open spec fn digit_value(c: char) -> int {
    (c as int) - ('0' as int)
}

/// The shortest decimal notation of `n`, without sign or leading zeros.
pub open spec fn decimal(n: nat) -> Seq<char>
    decreases n,
{
    if n < 10 {
        seq![digit_char(n as int)]
    } else {
        decimal(n / 10).push(digit_char((n % 10) as int))
    }
}

/// Whether every character of `s` is an ASCII digit.
pub open spec fn all_digits(s: Seq<char>) -> bool {
    forall|i: int| 0 <= i < s.len() ==> #[trigger] is_digit(s[i])
}

/// The value of a string of digits, most significant first.
pub open spec fn digits_value(s: Seq<char>) -> nat
    decreases s.len(),
{
    if s.len() == 0 {
        0
    } else {
        (digits_value(s.drop_last()) * 10 + digit_value(s.last())) as nat
    }
}

/// The digits that `u64::from_str` reads from `s`: a leading `+` is skipped
/// when something follows it.
pub open spec fn unsigned_body(s: Seq<char>) -> Seq<char> {
    if s.len() > 1 && s[0] == '+' {
        s.drop_first()
    } else {
        s
    }
}

/// What `u64::from_str` gives for `s`: the value of its digits when `s`
/// is a non-empty run of ASCII digits, optionally after one `+`, and that
/// value fits in 64 bits; nothing otherwise.
pub open spec fn parsed_u64(s: Seq<char>) -> Option<u64> {
    let body = unsigned_body(s);
    if s.len() > 0 && all_digits(body) && digits_value(body) <= u64::MAX {
        Some(digits_value(body) as u64)
    } else {
        None
    }
}

proof fn lemma_digit_roundtrip(d: int)
    requires
        0 <= d < 10,
    ensures
        is_digit(digit_char(d)),
        digit_value(digit_char(d)) == d,
{
}

/// `decimal(n)` is a non-empty run of digits whose value is `n`.
pub proof fn lemma_decimal_digits(n: nat)
    ensures
        decimal(n).len() > 0,
        all_digits(decimal(n)),
        digits_value(decimal(n)) == n,
        decimal(n)[0] != '+',
    decreases n,
{
    if n < 10 {
        lemma_digit_roundtrip(n as int);
        let s = decimal(n);
        assert(s == seq![digit_char(n as int)]);
        assert(s.drop_last() =~= Seq::<char>::empty());
        assert(digits_value(s.drop_last()) == 0);
        assert(s.last() == digit_char(n as int));
        assert(digits_value(s) == digits_value(s.drop_last()) * 10 + digit_value(s.last()));
    } else {
        lemma_decimal_digits(n / 10);
        lemma_digit_roundtrip((n % 10) as int);
        let s = decimal(n);
        assert(s.drop_last() =~= decimal(n / 10));
        assert(s.last() == digit_char((n % 10) as int));
        assert forall|i: int| 0 <= i < s.len() implies #[trigger] is_digit(s[i]) by {
            if i < s.len() - 1 {
                assert(s[i] == decimal(n / 10)[i]);
            }
        }
        assert(s[0] == decimal(n / 10)[0]);
        assert((n / 10) * 10 + n % 10 == n) by (nonlinear_arith);
    }
}

/// Reading back what was rendered gives the number again: `parsed_u64`
/// of `decimal(n)` is `n`, for every `u64`.
pub proof fn lemma_parse_render_roundtrip(n: u64)
    ensures
        parsed_u64(decimal(n as nat)) == Some(n),
{
    lemma_decimal_digits(n as nat);
    assert(unsigned_body(decimal(n as nat)) == decimal(n as nat));
}

fn digit_str(d: u64) -> (s: &'static str)
    requires
        d < 10,
    ensures
        s@ == seq![digit_char(d as int)],
{
    proof {
        reveal_strlit("0");
        reveal_strlit("1");
        reveal_strlit("2");
        reveal_strlit("3");
        reveal_strlit("4");
        reveal_strlit("5");
        reveal_strlit("6");
        reveal_strlit("7");
        reveal_strlit("8");
        reveal_strlit("9");
    }
    let s = if d == 0 {
        "0"
    } else if d == 1 {
        "1"
    } else if d == 2 {
        "2"
    } else if d == 3 {
        "3"
    } else if d == 4 {
        "4"
    } else if d == 5 {
        "5"
    } else if d == 6 {
        "6"
    } else if d == 7 {
        "7"
    } else if d == 8 {
        "8"
    } else {
        "9"
    };
    assert(s@ =~= seq![digit_char(d as int)]);
    s
}

/// Renders `n` in decimal, as `format!("{}", n)` does.
pub fn render_u64(n: u64) -> (s: String)
    ensures
        s@ == decimal(n as nat),
{
    // Digits, least significant first.
    let mut digits: Vec<u64> = Vec::new();
    let mut rest: u64 = n;
    while rest >= 10
        invariant
            forall|i: int| 0 <= i < digits@.len() ==> #[trigger] digits@[i] < 10,
            decimal(n as nat) == decimal(rest as nat) + low_digits(digits@),
        decreases rest,
    {
        let ghost before = digits@;
        digits.push(rest % 10);
        proof {
            lemma_low_digits_push(before, rest % 10);
            assert(decimal(rest as nat) + low_digits(before) =~= decimal((rest / 10) as nat) + low_digits(digits@));
        }
        rest = rest / 10;
    }
    let ghost before = digits@;
    digits.push(rest);
    proof {
        lemma_low_digits_push(before, rest);
        assert(decimal(n as nat) =~= low_digits(digits@));
    }
    let mut s = String::new();
    let mut i: usize = digits.len();
    assert(digits@.take(i as int) =~= digits@);
    assert(s@ + low_digits(digits@) =~= low_digits(digits@));
    while i > 0
        invariant
            i <= digits@.len(),
            forall|j: int| 0 <= j < digits@.len() ==> #[trigger] digits@[j] < 10,
            s@ + low_digits(digits@.take(i as int)) == decimal(n as nat),
        decreases i,
    {
        let d = digits[i - 1];
        let piece = digit_str(d);
        let ghost old_s = s@;
        s.append(piece);
        proof {
            let t = digits@.take(i as int);
            assert(t.drop_last() =~= digits@.take(i - 1));
            assert(t.last() == d);
            lemma_low_digits_split(t);
            assert(old_s + low_digits(t) =~= (old_s + seq![digit_char(d as int)]) + low_digits(t.drop_last()));
        }
        i = i - 1;
    }
    assert(digits@.take(0) =~= Seq::<u64>::empty());
    assert(s@ + Seq::<char>::empty() =~= s@);
    s
}

proof fn lemma_value_step(body: Seq<char>, k: int)
    requires
        0 <= k < body.len(),
        is_digit(body[k]),
    ensures
        body.take(k + 1).drop_last() == body.take(k),
        body.take(k + 1).last() == body[k],
        digits_value(body.take(k + 1)) == digits_value(body.take(k)) * 10 + digit_value(body[k]),
{
    assert(body.take(k + 1).drop_last() =~= body.take(k));
}

/// Parses `s` as `u64::from_str` does: an optional `+` (when something
/// follows it), then one or more ASCII digits whose value fits in 64 bits.
pub fn parse_u64(s: &str) -> (r: Option<u64>)
    ensures
        r == parsed_u64(s@),
{
    let len = s.unicode_len();
    if len == 0 {
        return None;
    }
    let mut start: usize = 0;
    if len > 1 && s.get_char(0) == '+' {
        start = 1;
    }
    let ghost body = s@.subrange(start as int, len as int);
    assert(body =~= unsigned_body(s@));
    let mut acc: u64 = 0;
    let mut overflow = false;
    let mut i: usize = start;
    assert(body.take(0) =~= Seq::<char>::empty());
    while i < len
        invariant
            start <= i <= len,
            len == s@.len(),
            body == s@.subrange(start as int, len as int),
            body == unsigned_body(s@),
            len > 0,
            all_digits(body.take(i - start)),
            !overflow ==> acc == digits_value(body.take(i - start)),
            overflow ==> digits_value(body.take(i - start)) > u64::MAX,
        decreases len - i,
    {
        let c = s.get_char(i);
        let k: usize = i - start;
        assert(body[k as int] == c);
        if !('0' <= c && c <= '9') {
            assert(!is_digit(body[k as int]));
            return None;
        }
        proof {
            lemma_value_step(body, k as int);
            assert forall|j: int| 0 <= j < body.take(k + 1).len() implies #[trigger] is_digit(body.take(k + 1)[j]) by {
                if j < k {
                    assert(body.take(k + 1)[j] == body.take(k as int)[j]);
                }
            }
        }
        let d: u64 = (c as u32 - '0' as u32) as u64;
        assert(d == digit_value(body[k as int]));
        if !overflow {
            match acc.checked_mul(10) {
                Some(m) => match m.checked_add(d) {
                    Some(v) => {
                        acc = v;
                    },
                    None => {
                        overflow = true;
                    },
                },
                None => {
                    overflow = true;
                },
            }
        }
        i = i + 1;
    }
    assert(body.take(len - start) =~= body);
    if overflow {
        None
    } else {
        Some(acc)
    }
}

/// The characters of digits given least significant first, written most
/// significant first.
pub open spec fn low_digits(ds: Seq<u64>) -> Seq<char>
    decreases ds.len(),
{
    if ds.len() == 0 {
        Seq::empty()
    } else {
        low_digits(ds.drop_first()) + seq![digit_char(ds[0] as int)]
    }
}

proof fn lemma_low_digits_push(ds: Seq<u64>, d: u64)
    ensures
        low_digits(ds.push(d)) =~= seq![digit_char(d as int)] + low_digits(ds),
    decreases ds.len(),
{
    if ds.len() == 0 {
        assert(ds.push(d).drop_first() =~= Seq::<u64>::empty());
        assert(ds.push(d)[0] == d);
        assert(low_digits(ds) == Seq::<char>::empty());
        assert(low_digits(ds.push(d)) == low_digits(Seq::<u64>::empty()) + seq![digit_char(d as int)]);
    } else {
        assert(ds.push(d).drop_first() =~= ds.drop_first().push(d));
        assert(ds.push(d)[0] == ds[0]);
        lemma_low_digits_push(ds.drop_first(), d);
        assert(low_digits(ds.push(d)) == low_digits(ds.drop_first().push(d)) + seq![digit_char(ds[0] as int)]);
        assert(low_digits(ds) == low_digits(ds.drop_first()) + seq![digit_char(ds[0] as int)]);
    }
}

proof fn lemma_low_digits_split(t: Seq<u64>)
    requires
        t.len() > 0,
    ensures
        low_digits(t) =~= seq![digit_char(t.last() as int)] + low_digits(t.drop_last()),
{
    assert(t =~= t.drop_last().push(t.last()));
    lemma_low_digits_push(t.drop_last(), t.last());
}

} // verus!
