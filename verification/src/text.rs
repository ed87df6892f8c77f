//! Small string utilities shared by every decoder: equality, trimming,
//! case folding, first-colon splitting, comma splitting, and exact parsers
//! for integer tokens and the float token grammar.

use vstd::prelude::*;
use vstd::string::StrSliceExecFns;
use vstd::string::StringExecFns;

verus! {

/// Character-for-character equality of two string slices.
pub fn str_eq(a: &str, b: &str) -> (r: bool)
    ensures
        r == (a@ == b@),
{
    let an = a.unicode_len();
    let bn = b.unicode_len();
    if an != bn {
        assert(a@ != b@) by {
            assert(a@.len() != b@.len());
        }
        return false;
    }
    let mut i: usize = 0;
    while i < an
        invariant
            an == a@.len(),
            bn == b@.len(),
            an == bn,
            i <= an,
            forall|j: int| 0 <= j < i ==> a@[j] == b@[j],
        decreases an - i,
    {
        if a.get_char(i) != b.get_char(i) {
            return false;
        }
        i += 1;
    }
    proof {
        assert(a@ =~= b@);
    }
    true
}

/// Whether `c` is a decimal digit.
pub open spec fn is_digit(c: char) -> bool {
    '0' <= c && c <= '9'
}

/// The numeric value of a digit character.
pub open spec fn digit_of(c: char) -> int {
    c as int - '0' as int
}

/// Whether the first `n` characters of `s` are all decimal digits.
pub open spec fn digits_upto(s: Seq<char>, n: int) -> bool {
    forall|i: int| 0 <= i < n ==> is_digit(s[i])
}

/// The value of the first `n` characters of `s` read as decimal digits.
pub open spec fn digits_val(s: Seq<char>, n: int) -> int
    decreases n,
{
    if n <= 0 {
        0
    } else {
        digits_val(s, n - 1) * 10 + digit_of(s[n - 1])
    }
}

/// The mathematical value of an integer token: an optional leading `-`,
/// then one or more decimal digits; no leading `+`, no decimal point, no
/// exponent, no separators. `None` when `s` is not such a token.
pub open spec fn int_token_value(s: Seq<char>) -> Option<int> {
    if s.len() >= 1 && s[0] == '-' {
        let d = s.subrange(1, s.len() as int);
        if d.len() >= 1 && digits_upto(d, d.len() as int) {
            Some(-digits_val(d, d.len() as int))
        } else {
            None
        }
    } else if s.len() >= 1 && digits_upto(s, s.len() as int) {
        Some(digits_val(s, s.len() as int))
    } else {
        None
    }
}

/// The 64-bit result of the integer token grammar: the token's value when
/// it exists and fits in `i64`, `None` otherwise.
pub open spec fn spec_parse_i64(s: Seq<char>) -> Option<i64> {
    match int_token_value(s) {
        Some(v) => if i64::MIN <= v <= i64::MAX {
            Some(v as i64)
        } else {
            None
        },
        None => None,
    }
}

/// The mathematical value of a signed integer token, the grammar of the
/// schema-form leaves: an optional leading `+` or `-`, then one or more
/// decimal digits. The inference cascade's grammar, by contrast, takes no
/// leading `+`.
pub open spec fn signed_int_token_value(s: Seq<char>) -> Option<int> {
    if s.len() >= 1 && s[0] == '+' {
        let d = s.subrange(1, s.len() as int);
        if d.len() >= 1 && digits_upto(d, d.len() as int) {
            Some(digits_val(d, d.len() as int))
        } else {
            None
        }
    } else {
        int_token_value(s)
    }
}

/// The 64-bit result of the signed integer token grammar.
pub open spec fn spec_parse_signed_i64(s: Seq<char>) -> Option<i64> {
    match signed_int_token_value(s) {
        Some(v) => if i64::MIN <= v <= i64::MAX {
            Some(v as i64)
        } else {
            None
        },
        None => None,
    }
}

/// The 32-bit result of the signed integer token grammar.
pub open spec fn spec_parse_signed_i32(s: Seq<char>) -> Option<i32> {
    match signed_int_token_value(s) {
        Some(v) => if i32::MIN <= v <= i32::MAX {
            Some(v as i32)
        } else {
            None
        },
        None => None,
    }
}

/// Ten to the power `n` (1 for `n <= 0`).
pub open spec fn pow10(n: int) -> int
    decreases n,
{
    if n <= 0 {
        1
    } else {
        10 * pow10(n - 1)
    }
}

proof fn lemma_pow10_19()
    ensures
        pow10(18) == 1000000000000000000,
        pow10(19) == 10000000000000000000,
{
    reveal_with_fuel(pow10, 21);
}

proof fn lemma_pow10_mono(a: int, b: int)
    requires
        a <= b,
    ensures
        pow10(a) <= pow10(b),
        pow10(a) >= 1,
    decreases b - a,
{
    if a < b {
        lemma_pow10_mono(a, b - 1);
    } else {
        lemma_pow10_pos(a);
    }
}

proof fn lemma_pow10_pos(a: int)
    ensures
        pow10(a) >= 1,
    decreases a,
{
    if a > 0 {
        lemma_pow10_pos(a - 1);
    }
}

proof fn lemma_digits_val_bound(s: Seq<char>, n: int)
    requires
        n <= s.len(),
        digits_upto(s, n),
    ensures
        0 <= digits_val(s, n) < pow10(n),
    decreases n,
{
    if n > 0 {
        lemma_digits_val_bound(s, n - 1);
    }
}

proof fn lemma_digits_val_lower(s: Seq<char>, n: int)
    requires
        1 <= n <= s.len(),
        digits_upto(s, n),
        s[0] != '0',
    ensures
        digits_val(s, n) >= pow10(n - 1),
    decreases n,
{
    if n == 1 {
        assert(is_digit(s[0]));
        assert(digit_of(s[0]) >= 1);
    } else {
        lemma_digits_val_lower(s, n - 1);
        lemma_pow10_pos(n - 2);
        assert(is_digit(s[n - 1]));
        assert(digits_val(s, n) == digits_val(s, n - 1) * 10 + digit_of(s[n - 1]));
        assert(digits_val(s, n - 1) * 10 >= pow10(n - 2) * 10) by (nonlinear_arith)
            requires
                digits_val(s, n - 1) >= pow10(n - 2),
        ;
        assert(pow10(n - 1) == 10 * pow10(n - 2));
    }
}

proof fn lemma_digits_val_skip_zeros(s: Seq<char>, z: int, n: int)
    requires
        0 <= z <= n <= s.len(),
        forall|i: int| 0 <= i < z ==> s[i] == '0',
    ensures
        digits_val(s, n) == digits_val(s.subrange(z, n), n - z),
    decreases n,
{
    if n <= z {
        assert(digits_val(s.subrange(z, n), n - z) == 0);
        lemma_digits_val_all_zero(s, n);
    } else {
        lemma_digits_val_skip_zeros(s, z, n - 1);
        assert(s.subrange(z, n - 1) =~= s.subrange(z, n).subrange(0, n - 1 - z));
        lemma_digits_val_ignores_tail(s.subrange(z, n - 1), s.subrange(z, n), n - 1 - z);
        assert(s.subrange(z, n)[n - 1 - z] == s[n - 1]);
    }
}

proof fn lemma_digits_val_all_zero(s: Seq<char>, n: int)
    requires
        n <= s.len(),
        forall|i: int| 0 <= i < n ==> s[i] == '0',
    ensures
        digits_val(s, n) == 0,
    decreases n,
{
    if n > 0 {
        lemma_digits_val_all_zero(s, n - 1);
    }
}

/// `digits_val(s, n)` only reads the first `n` characters.
proof fn lemma_digits_val_ignores_tail(a: Seq<char>, b: Seq<char>, n: int)
    requires
        n <= a.len(),
        n <= b.len(),
        forall|i: int| 0 <= i < n ==> a[i] == b[i],
    ensures
        digits_val(a, n) == digits_val(b, n),
    decreases n,
{
    if n > 0 {
        lemma_digits_val_ignores_tail(a, b, n - 1);
    }
}

/// Parses an integer token into an `i64`: exactly the tokens accepted by
/// `int_token_value`, refusing values outside the 64-bit signed range.
pub fn parse_i64_token(s: &str) -> (r: Option<i64>)
    ensures
        r == spec_parse_i64(s@),
{
    let n = s.unicode_len();
    if n == 0 {
        return None;
    }
    let neg = s.get_char(0) == '-';
    let start: usize = if neg {
        1
    } else {
        0
    };
    if start >= n {
        return None;
    }
    // Every character after the sign must be a digit.
    let mut i: usize = start;
    while i < n
        invariant
            n == s@.len(),
            n >= 1,
            start <= i <= n,
            start == if neg { 1int } else { 0int },
            neg == (s@[0] == '-'),
            forall|j: int| start <= j < i ==> is_digit(s@[j]),
        decreases n - i,
    {
        let c = s.get_char(i);
        let u = c as u32;
        if u < 48 || u > 57 {
            proof {
                assert(!is_digit(s@[i as int]));
                if neg {
                    let d = s@.subrange(1, n as int);
                    assert(d[i as int - 1] == s@[i as int]);
                    assert(!digits_upto(d, d.len() as int));
                } else {
                    assert(!digits_upto(s@, s@.len() as int));
                }
            }
            return None;
        }
        proof {
            assert(is_digit(s@[i as int]));
        }
        i += 1;
    }
    // Skip leading zeros of the digit run.
    let mut z: usize = start;
    while z < n && s.get_char(z) == '0'
        invariant
            n == s@.len(),
            start <= z <= n,
            forall|j: int| start <= j < z ==> s@[j] == '0',
        decreases n - z,
    {
        z += 1;
    }
    let ghost digits = if neg {
        s@.subrange(1, n as int)
    } else {
        s@
    };
    let ghost stripped = s@.subrange(z as int, n as int);
    proof {
        assert(digits_upto(digits, digits.len() as int));
        if neg {
            assert(stripped =~= digits.subrange((z - 1) as int, (n - 1) as int));
            lemma_digits_val_skip_zeros(digits, z as int - 1, n as int - 1);
            lemma_digits_val_ignores_tail(
                digits.subrange((z - 1) as int, (n - 1) as int),
                stripped,
                (n - z) as int,
            );
        } else {
            assert(digits.subrange(z as int, n as int) =~= stripped);
            lemma_digits_val_skip_zeros(digits, z as int, n as int);
        }
        assert(int_token_value(s@) == Some(
            if neg {
                -digits_val(stripped, (n - z) as int)
            } else {
                digits_val(stripped, (n - z) as int)
            },
        ));
    }
    if n - z > 19 {
        // At least twenty significant digits: out of range for any i64.
        proof {
            assert(stripped[0] == s@[z as int]);
            assert(is_digit(stripped[0]) && stripped[0] != '0');
            lemma_digits_val_lower(stripped, (n - z) as int);
            lemma_pow10_mono(19, (n - z) as int - 1);
            lemma_pow10_19();
        }
        return None;
    }
    // Accumulate the at most nineteen significant digits.
    let mut mag: u64 = 0;
    let mut k: usize = z;
    while k < n
        invariant
            n == s@.len(),
            z <= k <= n,
            n - z <= 19,
            stripped == s@.subrange(z as int, n as int),
            forall|j: int| z <= j < n ==> is_digit(s@[j]),
            mag == digits_val(stripped, (k - z) as int),
        decreases n - k,
    {
        let c = s.get_char(k);
        proof {
            assert(is_digit(s@[k as int]));
            lemma_digits_val_bound(stripped, (k - z) as int);
            lemma_pow10_mono((k - z) as int, 18);
            lemma_pow10_19();
            assert(stripped[(k - z) as int] == s@[k as int]);
        }
        let d = (c as u32 - 48) as u64;
        mag = mag * 10 + d;
        k += 1;
    }
    if neg {
        if mag > 9223372036854775808u64 {
            None
        } else if mag == 9223372036854775808u64 {
            Some(i64::MIN)
        } else {
            Some(-(mag as i64))
        }
    } else {
        if mag > 9223372036854775807u64 {
            None
        } else {
            Some(mag as i64)
        }
    }
}

/// Parses a signed integer token into an `i64`: the schema-form grammar,
/// where one leading `+` is accepted.
pub fn parse_signed_i64(s: &str) -> (r: Option<i64>)
    ensures
        r == spec_parse_signed_i64(s@),
{
    let n = s.unicode_len();
    if n >= 1 && s.get_char(0) == '+' {
        let rest = s.substring_char(1, n);
        proof {
            assert(rest@ =~= s@.subrange(1, n as int));
        }
        if rest.unicode_len() >= 1 && rest.get_char(0) == '-' {
            // A sign after the sign is no digit run.
            proof {
                assert(!is_digit(rest@[0]));
            }
            return None;
        }
        parse_i64_token(rest)
    } else {
        parse_i64_token(s)
    }
}

/// Parses a signed integer token into an `i32`: the same grammar,
/// refusing values outside the 32-bit signed range.
pub fn parse_signed_i32(s: &str) -> (r: Option<i32>)
    ensures
        r == spec_parse_signed_i32(s@),
{
    match parse_signed_i64(s) {
        Some(v) => if -2147483648i64 <= v && v <= 2147483647i64 {
            Some(v as i32)
        } else {
            None
        },
        None => None,
    }
}

/// Whether `c` is a leading sign character.
pub open spec fn is_sign(c: char) -> bool {
    c == '+' || c == '-'
}

/// `s` with one leading sign removed, if present.
pub open spec fn float_body(s: Seq<char>) -> Seq<char> {
    if s.len() >= 1 && is_sign(s[0]) {
        s.subrange(1, s.len() as int)
    } else {
        s
    }
}

/// How many of the first `n` characters are the dot.
pub open spec fn dots_count(s: Seq<char>, n: int) -> int
    decreases n,
{
    if n <= 0 {
        0
    } else {
        dots_count(s, n - 1) + if s[n - 1] == '.' {
            1int
        } else {
            0int
        }
    }
}

/// How many of the first `n` characters are decimal digits.
pub open spec fn digits_count(s: Seq<char>, n: int) -> int
    decreases n,
{
    if n <= 0 {
        0
    } else {
        digits_count(s, n - 1) + if is_digit(s[n - 1]) {
            1int
        } else {
            0int
        }
    }
}

/// A float mantissa: digits with at most one dot among them, and at least
/// one digit.
pub open spec fn mantissa_ok(m: Seq<char>) -> bool {
    &&& forall|i: int| 0 <= i < m.len() ==> is_digit(m[i]) || m[i] == '.'
    &&& dots_count(m, m.len() as int) <= 1
    &&& digits_count(m, m.len() as int) >= 1
}

/// A float exponent: an optional sign, then one or more digits.
pub open spec fn exp_ok(x: Seq<char>) -> bool {
    let y = if x.len() >= 1 && is_sign(x[0]) {
        x.subrange(1, x.len() as int)
    } else {
        x
    };
    y.len() >= 1 && digits_upto(y, y.len() as int)
}

/// The index of the first exponent marker among the first `n` characters.
pub open spec fn first_exp_upto(s: Seq<char>, n: int) -> Option<int>
    decreases n,
{
    if n <= 0 {
        None
    } else if first_exp_upto(s, n - 1) is Some {
        first_exp_upto(s, n - 1)
    } else if s[n - 1] == 'e' || s[n - 1] == 'E' {
        Some(n - 1)
    } else {
        None
    }
}

/// The float token grammar: standard decimal/exponent notation only — an
/// optional sign, a mantissa of digits with at most one dot and at least
/// one digit, and an optional signed exponent. The word spellings for
/// infinities and not-a-number are not accepted; such tokens take the
/// string fallback of the cascade.
pub open spec fn is_float_token(s: Seq<char>) -> bool {
    let b = float_body(s);
    match first_exp_upto(b, b.len() as int) {
        Some(p) => mantissa_ok(b.subrange(0, p)) && exp_ok(b.subrange(p + 1, b.len() as int)),
        None => mantissa_ok(b),
    }
}

fn mantissa_check(m: &str) -> (r: bool)
    ensures
        r == mantissa_ok(m@),
{
    let n = m.unicode_len();
    let mut dots: usize = 0;
    let mut digits: usize = 0;
    let mut i: usize = 0;
    while i < n
        invariant
            n == m@.len(),
            i <= n,
            dots <= i,
            digits <= i,
            dots == dots_count(m@, i as int),
            digits == digits_count(m@, i as int),
            forall|j: int| 0 <= j < i ==> is_digit(m@[j]) || m@[j] == '.',
        decreases n - i,
    {
        let c = m.get_char(i);
        let u = c as u32;
        if u == 46 {
            dots += 1;
        } else if u >= 48 && u <= 57 {
            digits += 1;
        } else {
            proof {
                assert(!(is_digit(m@[i as int]) || m@[i as int] == '.'));
            }
            return false;
        }
        i += 1;
    }
    dots <= 1 && digits >= 1
}

fn exp_check(x: &str) -> (r: bool)
    ensures
        r == exp_ok(x@),
{
    let n = x.unicode_len();
    let has_sign = if n >= 1 {
        let c = x.get_char(0);
        c == '+' || c == '-'
    } else {
        false
    };
    let start: usize = if has_sign {
        1
    } else {
        0
    };
    if start >= n {
        return false;
    }
    let ghost y = if has_sign {
        x@.subrange(1, n as int)
    } else {
        x@
    };
    let mut i: usize = start;
    while i < n
        invariant
            n == x@.len(),
            n >= 1,
            start <= i <= n,
            start == if has_sign { 1int } else { 0int },
            has_sign == (x@.len() >= 1 && is_sign(x@[0])),
            y == if has_sign { x@.subrange(1, n as int) } else { x@ },
            forall|j: int| start <= j < i ==> is_digit(x@[j]),
        decreases n - i,
    {
        let c = x.get_char(i);
        let u = c as u32;
        if u < 48 || u > 57 {
            proof {
                if has_sign {
                    assert(y[i as int - 1] == x@[i as int]);
                    assert(!digits_upto(y, y.len() as int));
                }
            }
            return false;
        }
        proof {
            assert(is_digit(x@[i as int]));
            if has_sign {
                assert(forall|j: int| 0 <= j <= i - 1 ==> y[j] == x@[j + 1]);
            }
        }
        i += 1;
    }
    proof {
        if has_sign {
            assert(forall|j: int| 0 <= j < y.len() ==> y[j] == x@[j + 1]);
        }
    }
    true
}

/// Recognizes the float token grammar; never inspects anything but the
/// characters of `s`.
pub fn is_float_str(s: &str) -> (r: bool)
    ensures
        r == is_float_token(s@),
{
    let n = s.unicode_len();
    let has_sign = if n >= 1 {
        let c = s.get_char(0);
        c == '+' || c == '-'
    } else {
        false
    };
    let start: usize = if has_sign {
        1
    } else {
        0
    };
    let b = s.substring_char(start, n);
    proof {
        assert(b@ =~= float_body(s@));
    }
    let bn = b.unicode_len();
    let mut pe: usize = 0;
    let mut found = false;
    let mut i: usize = 0;
    while i < bn
        invariant
            bn == b@.len(),
            i <= bn,
            if found {
                first_exp_upto(b@, i as int) == Some(pe as int) && pe < bn
            } else {
                first_exp_upto(b@, i as int) is None
            },
        decreases bn - i,
    {
        if !found {
            let c = b.get_char(i);
            if c == 'e' || c == 'E' {
                found = true;
                pe = i;
            }
        }
        i += 1;
    }
    if found {
        let m = b.substring_char(0, pe);
        let x = b.substring_char(pe + 1, bn);
        let r1 = mantissa_check(m);
        let r2 = exp_check(x);
        r1 && r2
    } else {
        mantissa_check(b)
    }
}

/// The index of the first colon among the first `n` characters.
pub open spec fn first_colon_upto(s: Seq<char>, n: int) -> Option<int>
    decreases n,
{
    if n <= 0 {
        None
    } else if first_colon_upto(s, n - 1) is Some {
        first_colon_upto(s, n - 1)
    } else if s[n - 1] == ':' {
        Some(n - 1)
    } else {
        None
    }
}

/// Everything after the first colon; the empty sequence when there is no
/// colon at all.
pub open spec fn spec_after_colon(s: Seq<char>) -> Seq<char> {
    match first_colon_upto(s, s.len() as int) {
        Some(p) => s.subrange(p + 1, s.len() as int),
        None => Seq::empty(),
    }
}

/// Strips a conventional `prefix:` qualifier: the remainder after the
/// first colon, or empty when no colon is present.
pub fn after_colon<'a>(s: &'a str) -> (r: &'a str)
    ensures
        r@ == spec_after_colon(s@),
{
    let n = s.unicode_len();
    let mut pc: usize = 0;
    let mut found = false;
    let mut i: usize = 0;
    while i < n
        invariant
            n == s@.len(),
            i <= n,
            if found {
                first_colon_upto(s@, i as int) == Some(pc as int) && pc < n
            } else {
                first_colon_upto(s@, i as int) is None
            },
        decreases n - i,
    {
        if !found {
            let c = s.get_char(i);
            if c == ':' {
                found = true;
                pc = i;
            }
        }
        i += 1;
    }
    if found {
        s.substring_char(pc + 1, n)
    } else {
        let r = "";
        proof {
            reveal_strlit("");
            assert(r@ =~= spec_after_colon(s@));
        }
        r
    }
}

/// The index of the first comma among the first `n` characters.
pub open spec fn first_comma_upto(s: Seq<char>, n: int) -> Option<int>
    decreases n,
{
    if n <= 0 {
        None
    } else if first_comma_upto(s, n - 1) is Some {
        first_comma_upto(s, n - 1)
    } else if s[n - 1] == ',' {
        Some(n - 1)
    } else {
        None
    }
}

/// `s` split on commas: the pieces between commas, in order, each possibly
/// empty; a string without commas is one piece.
pub open spec fn spec_split_commas(s: Seq<char>) -> Seq<Seq<char>>
    decreases s.len(),
{
    match first_comma_upto(s, s.len() as int) {
        Some(p) => if 0 <= p < s.len() {
            seq![s.subrange(0, p)] + spec_split_commas(s.subrange(p + 1, s.len() as int))
        } else {
            seq![s]
        },
        None => seq![s],
    }
}

proof fn lemma_first_comma_none(s: Seq<char>, n: int)
    requires
        n <= s.len(),
        forall|j: int| 0 <= j < n ==> s[j] != ',',
    ensures
        first_comma_upto(s, n) is None,
    decreases n,
{
    if n > 0 {
        lemma_first_comma_none(s, n - 1);
    }
}

proof fn lemma_first_comma_at(s: Seq<char>, k: int, n: int)
    requires
        0 <= k < n <= s.len(),
        forall|j: int| 0 <= j < k ==> s[j] != ',',
        s[k] == ',',
    ensures
        first_comma_upto(s, n) == Some(k),
    decreases n,
{
    if n - 1 > k {
        lemma_first_comma_at(s, k, n - 1);
    } else {
        lemma_first_comma_none(s, k);
    }
}

/// Splits on commas, exactly as `spec_split_commas` describes.
pub fn split_commas(s: &str) -> (r: Vec<String>)
    ensures
        r@.len() == spec_split_commas(s@).len(),
        forall|j: int| 0 <= j < r@.len() ==> r@[j]@ == spec_split_commas(s@)[j],
{
    let n = s.unicode_len();
    let mut r: Vec<String> = Vec::new();
    let mut start: usize = 0;
    let mut i: usize = 0;
    proof {
        assert(s@.subrange(0, n as int) =~= s@);
        assert(r@.map_values(|t: String| t@) =~= Seq::<Seq<char>>::empty());
        assert(Seq::<Seq<char>>::empty() + spec_split_commas(s@) =~= spec_split_commas(s@));
    }
    while i < n
        invariant
            n == s@.len(),
            start <= i <= n,
            forall|j: int| start <= j < i ==> s@[j] != ',',
            spec_split_commas(s@) =~= r@.map_values(|t: String| t@) + spec_split_commas(
                s@.subrange(start as int, n as int),
            ),
        decreases n - i,
    {
        let c = s.get_char(i);
        if c == ',' {
            let piece = s.substring_char(start, i).to_owned();
            proof {
                let rest = s@.subrange(start as int, n as int);
                assert(rest[i - start] == s@[i as int]);
                assert(forall|j: int| 0 <= j < i - start ==> rest[j] == s@[j + start]);
                lemma_first_comma_at(rest, i - start, rest.len() as int);
                assert(rest.subrange(0, i - start) =~= s@.subrange(start as int, i as int));
                assert(rest.subrange(i - start + 1, rest.len() as int) =~= s@.subrange(
                    i as int + 1,
                    n as int,
                ));
                assert(r@.push(piece).map_values(|t: String| t@) =~= r@.map_values(
                    |t: String| t@,
                ).push(piece@));
            }
            r.push(piece);
            start = i + 1;
        }
        i += 1;
    }
    let last = s.substring_char(start, n).to_owned();
    proof {
        let rest = s@.subrange(start as int, n as int);
        assert(forall|j: int| 0 <= j < rest.len() ==> rest[j] == s@[j + start]);
        lemma_first_comma_none(rest, rest.len() as int);
        assert(spec_split_commas(rest) =~= seq![rest]);
        assert(r@.push(last).map_values(|t: String| t@) =~= r@.map_values(|t: String| t@).push(
            last@,
        ));
    }
    r.push(last);
    r
}

/// Whether `c` has the Unicode White_Space property, the definition
/// `str::trim` trims by.
pub open spec fn is_space_char(c: char) -> bool {
    ||| (9 <= c as int && c as int <= 13)
    ||| c == ' '
    ||| c as int == 0x85
    ||| c as int == 0xA0
    ||| c as int == 0x1680
    ||| (0x2000 <= c as int && c as int <= 0x200A)
    ||| c as int == 0x2028
    ||| c as int == 0x2029
    ||| c as int == 0x202F
    ||| c as int == 0x205F
    ||| c as int == 0x3000
}

/// What `str::trim` returns on a given string.
pub uninterp spec fn trim_of(s: Seq<char>) -> Seq<char>;

/// Relies on `str::trim`: removes leading and trailing whitespace; the
/// result depends on the characters alone. A string whose first and last
/// characters are not whitespace trims to itself.
#[verifier::external_body]
pub(crate) fn trim_str<'a>(s: &'a str) -> (r: &'a str)
    ensures
        r@ == trim_of(s@),
        (s@.len() == 0 || (!is_space_char(s@[0]) && !is_space_char(s@[s@.len() - 1]))) ==> r@
            == s@,
{
    s.trim()
}

/// What `str::to_uppercase` returns on a given string.
pub uninterp spec fn upper_of(s: Seq<char>) -> Seq<char>;

/// Relies on `str::to_uppercase`: Unicode uppercasing; the result depends
/// on the characters alone.
#[verifier::external_body]
pub(crate) fn to_upper(s: &str) -> (r: String)
    ensures
        r@ == upper_of(s@),
{
    s.to_uppercase()
}

} // verus!
