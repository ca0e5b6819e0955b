use vstd::prelude::*;
use vstd::string::StringExecFns;
use crate::strutil::{chars_to_string, str_chars};

verus! {

/// The numeric value of one digit character, or -1 for a character that is
/// no digit: `0`-`9` count as 0 to 9, letters of either case count as 10
/// upward, as the standard radix parser reads them.
pub open spec fn spec_char_val(c: char) -> int {
    let u = c as int;
    if 48 <= u <= 57 {
        u - 48
    } else if 97 <= u <= 122 {
        u - 97 + 10
    } else if 65 <= u <= 90 {
        u - 65 + 10
    } else {
        -1
    }
}

/// Every position holds a digit of the base, and there is at least one.
pub open spec fn spec_all_digits(s: Seq<char>, base: int) -> bool {
    s.len() > 0 && forall|i: int| 0 <= i < s.len() ==> 0 <= #[trigger] spec_char_val(s[i]) < base
}

/// The value of a digit string read most significant first.
pub open spec fn spec_radix_val(s: Seq<char>, base: int) -> int
    decreases s.len(),
{
    if s.len() == 0 {
        0
    } else {
        spec_radix_val(s.drop_last(), base) * base + spec_char_val(s.last())
    }
}

/// What parsing an unsigned number of the given base returns: one optional
/// leading plus sign, then at least one digit of the base, and a value that
/// fits the machine word; anything else is rejected.
pub open spec fn spec_parse_radix(s: Seq<char>, base: int) -> Option<u128> {
    let ds = if s.len() > 0 && s[0] == '+' {
        s.drop_first()
    } else {
        s
    };
    if spec_all_digits(ds, base) && spec_radix_val(ds, base) <= u128::MAX {
        Some(spec_radix_val(ds, base) as u128)
    } else {
        None
    }
}

pub proof fn lemma_radix_val_nonneg(s: Seq<char>, base: int)
    requires
        base >= 2,
        forall|i: int| 0 <= i < s.len() ==> 0 <= #[trigger] spec_char_val(s[i]),
    ensures
        spec_radix_val(s, base) >= 0,
    decreases s.len(),
{
    if s.len() > 0 {
        lemma_radix_val_nonneg(s.drop_last(), base);
        let v = spec_radix_val(s.drop_last(), base);
        assert(v * base >= 0) by (nonlinear_arith)
            requires
                v >= 0,
                base >= 2,
        ;
    }
}

/// Reading more digits never shrinks the value.
pub proof fn lemma_radix_val_prefix_le(s: Seq<char>, base: int, i: int, j: int)
    requires
        base >= 2,
        forall|k: int| 0 <= k < s.len() ==> 0 <= #[trigger] spec_char_val(s[k]),
        0 <= i <= j <= s.len(),
    ensures
        spec_radix_val(s.take(i), base) <= spec_radix_val(s.take(j), base),
    decreases j - i,
{
    if i < j {
        lemma_radix_val_prefix_le(s, base, i, j - 1);
        let p = s.take(j - 1);
        let q = s.take(j);
        assert(q.drop_last() =~= p);
        assert(forall|k: int| 0 <= k < p.len() ==> 0 <= #[trigger] spec_char_val(p[k]));
        lemma_radix_val_nonneg(p, base);
        let v = spec_radix_val(p, base);
        assert(v * base >= v) by (nonlinear_arith)
            requires
                v >= 0,
                base >= 2,
        ;
        assert(spec_char_val(q.last()) >= 0);
    }
}

/// The digit characters of a value, most significant first, lower case and
/// empty for zero.
pub open spec fn spec_radix_digits(v: int, base: int) -> Seq<char>
    recommends
        v >= 0,
        2 <= base <= 16,
    decreases v,
    when v >= 0 && base >= 2
{
    if v == 0 {
        Seq::empty()
    } else {
        proof {
            assert(0 <= v / base < v) by (nonlinear_arith)
                requires
                    v >= 1,
                    base >= 2,
            ;
        }
        spec_radix_digits(v / base, base).push(spec_digit_char(v % base))
    }
}

/// The rendering of a value in the given base: its digits, or a single zero.
pub open spec fn spec_radix_str(v: int, base: int) -> Seq<char> {
    if v == 0 {
        seq!['0']
    } else {
        spec_radix_digits(v, base)
    }
}

/// The lower-case digit character for one digit value.
pub open spec fn spec_digit_char(d: int) -> char {
    if d == 0 {
        '0'
    } else if d == 1 {
        '1'
    } else if d == 2 {
        '2'
    } else if d == 3 {
        '3'
    } else if d == 4 {
        '4'
    } else if d == 5 {
        '5'
    } else if d == 6 {
        '6'
    } else if d == 7 {
        '7'
    } else if d == 8 {
        '8'
    } else if d == 9 {
        '9'
    } else if d == 10 {
        'a'
    } else if d == 11 {
        'b'
    } else if d == 12 {
        'c'
    } else if d == 13 {
        'd'
    } else if d == 14 {
        'e'
    } else if d == 15 {
        'f'
    } else {
        '?'
    }
}

fn digit_char(d: u128) -> (r: char)
    requires
        d < 16,
    ensures
        r == spec_digit_char(d as int),
{
    if d == 0 {
        '0'
    } else if d == 1 {
        '1'
    } else if d == 2 {
        '2'
    } else if d == 3 {
        '3'
    } else if d == 4 {
        '4'
    } else if d == 5 {
        '5'
    } else if d == 6 {
        '6'
    } else if d == 7 {
        '7'
    } else if d == 8 {
        '8'
    } else if d == 9 {
        '9'
    } else if d == 10 {
        'a'
    } else if d == 11 {
        'b'
    } else if d == 12 {
        'c'
    } else if d == 13 {
        'd'
    } else if d == 14 {
        'e'
    } else {
        'f'
    }
}

fn char_digit_val(c: char) -> (r: i32)
    ensures
        r == spec_char_val(c),
{
    let u = c as u32;
    if 48 <= u && u <= 57 {
        (u - 48) as i32
    } else if 97 <= u && u <= 122 {
        (u - 97 + 10) as i32
    } else if 65 <= u && u <= 90 {
        (u - 65 + 10) as i32
    } else {
        -1
    }
}

/// The decimal rendering of a signed value: a minus sign for negative
/// values, then the digits.
pub open spec fn spec_dec_i64(v: int) -> Seq<char> {
    if v >= 0 {
        spec_radix_str(v, 10)
    } else {
        seq!['-'] + spec_radix_str(-v, 10)
    }
}

/// Renders a signed value in decimal.
pub fn format_dec_i64(v: i64) -> (r: String)
    ensures
        r@ == spec_dec_i64(v as int),
{
    if v >= 0 {
        format_radix_u128(v as u128, 10)
    } else {
        let m: i128 = -(v as i128);
        let digits = format_radix_u128(m as u128, 10);
        let mut r = String::from_str("-");
        r.append(digits.as_str());
        proof {
            reveal_strlit("-");
            assert("-"@ =~= seq!['-']);
            assert(r@ =~= seq!['-'] + spec_radix_str(-(v as int), 10));
        }
        r
    }
}

/// Parses an unsigned number of the given base, exactly as the standard
/// radix parser does: an optional leading plus, then digits; rejects an
/// empty digit string, a foreign character, and a value over the machine
/// range.
pub fn parse_radix_u128(s: &str, base: u32) -> (r: Option<u128>)
    requires
        2 <= base <= 16,
    ensures
        r == spec_parse_radix(s@, base as int),
{
    let chars = str_chars(s);
    let start: usize = if chars.len() > 0 && chars[0] == '+' {
        1
    } else {
        0
    };
    let ghost ds = if s@.len() > 0 && s@[0] == '+' {
        s@.drop_first()
    } else {
        s@
    };
    proof {
        assert(ds =~= s@.subrange(start as int, s@.len() as int));
    }
    if chars.len() == start {
        return None;
    }
    let mut val: u128 = 0;
    let mut i: usize = start;
    while i < chars.len()
        invariant
            2 <= base <= 16,
            start <= i <= chars@.len(),
            chars@ == s@,
            start <= 1,
            ds == (if s@.len() > 0 && s@[0] == '+' {
                s@.drop_first()
            } else {
                s@
            }),
            ds =~= s@.subrange(start as int, s@.len() as int),
            val == spec_radix_val(ds.take(i - start), base as int),
            forall|k: int|
                0 <= k < i - start ==> 0 <= #[trigger] spec_char_val(ds[k]) < base,
        decreases chars@.len() - i,
    {
        let d = char_digit_val(chars[i]);
        if d < 0 || d >= base as i32 {
            proof {
                assert(ds[i - start] == s@[i as int]);
                assert(spec_char_val(ds[i - start]) == d);
                assert(!spec_all_digits(ds, base as int));
            }
            return None;
        }
        let next = match val.checked_mul(base as u128) {
            Some(m) => m.checked_add(d as u128),
            None => None,
        };
        proof {
            let t = ds.take(i - start + 1);
            assert(t.drop_last() =~= ds.take(i - start));
            assert(t.last() == ds[i - start]);
            assert(ds[i - start] == s@[i as int]);
        }
        match next {
            Some(v) => {
                val = v;
            },
            None => {
                proof {
                    if spec_all_digits(ds, base as int) {
                        lemma_radix_val_nonneg(ds.take(i - start), base as int);
                        lemma_radix_val_prefix_le(
                            ds,
                            base as int,
                            i - start + 1,
                            ds.len() as int,
                        );
                        assert(ds.take(ds.len() as int) =~= ds);
                        assert(spec_radix_val(ds.take(i - start + 1), base as int) > u128::MAX);
                        assert(spec_radix_val(ds, base as int) > u128::MAX);
                    }
                }
                return None;
            },
        }
        i = i + 1;
    }
    proof {
        assert(ds.take(ds.len() as int) =~= ds);
        assert(ds.len() > 0);
    }
    Some(val)
}

/// Renders a value in the given base with lower-case digits, exactly as the
/// standard formatter does for binary, octal, decimal and hexadecimal.
pub fn format_radix_u128(v: u128, base: u32) -> (r: String)
    requires
        2 <= base <= 16,
    ensures
        r@ == spec_radix_str(v as int, base as int),
{
    if v == 0 {
        let mut digits: Vec<char> = Vec::new();
        digits.push('0');
        proof {
            assert(digits@ =~= spec_radix_str(0, base as int));
        }
        return chars_to_string(&digits);
    }
    let mut rev: Vec<char> = Vec::new();
    let mut n: u128 = v;
    while n > 0
        invariant
            2 <= base <= 16,
            spec_radix_digits(v as int, base as int) =~= spec_radix_digits(n as int, base as int)
                + rev@.reverse(),
        decreases n,
    {
        let d = n % (base as u128);
        let c = digit_char(d);
        proof {
            let ni = n as int;
            let bi = base as int;
            assert(ni / bi < ni && ni / bi >= 0) by (nonlinear_arith)
                requires
                    ni > 0,
                    bi >= 2,
            ;
            assert(spec_radix_digits(ni, bi) == spec_radix_digits(ni / bi, bi).push(
                spec_digit_char(ni % bi),
            ));
            assert(rev@.push(c).reverse() =~= seq![c] + rev@.reverse());
            assert(spec_radix_digits(ni / bi, bi) + rev@.push(c).reverse() =~= spec_radix_digits(
                ni,
                bi,
            ) + rev@.reverse());
        }
        rev.push(c);
        n = n / (base as u128);
    }
    let mut digits: Vec<char> = Vec::new();
    let mut j: usize = rev.len();
    while j > 0
        invariant
            j <= rev@.len(),
            digits@ =~= rev@.subrange(j as int, rev@.len() as int).reverse(),
        decreases j,
    {
        j = j - 1;
        let c = rev[j];
        digits.push(c);
        proof {
            assert(rev@.subrange(j as int, rev@.len() as int).reverse() =~= rev@.subrange(
                j + 1,
                rev@.len() as int,
            ).reverse().push(rev@[j as int]));
        }
    }
    proof {
        assert(rev@.subrange(0, rev@.len() as int) =~= rev@);
        assert(digits@ =~= spec_radix_str(v as int, base as int));
    }
    chars_to_string(&digits)
}

} // verus!
