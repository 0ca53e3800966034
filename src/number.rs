//! Reading the digits of a numeric character reference.

use vstd::prelude::*;

verus! {

/// The value of `c` as a digit in base `radix` (10 or 16), if it is one.
pub open spec fn digit_of(c: char, radix: nat) -> Option<nat> {
    let u = c as u32;
    if '0' as u32 <= u <= '9' as u32 {
        Some((u - '0' as u32) as nat)
    } else if radix == 16 && 'a' as u32 <= u <= 'f' as u32 {
        Some((u - 'a' as u32 + 10) as nat)
    } else if radix == 16 && 'A' as u32 <= u <= 'F' as u32 {
        Some((u - 'A' as u32 + 10) as nat)
    } else {
        None
    }
}

/// Every character of `d` is a digit in base `radix`.
pub open spec fn all_digits(d: Seq<char>, radix: nat) -> bool {
    forall|i: int| 0 <= i < d.len() ==> #[trigger] digit_of(d[i], radix) is Some
}

/// The number that the digits `d` write in base `radix`, most significant first.
pub open spec fn digits_value(d: Seq<char>, radix: nat) -> nat
    decreases d.len(),
{
    if d.len() == 0 {
        0
    } else {
        digits_value(d.drop_last(), radix) * radix + match digit_of(d.last(), radix) {
            Some(v) => v,
            None => 0,
        }
    }
}

/// The number that `d` writes in base `radix`: an optional `+` and one or more
/// digits; `None` for anything else.
pub open spec fn number_value(d: Seq<char>, radix: nat) -> Option<nat> {
    let body = if d.len() > 0 && d[0] == '+' {
        d.drop_first()
    } else {
        d
    };
    if body.len() > 0 && all_digits(body, radix) {
        Some(digits_value(body, radix))
    } else {
        None
    }
}

/// The first value above every Unicode scalar value.
pub const SCALAR_LIMIT: u32 = 0x110000;

/// `v` is a Unicode scalar value: a code point that is not a surrogate.
pub open spec fn is_scalar(v: int) -> bool {
    (0 <= v < 0xD800) || (0xE000 <= v <= 0x10FFFF)
}

/// `v`, or `SCALAR_LIMIT` where `v` is larger.
pub open spec fn capped(v: int) -> int {
    if v <= SCALAR_LIMIT {
        v
    } else {
        SCALAR_LIMIT as int
    }
}

/// Reads `c` as a digit in base `radix`.
fn digit(c: char, radix: u32) -> (r: Option<u32>)
    requires
        radix == 10 || radix == 16,
    ensures
        match digit_of(c, radix as nat) {
            Some(v) => r == Some(v as u32),
            None => r is None,
        },
{
    let u = c as u32;
    if '0' as u32 <= u && u <= '9' as u32 {
        Some(u - '0' as u32)
    } else if radix == 16 && 'a' as u32 <= u && u <= 'f' as u32 {
        Some(u - 'a' as u32 + 10)
    } else if radix == 16 && 'A' as u32 <= u && u <= 'F' as u32 {
        Some(u - 'A' as u32 + 10)
    } else {
        None
    }
}

/// Reads the number written in `chars[start..end]` in base `radix`, capped at
/// `SCALAR_LIMIT`: every value that large stands for no character.
pub fn parse_digits(chars: &Vec<char>, start: usize, end: usize, radix: u32) -> (r: Option<u32>)
    requires
        start <= end <= chars@.len(),
        radix == 10 || radix == 16,
    ensures
        match number_value(chars@.subrange(start as int, end as int), radix as nat) {
            Some(v) => r == Some(capped(v as int) as u32),
            None => r is None,
        },
{
    let ghost d = chars@.subrange(start as int, end as int);
    let mut b: usize = start;
    if start < end && chars[start] == '+' {
        b = start + 1;
    }
    let ghost body = chars@.subrange(b as int, end as int);
    assert(body =~= (if d.len() > 0 && d[0] == '+' { d.drop_first() } else { d }));
    if b == end {
        return None;
    }
    let mut acc: u32 = 0;
    let mut k: usize = b;
    while k < end
        invariant
            b <= k <= end <= chars@.len(),
            body == chars@.subrange(b as int, end as int),
            d == chars@.subrange(start as int, end as int),
            body == (if d.len() > 0 && d[0] == '+' { d.drop_first() } else { d }),
            body.len() > 0,
            radix == 10 || radix == 16,
            acc as int == capped(digits_value(chars@.subrange(b as int, k as int), radix as nat) as int),
            forall|i: int| b <= i < k ==> #[trigger] digit_of(chars@[i], radix as nat) is Some,
        decreases end - k,
    {
        let dv = digit(chars[k], radix);
        match dv {
            None => {
                assert(body[k - b] == chars@[k as int]);
                assert(!all_digits(body, radix as nat));
                return None;
            },
            Some(x) => {
                let ghost prev = chars@.subrange(b as int, k as int);
                let ghost next = chars@.subrange(b as int, k + 1);
                assert(next.drop_last() =~= prev);
                assert(next.last() == chars@[k as int]);
                let ghost v = digits_value(prev, radix as nat);
                assert(digits_value(next, radix as nat) == v * radix + x);
                assert(capped(capped(v as int) * radix + x) == capped(v * radix + x)) by (nonlinear_arith)
                    requires
                        radix >= 1,
                        x >= 0,
                        v >= 0,
                        capped(v as int) == if v <= 0x110000 { v as int } else { 0x110000 },
                        capped(capped(v as int) * radix + x) == if capped(v as int) * radix + x <= 0x110000 { capped(v as int) * radix + x } else { 0x110000 },
                        capped(v * radix + x) == if v * radix + x <= 0x110000 { v * radix + x } else { 0x110000 },
                {}
                assert(acc * radix + x <= 0x110000 * 16 + 15) by (nonlinear_arith)
                    requires
                        acc <= 0x110000,
                        radix <= 16,
                        x < 16,
                {}
                let n = acc * radix + x;
                if n > SCALAR_LIMIT {
                    acc = SCALAR_LIMIT;
                } else {
                    acc = n;
                }
            },
        }
        k = k + 1;
    }
    assert(chars@.subrange(b as int, k as int) =~= body);
    assert forall|i: int| 0 <= i < body.len() implies #[trigger] digit_of(body[i], radix as nat) is Some by {
        assert(body[i] == chars@[b + i]);
    }
    Some(acc)
}

} // verus!
