use vstd::prelude::*;
use vstd::arithmetic::power::*;
use vstd::utf8::encode_utf8;
use crate::numeral::{numeral_of, order_numerals};

verus! {

/// The decimal number that `rust_decimal` reads from a text, as the
/// integer `m` and the exponent `e` of `m / 10^e`; `None` where it reads
/// none.
pub uninterp spec fn decimal_of(text: Seq<char>) -> Option<(int, nat)>;

/// Calls `rust_decimal::Decimal::from_str`, and `mantissa` and `scale` on
/// what it gives. The contract names the result and states the bounds that
/// the crate documents for every `Decimal`: an integer of at most 96 bits
/// over a power of ten of at most 28.
#[verifier::external_body]
pub(crate) fn parse_decimal(text: &str) -> (r: Option<(i128, u32)>)
    ensures
        match r {
            Some((m, e)) => {
                &&& decimal_of(text@) == Some((m as int, e as nat))
                &&& -79228162514264337593543950336 < m < 79228162514264337593543950336
                &&& e <= 28
            },
            None => decimal_of(text@) is None,
        },
{
    match text.parse::<rust_decimal::Decimal>() {
        Ok(d) => Some((d.mantissa(), d.scale())),
        Err(_) => None,
    }
}

/// The sign of an integer: -1, 0 or 1.
pub open spec fn sign(x: int) -> int {
    if x < 0 {
        -1
    } else if x == 0 {
        0
    } else {
        1
    }
}

/// How `a.0 / 10^a.1` stands to `b.0 / 10^b.1`: -1 below it, 0 equal to
/// it, 1 above it.
pub open spec fn decimal_order(a: (int, nat), b: (int, nat)) -> int {
    sign(a.0 * pow(10, b.1) - b.0 * pow(10, a.1))
}

/// How two byte strings stand in the order of a dictionary.
pub open spec fn bytes_order(a: Seq<u8>, b: Seq<u8>) -> int
    decreases a.len(),
{
    if a.len() == 0 {
        if b.len() == 0 {
            0
        } else {
            -1
        }
    } else if b.len() == 0 {
        1
    } else if a[0] < b[0] {
        -1
    } else if a[0] > b[0] {
        1
    } else {
        bytes_order(a.drop_first(), b.drop_first())
    }
}

/// How two texts stand in the order of their UTF-8 bytes.
pub open spec fn text_order(a: Seq<char>, b: Seq<char>) -> int {
    bytes_order(encode_utf8(a), encode_utf8(b))
}

/// The order of two scalars. Two numerals (a sign, digits, at most one
/// point) stand as the numbers that they denote, however long they are.
/// Two other texts that both read as decimal numbers stand as those
/// numbers. Any other two stand as their bytes.
pub open spec fn scalar_order(a: Seq<char>, b: Seq<char>) -> int {
    match (numeral_of(a), numeral_of(b)) {
        (Some(x), Some(y)) => decimal_order(x, y),
        _ => match (decimal_of(a), decimal_of(b)) {
            (Some(x), Some(y)) => decimal_order(x, y),
            _ => text_order(a, b),
        },
    }
}

proof fn lemma_pow10_bound(e: nat)
    requires
        e <= 28,
    ensures
        1 <= pow(10, e) <= 10000000000000000000000000000,
{
    lemma_pow_positive(10, e);
    lemma_pow_increases(10, e, 28);
    assert(pow(10, 28) == 10000000000000000000000000000) by {
        reveal_with_fuel(pow, 29);
    }
}

fn pow10(e: u32) -> (r: i128)
    requires
        e <= 28,
    ensures
        r == pow(10, e as nat),
        1 <= r <= 10000000000000000000000000000,
{
    let mut r: i128 = 1;
    let mut i: u32 = 0;
    proof {
        lemma_pow0(10);
    }
    while i < e
        invariant
            i <= e <= 28,
            r == pow(10, i as nat),
        decreases e - i,
    {
        proof {
            lemma_pow10_bound(i as nat);
            lemma_pow10_bound((i + 1) as nat);
            reveal_with_fuel(pow, 2);
            assert(pow(10, (i + 1) as nat) == 10 * pow(10, i as nat));
        }
        r = r * 10;
        i += 1;
    }
    proof {
        lemma_pow10_bound(e as nat);
    }
    r
}

/// How `m * 10^d` stands to `other`.
fn order_scaled(m: i128, d: u32, other: i128) -> (r: i8)
    requires
        d <= 28,
    ensures
        r == sign(m * pow(10, d as nat) - other),
{
    let p = pow10(d);
    match m.checked_mul(p) {
        Some(x) => {
            if x < other {
                -1
            } else if x == other {
                0
            } else {
                1
            }
        },
        None => {
            if m > 0 {
                assert(m * p >= 0) by (nonlinear_arith)
                    requires
                        m > 0,
                        p >= 1,
                ;
                1
            } else {
                assert(m * p <= 0) by (nonlinear_arith)
                    requires
                        m <= 0,
                        p >= 1,
                ;
                -1
            }
        },
    }
}

/// How `a.0 / 10^a.1` stands to `b.0 / 10^b.1`.
pub fn order_decimals(a: (i128, u32), b: (i128, u32)) -> (r: i8)
    requires
        a.1 <= 28,
        b.1 <= 28,
    ensures
        r == decimal_order((a.0 as int, a.1 as nat), (b.0 as int, b.1 as nat)),
{
    let ghost pa = pow(10, a.1 as nat);
    let ghost pb = pow(10, b.1 as nat);
    proof {
        lemma_pow_positive(10, a.1 as nat);
        lemma_pow_positive(10, b.1 as nat);
    }
    if a.1 == b.1 {
        proof {
            let x = a.0 as int;
            let y = b.0 as int;
            assert(sign(x * pa - y * pa) == sign(x - y)) by (nonlinear_arith)
                requires
                    pa > 0,
            ;
        }
        if a.0 < b.0 {
            -1
        } else if a.0 == b.0 {
            0
        } else {
            1
        }
    } else if a.1 < b.1 {
        let d = b.1 - a.1;
        let r = order_scaled(a.0, d, b.0);
        proof {
            let pd = pow(10, d as nat);
            lemma_pow_adds(10, d as nat, a.1 as nat);
            let x = a.0 as int;
            let y = b.0 as int;
            assert(sign(x * (pd * pa) - y * pa) == sign(x * pd - y)) by (nonlinear_arith)
                requires
                    pa > 0,
            ;
        }
        r
    } else {
        let d = a.1 - b.1;
        let r = order_scaled(b.0, d, a.0);
        proof {
            let pd = pow(10, d as nat);
            lemma_pow_adds(10, d as nat, b.1 as nat);
            let x = a.0 as int;
            let y = b.0 as int;
            assert(sign(x * pb - y * (pd * pb)) == -sign(y * pd - x)) by (nonlinear_arith)
                requires
                    pb > 0,
            ;
        }
        -r
    }
}

/// How two byte strings stand in the order of a dictionary.
pub fn order_bytes(a: &[u8], b: &[u8]) -> (r: i8)
    ensures
        r == bytes_order(a@, b@),
{
    let mut i: usize = 0;
    assert(a@.skip(0) =~= a@);
    assert(b@.skip(0) =~= b@);
    while i < a.len() && i < b.len()
        invariant
            i <= a.len(),
            i <= b.len(),
            bytes_order(a@, b@) == bytes_order(a@.skip(i as int), b@.skip(i as int)),
        decreases a.len() - i,
    {
        proof {
            assert(a@.skip(i as int).drop_first() =~= a@.skip(i + 1));
            assert(b@.skip(i as int).drop_first() =~= b@.skip(i + 1));
        }
        if a[i] < b[i] {
            return -1;
        }
        if a[i] > b[i] {
            return 1;
        }
        i += 1;
    }
    if i < b.len() {
        -1
    } else if i < a.len() {
        1
    } else {
        0
    }
}

/// How two texts stand in the order of their bytes.
pub fn order_texts(a: &str, b: &str) -> (r: i8)
    ensures
        r == text_order(a@, b@),
{
    order_bytes(a.as_bytes(), b.as_bytes())
}

/// How two scalars stand: two numerals by the numbers that they denote,
/// two other texts that read as decimal numbers by those numbers, any
/// other two by their bytes.
pub fn order_scalars(a: &str, b: &str) -> (r: i8)
    ensures
        r == scalar_order(a@, b@),
{
    match order_numerals(a, b) {
        Some(c) => c,
        None => match (parse_decimal(a), parse_decimal(b)) {
            (Some(x), Some(y)) => order_decimals(x, y),
            _ => order_texts(a, b),
        },
    }
}

/// A byte string stands to itself as an equal.
pub proof fn lemma_bytes_order_reflexive(a: Seq<u8>)
    ensures
        bytes_order(a, a) == 0,
    decreases a.len(),
{
    if a.len() > 0 {
        lemma_bytes_order_reflexive(a.drop_first());
    }
}

/// Swapping two byte strings turns their order round.
pub proof fn lemma_bytes_order_antisymmetric(a: Seq<u8>, b: Seq<u8>)
    ensures
        bytes_order(a, b) == -bytes_order(b, a),
    decreases a.len(),
{
    if a.len() > 0 && b.len() > 0 && a[0] == b[0] {
        lemma_bytes_order_antisymmetric(a.drop_first(), b.drop_first());
    }
}

/// A number stands to itself as an equal.
pub proof fn lemma_decimal_order_reflexive(x: (int, nat))
    ensures
        decimal_order(x, x) == 0,
{
}

/// Swapping two numbers turns their order round.
pub proof fn lemma_decimal_order_antisymmetric(x: (int, nat), y: (int, nat))
    ensures
        decimal_order(x, y) == -decimal_order(y, x),
{
    let px = pow(10, x.1);
    let py = pow(10, y.1);
    assert(sign(x.0 * py - y.0 * px) == -sign(y.0 * px - x.0 * py));
}

/// A scalar stands to itself as an equal.
pub proof fn lemma_scalar_order_reflexive(a: Seq<char>)
    ensures
        scalar_order(a, a) == 0,
{
    lemma_bytes_order_reflexive(encode_utf8(a));
}

/// Swapping two scalars turns their order round.
pub proof fn lemma_scalar_order_antisymmetric(a: Seq<char>, b: Seq<char>)
    ensures
        scalar_order(a, b) == -scalar_order(b, a),
{
    lemma_bytes_order_antisymmetric(encode_utf8(a), encode_utf8(b));
    match (numeral_of(a), numeral_of(b)) {
        (Some(x), Some(y)) => {
            lemma_decimal_order_antisymmetric(x, y);
        },
        _ => match (decimal_of(a), decimal_of(b)) {
            (Some(x), Some(y)) => {
                lemma_decimal_order_antisymmetric(x, y);
            },
            _ => {},
        },
    }
}

} // verus!
