use vstd::prelude::*;
use vstd::arithmetic::power::{
    lemma_pow0, lemma_pow_adds, lemma_pow_increases, lemma_pow_positive, pow,
};
use crate::literal::{
    all_digits, ascii_at, ascii_len, digit_run, digit_value, digits_value, is_digit,
    is_float_literal, lemma_digit_run_bounds, lemma_digit_run_shift, lemma_digit_run_step,
    lemma_float_literal_is_ascii,
    scan_digits, unsigned_part,
};
use crate::order::{decimal_order, sign};

verus! {

/// The parts of a numeral: its sign, the digits before the point and the
/// digits behind it.
pub struct Numeral {
    pub negative: bool,
    pub whole: Seq<char>,
    pub fraction: Seq<char>,
}

/// The parts of a text that is a numeral: an optional sign, then digits
/// with at most one point among them and at least one digit, and nothing
/// else. A text of another form has none.
pub open spec fn numeral_parts(s: Seq<char>) -> Option<Numeral> {
    let body = unsigned_part(s);
    let int_end = digit_run(body, 0);
    let has_point = int_end < body.len() && body[int_end] == '.';
    let frac_end = if has_point {
        digit_run(body, int_end + 1)
    } else {
        int_end
    };
    let digits = if has_point {
        frac_end - 1
    } else {
        frac_end
    };
    if digits > 0 && frac_end == body.len() {
        Some(
            Numeral {
                negative: s[0] == '-',
                whole: body.subrange(0, int_end),
                fraction: body.subrange(
                    if has_point {
                        int_end + 1
                    } else {
                        int_end
                    },
                    body.len() as int,
                ),
            },
        )
    } else {
        None
    }
}

/// The number that a numeral denotes, however many digits it has: the
/// integer `m` of all its digits, with its sign, and the count `e` of its
/// fraction digits, for `m / 10^e`.
pub open spec fn numeral_of(s: Seq<char>) -> Option<(int, nat)> {
    match numeral_parts(s) {
        Some(n) => Some(
            (
                if n.negative {
                    -(digits_value(n.whole + n.fraction) as int)
                } else {
                    digits_value(n.whole + n.fraction) as int
                },
                n.fraction.len(),
            ),
        ),
        None => None,
    }
}

/// So many zeros.
pub open spec fn zeros(n: int) -> Seq<char> {
    Seq::new(
        if n > 0 {
            n as nat
        } else {
            0
        },
        |i: int| '0',
    )
}

/// The digits of a numeral with zeros before and behind them, so that
/// `i` digits stand before the point and `f` behind it.
pub open spec fn padded(n: Numeral, i: int, f: int) -> Seq<char> {
    zeros(i - n.whole.len()) + n.whole + n.fraction + zeros(f - n.fraction.len())
}

/// How two runs of digits of one length stand, digit by digit from the
/// left: the first place in which they differ decides.
pub open spec fn digits_order(x: Seq<char>, y: Seq<char>) -> int
    decreases x.len(),
{
    if x.len() == 0 || y.len() == 0 {
        0
    } else {
        let before = digits_order(x.drop_last(), y.drop_last());
        if before != 0 {
            before
        } else {
            sign(digit_value(x.last()) - digit_value(y.last()))
        }
    }
}

/// Runs of digits of one length stand as the numbers that they denote.
pub proof fn lemma_digits_order(x: Seq<char>, y: Seq<char>)
    requires
        x.len() == y.len(),
        all_digits(x),
        all_digits(y),
    ensures
        digits_order(x, y) == sign(digits_value(x) - digits_value(y)),
    decreases x.len(),
{
    if x.len() > 0 {
        let xs = x.drop_last();
        let ys = y.drop_last();
        assert forall|i: int| 0 <= i < xs.len() implies is_digit(#[trigger] xs[i]) by {
            assert(xs[i] == x[i]);
        }
        assert forall|i: int| 0 <= i < ys.len() implies is_digit(#[trigger] ys[i]) by {
            assert(ys[i] == y[i]);
        }
        lemma_digits_order(xs, ys);
        assert(is_digit(x[x.len() - 1]) && is_digit(y[y.len() - 1]));
        assert(0 <= digit_value(x.last()) <= 9);
        assert(0 <= digit_value(y.last()) <= 9);
    }
}

proof fn lemma_zeros_value(n: int)
    ensures
        all_digits(zeros(n)),
        digits_value(zeros(n)) == 0,
    decreases n,
{
    if n > 0 {
        lemma_zeros_value(n - 1);
        assert(zeros(n).drop_last() =~= zeros(n - 1));
    }
}

/// Zeros before a run of digits do not change what it denotes.
proof fn lemma_leading_zeros(n: int, x: Seq<char>)
    ensures
        digits_value(zeros(n) + x) == digits_value(x),
    decreases x.len(),
{
    if x.len() == 0 {
        lemma_zeros_value(n);
        assert(zeros(n) + x =~= zeros(n));
    } else {
        lemma_leading_zeros(n, x.drop_last());
        assert((zeros(n) + x).drop_last() =~= zeros(n) + x.drop_last());
        assert((zeros(n) + x).last() == x.last());
    }
}

/// Each zero behind a run of digits makes what it denotes ten times as
/// much.
proof fn lemma_trailing_zeros(x: Seq<char>, n: int)
    requires
        n >= 0,
    ensures
        digits_value(x + zeros(n)) == digits_value(x) * pow(10, n as nat),
    decreases n,
{
    if n == 0 {
        lemma_pow0(10);
        assert(x + zeros(n) =~= x);
    } else {
        lemma_trailing_zeros(x, n - 1);
        assert((x + zeros(n)).drop_last() =~= x + zeros(n - 1));
        assert((x + zeros(n)).last() == '0');
        lemma_pow_adds(10, 1, (n - 1) as nat);
        assert(pow(10, 1) == 10) by {
            reveal_with_fuel(pow, 2);
        }
        let v = digits_value(x) as int;
        let p = pow(10, (n - 1) as nat);
        assert(10 * (v * p) == v * (10 * p)) by (nonlinear_arith);
    }
}

/// The padded digits of a numeral are digits, and denote its own digits
/// times a power of ten.
pub proof fn lemma_padded(n: Numeral, i: int, f: int)
    requires
        all_digits(n.whole),
        all_digits(n.fraction),
        i >= n.whole.len(),
        f >= n.fraction.len(),
    ensures
        padded(n, i, f).len() == i + f,
        all_digits(padded(n, i, f)),
        digits_value(padded(n, i, f)) == digits_value(n.whole + n.fraction) * pow(
            10,
            (f - n.fraction.len()) as nat,
        ),
{
    let lead = i - n.whole.len();
    let trail = f - n.fraction.len();
    let own = n.whole + n.fraction;
    let p = padded(n, i, f);
    assert(p =~= (zeros(lead) + own) + zeros(trail));
    lemma_trailing_zeros(zeros(lead) + own, trail);
    lemma_leading_zeros(lead, own);
    assert forall|k: int| 0 <= k < p.len() implies is_digit(#[trigger] p[k]) by {
        if k < lead {
            assert(p[k] == '0');
        } else if k < lead + n.whole.len() {
            assert(p[k] == n.whole[k - lead]);
        } else if k < lead + own.len() {
            assert(p[k] == n.fraction[k - lead - n.whole.len()]);
        } else {
            assert(p[k] == '0');
        }
    }
}

/// Where the parts of a numeral stand in its text.
pub struct Layout {
    pub negative: bool,
    pub start: usize,
    pub int_end: usize,
    pub frac_start: usize,
    pub end: usize,
}

/// Whether a layout tells the parts of the numeral `s`.
pub open spec fn lays_out(s: Seq<char>, l: Layout) -> bool {
    &&& l.start <= l.int_end <= l.frac_start <= l.end == s.len()
    &&& all_digits(s.subrange(l.start as int, l.int_end as int))
    &&& all_digits(s.subrange(l.frac_start as int, l.end as int))
    &&& numeral_parts(s) == Some(
        Numeral {
            negative: l.negative,
            whole: s.subrange(l.start as int, l.int_end as int),
            fraction: s.subrange(l.frac_start as int, l.end as int),
        },
    )
}

/// A numeral holds ASCII characters only.
proof fn lemma_numeral_is_ascii(s: Seq<char>)
    ensures
        numeral_parts(s) is Some ==> vstd::utf8::is_ascii_chars(s),
{
    if numeral_parts(s) is Some {
        assert(is_float_literal(s));
        lemma_float_literal_is_ascii(s);
    }
}

/// Finds the parts of a numeral in its text.
pub fn read_numeral(s: &str) -> (r: Option<Layout>)
    ensures
        match r {
            Some(l) => s.is_ascii() && lays_out(s@, l),
            None => numeral_parts(s@) is None,
        },
{
    if !s.is_ascii() {
        proof {
            lemma_numeral_is_ascii(s@);
        }
        return None;
    }
    let n = ascii_len(s);
    let first: u8 = if n > 0 {
        ascii_at(s, 0)
    } else {
        0
    };
    let start: usize = if n > 0 && (first == 45 || first == 43) {
        1
    } else {
        0
    };
    let ghost body = s@.subrange(start as int, n as int);
    assert(body =~= unsigned_part(s@));
    let int_end = scan_digits(s, start);
    proof {
        lemma_digit_run_shift(s@, start as int, start as int);
        lemma_digit_run_bounds(s@, start as int);
    }
    let has_point = int_end < n && ascii_at(s, int_end) == 46;
    let frac_start = if has_point {
        int_end + 1
    } else {
        int_end
    };
    let frac_end = if has_point {
        scan_digits(s, int_end + 1)
    } else {
        int_end
    };
    proof {
        if has_point {
            lemma_digit_run_shift(s@, start as int, int_end + 1);
            lemma_digit_run_bounds(s@, int_end + 1);
        }
    }
    let digits = if has_point {
        frac_end - start - 1
    } else {
        frac_end - start
    };
    if digits == 0 || frac_end != n {
        return None;
    }
    let l = Layout { negative: n > 0 && first == 45, start, int_end, frac_start, end: n };
    proof {
        assert(body.subrange(0, int_end - start) =~= s@.subrange(start as int, int_end as int));
        assert(body.subrange(frac_start - start, body.len() as int) =~= s@.subrange(
            frac_start as int,
            n as int,
        ));
        assert forall|j: int| 0 <= j < int_end - start implies is_digit(
            #[trigger] s@.subrange(start as int, int_end as int)[j],
        ) by {
            assert(is_digit(s@[start + j]));
        }
        assert forall|j: int| 0 <= j < n - frac_start implies is_digit(
            #[trigger] s@.subrange(frac_start as int, n as int)[j],
        ) by {
            assert(is_digit(s@[frac_start + j]));
        }
    }
    Some(l)
}

/// The digit at place `k` of a run of `len` digits that ends at `end` in
/// the text, after zeros were put before it to make it `width` long.
fn left_padded_digit(s: &str, end: usize, len: usize, width: usize, k: usize) -> (d: u8)
    requires
        s.is_ascii(),
        len <= end <= s@.len(),
        len <= width,
        k < width,
        all_digits(s@.subrange(end - len, end as int)),
    ensures
        d <= 9,
        d == digit_value((zeros(width - len) + s@.subrange(end - len, end as int))[k as int]),
{
    if k < width - len {
        0
    } else {
        let at = end - len + (k - (width - len));
        let b = ascii_at(s, at);
        assert(is_digit(s@.subrange(end - len, end as int)[k - (width - len)]));
        b - 48
    }
}

/// The digit at place `j` of a run of digits that starts at `from` and
/// goes to the end of the text, with zeros put behind it.
fn right_padded_digit(s: &str, from: usize, width: usize, j: usize) -> (d: u8)
    requires
        s.is_ascii(),
        from <= s@.len(),
        s@.len() - from <= width,
        j < width,
        all_digits(s@.subrange(from as int, s@.len() as int)),
    ensures
        d <= 9,
        d == digit_value(
            (s@.subrange(from as int, s@.len() as int) + zeros(width - (s@.len() - from)))[j as int],
        ),
{
    let n = ascii_len(s);
    if j < n - from {
        let b = ascii_at(s, from + j);
        assert(is_digit(s@.subrange(from as int, n as int)[j as int]));
        b - 48
    } else {
        0
    }
}

fn larger(a: usize, b: usize) -> (r: usize)
    ensures
        r >= a,
        r >= b,
        r == a || r == b,
{
    if a >= b {
        a
    } else {
        b
    }
}

/// The order of the numbers `±ma / 10^fa` and `±mb / 10^fb` follows from
/// the order of their magnitudes, brought to one count of fraction
/// digits, and from whether both are nought.
proof fn lemma_signed_order(
    neg_a: bool,
    ma: int,
    fa: nat,
    neg_b: bool,
    mb: int,
    fb: nat,
    f: nat,
    c: int,
    any: bool,
)
    requires
        ma >= 0,
        mb >= 0,
        f >= fa,
        f >= fb,
        f == fa || f == fb,
        c == sign(ma * pow(10, (f - fa) as nat) - mb * pow(10, (f - fb) as nat)),
        any <==> ma * pow(10, (f - fa) as nat) + mb * pow(10, (f - fb) as nat) > 0,
    ensures
        decimal_order(
            (
                if neg_a {
                    -ma
                } else {
                    ma
                },
                fa,
            ),
            (
                if neg_b {
                    -mb
                } else {
                    mb
                },
                fb,
            ),
        ) == if !any {
            0
        } else if neg_a && neg_b {
            -c
        } else if neg_a {
            -1
        } else if neg_b {
            1
        } else {
            c
        },
{
    let pa = pow(10, fa);
    let pb = pow(10, fb);
    let qa = pow(10, (f - fa) as nat);
    let qb = pow(10, (f - fb) as nat);
    lemma_pow_positive(10, fa);
    lemma_pow_positive(10, fb);
    lemma_pow_positive(10, (f - fa) as nat);
    lemma_pow_positive(10, (f - fb) as nat);
    lemma_pow0(10);
    if f == fa {
        // qa == 1, pa == qb * pb
        lemma_pow_adds(10, (f - fb) as nat, fb);
        assert(qa == 1);
        assert(pa == qb * pb);
        assert(sign(ma * pb - mb * (qb * pb)) == sign(ma * qa - mb * qb)) by (nonlinear_arith)
            requires
                pb > 0,
                qa == 1,
        ;
        assert((ma * pb + mb * (qb * pb) > 0) <==> (ma * qa + mb * qb > 0)) by (nonlinear_arith)
            requires
                pb > 0,
                qa == 1,
                ma >= 0,
                mb >= 0,
                qb > 0,
        ;
    } else {
        lemma_pow_adds(10, (f - fa) as nat, fa);
        assert(qb == 1);
        assert(pb == qa * pa);
        assert(sign(ma * (qa * pa) - mb * pa) == sign(ma * qa - mb * qb)) by (nonlinear_arith)
            requires
                pa > 0,
                qb == 1,
        ;
        assert((ma * (qa * pa) + mb * pa > 0) <==> (ma * qa + mb * qb > 0)) by (nonlinear_arith)
            requires
                pa > 0,
                qb == 1,
                ma >= 0,
                mb >= 0,
                qa > 0,
        ;
    }
    let x = ma * pb;
    let y = mb * pa;
    assert(x >= 0 && y >= 0) by (nonlinear_arith)
        requires
            x == ma * pb,
            y == mb * pa,
            ma >= 0,
            mb >= 0,
            pa > 0,
            pb > 0,
    ;
    assert((-ma) * pb == -x) by (nonlinear_arith)
        requires
            x == ma * pb,
    ;
    assert((-mb) * pa == -y) by (nonlinear_arith)
        requires
            y == mb * pa,
    ;
}

/// How two numerals stand by the numbers that they denote, however many
/// digits they have; nothing where one of the texts is no numeral.
pub fn order_numerals(a: &str, b: &str) -> (r: Option<i8>)
    ensures
        match r {
            Some(c) => numeral_of(a@) is Some && numeral_of(b@) is Some && c == decimal_order(
                numeral_of(a@)->Some_0,
                numeral_of(b@)->Some_0,
            ),
            None => numeral_of(a@) is None || numeral_of(b@) is None,
        },
{
    let la = match read_numeral(a) {
        Some(l) => l,
        None => {
            return None;
        },
    };
    let lb = match read_numeral(b) {
        Some(l) => l,
        None => {
            return None;
        },
    };
    let ia = la.int_end - la.start;
    let ib = lb.int_end - lb.start;
    let fa = la.end - la.frac_start;
    let fb = lb.end - lb.frac_start;
    let i = larger(ia, ib);
    let f = larger(fa, fb);
    let ghost na = numeral_parts(a@)->Some_0;
    let ghost nb = numeral_parts(b@)->Some_0;
    let ghost pa = padded(na, i as int, f as int);
    let ghost pb = padded(nb, i as int, f as int);
    proof {
        lemma_padded(na, i as int, f as int);
        lemma_padded(nb, i as int, f as int);
    }
    let mut c: i8 = 0;
    let mut any = false;
    let mut k: usize = 0;
    assert(pa.take(0) =~= Seq::<char>::empty());
    assert(pb.take(0) =~= Seq::<char>::empty());
    while k < i
        invariant
            k <= i,
            a.is_ascii(),
            b.is_ascii(),
            lays_out(a@, la),
            lays_out(b@, lb),
            ia == la.int_end - la.start,
            ib == lb.int_end - lb.start,
            ia <= i,
            ib <= i,
            na == numeral_parts(a@)->Some_0,
            nb == numeral_parts(b@)->Some_0,
            pa == padded(na, i as int, f as int),
            pb == padded(nb, i as int, f as int),
            pa.len() == i + f,
            pb.len() == i + f,
            -1 <= c <= 1,
            c == digits_order(pa.take(k as int), pb.take(k as int)),
            any <==> digits_value(pa.take(k as int)) + digits_value(pb.take(k as int)) > 0,
        decreases i - k,
    {
        let da = left_padded_digit(a, la.int_end, ia, i, k);
        let db = left_padded_digit(b, lb.int_end, ib, i, k);
        proof {
            assert(pa.take(k + 1).drop_last() =~= pa.take(k as int));
            assert(pb.take(k + 1).drop_last() =~= pb.take(k as int));
            assert(pa.take(k + 1).last() == pa[k as int]);
            assert(pb.take(k + 1).last() == pb[k as int]);
            assert(pa[k as int] == (zeros(i - ia) + na.whole)[k as int]);
            assert(pb[k as int] == (zeros(i - ib) + nb.whole)[k as int]);
        }
        if c == 0 {
            if da < db {
                c = -1;
            } else if da > db {
                c = 1;
            }
        }
        if da > 0 || db > 0 {
            any = true;
        }
        k += 1;
    }
    let mut j: usize = 0;
    while j < f
        invariant
            j <= f,
            a.is_ascii(),
            b.is_ascii(),
            lays_out(a@, la),
            lays_out(b@, lb),
            fa == la.end - la.frac_start,
            fb == lb.end - lb.frac_start,
            fa <= f,
            fb <= f,
            na == numeral_parts(a@)->Some_0,
            nb == numeral_parts(b@)->Some_0,
            pa == padded(na, i as int, f as int),
            pb == padded(nb, i as int, f as int),
            i >= na.whole.len(),
            i >= nb.whole.len(),
            pa.len() == i + f,
            pb.len() == i + f,
            -1 <= c <= 1,
            c == digits_order(pa.take(i + j), pb.take(i + j)),
            any <==> digits_value(pa.take(i + j)) + digits_value(pb.take(i + j)) > 0,
        decreases f - j,
    {
        let da = right_padded_digit(a, la.frac_start, f, j);
        let db = right_padded_digit(b, lb.frac_start, f, j);
        proof {
            assert(pa.take(i + j + 1).drop_last() =~= pa.take(i + j));
            assert(pb.take(i + j + 1).drop_last() =~= pb.take(i + j));
            assert(pa.take(i + j + 1).last() == pa[i + j]);
            assert(pb.take(i + j + 1).last() == pb[i + j]);
            assert(pa[i + j] == (na.fraction + zeros(f - na.fraction.len()))[j as int]);
            assert(pb[i + j] == (nb.fraction + zeros(f - nb.fraction.len()))[j as int]);
        }
        if c == 0 {
            if da < db {
                c = -1;
            } else if da > db {
                c = 1;
            }
        }
        if da > 0 || db > 0 {
            any = true;
        }
        j += 1;
    }
    proof {
        assert(pa.take(i + f) =~= pa);
        assert(pb.take(i + f) =~= pb);
        lemma_digits_order(pa, pb);
        lemma_signed_order(
            la.negative,
            digits_value(na.whole + na.fraction) as int,
            na.fraction.len(),
            lb.negative,
            digits_value(nb.whole + nb.fraction) as int,
            nb.fraction.len(),
            f as nat,
            c as int,
            any,
        );
    }
    if !any {
        Some(0)
    } else if la.negative && lb.negative {
        Some(-c)
    } else if la.negative {
        Some(-1)
    } else if lb.negative {
        Some(1)
    } else {
        Some(c)
    }
}

/// A run of digits is a numeral, and denotes what its digits denote.
pub proof fn lemma_digits_are_a_numeral(s: Seq<char>)
    requires
        s.len() > 0,
        all_digits(s),
    ensures
        numeral_of(s) == Some((digits_value(s) as int, 0nat)),
{
    assert(is_digit(s[0]));
    assert(unsigned_part(s) == s);
    lemma_digit_run_step(s, 0, s.len() as int);
    assert(digit_run(s, s.len() as int) == s.len());
    assert(s.subrange(0, s.len() as int) =~= s);
    assert(s.subrange(s.len() as int, s.len() as int) =~= Seq::<char>::empty());
    assert(s + Seq::<char>::empty() =~= s);
}

/// A run of `n` digits denotes a number below `10^n`.
pub proof fn lemma_digits_value_below(x: Seq<char>)
    requires
        all_digits(x),
    ensures
        digits_value(x) < pow(10, x.len()),
    decreases x.len(),
{
    if x.len() == 0 {
        lemma_pow0(10);
    } else {
        let xs = x.drop_last();
        assert forall|i: int| 0 <= i < xs.len() implies is_digit(#[trigger] xs[i]) by {
            assert(xs[i] == x[i]);
        }
        lemma_digits_value_below(xs);
        assert(is_digit(x[x.len() - 1]));
        lemma_pow_adds(10, 1, xs.len());
        assert(pow(10, 1) == 10) by {
            reveal_with_fuel(pow, 2);
        }
    }
}

/// A run of `n` digits that does not begin with a zero denotes a number
/// of at least `10^(n-1)`.
pub proof fn lemma_digits_value_at_least(x: Seq<char>)
    requires
        x.len() > 0,
        all_digits(x),
        x[0] != '0',
    ensures
        digits_value(x) >= pow(10, (x.len() - 1) as nat),
    decreases x.len(),
{
    let xs = x.drop_last();
    assert(is_digit(x[x.len() - 1]));
    if x.len() == 1 {
        lemma_pow0(10);
        assert(xs =~= Seq::<char>::empty());
        assert(is_digit(x[0]));
        assert(digit_value(x.last()) >= 1);
    } else {
        assert forall|i: int| 0 <= i < xs.len() implies is_digit(#[trigger] xs[i]) by {
            assert(xs[i] == x[i]);
        }
        assert(xs[0] == x[0]);
        lemma_digits_value_at_least(xs);
        lemma_pow_adds(10, 1, (xs.len() - 1) as nat);
        assert(pow(10, 1) == 10) by {
            reveal_with_fuel(pow, 2);
        }
    }
}

/// Of two runs of digits, one that is longer and does not begin with a
/// zero denotes the greater number, and stands above the other as a
/// scalar, however long the two are.
pub proof fn lemma_longer_numeral_is_greater(a: Seq<char>, b: Seq<char>)
    requires
        all_digits(a),
        all_digits(b),
        b.len() > 0,
        a.len() > b.len(),
        a[0] != '0',
    ensures
        digits_value(a) > digits_value(b),
        crate::order::scalar_order(a, b) == 1,
        crate::order::scalar_order(b, a) == -1,
{
    lemma_digits_value_below(b);
    lemma_digits_value_at_least(a);
    lemma_pow_increases(10, b.len(), (a.len() - 1) as nat);
    lemma_digits_are_a_numeral(a);
    lemma_digits_are_a_numeral(b);
    lemma_pow0(10);
}

} // verus!
