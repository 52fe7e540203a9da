use vstd::prelude::*;
use vstd::string::*;

verus! {

pub open spec fn is_digit(c: char) -> bool {
    '0' <= c && c <= '9'
}

pub open spec fn is_sign(c: char) -> bool {
    c == '+' || c == '-'
}

pub open spec fn digit_value(c: char) -> nat {
    (c as nat - 48) as nat
}

pub open spec fn all_digits(s: Seq<char>) -> bool {
    forall|i: int| 0 <= i < s.len() ==> is_digit(#[trigger] s[i])
}

/// The number that a run of decimal digits denotes.
pub open spec fn digits_value(s: Seq<char>) -> nat
    decreases s.len(),
{
    if s.len() == 0 {
        0
    } else {
        10 * digits_value(s.drop_last()) + digit_value(s.last())
    }
}

/// The text without its leading sign, where it has one.
pub open spec fn unsigned_part(s: Seq<char>) -> Seq<char> {
    if s.len() > 0 && is_sign(s[0]) {
        s.subrange(1, s.len() as int)
    } else {
        s
    }
}

/// The integer that a text denotes: an optional sign, then digits and
/// nothing else, with a value that an `i64` holds.
pub open spec fn int_literal(s: Seq<char>) -> Option<int> {
    let body = unsigned_part(s);
    if body.len() == 0 || !all_digits(body) {
        None
    } else {
        let v: int = if s[0] == '-' {
            -(digits_value(body) as int)
        } else {
            digits_value(body) as int
        };
        if i64::MIN <= v <= i64::MAX {
            Some(v)
        } else {
            None
        }
    }
}

/// Where the run of digits that starts at `from` ends.
pub open spec fn digit_run(s: Seq<char>, from: int) -> int
    decreases s.len() - from,
{
    if 0 <= from < s.len() && is_digit(s[from]) {
        digit_run(s, from + 1)
    } else {
        from
    }
}

pub open spec fn lower(c: char) -> char {
    if 'A' <= c && c <= 'Z' {
        ((c as u8) + 32) as char
    } else {
        c
    }
}

/// Whether `s` is `word` but for the case of its letters.
pub open spec fn is_word(s: Seq<char>, word: Seq<char>) -> bool {
    s.len() == word.len() && forall|i: int| 0 <= i < s.len() ==> lower(#[trigger] s[i]) == word[i]
}

pub open spec fn is_special_float(s: Seq<char>) -> bool {
    is_word(s, seq!['i', 'n', 'f']) || is_word(s, seq!['n', 'a', 'n']) || is_word(
        s,
        seq!['i', 'n', 'f', 'i', 'n', 'i', 't', 'y'],
    )
}

/// Digits with at most one point among them and at least one digit, then
/// an optional exponent: `e`, an optional sign and digits.
pub open spec fn is_decimal_float(s: Seq<char>) -> bool {
    let int_end = digit_run(s, 0);
    let has_point = int_end < s.len() && s[int_end] == '.';
    let frac_end = if has_point {
        digit_run(s, int_end + 1)
    } else {
        int_end
    };
    let digits = if has_point {
        frac_end - 1
    } else {
        frac_end
    };
    digits > 0 && (frac_end == s.len() || (lower(s[frac_end]) == 'e' && {
        let exp_start = if frac_end + 1 < s.len() && is_sign(s[frac_end + 1]) {
            frac_end + 2
        } else {
            frac_end + 1
        };
        let exp_end = digit_run(s, exp_start);
        exp_end > exp_start && exp_end == s.len()
    }))
}

/// Whether a text denotes a floating-point number: an optional sign, then
/// `inf`, `infinity`, `nan` in any case, or a decimal number.
pub open spec fn is_float_literal(s: Seq<char>) -> bool {
    let body = unsigned_part(s);
    is_special_float(body) || is_decimal_float(body)
}

pub open spec fn digit_char(d: nat) -> char {
    seq!['0', '1', '2', '3', '4', '5', '6', '7', '8', '9'][d as int]
}

/// The decimal digits of a natural number, without leading zeros.
pub open spec fn nat_text(n: nat) -> Seq<char>
    decreases n,
{
    if n < 10 {
        seq![digit_char(n)]
    } else {
        nat_text(n / 10).push(digit_char(n % 10))
    }
}

/// The decimal text of an integer, with `-` before a negative one.
pub open spec fn int_text(i: int) -> Seq<char> {
    if i < 0 {
        seq!['-'] + nat_text((-i) as nat)
    } else {
        nat_text(i as nat)
    }
}

pub proof fn lemma_digits_value_prefix(s: Seq<char>, k: int)
    requires
        0 <= k <= s.len(),
    ensures
        digits_value(s.take(k)) <= digits_value(s),
    decreases s.len() - k,
{
    if k == s.len() {
        assert(s.take(k) =~= s);
    } else {
        lemma_digits_value_prefix(s, k + 1);
        assert(s.take(k + 1).drop_last() =~= s.take(k));
    }
}

pub(crate) proof fn lemma_digit_run_bounds(s: Seq<char>, from: int)
    requires
        0 <= from <= s.len(),
    ensures
        from <= digit_run(s, from) <= s.len(),
        forall|j: int| from <= j < digit_run(s, from) ==> is_digit(#[trigger] s[j]),
        digit_run(s, from) < s.len() ==> !is_digit(s[digit_run(s, from)]),
    decreases s.len() - from,
{
    if from < s.len() && is_digit(s[from]) {
        lemma_digit_run_bounds(s, from + 1);
    }
}

pub(crate) proof fn lemma_digit_run_step(s: Seq<char>, from: int, to: int)
    requires
        0 <= from <= to <= s.len(),
        forall|j: int| from <= j < to ==> is_digit(#[trigger] s[j]),
    ensures
        digit_run(s, from) == digit_run(s, to),
    decreases to - from,
{
    if from < to {
        lemma_digit_run_step(s, from + 1, to);
    }
}

/// The character at `i` of a text of ASCII characters, as a byte.
pub(crate) fn ascii_at(s: &str, i: usize) -> (b: u8)
    requires
        s.is_ascii(),
        i < s@.len(),
    ensures
        b < 128,
        b as char == s@[i as int],
{
    let b = s.get_ascii(i);
    assert(s@[i as int] <= '\u{7f}');
    b
}

/// The length of a text of ASCII characters.
pub(crate) fn ascii_len(s: &str) -> (n: usize)
    requires
        s.is_ascii(),
    ensures
        n == s@.len(),
{
    proof {
        is_ascii_spec_bytes(s);
    }
    s.as_bytes().len()
}

/// Reads an integer as `i64`'s own parser does: an optional sign and then
/// decimal digits, nothing before or after them.
pub fn parse_int(s: &str) -> (r: Option<i64>)
    ensures
        match r {
            Some(v) => int_literal(s@) == Some(v as int),
            None => int_literal(s@) is None,
        },
{
    if !s.is_ascii() {
        proof {
            let body = unsigned_part(s@);
            if body.len() > 0 && all_digits(body) {
                assert forall|i: int| 0 <= i < s@.len() implies '\0' <= #[trigger] s@[i] <= '\u{7f}' by {
                    if body.len() == s@.len() {
                        assert(is_digit(body[i]));
                    } else if i > 0 {
                        assert(is_digit(body[i - 1]));
                    }
                }
            }
        }
        return None;
    }
    let n = ascii_len(s);
    if n == 0 {
        return None;
    }
    let first = ascii_at(s, 0);
    let negative = first == 45;
    let start: usize = if first == 45 || first == 43 {
        1
    } else {
        0
    };
    if start == n {
        return None;
    }
    let ghost body = unsigned_part(s@);
    assert(first as char == s@[0]);
    assert(is_sign(s@[0]) <==> start == 1);
    assert(body =~= s@.subrange(start as int, n as int));
    assert(body.take(0) =~= Seq::<char>::empty());
    let mut acc: i128 = 0;
    let mut i: usize = start;
    while i < n
        invariant
            s.is_ascii(),
            n == s@.len(),
            start <= i <= n,
            body == s@.subrange(start as int, n as int),
            body == unsigned_part(s@),
            negative == (s@[0] == '-'),
            all_digits(body.take(i - start)),
            acc == digits_value(body.take(i - start)),
            0 <= acc <= 9223372036854775808,
        decreases n - i,
    {
        let b = ascii_at(s, i);
        if b < 48 || b > 57 {
            assert(!is_digit(body[i - start]));
            return None;
        }
        let ghost prefix = body.take(i - start + 1);
        proof {
            assert(prefix.drop_last() =~= body.take(i - start));
            assert(prefix.last() == s@[i as int]);
            assert(digit_value(prefix.last()) == b - 48);
            assert forall|j: int| 0 <= j < prefix.len() implies is_digit(#[trigger] prefix[j]) by {
                if j < i - start {
                    assert(is_digit(body.take(i - start)[j]));
                }
            }
        }
        acc = acc * 10 + (b - 48) as i128;
        if acc > 9223372036854775808 {
            proof {
                lemma_digits_value_prefix(body, i - start + 1);
                if all_digits(body) {
                    assert(digits_value(body) > 9223372036854775808);
                }
            }
            return None;
        }
        i += 1;
    }
    proof {
        assert(body.take(n - start) =~= body);
    }
    if negative {
        Some((-acc) as i64)
    } else if acc == 9223372036854775808 {
        None
    } else {
        Some(acc as i64)
    }
}

/// Where the run of digits that starts at `from` ends.
pub(crate) fn scan_digits(s: &str, from: usize) -> (r: usize)
    requires
        s.is_ascii(),
        from <= s@.len(),
    ensures
        r == digit_run(s@, from as int),
        from <= r <= s@.len(),
{
    let n = ascii_len(s);
    let mut i: usize = from;
    while i < n
        invariant
            s.is_ascii(),
            n == s@.len(),
            from <= i <= n,
            forall|j: int| from <= j < i ==> is_digit(#[trigger] s@[j]),
        decreases n - i,
    {
        let b = ascii_at(s, i);
        if b < 48 || b > 57 {
            proof {
                lemma_digit_run_step(s@, from as int, i as int);
            }
            return i;
        }
        i += 1;
    }
    proof {
        lemma_digit_run_step(s@, from as int, i as int);
    }
    i
}

pub(crate) fn lower_byte(b: u8) -> (r: u8)
    requires
        b < 128,
    ensures
        r < 128,
        r as char == lower(b as char),
{
    if 65 <= b && b <= 90 {
        b + 32
    } else {
        b
    }
}

/// Whether the text from `start` on is `word` but for the case of its
/// letters.
fn matches_word(s: &str, start: usize, word: &str) -> (r: bool)
    requires
        s.is_ascii(),
        word.is_ascii(),
        start <= s@.len(),
    ensures
        r == is_word(s@.subrange(start as int, s@.len() as int), word@),
{
    let n = ascii_len(s);
    let m = ascii_len(word);
    if n - start != m {
        return false;
    }
    let ghost tail = s@.subrange(start as int, n as int);
    let mut i: usize = 0;
    while i < m
        invariant
            s.is_ascii(),
            word.is_ascii(),
            n == s@.len(),
            m == word@.len(),
            n - start == m,
            i <= m,
            tail == s@.subrange(start as int, n as int),
            forall|j: int| 0 <= j < i ==> lower(#[trigger] tail[j]) == word@[j],
        decreases m - i,
    {
        let a = lower_byte(ascii_at(s, start + i));
        let b = ascii_at(word, i);
        if a != b {
            assert(lower(tail[i as int]) != word@[i as int]);
            return false;
        }
        i += 1;
    }
    true
}

/// Where the digits before the point of a decimal number end.
pub open spec fn whole_end(body: Seq<char>) -> int {
    digit_run(body, 0)
}

/// Whether a point stands behind the digits before it.
pub open spec fn has_point(body: Seq<char>) -> bool {
    whole_end(body) < body.len() && body[whole_end(body)] == '.'
}

/// Where the digits behind the point of a decimal number end; where its
/// digits end, if it has no point.
pub open spec fn fraction_end(body: Seq<char>) -> int {
    if has_point(body) {
        digit_run(body, whole_end(body) + 1)
    } else {
        whole_end(body)
    }
}

/// Finds the parts of a decimal floating-point number in its text: where
/// its digits start behind the sign, where the digits before the point
/// end, and where those behind it end. A text of another form has none.
pub fn decimal_float_parts(s: &str) -> (r: Option<(usize, usize, usize)>)
    ensures
        match r {
            Some((start, int_end, frac_end)) => {
                &&& s.is_ascii()
                &&& is_decimal_float(unsigned_part(s@))
                &&& start <= int_end <= frac_end <= s@.len()
                &&& unsigned_part(s@) == s@.subrange(start as int, s@.len() as int)
                &&& int_end - start == whole_end(unsigned_part(s@))
                &&& frac_end - start == fraction_end(unsigned_part(s@))
            },
            None => !is_decimal_float(unsigned_part(s@)),
        },
{
    if !s.is_ascii() {
        proof {
            lemma_float_literal_is_ascii(s@);
        }
        return None;
    }
    let n = ascii_len(s);
    let start: usize = if n > 0 && (ascii_at(s, 0) == 45 || ascii_at(s, 0) == 43) {
        1
    } else {
        0
    };
    let ghost body = s@.subrange(start as int, n as int);
    assert(body =~= unsigned_part(s@));
    let int_end = scan_digits(s, start);
    proof {
        lemma_digit_run_shift(s@, start as int, start as int);
    }
    let point = int_end < n && ascii_at(s, int_end) == 46;
    let frac_end = if point {
        scan_digits(s, int_end + 1)
    } else {
        int_end
    };
    proof {
        if point {
            lemma_digit_run_shift(s@, start as int, int_end + 1);
        }
    }
    let digits = if point {
        frac_end - start - 1
    } else {
        frac_end - start
    };
    if digits == 0 {
        return None;
    }
    if frac_end == n {
        return Some((start, int_end, frac_end));
    }
    if lower_byte(ascii_at(s, frac_end)) != 101 {
        return None;
    }
    let exp_start = if frac_end + 1 < n && (ascii_at(s, frac_end + 1) == 45 || ascii_at(
        s,
        frac_end + 1,
    ) == 43) {
        frac_end + 2
    } else {
        frac_end + 1
    };
    let exp_end = scan_digits(s, exp_start);
    proof {
        lemma_digit_run_shift(s@, start as int, exp_start as int);
    }
    if exp_end > exp_start && exp_end == n {
        Some((start, int_end, frac_end))
    } else {
        None
    }
}

/// Whether `s` is `word` but for the case of its letters.
pub fn is_word_ignoring_case(s: &str, word: &str) -> (r: bool)
    requires
        word.is_ascii(),
    ensures
        r == is_word(s@, word@),
{
    if !s.is_ascii() {
        proof {
            if is_word(s@, word@) {
                assert forall|i: int| 0 <= i < s@.len() implies '\0' <= #[trigger] s@[i] <= '\u{7f}' by {
                    assert(lower(s@[i]) == word@[i]);
                    assert(word@[i] <= '\u{7f}');
                }
            }
        }
        return false;
    }
    assert(s@.subrange(0, s@.len() as int) =~= s@);
    matches_word(s, 0, word)
}

/// Whether `f64`'s own parser reads the text as a number.
pub fn is_float(s: &str) -> (r: bool)
    ensures
        r == is_float_literal(s@),
{
    if !s.is_ascii() {
        proof {
            lemma_float_literal_is_ascii(s@);
        }
        return false;
    }
    let n = ascii_len(s);
    let start: usize = if n > 0 && (ascii_at(s, 0) == 45 || ascii_at(s, 0) == 43) {
        1
    } else {
        0
    };
    let ghost body = s@.subrange(start as int, n as int);
    assert(body =~= unsigned_part(s@));
    proof {
        reveal_strlit("inf");
        reveal_strlit("nan");
        reveal_strlit("infinity");
        assert("inf"@ =~= seq!['i', 'n', 'f']);
        assert("nan"@ =~= seq!['n', 'a', 'n']);
        assert("infinity"@ =~= seq!['i', 'n', 'f', 'i', 'n', 'i', 't', 'y']);
    }
    if matches_word(s, start, "inf") || matches_word(s, start, "nan") || matches_word(
        s,
        start,
        "infinity",
    ) {
        return true;
    }
    let int_end = scan_digits(s, start);
    proof {
        lemma_digit_run_shift(s@, start as int, start as int);
    }
    let has_point = int_end < n && ascii_at(s, int_end) == 46;
    let frac_end = if has_point {
        scan_digits(s, int_end + 1)
    } else {
        int_end
    };
    proof {
        if has_point {
            lemma_digit_run_shift(s@, start as int, int_end + 1);
        }
    }
    let digits = if has_point {
        frac_end - start - 1
    } else {
        frac_end - start
    };
    if digits == 0 {
        return false;
    }
    if frac_end == n {
        return true;
    }
    if lower_byte(ascii_at(s, frac_end)) != 101 {
        return false;
    }
    let exp_start = if frac_end + 1 < n && (ascii_at(s, frac_end + 1) == 45 || ascii_at(
        s,
        frac_end + 1,
    ) == 43) {
        frac_end + 2
    } else {
        frac_end + 1
    };
    let exp_end = scan_digits(s, exp_start);
    proof {
        lemma_digit_run_shift(s@, start as int, exp_start as int);
    }
    exp_end > exp_start && exp_end == n
}

/// A run of digits in the tail of a text ends where it ends in the text.
pub(crate) proof fn lemma_digit_run_shift(s: Seq<char>, start: int, from: int)
    requires
        0 <= start <= from <= s.len(),
    ensures
        digit_run(s.subrange(start, s.len() as int), from - start) == digit_run(s, from) - start,
    decreases s.len() - from,
{
    let tail = s.subrange(start, s.len() as int);
    if from < s.len() && is_digit(s[from]) {
        assert(tail[from - start] == s[from]);
        lemma_digit_run_shift(s, start, from + 1);
    } else if from < s.len() {
        assert(tail[from - start] == s[from]);
    }
}

/// A text that denotes a floating-point number holds ASCII characters
/// only.
pub(crate) proof fn lemma_float_literal_is_ascii(s: Seq<char>)
    ensures
        is_float_literal(s) ==> vstd::utf8::is_ascii_chars(s),
{
    let body = unsigned_part(s);
    if is_float_literal(s) {
        assert forall|i: int| 0 <= i < body.len() implies '\0' <= #[trigger] body[i] <= '\u{7f}' by {
            if is_special_float(body) {
                assert(lower(body[i]) <= 'y');
            } else {
                lemma_decimal_float_chars(body, i);
            }
        }
        assert forall|i: int| 0 <= i < s.len() implies '\0' <= #[trigger] s[i] <= '\u{7f}' by {
            if body.len() == s.len() {
                assert(body[i] == s[i]);
            } else if i > 0 {
                assert(body[i - 1] == s[i]);
            }
        }
    }
}

proof fn lemma_decimal_float_chars(s: Seq<char>, i: int)
    requires
        is_decimal_float(s),
        0 <= i < s.len(),
    ensures
        s[i] <= '\u{7f}',
{
    let int_end = digit_run(s, 0);
    lemma_digit_run_bounds(s, 0);
    let has_point = int_end < s.len() && s[int_end] == '.';
    if has_point {
        lemma_digit_run_bounds(s, int_end + 1);
    }
    let frac_end = if has_point {
        digit_run(s, int_end + 1)
    } else {
        int_end
    };
    if frac_end < s.len() {
        let exp_start = if frac_end + 1 < s.len() && is_sign(s[frac_end + 1]) {
            frac_end + 2
        } else {
            frac_end + 1
        };
        lemma_digit_run_bounds(s, exp_start);
    }
}

/// Whether the text is `true` or `false`, and which.
pub fn parse_bool(s: &str) -> (r: Option<bool>)
    ensures
        r == bool_literal(s@),
{
    proof {
        reveal_strlit("true");
        reveal_strlit("false");
        assert("true"@ =~= seq!['t', 'r', 'u', 'e']);
        assert("false"@ =~= seq!['f', 'a', 'l', 's', 'e']);
    }
    if crate::text::str_eq(s, "true") {
        Some(true)
    } else if crate::text::str_eq(s, "false") {
        Some(false)
    } else {
        None
    }
}

/// The truth value that a text denotes: `true` or `false`, in lower case.
pub open spec fn bool_literal(s: Seq<char>) -> Option<bool> {
    if s == seq!['t', 'r', 'u', 'e'] {
        Some(true)
    } else if s == seq!['f', 'a', 'l', 's', 'e'] {
        Some(false)
    } else {
        None
    }
}

fn digit_str(d: u8) -> (r: &'static str)
    requires
        d < 10,
    ensures
        r@ == seq![digit_char(d as nat)],
{
    proof {
        reveal_strlit("0");
        reveal_strlit("1");
        reveal_strlit("2");
        reveal_strlit("3");
        reveal_strlit("4");
        reveal_strlit("5");
        reveal_strlit("6");
        reveal_strlit("7");
        reveal_strlit("8");
        reveal_strlit("9");
    }
    let r = if d == 0 {
        "0"
    } else if d == 1 {
        "1"
    } else if d == 2 {
        "2"
    } else if d == 3 {
        "3"
    } else if d == 4 {
        "4"
    } else if d == 5 {
        "5"
    } else if d == 6 {
        "6"
    } else if d == 7 {
        "7"
    } else if d == 8 {
        "8"
    } else {
        "9"
    };
    assert(r@ =~= seq![digit_char(d as nat)]);
    r
}

/// The decimal text of a number that has no sign.
pub fn nat_to_string(n: u64) -> (r: String)
    ensures
        r@ == nat_text(n as nat),
{
    let mut acc = String::from_str(digit_str((n % 10) as u8));
    let mut rest: u64 = n / 10;
    while rest > 0
        invariant
            nat_text(n as nat) == if rest == 0 {
                acc@
            } else {
                nat_text(rest as nat) + acc@
            },
        decreases rest,
    {
        let d = String::from_str(digit_str((rest % 10) as u8));
        let ghost before = acc@;
        acc = d.concat(acc.as_str());
        proof {
            if rest >= 10 {
                assert(nat_text(rest as nat) + before =~= nat_text((rest / 10) as nat) + acc@);
            } else {
                assert(nat_text(rest as nat) + before =~= acc@);
            }
        }
        rest = rest / 10;
    }
    acc
}

/// The decimal text of an integer.
pub fn int_to_string(i: i64) -> (r: String)
    ensures
        r@ == int_text(i as int),
{
    if i < 0 {
        proof {
            reveal_strlit("-");
        }
        let digits = nat_to_string((-(i as i128)) as u64);
        let r = String::from_str("-").concat(digits.as_str());
        assert("-"@ =~= seq!['-']);
        r
    } else {
        nat_to_string(i as u64)
    }
}

/// The decimal digits of a number are digits, do not begin with a sign,
/// and denote the number.
pub proof fn lemma_nat_text_denotes(n: nat)
    ensures
        nat_text(n).len() >= 1,
        all_digits(nat_text(n)),
        !is_sign(nat_text(n)[0]),
        digits_value(nat_text(n)) == n,
    decreases n,
{
    if n < 10 {
        let s = nat_text(n);
        assert(s.drop_last() =~= Seq::<char>::empty());
        assert(s.last() == digit_char(n));
        assert(digit_value(digit_char(n)) == n);
        assert(digits_value(s.drop_last()) == 0);
        assert(digits_value(s) == 10 * digits_value(s.drop_last()) + digit_value(s.last()));
    } else {
        lemma_nat_text_denotes(n / 10);
        let s = nat_text(n);
        let head = nat_text(n / 10);
        assert(s.drop_last() =~= head);
        assert(s.last() == digit_char(n % 10));
        assert(digit_value(digit_char(n % 10)) == n % 10);
        assert(s[0] == head[0]);
        assert(digits_value(s) == 10 * digits_value(s.drop_last()) + digit_value(s.last()));
        assert forall|i: int| 0 <= i < s.len() implies is_digit(#[trigger] s[i]) by {
            if i < head.len() {
                assert(s[i] == head[i]);
            }
        }
    }
}

/// The decimal text of an integer that an `i64` holds reads back as the
/// integer.
pub proof fn lemma_int_text_reads_back(i: int)
    requires
        i64::MIN <= i <= i64::MAX,
    ensures
        int_literal(int_text(i)) == Some(i),
{
    if i < 0 {
        let digits = nat_text((-i) as nat);
        lemma_nat_text_denotes((-i) as nat);
        let s = int_text(i);
        assert(s[0] == '-');
        assert(unsigned_part(s) =~= digits);
    } else {
        lemma_nat_text_denotes(i as nat);
        assert(int_text(i)[0] != '-');
    }
}

} // verus!
