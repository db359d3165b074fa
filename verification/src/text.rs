//! Text primitives shared by the rest of the crate: comparing strings,
//! reading decimal numbers and money amounts, and rendering integers.

use vstd::prelude::*;
use vstd::string::StringExecFns;

verus! {

/// `str == str` of the standard library: two slices are equal exactly when
/// they hold the same characters.
pub assume_specification[ <str as PartialEq>::eq ](a: &str, b: &str) -> (r: bool)
    ensures
        r == (a@ == b@),
;

/// Whether two slices hold the same characters.
pub fn same_text(a: &str, b: &str) -> (r: bool)
    ensures
        r == (a@ == b@),
{
    *a == *b
}

/// The characters of an optional text.
pub open spec fn opt_text(o: Option<String>) -> Option<Seq<char>> {
    match o {
        Some(s) => Some(s@),
        None => None,
    }
}

/// The characters of a slice, in order.
pub fn chars_of(s: &str) -> (v: Vec<char>)
    ensures
        v@ == s@,
{
    let mut v: Vec<char> = Vec::new();
    for c in it: s.chars()
        invariant
            v@ == it.seq().take(it.index() as int),
            it.seq() == s@,
    {
        v.push(c);
    }
    v
}

/// What `str::to_lowercase` makes of a text: its lowercase equivalent under
/// Unicode's rules.
pub uninterp spec fn lowercase_text(s: Seq<char>) -> Seq<char>;

/// `str::to_lowercase` of the standard library. The result is a function of
/// the text alone; the contract gives it the name `lowercase_text`.
#[verifier::external_body]
pub(crate) fn lowercase(s: &str) -> (r: String)
    ensures
        r@ == lowercase_text(s@),
{
    s.to_lowercase()
}

/// Whether a character is one of the ten digits.
pub open spec fn is_digit(c: char) -> bool {
    48 <= c as int <= 57
}

/// The number that a digit stands for.
pub open spec fn digit_value(c: char) -> nat {
    (c as int - 48) as nat
}

/// Whether a text holds digits only.
pub open spec fn all_digits(s: Seq<char>) -> bool {
    forall|i: int| 0 <= i < s.len() ==> is_digit(#[trigger] s[i])
}

/// The number that a run of decimal digits denotes, most significant first.
pub open spec fn digits_value(s: Seq<char>) -> nat
    decreases s.len(),
{
    if s.len() == 0 {
        0
    } else {
        digits_value(s.drop_last()) * 10 + digit_value(s.last())
    }
}

/// Reading a text as an unsigned decimal number: one optional `+`, then at
/// least one digit and nothing else.
pub open spec fn unsigned_value(s: Seq<char>) -> Option<nat> {
    let body = if s.len() > 0 && s[0] == '+' {
        s.skip(1)
    } else {
        s
    };
    if body.len() > 0 && all_digits(body) {
        Some(digits_value(body))
    } else {
        None
    }
}

/// `unsigned_value`, kept only where it fits in 64 bits.
pub open spec fn u64_value(s: Seq<char>) -> Option<u64> {
    match unsigned_value(s) {
        Some(v) => if v <= u64::MAX {
            Some(v as u64)
        } else {
            None
        },
        None => None,
    }
}

/// A run of digits denotes no less than any of its beginnings.
pub proof fn digits_value_prefix(s: Seq<char>, n: int)
    requires
        0 <= n <= s.len(),
    ensures
        digits_value(s.take(n)) <= digits_value(s),
    decreases s.len() - n,
{
    if n == s.len() {
        assert(s.take(n) =~= s);
    } else {
        digits_value_prefix(s, n + 1);
        assert(s.take(n + 1).drop_last() =~= s.take(n));
    }
}

fn digit_of(c: char) -> (r: Option<u64>)
    ensures
        r is Some <==> is_digit(c),
        r matches Some(d) ==> d == digit_value(c),
{
    let code: u32 = c as u32;
    if 48 <= code && code <= 57 {
        Some((code - 48) as u64)
    } else {
        None
    }
}

/// Reads the digits of `chars[from..to]`. `None` where one of them is no
/// digit or the number does not fit in 64 bits.
fn read_digits(chars: &Vec<char>, from: usize, to: usize) -> (r: Option<u64>)
    requires
        from <= to <= chars.len(),
    ensures
        r is Some <==> all_digits(chars@.subrange(from as int, to as int)) && digits_value(
            chars@.subrange(from as int, to as int),
        ) <= u64::MAX,
        r matches Some(v) ==> v == digits_value(chars@.subrange(from as int, to as int)),
{
    let ghost run = chars@.subrange(from as int, to as int);
    let mut value: u64 = 0;
    let mut i: usize = from;
    while i < to
        invariant
            from <= i <= to <= chars.len(),
            run == chars@.subrange(from as int, to as int),
            all_digits(run.take(i - from)),
            value == digits_value(run.take(i - from)),
        decreases to - i,
    {
        let ghost before = run.take(i - from);
        let ghost after = run.take(i - from + 1);
        proof {
            assert(after.drop_last() =~= before);
            assert(after.last() == chars@[i as int]);
        }
        match digit_of(chars[i]) {
            None => {
                proof {
                    assert(!is_digit(run[i - from]));
                }
                return None;
            },
            Some(d) => {
                if value > (u64::MAX - d) / 10 {
                    proof {
                        assert(digits_value(after) > u64::MAX);
                        digits_value_prefix(run, i - from + 1);
                    }
                    return None;
                }
                value = value * 10 + d;
                proof {
                    assert forall|k: int| 0 <= k < after.len() implies is_digit(
                        #[trigger] after[k],
                    ) by {
                        if k < before.len() {
                            assert(after[k] == before[k]);
                        }
                    }
                }
            },
        }
        i = i + 1;
    }
    proof {
        assert(run.take(to - from) =~= run);
    }
    Some(value)
}

/// Reads an unsigned decimal number.
pub fn parse_u64(s: &str) -> (r: Option<u64>)
    ensures
        r == u64_value(s@),
{
    let chars = chars_of(s);
    let start: usize = if chars.len() > 0 && chars[0] == '+' {
        1
    } else {
        0
    };
    if start == chars.len() {
        return None;
    }
    proof {
        assert(chars@.subrange(start as int, chars.len() as int) =~= chars@.skip(start as int));
        assert(chars@.skip(0) =~= chars@);
    }
    read_digits(&chars, start, chars.len())
}

/// Where the first `.` of a text stands, or its length where it holds none.
pub open spec fn dot_position(s: Seq<char>) -> int
    decreases s.len(),
{
    if s.len() == 0 || s[0] == '.' {
        0
    } else {
        1 + dot_position(s.skip(1))
    }
}

/// The first `.` stands where no `.` stands before and one stands at, or
/// at the end where none stands at all.
pub proof fn dot_position_found(s: Seq<char>, n: int)
    requires
        0 <= n <= s.len(),
        forall|i: int| 0 <= i < n ==> s[i] != '.',
        n == s.len() || s[n] == '.',
    ensures
        dot_position(s) == n,
    decreases n,
{
    if n > 0 {
        let rest = s.skip(1);
        assert forall|i: int| 0 <= i < n - 1 implies rest[i] != '.' by {
            assert(rest[i] == s[i + 1]);
        }
        dot_position_found(rest, n - 1);
    }
}

/// The first two digits after the decimal point, as hundredths.
pub open spec fn hundredths(frac: Seq<char>) -> nat {
    let tens = if frac.len() > 0 {
        digit_value(frac[0]) * 10
    } else {
        0
    };
    let ones = if frac.len() > 1 {
        digit_value(frac[1])
    } else {
        0
    };
    tens + ones
}

/// A money amount in minor units. The text is a decimal number with an
/// optional leading `$` and an optional fraction; the value is the number
/// times one hundred, with what lies beyond the second decimal cut off.
pub open spec fn amount_value(s: Seq<char>) -> Option<nat> {
    let body = if s.len() > 0 && s[0] == '$' {
        s.skip(1)
    } else {
        s
    };
    let dot = dot_position(body);
    let whole = body.take(dot);
    let frac = if dot < body.len() {
        body.skip(dot + 1)
    } else {
        Seq::<char>::empty()
    };
    if whole.len() + frac.len() > 0 && all_digits(whole) && all_digits(frac) {
        Some(digits_value(whole) * 100 + hundredths(frac))
    } else {
        None
    }
}

/// `amount_value`, kept only where it fits in 64 bits.
pub open spec fn amount_cents(s: Seq<char>) -> Option<u64> {
    match amount_value(s) {
        Some(v) => if v <= u64::MAX {
            Some(v as u64)
        } else {
            None
        },
        None => None,
    }
}

fn all_digits_between(chars: &Vec<char>, from: usize, to: usize) -> (r: bool)
    requires
        from <= to <= chars.len(),
    ensures
        r == all_digits(chars@.subrange(from as int, to as int)),
{
    let ghost run = chars@.subrange(from as int, to as int);
    let mut i: usize = from;
    while i < to
        invariant
            from <= i <= to <= chars.len(),
            run == chars@.subrange(from as int, to as int),
            forall|k: int| 0 <= k < i - from ==> is_digit(#[trigger] run[k]),
        decreases to - i,
    {
        if digit_of(chars[i]).is_none() {
            proof {
                assert(!is_digit(run[i - from]));
            }
            return false;
        }
        i = i + 1;
    }
    true
}

/// Reads a money amount into minor units.
pub fn parse_amount(s: &str) -> (r: Option<u64>)
    ensures
        r == amount_cents(s@),
{
    let chars = chars_of(s);
    let n: usize = chars.len();
    let start: usize = if n > 0 && chars[0] == '$' {
        1
    } else {
        0
    };
    let ghost body = chars@.skip(start as int);
    proof {
        assert(chars@.skip(0) =~= chars@);
    }
    let mut dot: usize = start;
    while dot < n && chars[dot] != '.'
        invariant
            start <= dot <= n,
            n == chars.len(),
            body == chars@.skip(start as int),
            forall|i: int| 0 <= i < dot - start ==> body[i] != '.',
        decreases n - dot,
    {
        dot = dot + 1;
    }
    proof {
        dot_position_found(body, dot - start);
    }
    let frac_from: usize = if dot < n {
        dot + 1
    } else {
        n
    };
    let ghost whole = body.take(dot - start);
    let ghost frac = if dot < n {
        body.skip(dot - start + 1)
    } else {
        Seq::<char>::empty()
    };
    proof {
        assert(chars@.subrange(start as int, dot as int) =~= whole);
        assert(chars@.subrange(frac_from as int, n as int) =~= frac);
    }
    if (dot - start) + (n - frac_from) == 0 {
        return None;
    }
    if !all_digits_between(&chars, frac_from, n) {
        return None;
    }
    let units: u64 = match read_digits(&chars, start, dot) {
        Some(v) => v,
        None => {
            return None;
        },
    };
    let mut part: u64 = 0;
    if frac_from < n {
        let tens = digit_of(chars[frac_from]);
        proof {
            assert(frac[0] == chars@[frac_from as int]);
            assert(is_digit(frac[0]));
        }
        part = tens.unwrap() * 10;
        if frac_from + 1 < n {
            let ones = digit_of(chars[frac_from + 1]);
            proof {
                assert(frac[1] == chars@[frac_from + 1]);
                assert(is_digit(frac[1]));
            }
            part = part + ones.unwrap();
        }
    }
    assert(part == hundredths(frac));
    if units > (u64::MAX - part) / 100 {
        return None;
    }
    Some(units * 100 + part)
}

/// The digits of a number in base ten, without leading zeros; `0` for zero.
pub open spec fn decimal_text(n: nat) -> Seq<char>
    decreases n,
{
    let last = ((n % 10) + 48) as char;
    if n < 10 {
        seq![last]
    } else {
        decimal_text(n / 10).push(last)
    }
}

fn digit_text(d: u64) -> (r: &'static str)
    requires
        d < 10,
    ensures
        r@ == seq![(d + 48) as char],
{
    proof {
        reveal_strlit("0");
        reveal_strlit("1");
        reveal_strlit("2");
        reveal_strlit("3");
        reveal_strlit("4");
        reveal_strlit("5");
        reveal_strlit("6");
        reveal_strlit("7");
        reveal_strlit("8");
        reveal_strlit("9");
    }
    let r = if d == 0 {
        "0"
    } else if d == 1 {
        "1"
    } else if d == 2 {
        "2"
    } else if d == 3 {
        "3"
    } else if d == 4 {
        "4"
    } else if d == 5 {
        "5"
    } else if d == 6 {
        "6"
    } else if d == 7 {
        "7"
    } else if d == 8 {
        "8"
    } else {
        "9"
    };
    assert(r@ =~= seq![(d + 48) as char]);
    r
}

/// Writes a number in base ten.
pub fn decimal(n: u64) -> (r: String)
    ensures
        r@ == decimal_text(n as nat),
    decreases n,
{
    if n < 10 {
        String::from_str(digit_text(n))
    } else {
        let mut text = decimal(n / 10);
        text.append(digit_text(n % 10));
        assert(text@ =~= decimal_text((n / 10) as nat).push(((n % 10) + 48) as char));
        text
    }
}

/// Every rendered number is a run of digits that denotes the number.
pub proof fn decimal_text_is_digits(n: nat)
    ensures
        decimal_text(n).len() > 0,
        all_digits(decimal_text(n)),
        digits_value(decimal_text(n)) == n,
    decreases n,
{
    let last = ((n % 10) + 48) as char;
    assert(is_digit(last) && digit_value(last) == n % 10);
    if n >= 10 {
        decimal_text_is_digits(n / 10);
        let head = decimal_text(n / 10);
        let full = head.push(last);
        assert(full.drop_last() =~= head);
        assert forall|i: int| 0 <= i < full.len() implies is_digit(#[trigger] full[i]) by {
            if i < head.len() {
                assert(full[i] == head[i]);
            }
        }
    } else {
        let full = seq![last];
        assert(full.drop_last() =~= Seq::<char>::empty());
        assert(digits_value(full.drop_last()) == 0);
    }
}

/// A number that was written reads back as itself.
pub proof fn written_number_reads_back(n: u64)
    ensures
        u64_value(decimal_text(n as nat)) == Some(n),
{
    decimal_text_is_digits(n as nat);
    assert(is_digit(decimal_text(n as nat)[0]));
}

} // verus!
