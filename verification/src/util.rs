use vstd::prelude::*;

verus! {

/// `std::num::ParseIntError`, the error of integer parsing in std.
#[verifier::external_type_specification]
#[verifier::external_body]
pub struct ExParseIntError(std::num::ParseIntError);

/// The value of a hexadecimal digit: `0-9`, `a-f` and `A-F`.
pub open spec fn hex_digit_value(c: char) -> Option<nat> {
    if '0' <= c && c <= '9' {
        Some((c as int - '0' as int) as nat)
    } else if 'a' <= c && c <= 'f' {
        Some((c as int - 'a' as int + 10) as nat)
    } else if 'A' <= c && c <= 'F' {
        Some((c as int - 'A' as int + 10) as nat)
    } else {
        None
    }
}

/// The value of a string of hexadecimal digits, most significant first;
/// `None` if some character is not a hexadecimal digit.
pub open spec fn hex_digits_value(s: Seq<char>) -> Option<nat>
    decreases s.len(),
{
    if s.len() == 0 {
        Some(0)
    } else {
        match (hex_digits_value(s.drop_last()), hex_digit_value(s.last())) {
            (Some(high), Some(low)) => Some(high * 16 + low),
            _ => None,
        }
    }
}

/// What `u32::from_str_radix(s, 16)` accepts: an optional `+` sign followed by
/// at least one hexadecimal digit, with a value that fits in 32 bits.
pub open spec fn spec_parse_hex_u32(s: Seq<char>) -> Option<u32> {
    let digits = if s.len() > 0 && s[0] == '+' { s.drop_first() } else { s };
    if digits.len() == 0 {
        None
    } else {
        match hex_digits_value(digits) {
            Some(v) => if v <= u32::MAX { Some(v as u32) } else { None },
            None => None,
        }
    }
}

/// Calls `u32::from_str_radix` with radix 16. Its documentation states the
/// grammar that `spec_parse_hex_u32` writes out: an optional `+`, then digits
/// of the radix only, no whitespace, and an error on an empty string or an
/// overflow. Which `IntErrorKind` an error carries is left unsaid.
#[verifier::external_body]
fn u32_from_str_radix_16(src: &str) -> (r: Result<u32, std::num::ParseIntError>)
    ensures
        r is Ok <==> spec_parse_hex_u32(src@) is Some,
        r matches Ok(v) ==> spec_parse_hex_u32(src@) == Some(v),
{
    u32::from_str_radix(src, 16)
}

/// Parses a hexadecimal `u32`, as used for camera object handles on the
/// command line.
pub fn parse_hex_u32(src: &str) -> (r: Result<u32, std::num::ParseIntError>)
    ensures
        r is Ok <==> spec_parse_hex_u32(src@) is Some,
        r matches Ok(v) ==> spec_parse_hex_u32(src@) == Some(v),
{
    u32_from_str_radix_16(src)
}

/// The hexadecimal digit of a value below 16, in lowercase or uppercase.
pub open spec fn hex_digit_char(d: nat, upper: bool) -> char {
    if d < 10 {
        (d + 48) as char
    } else if upper {
        (d + 55) as char
    } else {
        (d + 87) as char
    }
}

/// The hexadecimal rendering of `n`, most significant digit first, without
/// leading zeros (`0` for zero).
pub open spec fn hex_text(n: nat, upper: bool) -> Seq<char>
    decreases n,
{
    if n < 16 {
        seq![hex_digit_char(n, upper)]
    } else {
        hex_text(n / 16, upper).push(hex_digit_char(n % 16, upper))
    }
}

/// The hexadecimal rendering of `n` padded on the left with zeros to at least
/// `width` digits.
pub open spec fn hex_text_padded(n: nat, width: nat, upper: bool) -> Seq<char> {
    let t = hex_text(n, upper);
    if t.len() >= width {
        t
    } else {
        Seq::new((width - t.len()) as nat, |i: int| '0') + t
    }
}

proof fn lemma_hex_digit_char(d: nat, upper: bool)
    requires
        d < 16,
    ensures
        hex_digit_value(hex_digit_char(d, upper)) == Some(d),
        hex_digit_char(d, upper) != '+',
{
}

proof fn lemma_hex_text(n: nat, upper: bool)
    ensures
        hex_digits_value(hex_text(n, upper)) == Some(n),
        hex_text(n, upper).len() > 0,
        hex_text(n, upper)[0] != '+',
    decreases n,
{
    let t = hex_text(n, upper);
    if n < 16 {
        lemma_hex_digit_char(n, upper);
        assert(t.drop_last() =~= Seq::<char>::empty());
        assert(hex_digits_value(t.drop_last()) == Some(0nat));
        assert(t.last() == hex_digit_char(n, upper));
    } else {
        lemma_hex_text(n / 16, upper);
        lemma_hex_digit_char(n % 16, upper);
        assert(t.drop_last() =~= hex_text(n / 16, upper));
        assert(t.last() == hex_digit_char(n % 16, upper));
        assert(t[0] == hex_text(n / 16, upper)[0]);
        assert((n / 16) * 16 + n % 16 == n);
    }
}

proof fn lemma_hex_zeros_then(k: nat, t: Seq<char>)
    ensures
        hex_digits_value(Seq::new(k, |i: int| '0') + t) == hex_digits_value(t),
    decreases t.len() + k,
{
    let z = Seq::new(k, |i: int| '0');
    if t.len() > 0 {
        lemma_hex_zeros_then(k, t.drop_last());
        assert((z + t).drop_last() =~= z + t.drop_last());
        assert((z + t).last() == t.last());
    } else if k > 0 {
        let z1 = Seq::new((k - 1) as nat, |i: int| '0');
        lemma_hex_zeros_then((k - 1) as nat, t);
        assert((z + t).drop_last() =~= z1 + t);
        assert((z + t).last() == '0');
        assert(z1 + t =~= z1);
        assert(hex_digit_value('0') == Some(0nat));
    } else {
        assert(z + t =~= t);
    }
}

/// Parsing the hexadecimal rendering of a `u32`, in lowercase or uppercase,
/// without leading zeros or padded with zeros to any width, gives it back.
pub proof fn lemma_parse_hex_round_trip(n: u32, width: nat, upper: bool)
    ensures
        spec_parse_hex_u32(hex_text(n as nat, upper)) == Some(n),
        spec_parse_hex_u32(hex_text_padded(n as nat, width, upper)) == Some(n),
{
    lemma_hex_text(n as nat, upper);
    let t = hex_text(n as nat, upper);
    if t.len() < width {
        let k = (width - t.len()) as nat;
        lemma_hex_zeros_then(k, t);
        let p = Seq::new(k, |i: int| '0') + t;
        assert(p[0] == '0');
        assert(p.len() > 0);
    }
}

/// Counts the attempts of an operation that is retried while it fails, up to
/// a fixed number of attempts in all.
#[derive(Debug)]
pub struct RetryBudget {
    times: usize,
    tries: usize,
}

/// Whether another attempt follows one that has just ended: only while fewer
/// than `times` attempts were made and the last one failed.
pub open spec fn spec_retry_again(tries: usize, times: usize, failed: bool) -> bool {
    tries < times && failed
}

impl RetryBudget {
    /// The number of attempts allowed in all.
    pub closed spec fn limit(&self) -> usize {
        self.times
    }

    /// The number of attempts made so far.
    pub closed spec fn attempts(&self) -> usize {
        self.tries
    }

    /// A budget of `times` attempts, the first of which is about to be made.
    /// At least one attempt must be allowed.
    pub fn new(times: usize) -> (r: RetryBudget)
        requires
            times >= 1,
        ensures
            r.limit() == times,
            r.attempts() == 1,
    {
        RetryBudget { times, tries: 1 }
    }

    /// Records how the last attempt ended, and says whether to make another;
    /// if so, it is counted.
    pub fn retry_after(&mut self, failed: bool) -> (again: bool)
        requires
            1 <= old(self).attempts() <= old(self).limit(),
        ensures
            again == spec_retry_again(old(self).attempts(), old(self).limit(), failed),
            final(self).limit() == old(self).limit(),
            final(self).attempts() == if again {
                old(self).attempts() + 1
            } else {
                old(self).attempts() as int
            },
            1 <= final(self).attempts() <= final(self).limit(),
    {
        if self.tries < self.times && failed {
            self.tries = self.tries + 1;
            true
        } else {
            false
        }
    }
}

/// A retried operation is attempted at most as often as its budget allows,
/// and never again after an attempt that succeeded.
pub proof fn lemma_retry_bounded(tries: usize, times: usize, failed: bool)
    requires
        1 <= tries <= times,
    ensures
        spec_retry_again(tries, times, failed) ==> tries + 1 <= times,
        !failed ==> !spec_retry_again(tries, times, failed),
        tries == times ==> !spec_retry_again(tries, times, failed),
{
}

/// The decimal digit of a value below 10.
pub open spec fn decimal_digit(d: int) -> char {
    ((d + 48) as u8) as char
}

/// The decimal representation of a number, without leading zeros.
pub open spec fn decimal(n: nat) -> Seq<char>
    decreases n,
{
    if n < 10 {
        seq![decimal_digit(n as int)]
    } else {
        decimal(n / 10).push(decimal_digit((n % 10) as int))
    }
}

/// Calls `String::push`, which appends one character.
#[verifier::external_body]
pub(crate) fn push_char(s: &mut String, c: char)
    ensures
        final(s)@ == old(s)@.push(c),
{
    s.push(c);
}

/// Appends the characters of `chars` to `s`.
pub(crate) fn push_chars(s: &mut String, chars: &Vec<char>)
    ensures
        final(s)@ == old(s)@ + chars@,
{
    let mut i: usize = 0;
    while i < chars.len()
        invariant
            i <= chars@.len(),
            s@ == old(s)@ + chars@.subrange(0, i as int),
        decreases chars@.len() - i,
    {
        push_char(s, chars[i]);
        i = i + 1;
        proof {
            assert(s@ =~= old(s)@ + chars@.subrange(0, i as int));
        }
    }
    proof {
        assert(chars@.subrange(0, chars@.len() as int) =~= chars@);
    }
}

/// Appends the decimal representation of `n` to `s`.
pub fn push_decimal(s: &mut String, n: u64)
    ensures
        final(s)@ == old(s)@ + decimal(n as nat),
{
    let mut digits: Vec<char> = Vec::new();
    let mut m: u64 = n;
    while m >= 10
        invariant
            decimal(n as nat) == decimal(m as nat) + digits@,
        decreases m,
    {
        let d = (m % 10) as u8;
        let ghost before = digits@;
        digits.insert(0, (d + 48) as char);
        proof {
            assert(digits@ =~= seq![decimal_digit((m % 10) as int)] + before);
            assert(decimal(m as nat) == decimal((m / 10) as nat).push(decimal_digit((m % 10) as int)));
            assert(decimal((m / 10) as nat).push(decimal_digit((m % 10) as int)) + before
                =~= decimal((m / 10) as nat) + digits@);
        }
        m = m / 10;
    }
    let ghost before = digits@;
    digits.insert(0, ((m as u8) + 48) as char);
    proof {
        assert(digits@ =~= decimal(m as nat) + before);
    }
    push_chars(s, &digits);
}

} // verus!
