use vstd::prelude::*;

verus! {

/// Why a human-readable size could not be turned into a byte count.
#[derive(Debug, Clone, Copy, PartialEq, Eq, Structural)]
pub enum SizeError {
    /// The text is not a run of decimal digits followed by a unit.
    InvalidFormat,
    /// The digits name a number that does not fit in 64 bits.
    IntegerOverflow,
    /// The number fits, but the number times the unit does not.
    MultiplicationOverflow,
}

pub open spec fn is_digit(c: char) -> bool {
    '0' <= c && c <= '9'
}

/// The number written by a run of decimal digits (most significant first).
pub open spec fn digits_value(s: Seq<char>) -> nat
    decreases s.len(),
{
    if s.len() == 0 {
        0
    } else {
        digits_value(s.drop_last()) * 10 + (s.last() as nat - '0' as nat) as nat
    }
}

/// How many decimal digits the text starts with.
pub open spec fn leading_digits(s: Seq<char>) -> nat
    decreases s.len(),
{
    if s.len() == 0 || !is_digit(s[0]) {
        0
    } else {
        1 + leading_digits(s.drop_first())
    }
}

/// The bytes that one unit stands for: `b`, `kb`, `mb`, `gb` (either all lower
/// or all upper case) are 1, 1024, 1024^2 and 1024^3.
pub open spec fn unit_multiplier(u: Seq<char>) -> Option<nat> {
    if u == seq!['b'] || u == seq!['B'] {
        Some(1)
    } else if u == seq!['k', 'b'] || u == seq!['K', 'B'] {
        Some(1024)
    } else if u == seq!['m', 'b'] || u == seq!['M', 'B'] {
        Some(1024 * 1024)
    } else if u == seq!['g', 'b'] || u == seq!['G', 'B'] {
        Some(1024 * 1024 * 1024)
    } else {
        None
    }
}

/// The digit part of a size text.
pub open spec fn number_part(s: Seq<char>) -> Seq<char> {
    s.take(leading_digits(s) as int)
}

/// The unit part of a size text: whatever follows the leading digits.
pub open spec fn unit_part(s: Seq<char>) -> Seq<char> {
    s.skip(leading_digits(s) as int)
}

/// The text is at least one digit followed by exactly one unit.
pub open spec fn is_size_text(s: Seq<char>) -> bool {
    leading_digits(s) > 0 && unit_multiplier(unit_part(s)).is_some()
}

/// The exact byte count that a well-formed size text denotes.
pub open spec fn size_value(s: Seq<char>) -> nat {
    digits_value(number_part(s)) * unit_multiplier(unit_part(s)).unwrap()
}

/// What parsing a size text gives: the byte count, or the first problem found
/// (format before the digits' range, the digits' range before the product's).
pub open spec fn parse_size_spec(s: Seq<char>) -> Result<u64, SizeError> {
    if !is_size_text(s) {
        Err(SizeError::InvalidFormat)
    } else if digits_value(number_part(s)) > u64::MAX {
        Err(SizeError::IntegerOverflow)
    } else if size_value(s) > u64::MAX {
        Err(SizeError::MultiplicationOverflow)
    } else {
        Ok(size_value(s) as u64)
    }
}

/// A run of digits has exactly as many leading digits as characters, and then
/// one more digit-free character ends the run.
proof fn lemma_leading_digits_exact(s: Seq<char>, k: int)
    requires
        0 <= k <= s.len(),
        forall|i: int| 0 <= i < k ==> is_digit(#[trigger] s[i]),
        k == s.len() || !is_digit(s[k]),
    ensures
        leading_digits(s) == k,
    decreases s.len(),
{
    if k > 0 {
        let t = s.drop_first();
        assert forall|i: int| 0 <= i < k - 1 implies is_digit(#[trigger] t[i]) by {
            assert(t[i] == s[i + 1]);
        }
        if k - 1 < t.len() {
            assert(t[k - 1] == s[k]);
        }
        lemma_leading_digits_exact(t, k - 1);
    }
}

proof fn lemma_digits_value_grows(s: Seq<char>, c: char)
    requires
        is_digit(c),
    ensures
        digits_value(s.push(c)) == digits_value(s) * 10 + (c as nat - '0' as nat),
        digits_value(s.push(c)) >= digits_value(s),
{
    assert(s.push(c).drop_last() =~= s);
}

/// Reads the unit of a size text: `text` is the whole text and `start` the
/// index of its first character after the digits.
fn unit_of(text: &str, start: usize) -> (r: Option<u64>)
    requires
        start <= text@.len(),
    ensures
        match unit_multiplier(text@.skip(start as int)) {
            Some(m) => r == Some(m as u64),
            None => r.is_none(),
        },
{
    let n = text.unicode_len();
    let ghost u = text@.skip(start as int);
    if n - start == 1 {
        let c = text.get_char(start);
        assert(u =~= seq![c]);
        if c == 'b' || c == 'B' {
            Some(1)
        } else {
            assert(u != seq!['b'] && u != seq!['B']) by {
                assert(seq!['b'][0] == 'b');
                assert(seq!['B'][0] == 'B');
            }
            None
        }
    } else if n - start == 2 {
        let c0 = text.get_char(start);
        let c1 = text.get_char(start + 1);
        assert(u =~= seq![c0, c1]);
        if (c0 == 'k' && c1 == 'b') || (c0 == 'K' && c1 == 'B') {
            Some(1024)
        } else if (c0 == 'm' && c1 == 'b') || (c0 == 'M' && c1 == 'B') {
            Some(1024 * 1024)
        } else if (c0 == 'g' && c1 == 'b') || (c0 == 'G' && c1 == 'B') {
            Some(1024 * 1024 * 1024)
        } else {
            assert(u != seq!['k', 'b'] && u != seq!['K', 'B'] && u != seq!['m', 'b']
                && u != seq!['M', 'B'] && u != seq!['g', 'b'] && u != seq!['G', 'B']) by {
                assert(seq!['k', 'b'][0] == 'k' && seq!['k', 'b'][1] == 'b');
                assert(seq!['K', 'B'][0] == 'K' && seq!['K', 'B'][1] == 'B');
                assert(seq!['m', 'b'][0] == 'm' && seq!['m', 'b'][1] == 'b');
                assert(seq!['M', 'B'][0] == 'M' && seq!['M', 'B'][1] == 'B');
                assert(seq!['g', 'b'][0] == 'g' && seq!['g', 'b'][1] == 'b');
                assert(seq!['G', 'B'][0] == 'G' && seq!['G', 'B'][1] == 'B');
            }
            None
        }
    } else {
        assert(u.len() != 1 && u.len() != 2);
        None
    }
}

/// Parser for byte counts written as `<digits><unit>`, such as `30MB` or `5gb`.
#[derive(Debug, Clone, Copy)]
pub struct HumanSizeParser {}

impl Default for HumanSizeParser {
    fn default() -> (r: Self)
        ensures
            r == (HumanSizeParser {}),
    {
        HumanSizeParser {}
    }
}

impl HumanSizeParser {
    /// The exact byte count `input` denotes; see `parse_size_spec` for which
    /// error comes on which text.
    pub fn parse(&self, input: &str) -> (r: Result<u64, SizeError>)
        ensures
            r == parse_size_spec(input@),
    {
        let n = input.unicode_len();
        let ghost s = input@;
        let mut i: usize = 0;
        let mut value: u64 = 0;
        let mut overflow = false;
        while i < n
            invariant
                n == s.len(),
                s == input@,
                i <= n,
                forall|j: int| 0 <= j < i ==> is_digit(#[trigger] s[j]),
                overflow == (digits_value(s.take(i as int)) > u64::MAX),
                !overflow ==> value == digits_value(s.take(i as int)),
            ensures
                i == n || !is_digit(s[i as int]),
                forall|j: int| 0 <= j < i ==> is_digit(#[trigger] s[j]),
                overflow == (digits_value(s.take(i as int)) > u64::MAX),
                !overflow ==> value == digits_value(s.take(i as int)),
            decreases n - i,
        {
            let c = input.get_char(i);
            if !('0' <= c && c <= '9') {
                break;
            }
            proof {
                lemma_digits_value_grows(s.take(i as int), c);
                assert(s.take(i as int).push(c) =~= s.take(i + 1));
            }
            let d = (c as u32 - '0' as u32) as u64;
            if !overflow {
                if value > (u64::MAX - d) / 10 {
                    overflow = true;
                } else {
                    value = value * 10 + d;
                }
            }
            i = i + 1;
        }
        proof {
            lemma_leading_digits_exact(s, i as int);
            assert(s.take(i as int) =~= number_part(s));
        }
        let unit = unit_of(input, i);
        if i == 0 || unit.is_none() {
            return Err(SizeError::InvalidFormat);
        }
        if overflow {
            return Err(SizeError::IntegerOverflow);
        }
        let m = unit.unwrap();
        match value.checked_mul(m) {
            Some(v) => Ok(v),
            None => Err(SizeError::MultiplicationOverflow),
        }
    }
}

} // verus!
