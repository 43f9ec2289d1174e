//! Parsing of whitespace-tokenized command lines into combinations: an
//! optionally signed decimal numeral per token, three tokens per
//! combination. Parse failures never reach the state machine; they are
//! reported to the caller as a distinct error.

use vstd::prelude::*;

verus! {

/// An ASCII decimal digit.
pub open spec fn is_digit(c: char) -> bool {
    48 <= c as int <= 57
}

/// The numeric value of an ASCII decimal digit.
pub open spec fn digit_value(c: char) -> int {
    c as int - 48
}

/// The value of a sequence of decimal digits, most significant first.
pub open spec fn numeral_value(s: Seq<char>) -> int
    decreases s.len(),
{
    if s.len() == 0 {
        0
    } else {
        numeral_value(s.drop_last()) * 10 + digit_value(s.last())
    }
}

/// Every character of the sequence is a decimal digit.
pub open spec fn all_digits(s: Seq<char>) -> bool {
    forall|j: int| 0 <= j < s.len() ==> is_digit(s[j])
}

/// The token starts with an explicit sign character.
pub open spec fn has_sign(s: Seq<char>) -> bool {
    s.len() > 0 && (s[0] == '+' || s[0] == '-')
}

/// The token denotes a negative number.
pub open spec fn is_negative(s: Seq<char>) -> bool {
    s.len() > 0 && s[0] == '-'
}

/// The digits of the token, after any sign character.
pub open spec fn magnitude_part(s: Seq<char>) -> Seq<char> {
    if has_sign(s) {
        s.subrange(1, s.len() as int)
    } else {
        s
    }
}

/// A well-formed signed decimal numeral: an optional sign followed by at
/// least one digit, and nothing else.
pub open spec fn is_numeral(s: Seq<char>) -> bool {
    magnitude_part(s).len() > 0 && all_digits(magnitude_part(s))
}

/// The integer a well-formed numeral denotes.
pub open spec fn numeral_int(s: Seq<char>) -> int {
    if is_negative(s) {
        -numeral_value(magnitude_part(s))
    } else {
        numeral_value(magnitude_part(s))
    }
}

/// The token is a well-formed numeral whose value fits in an `i8`.
pub open spec fn fits_i8(s: Seq<char>) -> bool {
    is_numeral(s) && -128 <= numeral_int(s) <= 127
}

/// Parses one token as a signed decimal `i8`, accepting exactly the
/// well-formed numerals whose value is in range.
pub fn parse_i8(s: &str) -> (r: Option<i8>)
    ensures
        r is Some <==> fits_i8(s@),
        r matches Some(v) ==> v as int == numeral_int(s@),
{
    let n = s.unicode_len();
    if n == 0 {
        return None;
    }
    let c0 = s.get_char(0);
    let negative = c0 == '-';
    let signed = negative || c0 == '+';
    let start: usize = if signed {
        1
    } else {
        0
    };
    if start >= n {
        // A sign with no digits after it.
        return None;
    }
    let mut i: usize = start;
    // The running magnitude, clamped once it is certainly out of range so
    // that it can never overflow, however long the token is.
    let mut acc: u32 = 0;
    while i < n
        invariant
            start <= i <= n,
            n == s@.len(),
            start == if has_sign(s@) {
                1int
            } else {
                0int
            },
            forall|j: int| start <= j < i ==> is_digit(s@[j]),
            acc <= 3009,
            ({
                let val = numeral_value(s@.subrange(start as int, i as int));
                (val <= 300 && acc == val) || (val > 300 && acc > 300)
            }),
        decreases n - i,
    {
        let c = s.get_char(i);
        let cv = c as u32;
        if cv < 48 || 57 < cv {
            proof {
                if is_numeral(s@) {
                    assert(magnitude_part(s@)[i - start] == s@[i as int]);
                }
            }
            return None;
        }
        let d: u32 = cv - 48;
        proof {
            let pre = s@.subrange(start as int, i as int);
            let post = s@.subrange(start as int, i as int + 1);
            assert(post.drop_last() =~= pre);
            assert(post.last() == s@[i as int]);
        }
        acc = if acc > 300 {
            301
        } else {
            acc * 10 + d
        };
        i = i + 1;
    }
    proof {
        assert(s@.subrange(start as int, n as int) =~= magnitude_part(s@));
        assert forall|k: int| 0 <= k < magnitude_part(s@).len() implies is_digit(
            magnitude_part(s@)[k],
        ) by {
            assert(magnitude_part(s@)[k] == s@[start + k]);
        }
    }
    if negative {
        if acc <= 128 {
            let v: i32 = -(acc as i32);
            Some(v as i8)
        } else {
            None
        }
    } else {
        if acc <= 127 {
            Some(acc as i8)
        } else {
            None
        }
    }
}

/// Why a command line could not be turned into a combination.
#[derive(Clone, Copy, PartialEq, Eq, Structural, Debug)]
pub enum ParseError {
    /// Fewer than three value tokens followed the command token.
    MissingValues,
    /// Some value token is not a numeral in range.
    NotNumeric,
}

/// The explanation text for each parse error.
pub open spec fn parse_error_text(e: ParseError) -> Seq<char> {
    match e {
        ParseError::MissingValues => "Three numeric values required"@,
        ParseError::NotNumeric => "All values must be numeric"@,
    }
}

impl ParseError {
    /// The human-readable explanation of this parse error.
    pub fn text(self) -> (r: String)
        ensures
            r@ == parse_error_text(self),
    {
        match self {
            ParseError::MissingValues => "Three numeric values required".to_owned(),
            ParseError::NotNumeric => "All values must be numeric".to_owned(),
        }
    }
}

/// The views of the tokens of a command line.
pub open spec fn token_views(line: Seq<String>) -> Seq<Seq<char>> {
    line.map_values(|t: String| t@)
}

/// What parsing a tokenized command line yields: token 0 is the command
/// itself, tokens 1 to 3 must be numerals in `i8` range; extra tokens are
/// ignored.
pub open spec fn combo_parse(toks: Seq<Seq<char>>) -> Result<crate::lock::Combination, ParseError> {
    if toks.len() < 4 {
        Err(ParseError::MissingValues)
    } else if fits_i8(toks[1]) && fits_i8(toks[2]) && fits_i8(toks[3]) {
        Ok(
            crate::lock::Combination {
                first: numeral_int(toks[1]) as i8,
                second: numeral_int(toks[2]) as i8,
                third: numeral_int(toks[3]) as i8,
            },
        )
    } else {
        Err(ParseError::NotNumeric)
    }
}

/// Parses tokens 1 to 3 of a command line as the three numbers of a
/// combination.
pub fn parse_combo(line: &Vec<String>) -> (r: Result<crate::lock::Combination, ParseError>)
    ensures
        r == combo_parse(token_views(line@)),
{
    if line.len() < 4 {
        return Err(ParseError::MissingValues);
    }
    let first = parse_i8(line[1].as_str());
    let second = parse_i8(line[2].as_str());
    let third = parse_i8(line[3].as_str());
    match (first, second, third) {
        (Some(a), Some(b), Some(c)) => Ok(crate::lock::Combination::new(a, b, c)),
        _ => Err(ParseError::NotNumeric),
    }
}

} // verus!
