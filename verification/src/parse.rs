//! Tokenization of wire lines and parsing of decimal numerals.
//!
//! A line is split into its maximal runs of non-whitespace bytes; each token
//! is then read as a decimal numeral of the expected integer type. Every
//! parser is total: a malformed token is reported as a protocol violation,
//! never a panic.

use vstd::prelude::*;

verus! {

/// A line that violates the wire protocol. Always fatal for the turn: the
/// judge-driven protocol gives no way to request a re-send.
#[derive(Clone, Copy, PartialEq, Eq, Structural, Debug)]
pub enum ProtocolViolation {
    /// The line does not have the expected number of tokens.
    TokenCount,
    /// A token is not a numeral of the expected integer type.
    BadNumber,
}

/// Whether a byte is an ASCII decimal digit.
pub open spec fn is_ascii_digit(b: u8) -> bool {
    0x30 <= b <= 0x39
}

/// Whether a byte separates tokens on a wire line.
pub open spec fn is_line_space(b: u8) -> bool {
    b == 0x20 || b == 0x09 || b == 0x0a || b == 0x0d
}

/// Whether every byte of `s` is an ASCII decimal digit.
pub open spec fn all_digits(s: Seq<u8>) -> bool {
    forall|i: int| 0 <= i < s.len() ==> is_ascii_digit(#[trigger] s[i])
}

/// The numeric value of a digit run, most significant digit first.
pub open spec fn digits_value(s: Seq<u8>) -> int
    decreases s.len(),
{
    if s.len() == 0 {
        0
    } else {
        digits_value(s.drop_last()) * 10 + (s.last() - 0x30)
    }
}

/// The digits of a numeral after its optional single leading sign.
pub open spec fn magnitude_part(s: Seq<u8>) -> Seq<u8> {
    if s.len() > 0 && (s[0] == 0x2b || s[0] == 0x2d) {
        s.drop_first()
    } else {
        s
    }
}

/// Whether a numeral carries a leading minus sign.
pub open spec fn is_negative_numeral(s: Seq<u8>) -> bool {
    s.len() > 0 && s[0] == 0x2d
}

/// A well-formed unsigned 16-bit numeral: an optional leading plus, then at
/// least one digit, with a value that fits in sixteen bits.
pub open spec fn is_u16_numeral(s: Seq<u8>) -> bool {
    &&& !is_negative_numeral(s)
    &&& magnitude_part(s).len() > 0
    &&& all_digits(magnitude_part(s))
    &&& digits_value(magnitude_part(s)) <= u16::MAX
}

/// The value of a well-formed unsigned numeral.
pub open spec fn u16_numeral_value(s: Seq<u8>) -> int {
    digits_value(magnitude_part(s))
}

/// The value of a signed numeral with a well-formed magnitude.
pub open spec fn i16_numeral_value(s: Seq<u8>) -> int {
    if is_negative_numeral(s) {
        -digits_value(magnitude_part(s))
    } else {
        digits_value(magnitude_part(s))
    }
}

/// A well-formed signed 16-bit numeral: an optional leading sign, then at
/// least one digit, with a value in the signed sixteen-bit range.
pub open spec fn is_i16_numeral(s: Seq<u8>) -> bool {
    &&& magnitude_part(s).len() > 0
    &&& all_digits(magnitude_part(s))
    &&& i16::MIN <= i16_numeral_value(s) <= i16::MAX
}

/// A digit run has a non-negative value.
proof fn lemma_digits_value_nonneg(s: Seq<u8>)
    requires
        all_digits(s),
    ensures
        digits_value(s) >= 0,
    decreases s.len(),
{
    if s.len() > 0 {
        lemma_digits_value_nonneg(s.drop_last());
    }
}

/// A well-formed unsigned numeral's value lies in the unsigned 16-bit range.
pub proof fn lemma_u16_numeral_value_in_range(s: Seq<u8>)
    requires
        is_u16_numeral(s),
    ensures
        0 <= u16_numeral_value(s) <= u16::MAX,
{
    lemma_digits_value_nonneg(magnitude_part(s));
}

/// A well-formed signed numeral's value lies in the signed 16-bit range.
pub proof fn lemma_i16_numeral_value_in_range(s: Seq<u8>)
    requires
        is_i16_numeral(s),
    ensures
        i16::MIN <= i16_numeral_value(s) <= i16::MAX,
{
}

/// Reading further digits never decreases the value: the value of a prefix
/// of a digit run is at most the value of the whole run.
proof fn lemma_digits_value_prefix(s: Seq<u8>, k: int)
    requires
        all_digits(s),
        0 <= k <= s.len(),
    ensures
        digits_value(s.take(k)) <= digits_value(s),
    decreases s.len() - k,
{
    if k == s.len() {
        assert(s.take(k) =~= s);
    } else {
        assert(s.take(k + 1).drop_last() =~= s.take(k));
        lemma_digits_value_nonneg(s.take(k));
        lemma_digits_value_prefix(s, k + 1);
    }
}

/// Read the digits of `tok` from `start` to the end as a decimal value,
/// rejecting empty runs, non-digit bytes, and values above `cap`.
fn parse_digits(tok: &Vec<u8>, start: usize, cap: u32) -> (r: Result<u32, ProtocolViolation>)
    requires
        start <= tok@.len(),
        cap <= 400_000_000,
    ensures
        r is Ok <==> {
            &&& tok@.skip(start as int).len() > 0
            &&& all_digits(tok@.skip(start as int))
            &&& digits_value(tok@.skip(start as int)) <= cap
        },
        r matches Ok(v) ==> v == digits_value(tok@.skip(start as int)),
        r matches Err(e) ==> e == ProtocolViolation::BadNumber,
{
    let ghost digits = tok@.skip(start as int);
    if tok.len() == start {
        return Err(ProtocolViolation::BadNumber);
    }
    let mut acc: u32 = 0;
    let mut i: usize = start;
    while i < tok.len()
        invariant
            start <= i <= tok@.len(),
            cap <= 400_000_000,
            digits == tok@.skip(start as int),
            all_digits(digits.take(i - start)),
            acc == digits_value(digits.take(i - start)),
            acc <= cap,
        decreases tok@.len() - i,
    {
        let b = tok[i];
        proof {
            assert(digits[i - start] == tok@[i as int]);
        }
        if b < 0x30 || b > 0x39 {
            assert(!is_ascii_digit(digits[i - start]));
            return Err(ProtocolViolation::BadNumber);
        }
        let d = (b - 0x30) as u32;
        proof {
            assert(digits.take(i - start + 1).drop_last() =~= digits.take(i - start));
        }
        let next = acc * 10 + d;
        if next > cap {
            proof {
                if all_digits(digits) {
                    lemma_digits_value_prefix(digits, i - start + 1);
                }
            }
            return Err(ProtocolViolation::BadNumber);
        }
        acc = next;
        i += 1;
    }
    proof {
        assert(digits.take(tok@.len() - start) =~= digits);
    }
    Ok(acc)
}

/// Parse one token as an unsigned 16-bit decimal numeral.
pub fn parse_u16(tok: &Vec<u8>) -> (r: Result<u16, ProtocolViolation>)
    ensures
        r is Ok <==> is_u16_numeral(tok@),
        r matches Ok(v) ==> v == u16_numeral_value(tok@),
        r matches Err(e) ==> e == ProtocolViolation::BadNumber,
{
    if tok.len() > 0 && tok[0] == 0x2d {
        return Err(ProtocolViolation::BadNumber);
    }
    let start: usize = if tok.len() > 0 && tok[0] == 0x2b {
        1
    } else {
        0
    };
    proof {
        assert(magnitude_part(tok@) =~= tok@.skip(start as int));
    }
    match parse_digits(tok, start, 0xffff) {
        Ok(v) => Ok(v as u16),
        Err(e) => Err(e),
    }
}

/// Parse one token as a signed 16-bit decimal numeral.
pub fn parse_i16(tok: &Vec<u8>) -> (r: Result<i16, ProtocolViolation>)
    ensures
        r is Ok <==> is_i16_numeral(tok@),
        r matches Ok(v) ==> v == i16_numeral_value(tok@),
        r matches Err(e) ==> e == ProtocolViolation::BadNumber,
{
    let neg = tok.len() > 0 && tok[0] == 0x2d;
    let start: usize = if tok.len() > 0 && (tok[0] == 0x2b || tok[0] == 0x2d) {
        1
    } else {
        0
    };
    proof {
        assert(magnitude_part(tok@) =~= tok@.skip(start as int));
    }
    let cap: u32 = if neg {
        32768
    } else {
        32767
    };
    match parse_digits(tok, start, cap) {
        Ok(v) => {
            if neg {
                Ok((-(v as i32)) as i16)
            } else {
                Ok(v as i16)
            }
        },
        Err(e) => Err(e),
    }
}

/// One step of the tokenizer: fold the next byte into the finished tokens
/// and the token currently being read.
pub open spec fn tokens_step(state: (Seq<Seq<u8>>, Seq<u8>), b: u8) -> (Seq<Seq<u8>>, Seq<u8>) {
    if is_line_space(b) {
        if state.1.len() == 0 {
            state
        } else {
            (state.0.push(state.1), Seq::empty())
        }
    } else {
        (state.0, state.1.push(b))
    }
}

/// The tokenizer state after reading the first `i` bytes of `line`.
pub open spec fn tokens_scan(line: Seq<u8>, i: int) -> (Seq<Seq<u8>>, Seq<u8>)
    decreases i,
{
    if i <= 0 {
        (Seq::empty(), Seq::empty())
    } else {
        tokens_step(tokens_scan(line, i - 1), line[i - 1])
    }
}

/// The tokens of a line: its maximal runs of non-whitespace bytes, in order.
pub open spec fn spec_tokens(line: Seq<u8>) -> Seq<Seq<u8>> {
    let state = tokens_scan(line, line.len() as int);
    if state.1.len() == 0 {
        state.0
    } else {
        state.0.push(state.1)
    }
}

/// Split a wire line into its whitespace-separated tokens.
pub fn tokenize(line: &Vec<u8>) -> (toks: Vec<Vec<u8>>)
    ensures
        toks.deep_view() == spec_tokens(line@),
{
    let mut toks: Vec<Vec<u8>> = Vec::new();
    let mut cur: Vec<u8> = Vec::new();
    let mut i: usize = 0;
    while i < line.len()
        invariant
            i <= line@.len(),
            toks.deep_view() == tokens_scan(line@, i as int).0,
            cur@ == tokens_scan(line@, i as int).1,
        decreases line@.len() - i,
    {
        let ghost prev = toks.deep_view();
        let b = line[i];
        if b == 0x20 || b == 0x09 || b == 0x0a || b == 0x0d {
            if cur.len() > 0 {
                let ghost finished = cur@;
                toks.push(cur);
                proof {
                    assert(toks.deep_view() =~~= prev.push(finished));
                }
                cur = Vec::new();
            }
        } else {
            cur.push(b);
        }
        i += 1;
    }
    if cur.len() > 0 {
        let ghost prev = toks.deep_view();
        let ghost finished = cur@;
        toks.push(cur);
        proof {
            assert(toks.deep_view() =~~= prev.push(finished));
        }
    }
    toks
}

/// Parse a line's tokens as exactly one unsigned value, as a count line or a
/// hero-count setup line carries.
pub fn parse_single_u16(tokens: &Vec<Vec<u8>>) -> (r: Result<u16, ProtocolViolation>)
    ensures
        r is Ok <==> valid_single_tokens(tokens.deep_view()),
        r matches Ok(v) ==> v == u16_numeral_value(tokens.deep_view()[0]),
        r matches Err(e) ==> e == single_violation(tokens.deep_view()),
{
    if tokens.len() != 1 {
        return Err(ProtocolViolation::TokenCount);
    }
    proof {
        assert(tokens.deep_view()[0] == tokens@[0]@);
    }
    match parse_u16(&tokens[0]) {
        Ok(v) => Ok(v),
        Err(e) => Err(e),
    }
}

/// A one-token line holding one unsigned numeral.
pub open spec fn valid_single_tokens(toks: Seq<Seq<u8>>) -> bool {
    toks.len() == 1 && is_u16_numeral(toks[0])
}

/// The violation a malformed one-value line is reported as.
pub open spec fn single_violation(toks: Seq<Seq<u8>>) -> ProtocolViolation {
    if toks.len() != 1 {
        ProtocolViolation::TokenCount
    } else {
        ProtocolViolation::BadNumber
    }
}

/// A two-token line holding two unsigned numerals, as the setup coordinate
/// line and the per-turn base resource lines carry.
pub open spec fn valid_pair_tokens(toks: Seq<Seq<u8>>) -> bool {
    toks.len() == 2 && is_u16_numeral(toks[0]) && is_u16_numeral(toks[1])
}

/// The violation a malformed two-value line is reported as.
pub open spec fn pair_violation(toks: Seq<Seq<u8>>) -> ProtocolViolation {
    if toks.len() != 2 {
        ProtocolViolation::TokenCount
    } else {
        ProtocolViolation::BadNumber
    }
}

/// Parse a line's tokens as exactly two unsigned values.
pub fn parse_u16_pair(tokens: &Vec<Vec<u8>>) -> (r: Result<(u16, u16), ProtocolViolation>)
    ensures
        r is Ok <==> valid_pair_tokens(tokens.deep_view()),
        r matches Ok(p) ==> p.0 == u16_numeral_value(tokens.deep_view()[0])
            && p.1 == u16_numeral_value(tokens.deep_view()[1]),
        r matches Err(e) ==> e == pair_violation(tokens.deep_view()),
{
    if tokens.len() != 2 {
        return Err(ProtocolViolation::TokenCount);
    }
    proof {
        assert(tokens.deep_view()[0] == tokens@[0]@);
        assert(tokens.deep_view()[1] == tokens@[1]@);
    }
    let first = match parse_u16(&tokens[0]) {
        Ok(v) => v,
        Err(e) => {
            return Err(e);
        },
    };
    let second = match parse_u16(&tokens[1]) {
        Ok(v) => v,
        Err(e) => {
            return Err(e);
        },
    };
    Ok((first, second))
}

} // verus!

