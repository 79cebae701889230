use base_defense::parse::{
    parse_i16, parse_single_u16, parse_u16, parse_u16_pair, tokenize, ProtocolViolation,
};

#[test]
fn tokenize_splits_on_whitespace() {
    let toks = tokenize(&b"7 1 10 10".to_vec());
    assert_eq!(toks, vec![b"7".to_vec(), b"1".to_vec(), b"10".to_vec(), b"10".to_vec()]);
}

#[test]
fn tokenize_collapses_repeated_separators() {
    let toks = tokenize(&b"  5\t 5 \r\n".to_vec());
    assert_eq!(toks, vec![b"5".to_vec(), b"5".to_vec()]);
}

#[test]
fn tokenize_empty_line_has_no_tokens() {
    assert_eq!(tokenize(&b"".to_vec()), Vec::<Vec<u8>>::new());
    assert_eq!(tokenize(&b" \n".to_vec()), Vec::<Vec<u8>>::new());
}

#[test]
fn parse_u16_exact_values() {
    assert_eq!(parse_u16(&b"0".to_vec()), Ok(0));
    assert_eq!(parse_u16(&b"123".to_vec()), Ok(123));
    assert_eq!(parse_u16(&b"+123".to_vec()), Ok(123));
    assert_eq!(parse_u16(&b"00042".to_vec()), Ok(42));
    assert_eq!(parse_u16(&b"65535".to_vec()), Ok(65535));
}

#[test]
fn parse_u16_rejects_malformed_tokens() {
    assert_eq!(parse_u16(&b"".to_vec()), Err(ProtocolViolation::BadNumber));
    assert_eq!(parse_u16(&b"+".to_vec()), Err(ProtocolViolation::BadNumber));
    assert_eq!(parse_u16(&b"-1".to_vec()), Err(ProtocolViolation::BadNumber));
    assert_eq!(parse_u16(&b"12a".to_vec()), Err(ProtocolViolation::BadNumber));
    assert_eq!(parse_u16(&b"65536".to_vec()), Err(ProtocolViolation::BadNumber));
    assert_eq!(parse_u16(&b"999999999999".to_vec()), Err(ProtocolViolation::BadNumber));
}

#[test]
fn parse_i16_exact_values() {
    assert_eq!(parse_i16(&b"0".to_vec()), Ok(0));
    assert_eq!(parse_i16(&b"-0".to_vec()), Ok(0));
    assert_eq!(parse_i16(&b"42".to_vec()), Ok(42));
    assert_eq!(parse_i16(&b"+42".to_vec()), Ok(42));
    assert_eq!(parse_i16(&b"-42".to_vec()), Ok(-42));
    assert_eq!(parse_i16(&b"32767".to_vec()), Ok(32767));
    assert_eq!(parse_i16(&b"-32768".to_vec()), Ok(-32768));
}

#[test]
fn parse_i16_rejects_out_of_range_and_garbage() {
    assert_eq!(parse_i16(&b"32768".to_vec()), Err(ProtocolViolation::BadNumber));
    assert_eq!(parse_i16(&b"-32769".to_vec()), Err(ProtocolViolation::BadNumber));
    assert_eq!(parse_i16(&b"-".to_vec()), Err(ProtocolViolation::BadNumber));
    assert_eq!(parse_i16(&b"--3".to_vec()), Err(ProtocolViolation::BadNumber));
    assert_eq!(parse_i16(&b"3.5".to_vec()), Err(ProtocolViolation::BadNumber));
}

#[test]
fn parse_single_expects_one_token() {
    assert_eq!(parse_single_u16(&tokenize(&b"3".to_vec())), Ok(3));
    assert_eq!(
        parse_single_u16(&tokenize(&b"3 4".to_vec())),
        Err(ProtocolViolation::TokenCount)
    );
    assert_eq!(
        parse_single_u16(&tokenize(&b"".to_vec())),
        Err(ProtocolViolation::TokenCount)
    );
    assert_eq!(
        parse_single_u16(&tokenize(&b"x".to_vec())),
        Err(ProtocolViolation::BadNumber)
    );
}

#[test]
fn parse_pair_expects_two_tokens() {
    assert_eq!(parse_u16_pair(&tokenize(&b"100 50".to_vec())), Ok((100, 50)));
    assert_eq!(
        parse_u16_pair(&tokenize(&b"100".to_vec())),
        Err(ProtocolViolation::TokenCount)
    );
    assert_eq!(
        parse_u16_pair(&tokenize(&b"100 50 7".to_vec())),
        Err(ProtocolViolation::TokenCount)
    );
    assert_eq!(
        parse_u16_pair(&tokenize(&b"100 x".to_vec())),
        Err(ProtocolViolation::BadNumber)
    );
}
