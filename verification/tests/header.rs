//! Tests of header building (base64 round trips) and port parsing.

use lcu_discovery::complete_discovery;
use lcu_discovery::port::parse_port;
use lcu_discovery::Credentials;
use lcu_discovery::ErrorKind;

const ALPHABET: &[u8; 64] = b"ABCDEFGHIJKLMNOPQRSTUVWXYZabcdefghijklmnopqrstuvwxyz0123456789+/";

/// Reference base64 encoding: standard alphabet, `=` padding.
fn base64_reference(bytes: &[u8]) -> String {
    let mut out = String::new();
    for chunk in bytes.chunks(3) {
        let b0 = chunk[0] as u32;
        let b1 = chunk.get(1).copied().unwrap_or(0) as u32;
        let b2 = chunk.get(2).copied().unwrap_or(0) as u32;
        let group = (b0 << 16) | (b1 << 8) | b2;
        let symbols = [
            ALPHABET[(group >> 18) as usize & 0x3f],
            ALPHABET[(group >> 12) as usize & 0x3f],
            ALPHABET[(group >> 6) as usize & 0x3f],
            ALPHABET[group as usize & 0x3f],
        ];
        let kept = match chunk.len() {
            1 => 2,
            2 => 3,
            _ => 4,
        };
        for &s in &symbols[..kept] {
            out.push(s as char);
        }
        for _ in kept..4 {
            out.push('=');
        }
    }
    out
}

/// Reference base64 decoding of an unpadded string.
fn base64_decode(s: &str) -> Vec<u8> {
    let mut bits: u32 = 0;
    let mut n_bits = 0;
    let mut out = Vec::new();
    for c in s.bytes() {
        let v = ALPHABET.iter().position(|&a| a == c).expect("base64 symbol") as u32;
        bits = (bits << 6) | v;
        n_bits += 6;
        if n_bits >= 8 {
            n_bits -= 8;
            out.push((bits >> n_bits) as u8);
        }
    }
    out
}

fn header_for_token(token: &str) -> String {
    let creds = Credentials { port: "1".to_string(), auth_token: token.to_string() };
    complete_discovery(&creds).unwrap().auth_header
}

#[test]
fn header_matches_reference_encoding() {
    let header = header_for_token("TOKENVALUE");
    let expected = format!("Basic {}", base64_reference(b"riot:TOKENVALUE"));
    assert_eq!(header, expected);
}

#[test]
fn header_round_trips_at_boundary_token_lengths() {
    for len in [0usize, 1, 16, 100] {
        let token: String = "x".repeat(len);
        let header = header_for_token(&token);
        let body = header.strip_prefix("Basic ").expect("Basic prefix");
        let unpadded = body.trim_end_matches('=');
        let decoded = base64_decode(unpadded);
        let mut expected = b"riot:".to_vec();
        expected.extend_from_slice(token.as_bytes());
        assert_eq!(decoded, expected, "round trip failed for token length {len}");
    }
}

#[test]
fn header_length_is_padded_to_groups_of_four() {
    for len in [0usize, 1, 2, 3, 4, 50] {
        let token: String = "t".repeat(len);
        let header = header_for_token(&token);
        let body = &header["Basic ".len()..];
        assert_eq!(body.len(), (5 + len).div_ceil(3) * 4);
    }
}

#[test]
fn port_boundaries_parse() {
    assert_eq!(parse_port("0").unwrap(), 0);
    assert_eq!(parse_port("65535").unwrap(), 65535);
    assert_eq!(parse_port("+9001").unwrap(), 9001);
}

#[test]
fn port_parse_failures_carry_the_description() {
    let err = parse_port("not-a-number").err().unwrap();
    assert_eq!(err.kind(), ErrorKind::PortNotFound);
    assert_eq!(err.reason(), "invalid digit found in string");

    let err = parse_port("65536").err().unwrap();
    assert_eq!(err.kind(), ErrorKind::PortNotFound);
    assert_eq!(err.reason(), "number too large to fit in target type");

    let err = parse_port("").err().unwrap();
    assert_eq!(err.kind(), ErrorKind::PortNotFound);
    assert_eq!(err.reason(), "cannot parse integer from empty string");

    let err = parse_port("+").err().unwrap();
    assert_eq!(err.kind(), ErrorKind::PortNotFound);
    assert_eq!(err.reason(), "invalid digit found in string");
}

#[test]
fn port_parse_agrees_with_the_standard_parser() {
    for s in ["0", "65535", "65536", "99999999999999999999", "+17", "", "+", "1x", "x1"] {
        match (parse_port(s), s.parse::<u16>()) {
            (Ok(mine), Ok(std_parsed)) => assert_eq!(mine, std_parsed, "value for {s:?}"),
            (Err(e), Err(std_err)) => {
                assert_eq!(e.reason(), std_err.to_string(), "message for {s:?}")
            },
            (mine, std_parsed) => panic!("disagreement for {s:?}: {mine:?} vs {std_parsed:?}"),
        }
    }
}
