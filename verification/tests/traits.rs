use co2::error::CO2Error;
use co2::error::CO2Result;
use co2::traits::Decoder;
use co2::traits::EncDecExt;
use co2::traits::Encoder;

// A simple "identity" cipher for testing.
struct Identity;

impl<'a> Encoder<&'a str, &'a str> for Identity {
    fn encode(&mut self, plaintext: &'a str) -> CO2Result<&'a str> {
        Ok(plaintext)
    }
}

impl<'a> Decoder<&'a str, &'a str> for Identity {
    fn decode(&mut self, ciphertext: &'a str) -> CO2Result<&'a str> {
        Ok(ciphertext)
    }
}

#[test]
fn decode_with_identity() {
    assert_eq!("abc".decode_with(&mut Identity).unwrap(), "abc");
}

#[test]
fn encode_with_identity() {
    assert_eq!("abc".encode_with(&mut Identity).unwrap(), "abc")
}

// The fluent form forwards exactly: it returns what the direct trait call
// returns.
#[test]
fn fluent_form_matches_direct_call() {
    let direct = Identity.encode("abc").unwrap();
    let fluent = "abc".encode_with(&mut Identity).unwrap();
    assert_eq!(direct, fluent);
    let direct = Identity.decode("abc").unwrap();
    let fluent = "abc".decode_with(&mut Identity).unwrap();
    assert_eq!(direct, fluent);
}

// A closure with the right signature is an encoder with no extra declaration.
#[test]
fn closure_is_an_encoder() {
    let mut upper = |s: &str| -> CO2Result<String> { Ok(s.to_uppercase()) };
    assert_eq!("abc".encode_with(&mut upper).unwrap(), "ABC");
}

// ... and symmetrically a decoder.
#[test]
fn closure_is_a_decoder() {
    let mut lower = |s: &str| -> CO2Result<String> { Ok(s.to_lowercase()) };
    assert_eq!("ABC".decode_with(&mut lower).unwrap(), "abc");
}

fn reverse(s: &str) -> CO2Result<String> {
    Ok(s.chars().rev().collect())
}

// An ordinary named function qualifies just like a closure does.
#[test]
fn plain_function_is_an_encoder() {
    assert_eq!("abc".encode_with(&mut reverse).unwrap(), "cba");
}

// A cipher that always fails hands its message through untouched: no
// wrapping, no loss of the message text.
#[test]
fn failing_encoder_error_is_untouched() {
    let mut failing = |_s: &str| -> CO2Result<String> {
        Err(CO2Error::Msg(String::from("bad input")))
    };
    let err = "abc".encode_with(&mut failing).unwrap_err();
    match err {
        CO2Error::Msg(m) => assert_eq!(m, "bad input"),
        CO2Error::Other(_) => panic!("expected the message variant"),
    }
}

#[test]
fn failing_decoder_error_is_untouched() {
    let mut failing = |_s: &str| -> CO2Result<String> {
        Err(CO2Error::Msg(String::from("bad input")))
    };
    let err = "abc".decode_with(&mut failing).unwrap_err();
    match err {
        CO2Error::Msg(m) => assert_eq!(m, "bad input"),
        CO2Error::Other(_) => panic!("expected the message variant"),
    }
}

// Round trip through a correctly paired encoder/decoder gives the plaintext
// back, here concretely with the identity transformation.
#[test]
fn identity_round_trip() {
    let ciphertext = "abc".encode_with(&mut Identity).unwrap();
    assert_eq!(ciphertext, "abc");
    let plaintext = ciphertext.decode_with(&mut Identity).unwrap();
    assert_eq!(plaintext, "abc");
}

// A Caesar-style shift cipher over ASCII letters; a shift of zero is the
// identity.
struct Shift(u8);

fn shift_char(c: char, by: u8) -> char {
    if c.is_ascii_uppercase() {
        (((c as u8 - b'A' + by) % 26) + b'A') as char
    } else if c.is_ascii_lowercase() {
        (((c as u8 - b'a' + by) % 26) + b'a') as char
    } else {
        c
    }
}

impl Encoder<&str, String> for Shift {
    fn encode(&mut self, plaintext: &str) -> CO2Result<String> {
        let by = self.0 % 26;
        Ok(plaintext.chars().map(|c| shift_char(c, by)).collect())
    }
}

impl Decoder<String, &str> for Shift {
    fn decode(&mut self, ciphertext: &str) -> CO2Result<String> {
        let back = (26 - self.0 % 26) % 26;
        Ok(ciphertext.chars().map(|c| shift_char(c, back)).collect())
    }
}

#[test]
fn shift_by_zero_is_identity() {
    let mut cipher = Shift(0);
    assert_eq!("Hello, world!".encode_with(&mut cipher).unwrap(), "Hello, world!");
    assert_eq!("Hello, world!".decode_with(&mut cipher).unwrap(), "Hello, world!");
}

#[test]
fn shift_round_trip() {
    let mut cipher = Shift(3);
    let ciphertext = "Hello, world!".encode_with(&mut cipher).unwrap();
    assert_eq!(ciphertext, "Khoor, zruog!");
    let plaintext = ciphertext.as_str().decode_with(&mut cipher).unwrap();
    assert_eq!(plaintext, "Hello, world!");
}

// The fluent capability is available on every representation: owned buffers
// and borrowed views alike.
#[test]
fn fluent_on_owned_and_borrowed() {
    let mut upper_owned = |s: String| -> CO2Result<String> { Ok(s.to_uppercase()) };
    let owned = String::from("abc");
    assert_eq!(owned.encode_with(&mut upper_owned).unwrap(), "ABC");

    let mut upper_borrowed = |s: &str| -> CO2Result<String> { Ok(s.to_uppercase()) };
    assert_eq!("abc".encode_with(&mut upper_borrowed).unwrap(), "ABC");

    let mut lower_owned = |s: String| -> CO2Result<String> { Ok(s.to_lowercase()) };
    assert_eq!(String::from("ABC").decode_with(&mut lower_owned).unwrap(), "abc");
}

// The trait takes the cipher by mutable access, so a stateful cipher may
// advance internal state between calls.
#[test]
fn stateful_encoder_advances_between_calls() {
    let mut calls = 0u32;
    let mut counting = |s: &str| -> CO2Result<String> {
        calls += 1;
        Ok(format!("{}#{}", s, calls))
    };
    assert_eq!("a".encode_with(&mut counting).unwrap(), "a#1");
    assert_eq!("a".encode_with(&mut counting).unwrap(), "a#2");
}
