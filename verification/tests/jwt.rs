use base64::Engine;
use spiffe_client::jwt::{
    extract_jwt_from_header, status_code, verdict_of, Claims, Jwk, JwtValidator, ValidationError,
    Verdict, EXPECTED_AUDIENCE,
};

#[test]
fn the_token_is_what_follows_the_bearer_prefix() {
    let request = "GET / HTTP/1.1\r\nHost: example.org\r\nAuthorization: Bearer abc.def.ghi\r\n\r\n";
    assert_eq!(extract_jwt_from_header(request), Some("abc.def.ghi"));
    assert_eq!(extract_jwt_from_header("Authorization: Bearer abc"), Some("abc"));
    assert_eq!(extract_jwt_from_header("Authorization: Bearer abc\n"), Some("abc"));
}

#[test]
fn a_request_without_the_header_has_no_token() {
    assert_eq!(extract_jwt_from_header(""), None);
    assert_eq!(extract_jwt_from_header("GET / HTTP/1.1\r\nHost: example.org\r\n\r\n"), None);
    // The prefix must stand at the start of a line, letter for letter.
    assert_eq!(extract_jwt_from_header(" Authorization: Bearer abc"), None);
    assert_eq!(extract_jwt_from_header("authorization: bearer abc"), None);
    assert_eq!(extract_jwt_from_header("Authorization: Bearer"), None);
    assert_eq!(extract_jwt_from_header("X: y Authorization: Bearer abc"), None);
}

#[test]
fn the_first_matching_line_counts() {
    let request = "Authorization: Basic xyz\nAuthorization: Bearer one\nAuthorization: Bearer two\n";
    assert_eq!(extract_jwt_from_header(request), Some("one"));
}

#[test]
fn white_space_around_the_token_is_dropped() {
    assert_eq!(extract_jwt_from_header("Authorization: Bearer   abc \t\r\nX: y"), Some("abc"));
    assert_eq!(extract_jwt_from_header("Authorization: Bearer \u{a0}abc\u{3000}"), Some("abc"));
    assert_eq!(extract_jwt_from_header("Authorization: Bearer a b"), Some("a b"));
    assert_eq!(extract_jwt_from_header("Authorization: Bearer "), Some(""));
    assert_eq!(extract_jwt_from_header("Authorization: Bearer \r\n"), Some(""));
    // A carriage return at the very end, with no line feed after it, is
    // part of the line, and white space.
    assert_eq!(extract_jwt_from_header("Authorization: Bearer abc\r"), Some("abc"));
}

#[test]
fn a_repeated_prefix_is_taken_off_each_time() {
    assert_eq!(
        extract_jwt_from_header("Authorization: Bearer Authorization: Bearer abc"),
        Some("abc")
    );
}

#[test]
fn it_agrees_with_the_standard_library() {
    let requests = [
        "Authorization: Bearer tok\r",
        "a\rb\nAuthorization: Bearer x\ry\n",
        "\n\nAuthorization: Bearer  é.ü \n",
        "Authorization: Bearer \nAuthorization: Bearer z",
        "Authorization: Bearer Authorization: Bearer ",
    ];
    for request in requests {
        let mut expected = None;
        for line in request.lines() {
            if line.starts_with("Authorization: Bearer ") {
                expected = Some(line.trim_start_matches("Authorization: Bearer ").trim());
                break;
            }
        }
        assert_eq!(extract_jwt_from_header(request), expected);
    }
}

fn jwk(kty: &str, crv: &str, x: &str, y: &str) -> Jwk {
    Jwk::new(kty.to_string(), crv.to_string(), x.to_string(), y.to_string(), None, None)
}

const X: &str = "f83OJ3D2xF1Bg8vub9tLe1gHMzV76e8Tus9uPHvRVEU";
const Y: &str = "x_FEzRu9m36HLN_tue659LNpXW6pCyStikYjKIWI5a0";

#[test]
fn only_p256_keys_are_taken() {
    assert!(JwtValidator::new(jwk("EC", "P-256", X, Y)).is_ok());
    assert!(matches!(
        JwtValidator::new(jwk("RSA", "P-256", X, Y)),
        Err(ValidationError::InvalidKeyFormat)
    ));
    assert!(matches!(
        JwtValidator::new(jwk("EC", "P-384", X, Y)),
        Err(ValidationError::InvalidKeyFormat)
    ));
    assert_eq!(jwk("EC", "P-256", X, Y).kty(), "EC");
    assert_eq!(jwk("EC", "P-256", X, Y).crv(), "P-256");
    assert_eq!(EXPECTED_AUDIENCE, "web_server");
}

#[test]
fn the_decoding_key_is_the_point_of_the_coordinates() {
    let validator = JwtValidator::new(jwk("EC", "P-256", X, Y)).unwrap();
    let key = validator.create_decoding_key().unwrap();
    assert_eq!(key.len(), 65);
    assert_eq!(key[0], 4);
    assert_eq!(&key[1..5], &[0x7f, 0xcd, 0xce, 0x27]);
    assert_eq!(&key[33..37], &[0xc7, 0xf1, 0x44, 0xcd]);

    // The byte 4, then the two coordinates as the key file gives them.
    let engine = base64::engine::general_purpose::URL_SAFE_NO_PAD;
    let mut expected = vec![4u8];
    expected.extend(engine.decode(X).unwrap());
    expected.extend(engine.decode(Y).unwrap());
    assert_eq!(key, expected);
}

#[test]
fn malformed_coordinates_are_refused() {
    let cases = [
        jwk("EC", "P-256", "not base64!", Y),
        jwk("EC", "P-256", X, "AAAA"),
        jwk("EC", "P-256", "", Y),
        // 32 bytes each, but no point of the curve.
        jwk(
            "EC",
            "P-256",
            "AAAAAAAAAAAAAAAAAAAAAAAAAAAAAAAAAAAAAAAAAAE",
            "AAAAAAAAAAAAAAAAAAAAAAAAAAAAAAAAAAAAAAAAAAE",
        ),
        // Padding is not accepted.
        jwk("EC", "P-256", "f83OJ3D2xF1Bg8vub9tLe1gHMzV76e8Tus9uPHvRVEU=", Y),
    ];
    for key in cases {
        let validator = JwtValidator::new(key).unwrap();
        assert!(matches!(
            validator.create_decoding_key(),
            Err(ValidationError::InvalidKeyFormat)
        ));
    }
}

fn claims(exp: usize) -> Claims {
    Claims { sub: "client".to_string(), iss: "issuer".to_string(), aud: None, exp }
}

#[test]
fn claims_expire_in_the_second_they_name() {
    assert_eq!(JwtValidator::accept_claims(Some(claims(101)), 100).unwrap().exp, 101);
    assert!(matches!(
        JwtValidator::accept_claims(Some(claims(100)), 100),
        Err(ValidationError::TokenExpired)
    ));
    assert!(matches!(
        JwtValidator::accept_claims(Some(claims(99)), 100),
        Err(ValidationError::TokenExpired)
    ));
    assert!(matches!(JwtValidator::accept_claims(None, 100), Err(ValidationError::InvalidSignature)));
}

#[test]
fn every_refusal_is_answered_with_401() {
    assert_eq!(verdict_of(&None), Verdict::MissingToken);
    assert_eq!(verdict_of(&Some(Ok(claims(1)))), Verdict::Accepted);
    assert_eq!(verdict_of(&Some(Err(ValidationError::TokenExpired))), Verdict::TokenExpired);
    assert_eq!(verdict_of(&Some(Err(ValidationError::InvalidSignature))), Verdict::InvalidSignature);
    assert_eq!(verdict_of(&Some(Err(ValidationError::InvalidKeyFormat))), Verdict::InvalidToken);
    assert_eq!(
        verdict_of(&Some(Err(ValidationError::FileReadError("gone".to_string())))),
        Verdict::InvalidToken
    );
    assert_eq!(status_code(Verdict::Accepted), 200);
    for verdict in [
        Verdict::MissingToken,
        Verdict::TokenExpired,
        Verdict::InvalidSignature,
        Verdict::InvalidToken,
    ] {
        assert_eq!(status_code(verdict), 401);
    }
}

fn by_the_standard_library(request: &str) -> Option<&str> {
    for line in request.lines() {
        if line.starts_with("Authorization: Bearer ") {
            return Some(line.trim_start_matches("Authorization: Bearer ").trim());
        }
    }
    None
}

#[test]
fn white_space_is_what_the_standard_library_trims() {
    // Every character once before and once after the token, and once
    // between two lines.
    for code in 0..=0x10ffffu32 {
        let c = match char::from_u32(code) {
            Some(c) => c,
            None => continue,
        };
        let around = format!("Authorization: Bearer {}x{}", c, c);
        assert_eq!(extract_jwt_from_header(&around), by_the_standard_library(&around));
        let between = format!("a{}Authorization: Bearer y", c);
        assert_eq!(extract_jwt_from_header(&between), by_the_standard_library(&between));
    }
}
