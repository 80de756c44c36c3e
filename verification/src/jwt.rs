//! Bearer tokens of HTTP requests: finding the token in a request, and the
//! checks around the validation of its signature.

use vstd::prelude::*;
use vstd::string::*;
use base64::Engine;
use crate::text::{chars_of, starts_with, str_equal};

verus! {

/// What the line of a request that carries a bearer token begins with.
pub open spec fn bearer_prefix() -> Seq<char> {
    "Authorization: Bearer "@
}

/// Whether `c` is white space: a character with the Unicode property
/// `White_Space`.
pub open spec fn is_white_space(c: char) -> bool {
    let n = c as u32;
    ||| 0x09 <= n <= 0x0d
    ||| n == 0x20
    ||| n == 0x85
    ||| n == 0xa0
    ||| n == 0x1680
    ||| 0x2000 <= n <= 0x200a
    ||| n == 0x2028
    ||| n == 0x2029
    ||| n == 0x202f
    ||| n == 0x205f
    ||| n == 0x3000
}

/// `s` without the white space at its start.
pub open spec fn trim_start(s: Seq<char>) -> Seq<char>
    decreases s.len(),
{
    if s.len() > 0 && is_white_space(s[0]) {
        trim_start(s.drop_first())
    } else {
        s
    }
}

/// `s` without the white space at its end.
pub open spec fn trim_end(s: Seq<char>) -> Seq<char>
    decreases s.len(),
{
    if s.len() > 0 && is_white_space(s.last()) {
        trim_end(s.drop_last())
    } else {
        s
    }
}

/// `s` without the white space at its start and at its end.
pub open spec fn trim(s: Seq<char>) -> Seq<char> {
    trim_end(trim_start(s))
}

/// `s` without `prefix` at its start, taken off as often as it stands there.
pub open spec fn strip_repeated(s: Seq<char>, prefix: Seq<char>) -> Seq<char>
    decreases s.len(),
{
    if prefix.len() > 0 && starts_with(s, prefix) {
        strip_repeated(s.skip(prefix.len() as int), prefix)
    } else {
        s
    }
}

/// Where the line that begins at `start` ends: at the next line feed, or at
/// the end of the text.
pub open spec fn line_end(s: Seq<char>, start: int) -> int
    decreases s.len() - start,
{
    if start >= s.len() {
        s.len() as int
    } else if start < 0 || s[start] == '\n' {
        start
    } else {
        line_end(s, start + 1)
    }
}

/// The line of `s` from `start` to `end`, where `end` is where it ends: a
/// carriage return before the line feed is no part of the line.
pub open spec fn line_between(s: Seq<char>, start: int, end: int) -> Seq<char> {
    if end < s.len() && start < end && s[end - 1] == '\r' {
        s.subrange(start, end - 1)
    } else {
        s.subrange(start, end)
    }
}

/// The bearer token of the first line, from `start` on, that begins with
/// `Authorization: Bearer `: what follows on that line, without white
/// space around it.
pub open spec fn bearer_token_from(s: Seq<char>, start: int) -> Option<Seq<char>>
    decreases s.len() - start,
{
    if start < 0 || start >= s.len() {
        None
    } else {
        let end = line_end(s, start);
        let line = line_between(s, start, end);
        if starts_with(line, bearer_prefix()) {
            Some(trim(strip_repeated(line, bearer_prefix())))
        } else if end < start || end >= s.len() {
            None
        } else {
            bearer_token_from(s, end + 1)
        }
    }
}

/// The bearer token of a request: that of its first line that begins with
/// `Authorization: Bearer `. Lines end with a line feed or with a carriage
/// return and a line feed.
pub open spec fn bearer_token(request: Seq<char>) -> Option<Seq<char>> {
    bearer_token_from(request, 0)
}

/// The end of a line lies between its start and the end of the text, and no
/// line feed stands before it.
proof fn lemma_line_end(s: Seq<char>, start: int)
    requires
        0 <= start <= s.len(),
    ensures
        start <= line_end(s, start) <= s.len(),
        line_end(s, start) < s.len() ==> s[line_end(s, start)] == '\n',
        forall|k: int| start <= k < line_end(s, start) ==> s[k] != '\n',
    decreases s.len() - start,
{
    if start < s.len() && s[start] != '\n' {
        lemma_line_end(s, start + 1);
    }
}

/// Whether the part of `s` from `from` to `to` begins with `prefix`.
fn begins_with(s: &Vec<char>, from: usize, to: usize, prefix: &Vec<char>) -> (r: bool)
    requires
        from <= to <= s.len(),
    ensures
        r == starts_with(s@.subrange(from as int, to as int), prefix@),
{
    if prefix.len() > to - from {
        return false;
    }
    let ghost part = s@.subrange(from as int, to as int);
    let mut k: usize = 0;
    while k < prefix.len()
        invariant
            from <= to <= s.len(),
            k <= prefix.len() <= to - from,
            part == s@.subrange(from as int, to as int),
            forall|j: int| 0 <= j < k ==> part[j] == prefix@[j],
        decreases prefix.len() - k,
    {
        if s[from + k] != prefix[k] {
            return false;
        }
        k = k + 1;
    }
    assert(part.subrange(0, prefix.len() as int) =~= prefix@);
    true
}

/// Whether `c` is white space.
fn white_space(c: char) -> (r: bool)
    ensures
        r == is_white_space(c),
{
    let n = c as u32;
    (0x09 <= n && n <= 0x0d) || n == 0x20 || n == 0x85 || n == 0xa0 || n == 0x1680 || (0x2000 <= n
        && n <= 0x200a) || n == 0x2028 || n == 0x2029 || n == 0x202f || n == 0x205f || n == 0x3000
}

/// The bearer token of a request: what follows `Authorization: Bearer ` on
/// the first line that begins with it, without white space around it.
pub fn extract_jwt_from_header(request: &str) -> (r: Option<&str>)
    ensures
        match r {
            Some(token) => bearer_token(request@) == Some(token@),
            None => bearer_token(request@) is None,
        },
{
    let chars = chars_of(request);
    let prefix = chars_of("Authorization: Bearer ");
    let n = chars.len();
    let mut start: usize = 0;
    while start < n
        invariant
            n == chars.len(),
            chars@ == request@,
            prefix@ == bearer_prefix(),
            start <= n,
            bearer_token(request@) == bearer_token_from(chars@, start as int),
        decreases n - start,
    {
        let mut end: usize = start;
        while end < n && chars[end] != '\n'
            invariant
                n == chars.len(),
                start <= end <= n,
                line_end(chars@, start as int) == line_end(chars@, end as int),
            decreases n - end,
        {
            end = end + 1;
        }
        proof {
            lemma_line_end(chars@, start as int);
        }
        let stop = if end < n && start < end && chars[end - 1] == '\r' {
            end - 1
        } else {
            end
        };
        let ghost line = chars@.subrange(start as int, stop as int);
        if begins_with(&chars, start, stop, &prefix) {
            let mut from: usize = start;
            while prefix.len() > 0 && begins_with(&chars, from, stop, &prefix)
                invariant
                    start <= from <= stop <= n,
                    n == chars.len(),
                    strip_repeated(line, prefix@) == strip_repeated(
                        chars@.subrange(from as int, stop as int),
                        prefix@,
                    ),
                decreases stop - from,
            {
                assert(chars@.subrange(from as int, stop as int).skip(prefix.len() as int)
                    =~= chars@.subrange(from + prefix.len(), stop as int));
                from = from + prefix.len();
            }
            let ghost stripped = chars@.subrange(from as int, stop as int);
            while from < stop && white_space(chars[from])
                invariant
                    from <= stop <= n,
                    n == chars.len(),
                    trim_start(stripped) == trim_start(chars@.subrange(from as int, stop as int)),
                decreases stop - from,
            {
                assert(chars@.subrange(from as int, stop as int).drop_first() =~= chars@.subrange(
                    from + 1,
                    stop as int,
                ));
                from = from + 1;
            }
            let ghost left = chars@.subrange(from as int, stop as int);
            let mut to: usize = stop;
            while from < to && white_space(chars[to - 1])
                invariant
                    from <= to <= stop <= n,
                    n == chars.len(),
                    trim_end(left) == trim_end(chars@.subrange(from as int, to as int)),
                decreases to - from,
            {
                assert(chars@.subrange(from as int, to as int).drop_last() =~= chars@.subrange(
                    from as int,
                    to - 1,
                ));
                to = to - 1;
            }
            return Some(request.substring_char(from, to));
        }
        if end >= n {
            return None;
        }
        start = end + 1;
    }
    None
}

/// The claims of a token.
#[derive(Debug)]
pub struct Claims {
    /// The subject.
    pub sub: String,
    /// The issuer.
    pub iss: String,
    /// The audience, if the token names one.
    pub aud: Option<String>,
    /// When the token expires, in seconds since the Unix epoch.
    pub exp: usize,
}

/// A public key in the JSON form of RFC 7517.
#[derive(Debug)]
pub struct Jwk {
    kty: String,
    crv: String,
    x: String,
    y: String,
    usage: Option<String>,
    kid: Option<String>,
}

/// Why a token was not accepted.
#[derive(Debug)]
pub enum ValidationError {
    /// The token has expired.
    TokenExpired,
    /// The token cannot be decoded, or its signature does not verify.
    InvalidSignature,
    /// The key file could not be read; the text says why.
    FileReadError(String),
    /// The key is not an elliptic-curve key on P-256, or is malformed.
    InvalidKeyFormat,
}

/// The audience that a token must name.
pub const EXPECTED_AUDIENCE: &'static str = "web_server";

/// The length of a coordinate of a point on P-256, in bytes.
pub const COORDINATE_LENGTH: usize = 32;

/// The bytes that the URL-safe base64 alphabet without padding stands for
/// in a text, as the `base64` crate decodes them; nothing where the text
/// is not of that form.
pub uninterp spec fn base64url_decoded(text: Seq<char>) -> Option<Seq<u8>>;

/// The SEC1 encoding of the P-256 public key with the affine coordinates
/// `x` and `y`, as the `p256` crate gives it; nothing where a coordinate is
/// not 32 bytes long or the point is not a public key on the curve. Where
/// there is an encoding, it is the uncompressed one: the byte 4, then `x`,
/// then `y`.
pub uninterp spec fn p256_sec1_key(x: Seq<u8>, y: Seq<u8>) -> Option<Seq<u8>>;

/// Decodes a text with `base64`'s `URL_SAFE_NO_PAD` engine. The contract
/// only gives the decoder's answer its name, `base64url_decoded`.
#[verifier::external_body]
fn decode_base64url(text: &str) -> (r: Option<Vec<u8>>)
    ensures
        match r {
            Some(bytes) => base64url_decoded(text@) == Some(bytes@),
            None => base64url_decoded(text@) is None,
        },
{
    base64::engine::general_purpose::URL_SAFE_NO_PAD.decode(text).ok()
}

/// Makes the P-256 public key of two affine coordinates with `p256`:
/// `EncodedPoint::from_affine_coordinates` without compression,
/// `VerifyingKey::from_encoded_point`, then `to_sec1_bytes`. The contract
/// gives the answer its name, `p256_sec1_key`, and says that a key comes
/// out uncompressed: the byte 4, then the two coordinates as they went in.
#[verifier::external_body]
fn sec1_public_key(x: &Vec<u8>, y: &Vec<u8>) -> (r: Option<Vec<u8>>)
    ensures
        match r {
            Some(bytes) => p256_sec1_key(x@, y@) == Some(bytes@) && bytes@ == seq![4u8] + x@ + y@,
            None => p256_sec1_key(x@, y@) is None,
        },
{
    let x: [u8; 32] = x.as_slice().try_into().ok()?;
    let y: [u8; 32] = y.as_slice().try_into().ok()?;
    let point = p256::EncodedPoint::from_affine_coordinates(&x.into(), &y.into(), false);
    let key = p256::ecdsa::VerifyingKey::from_encoded_point(&point).ok()?;
    Some(key.to_sec1_bytes().to_vec())
}

impl Jwk {
    /// The key type, `EC` for an elliptic-curve key.
    pub closed spec fn key_type(&self) -> Seq<char> {
        self.kty@
    }

    /// The curve.
    pub closed spec fn curve(&self) -> Seq<char> {
        self.crv@
    }

    /// The first coordinate, in base64.
    pub closed spec fn x_text(&self) -> Seq<char> {
        self.x@
    }

    /// The second coordinate, in base64.
    pub closed spec fn y_text(&self) -> Seq<char> {
        self.y@
    }

    /// Whether the key is an elliptic-curve key on P-256.
    pub open spec fn supported(&self) -> bool {
        self.key_type() == "EC"@ && self.curve() == "P-256"@
    }

    /// The encoded public key that the coordinates of the key stand for,
    /// if they are 32 bytes each and name a point on the curve.
    pub open spec fn decoding_key_bytes(&self) -> Option<Seq<u8>> {
        match (base64url_decoded(self.x_text()), base64url_decoded(self.y_text())) {
            (Some(x), Some(y)) => if x.len() == 32 && y.len() == 32 {
                p256_sec1_key(x, y)
            } else {
                None
            },
            _ => None,
        }
    }

    /// A key of the given fields.
    pub fn new(
        kty: String,
        crv: String,
        x: String,
        y: String,
        usage: Option<String>,
        kid: Option<String>,
    ) -> (jwk: Jwk)
        ensures
            jwk.key_type() == kty@,
            jwk.curve() == crv@,
            jwk.x_text() == x@,
            jwk.y_text() == y@,
    {
        Jwk { kty, crv, x, y, usage, kid }
    }

    /// The key type.
    pub fn kty(&self) -> (r: &str)
        ensures
            r@ == self.key_type(),
    {
        self.kty.as_str()
    }

    /// The curve.
    pub fn crv(&self) -> (r: &str)
        ensures
            r@ == self.curve(),
    {
        self.crv.as_str()
    }
}

/// The checks of bearer tokens against one public key.
#[derive(Debug)]
pub struct JwtValidator {
    jwk: Jwk,
}

impl JwtValidator {
    /// The key that tokens are checked against.
    pub closed spec fn key(&self) -> Jwk {
        self.jwk
    }

    /// A validator for the given key, which must be an elliptic-curve key
    /// on P-256.
    pub fn new(jwk: Jwk) -> (r: Result<JwtValidator, ValidationError>)
        ensures
            match r {
                Ok(validator) => jwk.supported() && validator.key() == jwk,
                Err(e) => !jwk.supported() && e is InvalidKeyFormat,
            },
    {
        if !str_equal(jwk.kty.as_str(), "EC") || !str_equal(jwk.crv.as_str(), "P-256") {
            return Err(ValidationError::InvalidKeyFormat);
        }
        Ok(JwtValidator { jwk })
    }

    /// The encoded public key to verify signatures with. Both coordinates
    /// must be base64 of 32 bytes and name a point on the curve. The key
    /// is the byte 4, then the first coordinate, then the second.
    pub fn create_decoding_key(&self) -> (r: Result<Vec<u8>, ValidationError>)
        ensures
            match r {
                Ok(bytes) => self.key().decoding_key_bytes() == Some(bytes@) && bytes@ == seq![4u8]
                    + base64url_decoded(self.key().x_text())->0 + base64url_decoded(
                    self.key().y_text(),
                )->0,
                Err(e) => self.key().decoding_key_bytes() is None && e is InvalidKeyFormat,
            },
    {
        let x = match decode_base64url(self.jwk.x.as_str()) {
            Some(bytes) => bytes,
            None => {
                return Err(ValidationError::InvalidKeyFormat);
            },
        };
        let y = match decode_base64url(self.jwk.y.as_str()) {
            Some(bytes) => bytes,
            None => {
                return Err(ValidationError::InvalidKeyFormat);
            },
        };
        if x.len() != COORDINATE_LENGTH || y.len() != COORDINATE_LENGTH {
            return Err(ValidationError::InvalidKeyFormat);
        }
        match sec1_public_key(&x, &y) {
            Some(bytes) => Ok(bytes),
            None => Err(ValidationError::InvalidKeyFormat),
        }
    }

    /// What is made of a token once its signature was checked: the claims,
    /// if the check gave them and they have not expired at `now_secs`. A
    /// token expires in the second that its claims name.
    pub fn accept_claims(decoded: Option<Claims>, now_secs: usize) -> (r: Result<
        Claims,
        ValidationError,
    >)
        ensures
            match r {
                Ok(claims) => decoded == Some(claims) && claims.exp > now_secs,
                Err(e) => match decoded {
                    Some(claims) => claims.exp <= now_secs && e is TokenExpired,
                    None => e is InvalidSignature,
                },
            },
    {
        let claims = match decoded {
            Some(claims) => claims,
            None => {
                return Err(ValidationError::InvalidSignature);
            },
        };
        if claims.exp <= now_secs {
            return Err(ValidationError::TokenExpired);
        }
        Ok(claims)
    }
}

/// How a request was answered.
#[derive(Clone, Copy, Debug, PartialEq, Eq, Structural)]
pub enum Verdict {
    /// The request carried a token that was accepted.
    Accepted,
    /// The request carried no token.
    MissingToken,
    /// The token has expired.
    TokenExpired,
    /// The signature of the token does not verify.
    InvalidSignature,
    /// The token was refused for another reason.
    InvalidToken,
}

/// The verdict on a request: on the token it carried, if any, and on what
/// the validation of that token gave.
pub fn verdict_of(outcome: &Option<Result<Claims, ValidationError>>) -> (r: Verdict)
    ensures
        r == match *outcome {
            None => Verdict::MissingToken,
            Some(Ok(_)) => Verdict::Accepted,
            Some(Err(ValidationError::TokenExpired)) => Verdict::TokenExpired,
            Some(Err(ValidationError::InvalidSignature)) => Verdict::InvalidSignature,
            Some(Err(_)) => Verdict::InvalidToken,
        },
{
    match outcome {
        None => Verdict::MissingToken,
        Some(Ok(_)) => Verdict::Accepted,
        Some(Err(ValidationError::TokenExpired)) => Verdict::TokenExpired,
        Some(Err(ValidationError::InvalidSignature)) => Verdict::InvalidSignature,
        Some(Err(_)) => Verdict::InvalidToken,
    }
}

/// The status code of the answer to a request: 200 for an accepted token,
/// 401 for everything else.
pub fn status_code(verdict: Verdict) -> (code: u16)
    ensures
        code == if verdict == Verdict::Accepted {
            200u16
        } else {
            401u16
        },
{
    match verdict {
        Verdict::Accepted => 200,
        _ => 401,
    }
}

} // verus!
