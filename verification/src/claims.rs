//! The boundary to the manifest verifier: what an artifact carries, and what
//! the verifier says of a token now.

use vstd::prelude::*;
use crate::manifest::Manifest;
use crate::manifest::ManifestView;
use crate::text::count_dots;
use crate::text::dot_count;
use crate::text::last_dot;
use crate::text::lemma_last_dot;
use crate::text::lemma_last_dot_unique;
use crate::text::lemma_dots_have_a_last;

verus! {

/// What the inspection of an artifact gave.
pub enum VerificationOutcome {
    /// The artifact carries this manifest, signed as this token.
    ValidManifest(Manifest, String),
    /// The artifact carries no manifest.
    NoManifestPresent,
    /// The embedded manifest could not be read, for the reason given.
    ExtractionFailed(String),
}

/// What the inspection of an artifact gave, as mathematical values.
pub enum VerificationView {
    ValidManifest(ManifestView, Seq<char>),
    NoManifestPresent,
    ExtractionFailed(Seq<char>),
}

impl View for VerificationOutcome {
    type V = VerificationView;

    open spec fn view(&self) -> VerificationView {
        match self {
            VerificationOutcome::ValidManifest(manifest, token) => VerificationView::ValidManifest(
                manifest@,
                token@,
            ),
            VerificationOutcome::NoManifestPresent => VerificationView::NoManifestPresent,
            VerificationOutcome::ExtractionFailed(reason) => VerificationView::ExtractionFailed(
                reason@,
            ),
        }
    }
}

/// What the verifier's extraction gives for the bytes of an artifact: the
/// embedded manifest with its token, nothing, or the text of its error.
pub uninterp spec fn embedded_claims(artifact: Seq<u8>) -> Result<
    Option<(ManifestView, Seq<char>)>,
    Seq<char>,
>;

/// The claims that the verifier decodes from a token; `None` where it
/// decodes none.
pub uninterp spec fn decoded_claims(jwt: Seq<char>) -> Option<ManifestView>;

/// What the verifier finds in a token whatever the time: whether its
/// signature is that of its issuer, or the message with which it refuses
/// the token.
pub uninterp spec fn token_verdict(jwt: Seq<char>) -> Result<bool, Seq<char>>;

/// The view of what an extraction returned.
pub open spec fn extraction_view(res: Result<Option<(Manifest, String)>, String>) -> Result<
    Option<(ManifestView, Seq<char>)>,
    Seq<char>,
> {
    match res {
        Ok(Some((manifest, jwt))) => Ok(Some((manifest@, jwt@))),
        Ok(None) => Ok(None),
        Err(reason) => Err(reason@),
    }
}

/// The view of an optional manifest.
pub open spec fn opt_manifest_view(m: Option<Manifest>) -> Option<ManifestView> {
    match m {
        Some(manifest) => Some(manifest@),
        None => None,
    }
}

/// The outcome that stands for what an extraction returned.
pub open spec fn outcome_of(
    extraction: Result<Option<(ManifestView, Seq<char>)>, Seq<char>>,
) -> VerificationView {
    match extraction {
        Ok(Some((manifest, jwt))) => VerificationView::ValidManifest(manifest, jwt),
        Ok(None) => VerificationView::NoManifestPresent,
        Err(reason) => VerificationView::ExtractionFailed(reason),
    }
}

/// Calls `wascap::wasm::extract_claims` and moves the fields of its token
/// into a manifest. The contract only names what the extraction gives for
/// these bytes: it reads nothing but the bytes.
#[verifier::external_body]
fn extract_claims(artifact: &[u8]) -> (res: Result<Option<(Manifest, String)>, String>)
    ensures
        extraction_view(res) == embedded_claims(artifact@),
{
    match wascap::wasm::extract_claims(artifact) {
        Ok(Some(t)) => {
            let c = t.claims;
            let (capabilities, tags) = match c.metadata {
                Some(m) => (m.caps, m.tags),
                None => (None, None),
            };
            let (issuer, subject, not_before, expires) = (c.issuer, c.subject, c.not_before, c.expires);
            Ok(Some((Manifest { issuer, subject, not_before, expires, capabilities, tags }, t.jwt)))
        },
        Ok(None) => Ok(None),
        Err(e) => Err(format!("{}", e)),
    }
}

/// Calls `wascap::jwt::Claims::<Actor>::decode` and moves the fields of the
/// claims into a manifest. The contract only names what the decoding gives
/// for this token: it reads nothing but the token.
#[verifier::external_body]
fn decode_claims(jwt: &str) -> (res: Option<Manifest>)
    ensures
        opt_manifest_view(res) == decoded_claims(jwt@),
{
    match wascap::jwt::Claims::<wascap::jwt::Actor>::decode(jwt) {
        Ok(c) => {
            let (capabilities, tags) = match c.metadata {
                Some(m) => (m.caps, m.tags),
                None => (None, None),
            };
            let (issuer, subject, not_before, expires) = (c.issuer, c.subject, c.not_before, c.expires);
            Some(Manifest { issuer, subject, not_before, expires, capabilities, tags })
        },
        Err(_) => None,
    }
}

/// Turns what an extraction returned into the outcome of the inspection.
pub fn outcome_of_extraction(res: Result<Option<(Manifest, String)>, String>) -> (out:
    VerificationOutcome)
    ensures
        out@ == outcome_of(extraction_view(res)),
{
    match res {
        Ok(Some((manifest, jwt))) => VerificationOutcome::ValidManifest(manifest, jwt),
        Ok(None) => VerificationOutcome::NoManifestPresent,
        Err(reason) => VerificationOutcome::ExtractionFailed(reason),
    }
}

/// Inspects the bytes of an artifact for an embedded signed manifest.
pub fn inspect_artifact(artifact: &[u8]) -> (out: VerificationOutcome)
    ensures
        out@ == outcome_of(embedded_claims(artifact@)),
{
    outcome_of_extraction(extract_claims(artifact))
}

/// What the verifier says of a token at the moment it is asked.
pub struct TokenValidity {
    /// The token is expired.
    pub expired: bool,
    /// The token is not usable yet.
    pub cannot_use_yet: bool,
    /// When the token expires, in words.
    pub expires_human: String,
    /// When the token becomes usable, in words.
    pub not_before_human: String,
    /// The signature of the token is that of its issuer.
    pub signature_valid: bool,
}

/// Whether a manifest may be used now.
pub enum TemporalStatus {
    /// The manifest is usable.
    Usable,
    /// The manifest is not usable before the instant given.
    NotYetUsable(String),
    /// The manifest expired at the instant given.
    Expired(String),
}

impl TokenValidity {
    /// The temporal status that the verifier's answer means, with the
    /// instant that the verifier reported. A token that is not usable yet
    /// is reported so, whether or not it is also expired.
    pub open spec fn spec_temporal_status(self) -> TemporalStatus {
        if self.cannot_use_yet {
            TemporalStatus::NotYetUsable(self.not_before_human)
        } else if self.expired {
            TemporalStatus::Expired(self.expires_human)
        } else {
            TemporalStatus::Usable
        }
    }

    /// The temporal status that the verifier's answer means, with the
    /// instant that the verifier reported.
    pub fn temporal_status(self) -> (status: TemporalStatus)
        ensures
            status == self.spec_temporal_status(),
    {
        if self.cannot_use_yet {
            TemporalStatus::NotYetUsable(self.not_before_human)
        } else if self.expired {
            TemporalStatus::Expired(self.expires_human)
        } else {
            TemporalStatus::Usable
        }
    }
}

/// The last instant, in seconds since the epoch, that a token may name: the
/// last second of the year 262142, which is the last year of the calendar
/// that the verifier converts instants to.
pub const MAX_INSTANT: u64 = 8_210_266_876_799;

/// The length of the signature segment of a token: 64 bytes in base64
/// without padding.
pub const SIGNATURE_CHARS: usize = 86;

/// The least length of an issuer key that holds a prefix and a checksum.
pub const MIN_ISSUER_CHARS: usize = 7;

/// A fault of a token that is found without asking the verifier.
#[derive(Clone, Copy, Debug, PartialEq, Eq, Structural)]
pub enum TokenDefect {
    /// The token is not made of three segments of ASCII separated by dots.
    Malformed,
    /// The last segment is no signature of 64 bytes in URL-safe base64.
    MalformedSignature,
    /// The claims of the token cannot be decoded.
    UndecodableClaims,
    /// The issuer is too short to be a key.
    UnusableIssuer,
    /// The token names an instant after the last year of the calendar.
    InstantOutOfRange,
}

/// Why a token was not validated.
pub enum ValidationError {
    /// The token has a fault; the verifier was not asked.
    Defective(TokenDefect),
    /// The verifier refused the token, with this message.
    Rejected(String),
}

impl TokenDefect {
    /// The text of the fault.
    pub open spec fn spec_message(self) -> Seq<char> {
        match self {
            TokenDefect::Malformed => "token is not made of three segments"@,
            TokenDefect::MalformedSignature => "token carries no well-formed signature"@,
            TokenDefect::UndecodableClaims => "token claims cannot be decoded"@,
            TokenDefect::UnusableIssuer => "token issuer is too short to be a key"@,
            TokenDefect::InstantOutOfRange => "token names an instant out of range"@,
        }
    }

    /// The text of the fault.
    pub fn message(&self) -> (text: String)
        ensures
            text@ == self.spec_message(),
    {
        match self {
            TokenDefect::Malformed => "token is not made of three segments".to_owned(),
            TokenDefect::MalformedSignature => "token carries no well-formed signature".to_owned(),
            TokenDefect::UndecodableClaims => "token claims cannot be decoded".to_owned(),
            TokenDefect::UnusableIssuer => "token issuer is too short to be a key".to_owned(),
            TokenDefect::InstantOutOfRange => "token names an instant out of range".to_owned(),
        }
    }
}

impl ValidationError {
    /// The text of the error: that of the fault, or the verifier's message.
    pub open spec fn spec_message(self) -> Seq<char> {
        match self {
            ValidationError::Defective(defect) => defect.spec_message(),
            ValidationError::Rejected(message) => message@,
        }
    }

    /// The text of the error.
    pub fn message(&self) -> (text: String)
        ensures
            text@ == self.spec_message(),
    {
        match self {
            ValidationError::Defective(defect) => defect.message(),
            ValidationError::Rejected(message) => message.clone(),
        }
    }
}

/// Whether `c` belongs to the URL-safe base64 alphabet.
pub open spec fn is_base64url(c: char) -> bool {
    ||| 'A' <= c <= 'Z'
    ||| 'a' <= c <= 'z'
    ||| '0' <= c <= '9'
    ||| c == '-'
    ||| c == '_'
}

/// Whether what follows the last dot of `jwt` is a signature: 86 characters
/// of the URL-safe base64 alphabet, the last but one among the first eight
/// of the alphabet, so that the three highest bits of the last of its 64
/// bytes are clear.
pub open spec fn signature_well_formed(jwt: Seq<char>) -> bool {
    let start = last_dot(jwt) + 1;
    &&& jwt.len() - start == SIGNATURE_CHARS
    &&& forall|i: int| start <= i < jwt.len() ==> is_base64url(#[trigger] jwt[i])
    &&& 'A' <= jwt[start + 84] <= 'H'
}

/// Whether an instant of a token lies within the range that is accepted.
pub open spec fn instant_in_range(instant: Option<u64>) -> bool {
    match instant {
        Some(t) => t <= MAX_INSTANT,
        None => true,
    }
}

/// The fault of a token, if it has one: the first that is found in the
/// order of the variants.
pub open spec fn defect_of(jwt: Seq<char>) -> Option<TokenDefect> {
    if !vstd::utf8::is_ascii_chars(jwt) || dot_count(jwt) != 2 {
        Some(TokenDefect::Malformed)
    } else if !signature_well_formed(jwt) {
        Some(TokenDefect::MalformedSignature)
    } else {
        match decoded_claims(jwt) {
            None => Some(TokenDefect::UndecodableClaims),
            Some(claims) => if claims.issuer.len() < MIN_ISSUER_CHARS {
                Some(TokenDefect::UnusableIssuer)
            } else if !instant_in_range(claims.not_before) || !instant_in_range(claims.expires) {
                Some(TokenDefect::InstantOutOfRange)
            } else {
                None
            },
        }
    }
}

/// Calls `wascap::jwt::validate_token` for an actor's claims and moves the
/// fields of its answer. Whether the token is expired or not usable yet
/// depends on the clock; the contract states of these only what holds at
/// every time: a token that names no expiry is not expired and expires
/// "never", and one that names no first instant is usable "immediately".
/// Whether the call fails, with what message, and whether the signature
/// holds depend on the token alone, and the contract names them. The call is
/// made only on a token without a fault: the outside code indexes three
/// segments, copies the decoded signature into 64 bytes and rejects one with
/// a high bit set, reads a checksum from the decoded issuer, and converts the
/// instants to calendar dates, and it panics where one of these does not
/// fit. It also panics where the system clock stands before the epoch.
#[verifier::external_body]
fn validate_token(jwt: &str) -> (res: Result<TokenValidity, String>)
    requires
        defect_of(jwt@) is None,
    ensures
        match res {
            Ok(validity) => {
                &&& token_verdict(jwt@) == Ok::<bool, Seq<char>>(validity.signature_valid)
                &&& decoded_claims(jwt@) matches Some(claims)
                &&& claims.expires is None ==> !validity.expired && validity.expires_human@
                    == "never"@
                &&& claims.not_before is None ==> !validity.cannot_use_yet
                    && validity.not_before_human@ == "immediately"@
            },
            Err(message) => token_verdict(jwt@) == Err::<bool, Seq<char>>(message@),
        },
{
    match wascap::jwt::validate_token::<wascap::jwt::Actor>(jwt) {
        Ok(v) => Ok(
            TokenValidity {
                expired: v.expired,
                cannot_use_yet: v.cannot_use_yet,
                expires_human: v.expires_human,
                not_before_human: v.not_before_human,
                signature_valid: v.signature_valid,
            },
        ),
        Err(e) => Err(format!("{}", e)),
    }
}

/// How the verifier's answer on a token stands to what it finds in the
/// token whatever the time.
pub open spec fn verdict_matches(jwt: Seq<char>, res: Result<TokenValidity, String>) -> bool {
    match res {
        Ok(validity) => {
            &&& token_verdict(jwt) == Ok::<bool, Seq<char>>(validity.signature_valid)
            &&& decoded_claims(jwt) matches Some(claims)
            &&& claims.expires is None ==> !validity.expired && validity.expires_human@
                == "never"@
            &&& claims.not_before is None ==> !validity.cannot_use_yet
                && validity.not_before_human@ == "immediately"@
        },
        Err(message) => token_verdict(jwt) == Err::<bool, Seq<char>>(message@),
    }
}

/// Tests whether what follows the last dot of an ASCII token is a
/// well-formed signature.
fn has_well_formed_signature(jwt: &str) -> (b: bool)
    requires
        jwt.is_ascii(),
        dot_count(jwt@) > 0,
    ensures
        b == signature_well_formed(jwt@),
{
    let n: usize = jwt.unicode_len();
    proof {
        lemma_last_dot(jwt@);
        lemma_dots_have_a_last(jwt@);
    }
    if n < SIGNATURE_CHARS + 1 {
        return false;
    }
    let start: usize = n - SIGNATURE_CHARS;
    if jwt.get_ascii(start - 1) != 46u8 {
        return false;
    }
    let mut i: usize = start;
    while i < n
        invariant
            jwt.is_ascii(),
            n == jwt@.len(),
            start == n - SIGNATURE_CHARS,
            start <= i <= n,
            forall|j: int| start <= j < i ==> is_base64url(#[trigger] jwt@[j]),
        decreases n - i,
    {
        let b: u8 = jwt.get_ascii(i);
        let in_alphabet = (65u8 <= b && b <= 90u8) || (97u8 <= b && b <= 122u8) || (48u8 <= b && b
            <= 57u8) || b == 45u8 || b == 95u8;
        assert(in_alphabet == is_base64url(jwt@[i as int]));
        if !in_alphabet {
            proof {
                if signature_well_formed(jwt@) {
                    assert(is_base64url(jwt@[i as int]));
                }
            }
            return false;
        }
        i = i + 1;
    }
    proof {
        assert forall|j: int| start - 1 < j < jwt@.len() implies jwt@[j] != '.' by {
            assert(is_base64url(jwt@[j]));
        }
        lemma_last_dot_unique(jwt@, start - 1);
    }
    let mark: u8 = jwt.get_ascii(start + 84);
    65u8 <= mark && mark <= 72u8
}

/// Asks the verifier whether a token is valid now. A token with a fault is
/// refused with that fault and the verifier is not asked; of any other, the
/// verifier's answer or its refusal is handed back.
pub fn check_token(jwt: &str) -> (res: Result<TokenValidity, ValidationError>)
    ensures
        match res {
            Ok(validity) => defect_of(jwt@) is None && verdict_matches(
                jwt@,
                Ok::<TokenValidity, String>(validity),
            ),
            Err(ValidationError::Defective(defect)) => defect_of(jwt@) == Some(defect),
            Err(ValidationError::Rejected(message)) => defect_of(jwt@) is None && verdict_matches(
                jwt@,
                Err::<TokenValidity, String>(message),
            ),
        },
{
    if !jwt.is_ascii() {
        return Err(ValidationError::Defective(TokenDefect::Malformed));
    }
    if count_dots(jwt) != 2 {
        return Err(ValidationError::Defective(TokenDefect::Malformed));
    }
    if !has_well_formed_signature(jwt) {
        return Err(ValidationError::Defective(TokenDefect::MalformedSignature));
    }
    let claims = match decode_claims(jwt) {
        None => {
            return Err(ValidationError::Defective(TokenDefect::UndecodableClaims));
        },
        Some(claims) => claims,
    };
    if claims.issuer().as_str().unicode_len() < MIN_ISSUER_CHARS {
        return Err(ValidationError::Defective(TokenDefect::UnusableIssuer));
    }
    if !within_range(claims.not_before()) || !within_range(claims.expires()) {
        return Err(ValidationError::Defective(TokenDefect::InstantOutOfRange));
    }
    match validate_token(jwt) {
        Ok(validity) => Ok(validity),
        Err(message) => Err(ValidationError::Rejected(message)),
    }
}

/// Tests whether an instant of a token lies within the accepted range.
pub fn within_range(instant: Option<u64>) -> (b: bool)
    ensures
        b == instant_in_range(instant),
{
    match instant {
        Some(t) => t <= MAX_INSTANT,
        None => true,
    }
}

} // verus!
