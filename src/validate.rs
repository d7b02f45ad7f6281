use url::Url;
use vstd::prelude::*;

verus! {

/// Longest destination accepted, in characters.
pub const MAX_URL_LENGTH: usize = 2048;

/// Why a creation request was turned away before allocation.
#[derive(Debug, Clone, Copy, PartialEq, Eq, Structural)]
pub enum ValidationError {
    DestinationTooLong,
    MalformedDestination,
    DisallowedScheme,
    ExpiryInPast,
}

/// What `url::Url::parse` followed by `Url::scheme` gives for a text: `None`
/// when it is not an absolute URL, else its scheme.
pub uninterp spec fn parsed_scheme(s: Seq<char>) -> Option<Seq<char>>;

/// Relies on `url::Url::parse`, which fails on any text that is not an
/// absolute URL, and on `Url::scheme` of the parsed value.
#[verifier::external_body]
fn parse_scheme(s: &str) -> (r: Option<String>)
    ensures
        scheme_view(&r) == parsed_scheme(s@),
{
    match Url::parse(s) {
        Ok(u) => Some(u.scheme().to_string()),
        Err(_) => None,
    }
}

/// The text of an optional scheme.
pub open spec fn scheme_view(s: &Option<String>) -> Option<Seq<char>> {
    match s {
        Some(t) => Some(t@),
        None => None,
    }
}

/// `s` is one of the schemes a route may point to: `http` or `https`.
pub open spec fn is_web_scheme(s: Seq<char>) -> bool {
    s =~= seq!['h', 't', 't', 'p'] || s =~= seq!['h', 't', 't', 'p', 's']
}

/// The verdict on a creation request whose destination has `len` characters
/// and parses to `scheme`, expiring at `expires`, judged at time `now`.
/// Length is checked first, then the parse, then the scheme, then the expiry.
pub open spec fn creation_verdict(len: nat, scheme: Option<Seq<char>>, expires: int, now: int)
    -> Result<(), ValidationError> {
    if len > MAX_URL_LENGTH {
        Err(ValidationError::DestinationTooLong)
    } else if scheme is None {
        Err(ValidationError::MalformedDestination)
    } else if !is_web_scheme(scheme->0) {
        Err(ValidationError::DisallowedScheme)
    } else if expires <= now {
        Err(ValidationError::ExpiryInPast)
    } else {
        Ok(())
    }
}

/// Tells whether `s` is `http` or `https`.
pub fn is_web_scheme_text(s: &str) -> (r: bool)
    ensures
        r == is_web_scheme(s@),
{
    let n = s.unicode_len();
    if n != 4 && n != 5 {
        return false;
    }
    let ok = s.get_char(0) == 'h' && s.get_char(1) == 't' && s.get_char(2) == 't' && s.get_char(3)
        == 'p' && (n == 4 || s.get_char(4) == 's');
    proof {
        if ok {
            if n == 4 {
                assert(s@ =~= seq!['h', 't', 't', 'p']);
            } else {
                assert(s@ =~= seq!['h', 't', 't', 'p', 's']);
            }
        }
    }
    ok
}

/// Judges a creation request once the destination's scheme is known
/// (`scheme` is what parsing the destination gave).
pub fn check_creation(destination: &str, scheme: &Option<String>, expires: i64, now: i64) -> (r:
    Result<(), ValidationError>)
    ensures
        r == creation_verdict(destination@.len(), scheme_view(scheme), expires as int, now as int),
{
    if destination.unicode_len() > MAX_URL_LENGTH {
        return Err(ValidationError::DestinationTooLong);
    }
    match scheme {
        None => Err(ValidationError::MalformedDestination),
        Some(t) => {
            if !is_web_scheme_text(t.as_str()) {
                Err(ValidationError::DisallowedScheme)
            } else if expires <= now {
                Err(ValidationError::ExpiryInPast)
            } else {
                Ok(())
            }
        },
    }
}

/// Judges a creation request: a destination of at most `MAX_URL_LENGTH`
/// characters that is an absolute `http` or `https` URL, and an expiry
/// strictly after `now`.
pub fn validate_creation(destination: &str, expires: i64, now: i64) -> (r: Result<
    (),
    ValidationError,
>)
    ensures
        r == creation_verdict(
            destination@.len(),
            parsed_scheme(destination@),
            expires as int,
            now as int,
        ),
{
    if destination.unicode_len() > MAX_URL_LENGTH {
        return Err(ValidationError::DestinationTooLong);
    }
    let scheme = parse_scheme(destination);
    check_creation(destination, &scheme, expires, now)
}

} // verus!
