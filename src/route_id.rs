use rand::distributions::Alphanumeric;
use rand::Rng;
use vstd::prelude::*;

verus! {

/// Number of characters in a route identifier.
pub const ID_LENGTH: u8 = 6;

/// `c` is an ASCII letter or digit.
pub open spec fn is_alnum(c: char) -> bool {
    ('a' <= c && c <= 'z') || ('A' <= c && c <= 'Z') || ('0' <= c && c <= '9')
}

/// `s` has the shape of a route identifier: `ID_LENGTH` ASCII letters or digits.
pub open spec fn valid_route_id(s: Seq<char>) -> bool {
    &&& s.len() == ID_LENGTH as nat
    &&& forall|i: int| 0 <= i < s.len() ==> #[trigger] is_alnum(s[i])
}

/// Tells whether `c` is an ASCII letter or digit.
pub fn is_ascii_alnum(c: char) -> (r: bool)
    ensures
        r == is_alnum(c),
{
    ('a' <= c && c <= 'z') || ('A' <= c && c <= 'Z') || ('0' <= c && c <= '9')
}

/// Tells whether `route_id` has the shape of a route identifier, so that a
/// malformed path can be turned away before the store is asked.
pub fn is_valid_route_id(route_id: &str) -> (r: bool)
    ensures
        r == valid_route_id(route_id@),
{
    let n = route_id.unicode_len();
    if n != ID_LENGTH as usize {
        return false;
    }
    let mut i: usize = 0;
    while i < n
        invariant
            n == route_id@.len(),
            i <= n,
            forall|j: int| 0 <= j < i ==> #[trigger] is_alnum(route_id@[j]),
        decreases n - i,
    {
        if !is_ascii_alnum(route_id.get_char(i)) {
            return false;
        }
        i += 1;
    }
    true
}

/// Relies on rand 0.8's `Alphanumeric` distribution, sampled through
/// `thread_rng`: each sample is one byte of `[A-Za-z0-9]`, and the sample
/// iterator is endless, so taking `length` of them gives `length` characters.
#[verifier::external_body]
fn generate_alphanumeric_string(length: u8) -> (r: String)
    ensures
        r@.len() == length as nat,
        forall|i: int| 0 <= i < r@.len() ==> #[trigger] is_alnum(r@[i]),
{
    rand::thread_rng().sample_iter(&Alphanumeric).take(length as usize).map(char::from).collect()
}

/// Draws a fresh random route identifier.
pub fn generate_route_id() -> (r: String)
    ensures
        valid_route_id(r@),
{
    generate_alphanumeric_string(ID_LENGTH)
}

} // verus!
