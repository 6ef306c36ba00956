//! Relay addresses: the abbreviation alphabet, destination syntax, and the
//! interpretation of the relay's answer to an abbreviation query.
use vstd::prelude::*;

use crate::error::WalletError;

verus! {

/// The characters of an abbreviated address: digits and lower-case letters
/// without `1`, `b`, `i` and `o`.
pub open spec fn in_address_alphabet(c: char) -> bool {
    c == '0' || ('2' <= c && c <= '9') || c == 'a' || ('c' <= c && c <= 'h') || ('j' <= c
        && c <= 'n') || ('p' <= c && c <= 'z')
}

/// An abbreviated address: exactly six characters of the address alphabet.
pub open spec fn is_abbreviation(s: Seq<char>) -> bool {
    s.len() == 6 && forall|i: int| 0 <= i < s.len() ==> in_address_alphabet(#[trigger] s[i])
}

/// Six consecutive characters of the address alphabet start at position `i`.
pub open spec fn six_code_at(s: Seq<char>, i: int) -> bool {
    0 <= i && i + 6 <= s.len() && forall|j: int|
        0 <= j < 6 ==> in_address_alphabet(#[trigger] s[i + j])
}

/// Somewhere in `s` stand six consecutive characters of the address alphabet.
pub open spec fn contains_six_code(s: Seq<char>) -> bool {
    exists|i: int| six_code_at(s, i)
}

/// Relies on `regex::Regex::captures` for the unanchored pattern
/// `[02-9ac-hj-np-z]{6}`: it finds a match exactly when some six consecutive
/// characters of the text lie in that class.
#[verifier::external_body]
fn find_six_code(s: &str) -> (r: bool)
    ensures
        r == contains_six_code(s@),
{
    regex::Regex::new(r"[02-9ac-hj-np-z]{6}").unwrap().captures(s).is_some()
}

/// Whether `s` is a well-formed abbreviated address.
pub fn is_valid_abbreviation(s: &str) -> (r: bool)
    ensures
        r == is_abbreviation(s@),
{
    let n = s.unicode_len();
    if n != 6 {
        return false;
    }
    let found = find_six_code(s);
    proof {
        if found {
            let i = choose|i: int| six_code_at(s@, i);
            assert(i == 0);
            assert forall|k: int| 0 <= k < s@.len() implies in_address_alphabet(#[trigger] s@[k]) by {
                assert(s@[i + k] == s@[k]);
            }
        } else {
            if is_abbreviation(s@) {
                assert forall|j: int| 0 <= j < 6 implies in_address_alphabet(#[trigger] s@[0 + j]) by {
                    assert(s@[0 + j] == s@[j]);
                }
                assert(six_code_at(s@, 0));
            }
        }
    }
    found
}

/// `p` is a prefix of `s`.
pub open spec fn has_prefix(s: Seq<char>, p: Seq<char>) -> bool {
    p.len() <= s.len() && s.subrange(0, p.len() as int) == p
}

/// Whether `p` is a prefix of `s`.
pub fn starts_with(s: &str, p: &str) -> (r: bool)
    ensures
        r == has_prefix(s@, p@),
{
    let n = s.unicode_len();
    let m = p.unicode_len();
    if m > n {
        return false;
    }
    let mut i: usize = 0;
    while i < m
        invariant
            m == p@.len(),
            n == s@.len(),
            m <= n,
            i <= m,
            forall|k: int| 0 <= k < i ==> s@[k] == p@[k],
        decreases m - i,
    {
        if s.get_char(i) != p.get_char(i) {
            assert(s@.subrange(0, m as int)[i as int] != p@[i as int]);
            return false;
        }
        i = i + 1;
    }
    assert(s@.subrange(0, m as int) =~= p@);
    true
}

/// The scheme prefix of a plain HTTP peer.
pub open spec fn http_prefix() -> Seq<char> {
    seq!['h', 't', 't', 'p', ':', '/', '/']
}

/// The scheme prefix of a TLS HTTP peer.
pub open spec fn https_prefix() -> Seq<char> {
    seq!['h', 't', 't', 'p', 's', ':', '/', '/']
}

/// A destination that names an HTTP peer.
pub open spec fn is_http_destination(s: Seq<char>) -> bool {
    has_prefix(s, http_prefix()) || has_prefix(s, https_prefix())
}

/// Whether `s` names an HTTP peer.
pub fn is_http_url(s: &str) -> (r: bool)
    ensures
        r == is_http_destination(s@),
{
    proof {
        reveal_strlit("http://");
        reveal_strlit("https://");
    }
    let plain = starts_with(s, "http://");
    assert("http://"@ =~= http_prefix());
    let tls = starts_with(s, "https://");
    assert("https://"@ =~= https_prefix());
    plain || tls
}

/// Where a transaction goes, parsed once from the destination text.
#[derive(Debug, Clone, PartialEq, Eq)]
pub enum Destination {
    /// A peer wallet listening on this URL.
    Http(String),
    /// A six-character abbreviation still to be resolved through the relay.
    Abbreviated(String),
    /// A full relay address.
    Relay(String),
}

/// The destination text with its variant.
pub open spec fn destination_matches(d: Destination, s: Seq<char>) -> bool {
    match d {
        Destination::Http(u) => u@ == s && is_http_destination(s),
        Destination::Abbreviated(a) => a@ == s && !is_http_destination(s) && s.len() == 6,
        Destination::Relay(a) => a@ == s && !is_http_destination(s) && s.len() != 6,
    }
}

impl Destination {
    /// Chooses the transport for a destination: a URL with an `http://` or
    /// `https://` scheme goes to a peer directly, anything else through the
    /// relay, where six characters are an abbreviation to resolve first.
    pub fn parse(s: &str) -> (d: Destination)
        ensures
            destination_matches(d, s@),
    {
        let owned = s.to_owned();
        if is_http_url(s) {
            Destination::Http(owned)
        } else if s.unicode_len() == 6 {
            Destination::Abbreviated(owned)
        } else {
            Destination::Relay(owned)
        }
    }

    /// An abbreviation replaced by the full address it resolved to; other
    /// destinations are kept.
    pub fn resolved(self, full: String) -> (d: Destination)
        ensures
            self is Abbreviated ==> d == Destination::Relay(full),
            !(self is Abbreviated) ==> d == self,
    {
        match self {
            Destination::Abbreviated(_) => Destination::Relay(full),
            other => other,
        }
    }

    /// Whether a send to this destination yields a transaction proof: only
    /// the relay transport binds the two addresses into one.
    pub fn yields_tx_proof(&self) -> (r: bool)
        ensures
            r == !(*self is Http),
    {
        match self {
            Destination::Http(_) => false,
            _ => true,
        }
    }
}

/// What an abbreviation query resolves to, given the full addresses that
/// claim the abbreviation.
pub open spec fn resolution_of(claimants: Seq<Seq<char>>) -> Result<Seq<char>, WalletError> {
    if claimants.len() == 0 {
        Err(WalletError::AddressNotFound)
    } else if claimants.len() == 1 {
        Ok(claimants[0])
    } else {
        Err(WalletError::AddressConflict)
    }
}

/// An abbreviation resolves to its claimant when exactly one wallet claims
/// it, fails with `AddressNotFound` when none does, and with
/// `AddressConflict` when two or more do.
pub proof fn lemma_resolution_by_claimants(claimants: Seq<Seq<char>>)
    ensures
        claimants.len() == 1 ==> resolution_of(claimants) == Ok::<Seq<char>, WalletError>(
            claimants[0],
        ),
        claimants.len() == 0 ==> resolution_of(claimants) == Err::<Seq<char>, WalletError>(
            WalletError::AddressNotFound,
        ),
        claimants.len() >= 2 ==> resolution_of(claimants) == Err::<Seq<char>, WalletError>(
            WalletError::AddressConflict,
        ),
{
}

/// A result whose success value is a string, seen through its view.
pub open spec fn string_result_view(r: Result<String, WalletError>) -> Result<Seq<char>, WalletError> {
    match r {
        Ok(s) => Ok(s@),
        Err(e) => Err(e),
    }
}

/// Interprets the full addresses that claim an abbreviation: the single
/// claimant, or `AddressNotFound` for none and `AddressConflict` for several.
pub fn resolve_claimants(claimants: &Vec<String>) -> (r: Result<String, WalletError>)
    ensures
        string_result_view(r) == resolution_of(claimants.deep_view()),
{
    let n = claimants.len();
    if n == 0 {
        Err(WalletError::AddressNotFound)
    } else if n == 1 {
        Ok(claimants[0].clone())
    } else {
        Err(WalletError::AddressConflict)
    }
}

} // verus!
