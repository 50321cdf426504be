//! The threshold secret codec: splitting a fixed-length secret into N
//! shares of which fewer than M reconstruct nothing, while M or more
//! reconstruct exactly the secret or are refused by the scheme's own
//! consistency checks — never a different secret.
//!
//! The scheme itself (Shamir sharing over GF(256)) is a pluggable outside
//! algorithm consumed as a black box behind the stated contract; the library
//! validates the parameters and states exactly what the shares afford.

use vstd::prelude::*;

verus! {

/// Classified faults from the threshold secret codec.
#[derive(Clone, Copy, Debug, PartialEq, Eq, Structural)]
pub enum CodecError {
    /// The request was not 1 <= threshold <= shares over a non-empty secret.
    BadParameters,
    /// The scheme could not draw the randomness share generation needs.
    Generation,
    /// The supplied shares are insufficient or inconsistent: they do not
    /// reconstruct a secret.
    Recovery,
}

/// The share strings as mathematical values.
pub open spec fn shares_view(v: Seq<String>) -> Seq<Seq<char>> {
    Seq::new(v.len(), |i: int| v[i]@)
}

/// What the scheme's recovery computes from a share list: the secret those
/// shares reconstruct, or nothing when they are insufficient or
/// inconsistent. Recovery is a function of the share values alone.
pub uninterp spec fn recover_of(shares: Seq<Seq<char>>) -> Option<Seq<u8>>;

/// Relies on rusty_secrets::generate_shares: it performs threshold
/// `k`-out-of-`n` Shamir secret sharing, returning `n` distinct, non-blank
/// share strings (each is `k-index-base64`). rusty_secrets::recover_secret
/// refuses any list carrying fewer than `k` of the scheme's shares, and on
/// `k` or more of them reconstructs the secret by interpolation or refuses
/// the list; it never fabricates a different secret. Full recovery is not
/// promised of every outcome: the scheme's own recovery rejects shares
/// whose data blocks collide, which the randomly drawn polynomials leave
/// possible. Generation draws randomness from the operating system and may
/// fail; nothing is promised beyond the error then.
#[verifier::external_body]
fn generate_shares_raw(k: u8, n: u8, secret: &Vec<u8>) -> (r: Result<Vec<String>, CodecError>)
    requires
        1 <= k <= n,
        secret@.len() >= 1,
    ensures
        r matches Ok(shs) ==> {
            &&& shs@.len() == n as int
            &&& shares_view(shs@).no_duplicates()
            &&& forall|i: int|
                0 <= i < shs@.len() ==> !crate::json::is_blank(#[trigger] shares_view(shs@)[i])
            &&& forall|sub: Seq<Seq<char>>|
                sub.to_multiset().subset_of(shares_view(shs@).to_multiset()) && sub.len() >= k
                    ==> (#[trigger] recover_of(sub) == Some(secret@) || recover_of(sub) is None)
            &&& forall|sub: Seq<Seq<char>>|
                sub.to_multiset().subset_of(shares_view(shs@).to_multiset()) && sub.len() < k
                    ==> #[trigger] recover_of(sub) is None
        },
        r matches Err(e) ==> e == CodecError::Generation,
{
    match rusty_secrets::generate_shares(k, n, secret) {
        Ok(shs) => Ok(shs),
        Err(_) => Err(CodecError::Generation),
    }
}

/// Relies on rusty_secrets::recover_secret: deterministic reconstruction
/// from the share values alone; an error, never a fabricated secret, when
/// the shares are insufficient or inconsistent.
#[verifier::external_body]
fn recover_secret_raw(shares: &Vec<String>) -> (r: Result<Vec<u8>, CodecError>)
    ensures
        match r {
            Ok(s) => recover_of(shares_view(shares@)) == Some(s@),
            Err(e) => e == CodecError::Recovery && recover_of(shares_view(shares@)) is None,
        },
{
    match rusty_secrets::recover_secret(shares.clone()) {
        Ok(s) => Ok(s),
        Err(_) => Err(CodecError::Recovery),
    }
}

/// Splits `secret` into `shares` non-blank share strings. Fewer than
/// `threshold` of them never reconstruct anything; `threshold` or more of
/// them reconstruct exactly `secret` or are refused by the scheme's own
/// consistency checks — never a different secret. Fails with
/// [`CodecError::BadParameters`] unless `1 <= threshold <= shares` and the
/// secret is non-empty; fails with [`CodecError::Generation`] only when the
/// scheme cannot draw randomness.
pub fn split(secret: &Vec<u8>, threshold: u8, shares: u8) -> (r: Result<Vec<String>, CodecError>)
    ensures
        match r {
            Ok(shs) => {
                &&& 1 <= threshold <= shares
                &&& secret@.len() >= 1
                &&& shs@.len() == shares as int
                &&& shares_view(shs@).no_duplicates()
                &&& forall|i: int|
                    0 <= i < shs@.len() ==> !crate::json::is_blank(
                        #[trigger] shares_view(shs@)[i],
                    )
                &&& forall|sub: Seq<Seq<char>>|
                    sub.to_multiset().subset_of(shares_view(shs@).to_multiset()) && sub.len()
                        >= threshold ==> (#[trigger] recover_of(sub) == Some(secret@)
                        || recover_of(sub) is None)
                &&& forall|sub: Seq<Seq<char>>|
                    sub.to_multiset().subset_of(shares_view(shs@).to_multiset()) && sub.len()
                        < threshold ==> #[trigger] recover_of(sub) is None
            },
            Err(e) => {
                &&& (e == CodecError::BadParameters || e == CodecError::Generation)
                &&& (e == CodecError::BadParameters <==> !(1 <= threshold <= shares && secret@.len()
                    >= 1))
            },
        },
{
    if threshold < 1 || threshold > shares || secret.len() == 0 {
        return Err(CodecError::BadParameters);
    }
    generate_shares_raw(threshold, shares, secret)
}

/// Reconstructs a secret from the given share strings: exactly the value
/// the scheme's recovery computes for them, and an error, never a wrong
/// secret, when they are insufficient or inconsistent.
pub fn recover(shares: &Vec<String>) -> (r: Result<Vec<u8>, CodecError>)
    ensures
        match r {
            Ok(s) => recover_of(shares_view(shares@)) == Some(s@),
            Err(e) => e == CodecError::Recovery && recover_of(shares_view(shares@)) is None,
        },
{
    recover_secret_raw(shares)
}

/// Overwrites a secret buffer with zeroes, leaving nothing of its value.
pub fn wipe_bytes(buf: &mut Vec<u8>)
    ensures
        final(buf)@.len() == old(buf)@.len(),
        forall|i: int| 0 <= i < final(buf)@.len() ==> final(buf)@[i] == 0,
{
    let n = buf.len();
    let mut i: usize = 0;
    while i < n
        invariant
            n == buf@.len(),
            i <= n,
            forall|t: int| 0 <= t < i ==> buf@[t] == 0,
        decreases n - i,
    {
        buf.set(i, 0);
        i = i + 1;
    }
}

} // verus!
