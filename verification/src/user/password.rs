//! Password hashing with Argon2 (default parameters), through the `argon2`
//! crate.

use argon2::password_hash::rand_core::OsRng;
use argon2::password_hash::{PasswordHash, PasswordHasher, PasswordVerifier, Salt, SaltString};
use argon2::Argon2;
use vstd::prelude::*;

verus! {

/// The PHC string of the hash that `Argon2::default().hash_password` computes
/// for `password` (its UTF-8 bytes) with the B64-encoded salt `salt`, or
/// `None` where the salt is not accepted or hashing fails.
pub uninterp spec fn argon2_phc_string(password: Seq<char>, salt: Seq<char>) -> Option<Seq<char>>;

/// Whether `PasswordHash::new` parses `phc` as a PHC string.
pub uninterp spec fn argon2_phc_parses(phc: Seq<char>) -> bool;

/// Whether `Argon2::default().verify_password` accepts `password` (its UTF-8
/// bytes) against the hash that `phc` parses to.
pub uninterp spec fn argon2_password_matches(password: Seq<char>, phc: Seq<char>) -> bool;

/// No character of `s` is the PHC field separator `$`.
pub open spec fn free_of_separator(s: Seq<char>) -> bool {
    forall|i: int| 0 <= i < s.len() ==> #[trigger] s[i] != '$'
}

/// `salt` is the salt field of the PHC string `phc`: the field just before
/// the last one (the hash), neither of them holding a `$`.
pub open spec fn phc_salt_field(phc: Seq<char>, salt: Seq<char>) -> bool {
    &&& free_of_separator(salt)
    &&& exists|head: Seq<char>, hash: Seq<char>|
        free_of_separator(hash) && #[trigger] (head + seq!['$'] + salt + seq!['$'] + hash) == phc
}

/// A character of the standard Base64 alphabet.
pub open spec fn is_b64_char(c: char) -> bool {
    ('A' <= c <= 'Z') || ('a' <= c <= 'z') || ('0' <= c <= '9') || c == '+' || c == '/'
}

/// The digest part of a PHC string from `Argon2::default()`: the 32-byte
/// output in unpadded standard Base64, that is 43 characters of that alphabet.
pub open spec fn is_b64_digest(digest: Seq<char>) -> bool {
    &&& digest.len() == 43
    &&& forall|i: int| 0 <= i < digest.len() ==> is_b64_char(#[trigger] digest[i])
}

/// `phc` is the PHC string of an Argon2id hash (version 19, the default
/// parameters `m=19456,t=2,p=1`) under the salt `salt`:
/// `$argon2id$v=19$m=19456,t=2,p=1$<salt>$<digest>`.
pub open spec fn is_default_argon2_phc(phc: Seq<char>, salt: Seq<char>) -> bool {
    &&& free_of_separator(salt)
    &&& exists|digest: Seq<char>|
        is_b64_digest(digest) && #[trigger] ("$argon2id$v=19$m=19456,t=2,p=1"@ + seq!['$'] + salt
            + seq!['$'] + digest) == phc
}

/// The shape of a salt drawn by `generate_salt`: 16 random bytes in unpadded
/// standard Base64, that is 22 characters of that alphabet.
pub open spec fn is_generated_salt(salt: Seq<char>) -> bool {
    &&& salt.len() == 22
    &&& forall|i: int| 0 <= i < salt.len() ==> is_b64_char(#[trigger] salt[i])
}

/// Draws a fresh salt with `SaltString::generate(&mut OsRng)` and returns it
/// as B64 text. Claimed: 16 random bytes encoded in unpadded standard Base64,
/// so 22 characters of that alphabet. Which salt comes back is not stated: it
/// comes from the operating system's random source.
#[verifier::external_body]
pub(crate) fn generate_salt() -> (s: String)
    ensures
        is_generated_salt(s@),
{
    SaltString::generate(&mut OsRng).as_str().to_string()
}

/// Hashes `password` with `Argon2::default().hash_password` and the salt that
/// `Salt::from_b64` reads from `salt`, and renders the hash as a PHC string.
/// Claimed: the result is `argon2_phc_string(password, salt)`; the string
/// parses; as `verify_password` recomputes the hash with the parameters and
/// salt stored in the string, the same password checks out against it; and
/// the string is `$argon2id$v=19$m=19456,t=2,p=1$`, the salt as given, `$`
/// and the 32-byte digest in B64 (the default algorithm, version and
/// parameters of `Argon2::default()`; an accepted salt holds only
/// `[a-zA-Z0-9/+.-]`).
#[verifier::external_body]
pub(crate) fn hash_password_b64_salt(password: &str, salt: &str) -> (r: Option<String>)
    ensures
        match r {
            Some(phc) => argon2_phc_string(password@, salt@) == Some(phc@),
            None => argon2_phc_string(password@, salt@) is None,
        },
        r matches Some(phc) ==> argon2_phc_parses(phc@) && argon2_password_matches(password@, phc@)
            && is_default_argon2_phc(phc@, salt@),
{
    match Salt::from_b64(salt) {
        Ok(salt) => match Argon2::default().hash_password(password.as_bytes(), salt) {
            Ok(hash) => Some(hash.to_string()),
            Err(_) => None,
        },
        Err(_) => None,
    }
}

/// Parses `phc` with `PasswordHash::new` and checks `password` against it with
/// `Argon2::default().verify_password`. Claimed: `None` exactly where `phc`
/// does not parse (which does not depend on the password), otherwise whether
/// the password is accepted.
#[verifier::external_body]
pub(crate) fn verify_password(password: &str, phc: &str) -> (r: Option<bool>)
    ensures
        r == (if argon2_phc_parses(phc@) {
            Some(argon2_password_matches(password@, phc@))
        } else {
            None
        }),
{
    match PasswordHash::new(phc) {
        Ok(parsed) => Some(Argon2::default().verify_password(password.as_bytes(), &parsed).is_ok()),
        Err(_) => None,
    }
}

/// Splitting at the last `$` is unique: if `a1 $ t1` and `a2 $ t2` are the
/// same text and neither `t1` nor `t2` holds a `$`, the parts agree.
pub proof fn lemma_split_at_last_separator(a1: Seq<char>, t1: Seq<char>, a2: Seq<char>, t2: Seq<char>)
    requires
        a1 + seq!['$'] + t1 == a2 + seq!['$'] + t2,
        free_of_separator(t1),
        free_of_separator(t2),
    ensures
        a1 == a2,
        t1 == t2,
{
    let x = a1 + seq!['$'] + t1;
    let y = a2 + seq!['$'] + t2;
    assert(x.len() == y.len());
    if t1.len() < t2.len() {
        let i = a1.len() as int;
        assert(x[i] == '$');
        assert(y[i] == t2[i - a2.len() - 1]);
        assert(false);
    } else if t2.len() < t1.len() {
        let i = a2.len() as int;
        assert(y[i] == '$');
        assert(x[i] == t1[i - a1.len() - 1]);
        assert(false);
    }
    assert(a1.len() == a2.len());
    assert forall|i: int| 0 <= i < a1.len() implies a1[i] == a2[i] by {
        assert(x[i] == a1[i]);
        assert(y[i] == a2[i]);
    }
    assert(a1 =~= a2);
    assert forall|i: int| 0 <= i < t1.len() implies t1[i] == t2[i] by {
        assert(x[a1.len() + 1 + i] == t1[i]);
        assert(y[a2.len() + 1 + i] == t2[i]);
    }
    assert(t1 =~= t2);
}

/// A default Argon2 PHC string carries its salt in the salt field.
pub proof fn lemma_default_phc_salt_field(phc: Seq<char>, salt: Seq<char>)
    requires
        is_default_argon2_phc(phc, salt),
    ensures
        phc_salt_field(phc, salt),
{
    let digest = choose|digest: Seq<char>|
        is_b64_digest(digest) && #[trigger] ("$argon2id$v=19$m=19456,t=2,p=1"@ + seq!['$'] + salt
            + seq!['$'] + digest) == phc;
    assert forall|i: int| 0 <= i < digest.len() implies #[trigger] digest[i] != '$' by {
        assert(is_b64_char(digest[i]));
    }
    let head = "$argon2id$v=19$m=19456,t=2,p=1"@;
    assert(free_of_separator(digest) && (head + seq!['$'] + salt + seq!['$'] + digest) == phc);
}

/// A PHC string has one salt field: hashes stored under different salts
/// differ.
pub proof fn lemma_salt_field_unique(phc: Seq<char>, s1: Seq<char>, s2: Seq<char>)
    requires
        phc_salt_field(phc, s1),
        phc_salt_field(phc, s2),
    ensures
        s1 == s2,
{
    let (head1, hash1) = choose|head: Seq<char>, hash: Seq<char>|
        free_of_separator(hash) && #[trigger] (head + seq!['$'] + s1 + seq!['$'] + hash) == phc;
    let (head2, hash2) = choose|head: Seq<char>, hash: Seq<char>|
        free_of_separator(hash) && #[trigger] (head + seq!['$'] + s2 + seq!['$'] + hash) == phc;
    lemma_split_at_last_separator(head1 + seq!['$'] + s1, hash1, head2 + seq!['$'] + s2, hash2);
    lemma_split_at_last_separator(head1, s1, head2, s2);
}

} // verus!
