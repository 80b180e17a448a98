//! Stored passwords.
use argon2::PasswordVerifier;
use vstd::prelude::*;

verus! {

/// Whether `argon2::PasswordHash::new` accepts a stored password: whether it is a hash in
/// the PHC string format.
pub uninterp spec fn is_password_hash(stored: Seq<char>) -> bool;

/// Whether the default `argon2::Argon2` finds that a password, as bytes, is the one that a
/// stored hash was made of.
pub uninterp spec fn password_fits(stored: Seq<char>, password: Seq<u8>) -> bool;

/// Asks `argon2::PasswordHash::new` whether a stored password can be read as a hash. What
/// that crate accepts is left to it, under the name `is_password_hash`.
#[verifier::external_body]
pub(crate) fn reads_as_hash(stored: &str) -> (readable: bool)
    ensures
        readable == is_password_hash(stored@),
{
    argon2::PasswordHash::new(stored).is_ok()
}

/// A number of lanes is given at this place: `p=`.
pub open spec fn lanes_at(stored: Seq<u8>, i: int) -> bool {
    &&& 0 <= i && i + 1 < stored.len()
    &&& stored[i] == 112
    &&& stored[i + 1] == 61
}

/// Nine decimal digits follow from this place on.
pub open spec fn nine_digits_at(stored: Seq<u8>, i: int) -> bool {
    &&& 0 <= i && i + 9 <= stored.len()
    &&& forall|k: int| i <= k < i + 9 ==> 48 <= #[trigger] stored[k] <= 57
}

/// The number of lanes that a stored hash gives last, if it gives any, has less than nine
/// digits. Where a parameter of a hash is given more than once, the last one counts.
pub open spec fn asks_for_few_lanes(stored: Seq<u8>) -> bool {
    forall|i: int| #[trigger]
        lanes_at(stored, i) && nine_digits_at(stored, i + 2) ==> exists|j: int|
            i < j && #[trigger] lanes_at(stored, j)
}

/// Whether a password, as bytes, is the one that a stored hash was made of. No password is
/// hashed on as many lanes as nine digits stand for.
pub open spec fn is_password(stored: Seq<char>, password: Seq<u8>) -> bool {
    asks_for_few_lanes(vstd::utf8::encode_utf8(stored)) && password_fits(stored, password)
}

fn has_nine_digits(stored: &[u8], start: usize) -> (nine: bool)
    requires
        start <= stored@.len(),
    ensures
        nine == nine_digits_at(stored@, start as int),
{
    if stored.len() - start < 9 {
        return false;
    }
    for k in start..start + 9
        invariant
            start + 9 <= stored@.len(),
            forall|j: int| start <= j < k ==> 48 <= #[trigger] stored@[j] <= 57,
    {
        if stored[k] < 48 || stored[k] > 57 {
            return false;
        }
    }
    true
}

fn few_lanes(stored: &[u8]) -> (few: bool)
    ensures
        few == asks_for_few_lanes(stored@),
{
    let mut end: usize = stored.len();
    while end >= 2
        invariant
            end <= stored@.len(),
            forall|j: int| j >= end - 1 ==> !#[trigger] lanes_at(stored@, j),
        decreases end,
    {
        if stored[end - 2] == 112 && stored[end - 1] == 61 {
            assert(lanes_at(stored@, end - 2));
            return !has_nine_digits(stored, end);
        }
        end = end - 1;
    }
    true
}

/// Checks a password with `verify_password` of `argon2::PasswordVerifier`, on the hasher
/// `argon2::Argon2::default`. Which passwords fit is left to that crate, under the name
/// `password_fits`. That crate multiplies the number of lanes before it tests it, which can
/// overflow where the number has nine digits, so such a hash is not handed to it. The call
/// needs as much memory and as many rounds as the stored hash asks for.
#[verifier::external_body]
fn verify_password(stored: &str, password: &[u8]) -> (fits: bool)
    requires
        is_password_hash(stored@),
        asks_for_few_lanes(vstd::utf8::encode_utf8(stored@)),
    ensures
        fits == password_fits(stored@, password@),
{
    let hash = argon2::PasswordHash::new(stored).unwrap();
    argon2::Argon2::default().verify_password(password, &hash).is_ok()
}

/// Checks a password against a stored hash.
pub(crate) fn check_password(stored: &str, password: &[u8]) -> (fits: bool)
    requires
        is_password_hash(stored@),
    ensures
        fits == is_password(stored@, password@),
{
    few_lanes(stored.as_bytes()) && verify_password(stored, password)
}

/// Law: a password is the one that a hash was made of exactly if the hasher finds that it
/// fits, unless the last `p=` of the hash has nine digits behind it.
pub proof fn law_password_is_the_fitting_one(stored: Seq<char>, password: Seq<u8>)
    ensures
        ({
            let bytes = vstd::utf8::encode_utf8(stored);
            let too_many = exists|i: int|
                {
                    &&& 0 <= i && i + 11 <= bytes.len()
                    &&& #[trigger] bytes[i] == 112 && bytes[i + 1] == 61
                    &&& forall|k: int| i + 2 <= k < i + 11 ==> 48 <= #[trigger] bytes[k] <= 57
                    &&& forall|j: int|
                        i < j && j + 1 < bytes.len() ==> !(#[trigger] bytes[j] == 112 && bytes[j + 1]
                            == 61)
                };
            is_password(stored, password) <==> password_fits(stored, password) && !too_many
        }),
{
    let bytes = vstd::utf8::encode_utf8(stored);
    let too_many = exists|i: int|
        {
            &&& 0 <= i && i + 11 <= bytes.len()
            &&& #[trigger] bytes[i] == 112 && bytes[i + 1] == 61
            &&& forall|k: int| i + 2 <= k < i + 11 ==> 48 <= #[trigger] bytes[k] <= 57
            &&& forall|j: int|
                i < j && j + 1 < bytes.len() ==> !(#[trigger] bytes[j] == 112 && bytes[j + 1] == 61)
        };
    if too_many {
        let i = choose|i: int|
            {
                &&& 0 <= i && i + 11 <= bytes.len()
                &&& #[trigger] bytes[i] == 112 && bytes[i + 1] == 61
                &&& forall|k: int| i + 2 <= k < i + 11 ==> 48 <= #[trigger] bytes[k] <= 57
                &&& forall|j: int|
                    i < j && j + 1 < bytes.len() ==> !(#[trigger] bytes[j] == 112 && bytes[j + 1]
                        == 61)
            };
        assert(lanes_at(bytes, i) && nine_digits_at(bytes, i + 2));
        assert forall|j: int| i < j implies !#[trigger] lanes_at(bytes, j) by {
            if j + 1 < bytes.len() {
                assert(!(bytes[j] == 112 && bytes[j + 1] == 61));
            }
        }
        assert(!asks_for_few_lanes(bytes));
    } else {
        assert forall|i: int| #[trigger]
            lanes_at(bytes, i) && nine_digits_at(bytes, i + 2) implies exists|j: int|
            i < j && #[trigger] lanes_at(bytes, j) by {
            assert(bytes[i] == 112);
            let j = choose|j: int|
                i < j && j + 1 < bytes.len() && #[trigger] bytes[j] == 112 && bytes[j + 1] == 61;
            assert(lanes_at(bytes, j));
        }
    }
}

} // verus!
