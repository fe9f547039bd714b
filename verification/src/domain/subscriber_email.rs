//! An email address that has passed validation.

use vstd::prelude::*;

verus! {

/// Whether `address` is an email address as `validator::validate_email` judges
/// it: the HTML5 grammar for a valid e-mail address, with the length limits
/// and the handling of internationalised domains that the function adds.
///
/// The grammar is not written out here. This only gives the verdict a name,
/// so that contracts can speak of it.
pub uninterp spec fn is_valid_email(address: Seq<char>) -> bool;

/// `k` is the position of the last `'@'` of `address`: what stands before it
/// is the local part, what stands after it is the domain.
pub open spec fn is_last_at(address: Seq<char>, k: int) -> bool {
    &&& 0 <= k < address.len()
    &&& address[k] == '@'
    &&& forall|j: int| k < j < address.len() ==> address[j] != '@'
}

/// `address` has an `'@'`, and neither the local part nor the domain around
/// the last one is empty.
pub open spec fn has_local_and_domain(address: Seq<char>) -> bool {
    exists|k: int| #[trigger] is_last_at(address, k) && 0 < k < address.len() - 1
}

/// An address that is empty, that has no `'@'`, or whose last `'@'` is its
/// first or its last character, lacks a local part or a domain.
pub proof fn lemma_missing_part(address: Seq<char>)
    requires
        address.len() == 0 || !address.contains('@') || is_last_at(address, 0) || is_last_at(
            address,
            address.len() - 1,
        ),
    ensures
        !has_local_and_domain(address),
{
    if has_local_and_domain(address) {
        let k = choose|k: int| #[trigger] is_last_at(address, k) && 0 < k < address.len() - 1;
        assert(address.contains('@'));
        if is_last_at(address, 0) {
            assert(address[k] != '@');
        }
        if is_last_at(address, address.len() - 1) {
            assert(address[address.len() - 1] != '@');
        }
    }
}

/// The message with which `input` is turned away.
pub open spec fn rejection_message(input: Seq<char>) -> Seq<char> {
    input + " is not a valid subscriber email."@
}

/// Calls `validator::validate_email`.
///
/// Trusted: the result is the verdict named by [`is_valid_email`], and an
/// accepted address has a non-empty local part and a non-empty domain around
/// its last `'@'`. The function returns `false` at once for an empty string
/// and for one without `'@'`, splits at the last `'@'`, and matches each side
/// against an expression that needs at least one character.
#[verifier::external_body]
fn validate_email(address: &str) -> (accepted: bool)
    ensures
        accepted == is_valid_email(address@),
        accepted ==> has_local_and_domain(address@),
{
    validator::validate_email(address)
}

/// A string that is a syntactically valid email address.
///
/// The only way to make one is [`SubscriberEmail::parse`], and nothing can
/// change it afterwards.
#[derive(Debug)]
pub struct SubscriberEmail(String);

impl View for SubscriberEmail {
    type V = Seq<char>;

    closed spec fn view(&self) -> Seq<char> {
        self.0@
    }
}

impl SubscriberEmail {
    #[verifier::type_invariant]
    spec fn holds_valid_address(self) -> bool {
        is_valid_email(self.0@) && has_local_and_domain(self.0@)
    }

    /// Validates `s` and wraps it, unchanged, or says why not.
    pub fn parse(s: String) -> (result: Result<SubscriberEmail, String>)
        ensures
            is_valid_email(s@) ==> (result matches Ok(email) && email@ == s@),
            !is_valid_email(s@) ==> (result matches Err(message) && message@ == rejection_message(
                s@,
            )),
            s@.len() == 0 ==> result is Err,
            !s@.contains('@') ==> result is Err,
            is_last_at(s@, 0) ==> result is Err,
            is_last_at(s@, s@.len() - 1) ==> result is Err,
            !has_local_and_domain(s@) ==> result is Err,
    {
        proof {
            if s@.len() == 0 || !s@.contains('@') || is_last_at(s@, 0) || is_last_at(
                s@,
                s@.len() - 1,
            ) {
                lemma_missing_part(s@);
            }
        }
        if validate_email(s.as_str()) {
            Ok(SubscriberEmail(s))
        } else {
            let mut message = s;
            message.append(" is not a valid subscriber email.");
            Err(message)
        }
    }

    /// The address as display text: the string that was parsed, as it was.
    pub fn to_string(&self) -> (text: String)
        ensures
            text@ == self@,
            is_valid_email(text@),
            has_local_and_domain(text@),
    {
        proof {
            use_type_invariant(self);
        }
        self.0.clone()
    }
}

impl AsRef<str> for SubscriberEmail {
    /// The address, borrowed: the string that was parsed, as it was.
    fn as_ref(&self) -> (address: &str)
        ensures
            address@ == self@,
            is_valid_email(address@),
            has_local_and_domain(address@),
    {
        proof {
            use_type_invariant(self);
        }
        self.0.as_str()
    }
}

} // verus!

