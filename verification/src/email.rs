//! A validated e-mail address value.
//!
//! An [`Email`] can only be obtained through [`Email::try_new`], which
//! accepts a string exactly when it matches the e-mail address grammar.
//! Every reachable `Email` therefore wraps a syntactically valid address.

use vstd::prelude::*;

verus! {

/// Whether a string is a syntactically valid e-mail address.
///
/// This names the acceptance predicate of the RFC 5322 address grammar as
/// decided by the `email_address` crate (local part, `@`, domain, with the
/// documented length ceilings). The grammar is far too large to restate
/// here; acceptance is a function of the characters alone.
pub uninterp spec fn email_valid(s: Seq<char>) -> bool;

/// The single reason an e-mail validation can fail: the string does not
/// match the address grammar. No finer diagnosis is exposed.
#[derive(Clone, Copy, Debug, PartialEq, Eq, Structural)]
pub struct EmailError;

/// A string guaranteed to match the e-mail address grammar.
///
/// Values exist only through [`Email::try_new`]; the payload is private,
/// so an invalid address is unrepresentable.
#[derive(Debug)]
pub struct Email {
    text: String,
}

impl View for Email {
    type V = Seq<char>;

    closed spec fn view(&self) -> Seq<char> {
        self.text@
    }
}

/// Relies on `email_address::EmailAddress::is_valid`: it reports whether
/// the whole string parses under the RFC 5322 address grammar, and its
/// verdict depends on the characters alone.
#[verifier::external_body]
fn is_valid_address(s: &str) -> (r: bool)
    ensures
        r == email_valid(s@),
{
    email_address::EmailAddress::is_valid(s)
}

impl Email {
    /// The invariant carried by every reachable value: the wrapped text
    /// matches the address grammar.
    #[verifier::type_invariant]
    pub closed spec fn wf(self) -> bool {
        email_valid(self.text@)
    }

    /// Validate `email` against the address grammar. On success the value
    /// wraps the input unchanged (no trimming, no case folding); on failure
    /// nothing of the input is retained.
    pub fn try_new(email: String) -> (r: Result<Email, EmailError>)
        ensures
            r is Ok <==> email_valid(email@),
            r is Ok ==> (r->Ok_0)@ == email@ && (r->Ok_0).wf(),
    {
        if is_valid_address(email.as_str()) {
            Ok(Email { text: email })
        } else {
            Err(EmailError)
        }
    }

    /// The validated address, unchanged.
    pub fn get(&self) -> (r: &str)
        ensures
            r@ == self@,
    {
        self.text.as_str()
    }
}

/// Law: re-validation is idempotent. The text of any reachable [`Email`]
/// satisfies the grammar predicate, so by the contract of
/// [`Email::try_new`], constructing again from [`Email::get`]'s output
/// succeeds and wraps the same text.
pub proof fn lemma_email_revalidation(e: Email)
    requires
        e.wf(),
    ensures
        email_valid(e@),
{
}

} // verus!
