//! A validated username value.
//!
//! A [`UserName`] can only be obtained through [`UserName::try_new`],
//! which accepts a string exactly when it is 12 to 31 characters long and
//! contains no forbidden character. Rejections carry one of three
//! mutually exclusive reasons, decided in a fixed order: too short first,
//! then too long, then the first forbidden character found.

use vstd::prelude::*;

verus! {

/// The characters that may not occur in a username.
pub open spec fn forbidden_char(c: char) -> bool {
    ||| c == '!'
    ||| c == '\u{00A7}'
    ||| c == '$'
    ||| c == '%'
    ||| c == '&'
    ||| c == '/'
    ||| c == '('
    ||| c == ')'
    ||| c == '='
    ||| c == '?'
}

/// Whether the string contains at least one forbidden character.
pub open spec fn has_forbidden_char(s: Seq<char>) -> bool {
    exists|i: int| 0 <= i < s.len() && forbidden_char(s[i])
}

/// Whether position `i` holds the first forbidden character of `s` in
/// scan order: `s[i]` is forbidden and nothing before it is.
pub open spec fn first_forbidden_at(s: Seq<char>, i: int) -> bool {
    &&& 0 <= i < s.len()
    &&& forbidden_char(s[i])
    &&& forall|j: int| 0 <= j < i ==> !forbidden_char(s[j])
}

/// The first forbidden character of `s`, meaningful when
/// `has_forbidden_char(s)` holds.
pub open spec fn first_forbidden_char(s: Seq<char>) -> char {
    s[choose|i: int| first_forbidden_at(s, i)]
}

/// The invariant of a valid username: at least 12 characters, at most 31,
/// and no forbidden character. Lengths count characters, not bytes.
pub open spec fn valid_username(s: Seq<char>) -> bool {
    &&& 12 <= s.len() < 32
    &&& !has_forbidden_char(s)
}

/// The reasons a username can be rejected; exactly one is reported per
/// failed validation.
#[derive(Clone, Copy, Debug, PartialEq, Eq)]
pub enum UserNameError {
    /// Fewer than 12 characters.
    TooShort,
    /// 32 characters or more.
    TooLong,
    /// The first forbidden character found, scanning left to right.
    InvalidCharacter(char),
}

/// The outcome of validating `s`, with the checks in their fixed
/// precedence order: length too short, then length too long, then the
/// character scan.
pub open spec fn username_check(s: Seq<char>) -> Result<(), UserNameError> {
    if s.len() < 12 {
        Err(UserNameError::TooShort)
    } else if 32 <= s.len() {
        Err(UserNameError::TooLong)
    } else if has_forbidden_char(s) {
        Err(UserNameError::InvalidCharacter(first_forbidden_char(s)))
    } else {
        Ok(())
    }
}

/// A string guaranteed to satisfy the username rules.
///
/// Values exist only through [`UserName::try_new`]; the payload is
/// private, so an invalid username is unrepresentable.
#[derive(Debug)]
pub struct UserName {
    text: String,
}

impl View for UserName {
    type V = Seq<char>;

    closed spec fn view(&self) -> Seq<char> {
        self.text@
    }
}

/// Whether `c` is one of the forbidden characters.
fn is_forbidden(c: char) -> (r: bool)
    ensures
        r == forbidden_char(c),
{
    c == '!' || c == '\u{00A7}' || c == '$' || c == '%' || c == '&' || c == '/' || c == '('
        || c == ')' || c == '=' || c == '?'
}

impl UserName {
    /// The invariant carried by every reachable value.
    #[verifier::type_invariant]
    pub closed spec fn wf(self) -> bool {
        valid_username(self.text@)
    }

    /// Validate `username`. On success the value wraps the input
    /// unchanged; on failure the result carries the single reason decided
    /// by the fixed check order of [`username_check`].
    pub fn try_new(username: String) -> (r: Result<UserName, UserNameError>)
        ensures
            r is Ok <==> valid_username(username@),
            r is Ok ==> (r->Ok_0)@ == username@ && (r->Ok_0).wf(),
            r is Err ==> username_check(username@) == Err::<(), UserNameError>(r->Err_0),
    {
        let len = username.as_str().unicode_len();
        if len < 12 {
            Err(UserNameError::TooShort)
        } else if len >= 32 {
            Err(UserNameError::TooLong)
        } else {
            let mut i: usize = 0;
            while i < len
                invariant
                    len == username@.len(),
                    12 <= len < 32,
                    i <= len,
                    forall|j: int| 0 <= j < i ==> !forbidden_char(username@[j]),
                decreases len - i,
            {
                let c = username.as_str().get_char(i);
                if is_forbidden(c) {
                    proof {
                        let s = username@;
                        assert(first_forbidden_at(s, i as int));
                        let k = choose|k: int| first_forbidden_at(s, k);
                        lemma_first_forbidden_unique(s, i as int, k);
                    }
                    return Err(UserNameError::InvalidCharacter(c));
                }
                i = i + 1;
            }
            Ok(UserName { text: username })
        }
    }

    /// The validated username, unchanged.
    pub fn get(&self) -> (r: &str)
        ensures
            r@ == self@,
    {
        self.text.as_str()
    }
}

/// A string has at most one first forbidden position.
pub proof fn lemma_first_forbidden_unique(s: Seq<char>, i: int, j: int)
    requires
        first_forbidden_at(s, i),
        first_forbidden_at(s, j),
    ensures
        i == j,
{
    if i < j {
        assert(!forbidden_char(s[i]));
    } else if j < i {
        assert(!forbidden_char(s[j]));
    }
}

/// Law: every string shorter than 12 characters is rejected as too short,
/// whatever its characters.
pub proof fn lemma_too_short(s: Seq<char>)
    requires
        s.len() < 12,
    ensures
        username_check(s) == Err::<(), UserNameError>(UserNameError::TooShort),
{
}

/// Law: every string of 32 characters or more is rejected as too long.
pub proof fn lemma_too_long(s: Seq<char>)
    requires
        32 <= s.len(),
    ensures
        username_check(s) == Err::<(), UserNameError>(UserNameError::TooLong),
{
}

/// Law: a string of acceptable length whose first forbidden character
/// stands at position `i` is rejected with exactly that character.
pub proof fn lemma_first_forbidden_reported(s: Seq<char>, i: int)
    requires
        12 <= s.len() < 32,
        first_forbidden_at(s, i),
    ensures
        username_check(s) == Err::<(), UserNameError>(UserNameError::InvalidCharacter(s[i])),
{
    let k = choose|k: int| first_forbidden_at(s, k);
    lemma_first_forbidden_unique(s, i, k);
}

/// Law: being too short takes precedence over containing a forbidden
/// character — the check order is observable.
pub proof fn lemma_too_short_precedence(s: Seq<char>)
    requires
        s.len() < 12,
        has_forbidden_char(s),
    ensures
        username_check(s) == Err::<(), UserNameError>(UserNameError::TooShort),
{
}

/// Law: the length bounds are exact — 12 characters is long enough, 32 is
/// already too long.
pub proof fn lemma_length_boundaries(s: Seq<char>)
    ensures
        s.len() == 12 && !has_forbidden_char(s) ==> username_check(s) is Ok,
        s.len() == 32 ==> username_check(s) == Err::<(), UserNameError>(UserNameError::TooLong),
{
}

/// Law: re-validation is idempotent. The text of any reachable
/// [`UserName`] satisfies [`valid_username`], so by the contract of
/// [`UserName::try_new`], constructing again from [`UserName::get`]'s
/// output succeeds and wraps the same text.
pub proof fn lemma_username_revalidation(u: UserName)
    requires
        u.wf(),
    ensures
        valid_username(u@),
        username_check(u@) is Ok,
{
}

} // verus!
