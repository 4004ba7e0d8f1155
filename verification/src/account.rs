//! Validated NEAR account identifiers.

use vstd::prelude::*;

verus! {

/// A separator character of an account id: `-`, `_` or `.`.
pub open spec fn is_account_separator(c: char) -> bool {
    c == '-' || c == '_' || c == '.'
}

/// A character that may appear in an account id: `a-z`, `0-9` or a separator.
pub open spec fn is_account_char(c: char) -> bool {
    ('a' <= c && c <= 'z') || ('0' <= c && c <= '9') || is_account_separator(c)
}

/// The NEAR account-id rules: 2 to 64 characters from `a-z`, `0-9`, `-`, `_`,
/// `.`, where a separator neither starts nor ends the id and never follows
/// another separator.
pub open spec fn is_valid_account_id(s: Seq<char>) -> bool {
    &&& 2 <= s.len() <= 64
    &&& forall|i: int| 0 <= i < s.len() ==> is_account_char(#[trigger] s[i])
    &&& !is_account_separator(s[0])
    &&& !is_account_separator(s[s.len() - 1])
    &&& forall|i: int|
        0 <= i < s.len() - 1 ==> !(is_account_separator(#[trigger] s[i]) && is_account_separator(
            s[i + 1],
        ))
}

/// Checks `s` with `near_sdk::AccountId::validate` (near-account-id's
/// validation). Its source accepts exactly the ids described by
/// `is_valid_account_id`: a byte length of 2 to 64, only `a-z`, `0-9`, `-`, `_`,
/// `.`, and no leading, trailing or doubled separator (any non-ASCII character
/// is rejected, so counting bytes or characters gives the same verdict).
#[verifier::external_body]
fn near_validate_account_id(s: &str) -> (valid: bool)
    ensures
        valid == is_valid_account_id(s@),
{
    near_sdk::AccountId::validate(s).is_ok()
}

/// An account id that passed NEAR's validation.
pub struct AccountId {
    id: String,
}

impl View for AccountId {
    type V = Seq<char>;

    closed spec fn view(&self) -> Seq<char> {
        self.id@
    }
}

impl AccountId {
    #[verifier::type_invariant]
    spec fn inv(self) -> bool {
        is_valid_account_id(self.id@)
    }

    /// Parses `s` as an account id; `None` when NEAR would refuse it.
    pub fn parse(s: &str) -> (r: Option<AccountId>)
        ensures
            r is Some <==> is_valid_account_id(s@),
            r matches Some(a) ==> a@ == s@,
    {
        if near_validate_account_id(s) {
            Some(AccountId { id: s.to_owned() })
        } else {
            None
        }
    }

    /// The id as text.
    pub fn as_str(&self) -> (s: &str)
        ensures
            s@ == self@,
    {
        self.id.as_str()
    }

    /// Whether `s` spells this id.
    pub fn equals_text(&self, s: &String) -> (b: bool)
        ensures
            b == (self@ == s@),
    {
        self.id == *s
    }

    /// Whether two ids are the same account.
    pub fn same(&self, other: &AccountId) -> (b: bool)
        ensures
            b == (self@ == other@),
    {
        self.id == other.id
    }
}

impl Clone for AccountId {
    fn clone(&self) -> (r: Self)
        ensures
            r@ == self@,
    {
        proof {
            use_type_invariant(self);
        }
        AccountId { id: self.id.clone() }
    }
}

} // verus!
