//! Account identifiers: names of administrators, creators, supporters and
//! fungible tokens.

use vstd::prelude::*;
use vstd::std_specs::cmp::PartialEqSpecImpl;
use vstd::string::*;

verus! {

/// Lower-case letters and digits, the characters a name is made of.
pub open spec fn is_name_char(c: char) -> bool {
    ('a' <= c && c <= 'z') || ('0' <= c && c <= '9')
}

/// The characters that may stand between two runs of name characters.
pub open spec fn is_separator(c: char) -> bool {
    c == '-' || c == '_' || c == '.'
}

/// The account naming rule: between 2 and 64 characters, each a lower-case
/// letter, a digit or a separator, where no separator stands first, last or
/// next to another separator.
pub open spec fn is_valid_account_name(s: Seq<char>) -> bool {
    &&& 2 <= s.len() <= 64
    &&& forall|i: int| 0 <= i < s.len() ==> is_name_char(#[trigger] s[i]) || is_separator(s[i])
    &&& !is_separator(s[0])
    &&& !is_separator(s[s.len() - 1])
    &&& forall|i: int|
        0 <= i < s.len() - 1 ==> !(is_separator(#[trigger] s[i]) && is_separator(s[i + 1]))
}

/// Calls `near_sdk::AccountId::try_from` on a copy of `name` and reports
/// whether it accepted the name. Trusted: the contract restates the check
/// that near-sdk makes (`env::is_valid_account_id`), a length between 2 and
/// 64 bytes and a scan that refuses any byte outside `a-z`, `0-9`, `-`, `_`,
/// `.` and any separator that stands first, last or behind another one.
#[verifier::external_body]
fn near_accepts_account_name(name: &str) -> (accepted: bool)
    ensures
        accepted == is_valid_account_name(name@),
{
    near_sdk::AccountId::try_from(name.to_string()).is_ok()
}

/// The reason a string is not an account identifier: it breaks the naming rule.
#[derive(Debug, Clone, Copy, PartialEq, Eq, Structural)]
pub struct ParseAccountIdError {}

/// A validated account name.
#[derive(Debug)]
pub struct AccountId {
    name: String,
}

/// The account of a creator.
pub type CreatorAccountId = AccountId;

/// The account of a supporter.
pub type UserAccountId = AccountId;

/// The account of a fungible token.
pub type FTAccountId = AccountId;

impl View for AccountId {
    type V = Seq<char>;

    closed spec fn view(&self) -> Seq<char> {
        self.name@
    }
}

impl Clone for AccountId {
    fn clone(&self) -> (res: Self)
        ensures
            res == *self,
    {
        proof {
            use_type_invariant(self);
        }
        AccountId { name: self.name.clone() }
    }
}

impl PartialEq for AccountId {
    fn eq(&self, other: &Self) -> (res: bool) {
        self.name == other.name
    }
}

impl PartialEqSpecImpl for AccountId {
    open spec fn obeys_eq_spec() -> bool {
        true
    }

    open spec fn eq_spec(&self, other: &Self) -> bool {
        self@ == other@
    }
}

impl Eq for AccountId {

}

impl AccountId {
    #[verifier::type_invariant]
    spec fn well_named(&self) -> bool {
        is_valid_account_name(self.name@)
    }

    /// Validates `value` and keeps it as an account identifier.
    pub fn try_from(value: String) -> (res: Result<AccountId, ParseAccountIdError>)
        ensures
            is_valid_account_name(value@) ==> res.is_ok() && res.unwrap()@ == value@,
            !is_valid_account_name(value@) ==> res == Err::<AccountId, _>(ParseAccountIdError {  }),
    {
        if near_accepts_account_name(value.as_str()) {
            Ok(AccountId { name: value })
        } else {
            Err(ParseAccountIdError {  })
        }
    }

    /// The name as text. Every account identifier obeys the naming rule.
    pub fn as_str(&self) -> (s: &str)
        ensures
            s@ == self@,
            is_valid_account_name(self@),
    {
        proof {
            use_type_invariant(self);
        }
        self.name.as_str()
    }
}

} // verus!
