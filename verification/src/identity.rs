//! User identities, as the protocol library reads them.

use vstd::prelude::*;

verus! {

/// Whether the protocol library accepts `text` as a user identity.
pub uninterp spec fn user_id_accepted(text: Seq<char>) -> bool;

/// Asks ruma's `UserId::parse` whether `text` is a user identity.
///
/// The contract claims that the answer is a function of the text: the parser
/// looks at the length of the text, its leading `@`, the characters of the
/// local part and the server name behind the first colon, and at nothing
/// else. Which texts it accepts is not stated here.
#[verifier::external_body]
pub(crate) fn is_user_id(text: &str) -> (accepted: bool)
    ensures
        accepted == user_id_accepted(text@),
{
    ruma::UserId::parse(text).is_ok()
}

} // verus!
