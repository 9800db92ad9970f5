//! The actions that the application takes on a received event.
//!
//! An event does not own the live verification object that it reports on.
//! Every action finds that object again by the pair of sender and
//! transaction id, asks the crypto collaborator to act on it, and settles
//! what the collaborator answered: a missing object is an ordinary negative
//! result, a failure of the collaborator is an error.

use vstd::prelude::*;
use crate::event::SessionVerificationEvent;
use crate::identity::{is_user_id, user_id_accepted};

verus! {

/// The pair by which a live verification object is found again.
#[derive(Debug, PartialEq, Eq)]
pub struct CorrelationKey {
    pub sender: String,
    pub transaction_id: String,
}

/// What the crypto collaborator answered when it was asked to act on the
/// object that a correlation key names.
#[derive(Debug, PartialEq, Eq)]
pub enum Resolution<T> {
    /// No live object goes by the key: it never existed, has expired or is
    /// already completed.
    NotFound,
    /// The object was found, and the operation on it failed.
    Failed(String),
    /// The object was found and the operation went through, with this
    /// report.
    Completed(T),
}

/// A failure of the crypto collaborator's own operation.
#[derive(Debug, PartialEq, Eq)]
pub struct ActionError {
    pub message: String,
}

/// One comparison symbol as the crypto collaborator hands it out: the
/// symbol as text, and its label.
#[derive(Debug, PartialEq, Eq)]
pub struct SasEmoji {
    symbol: String,
    description: String,
}

impl SasEmoji {
    #[verifier::type_invariant]
    spec fn has_symbol(&self) -> bool {
        self.symbol@.len() > 0
    }

    pub closed spec fn symbol_text(&self) -> Seq<char> {
        self.symbol@
    }

    pub closed spec fn description_text(&self) -> Seq<char> {
        self.description@
    }

    /// A comparison symbol with its label; none if the symbol is empty.
    pub fn new(symbol: &str, description: &str) -> (emoji: Option<SasEmoji>)
        ensures
            emoji is Some <==> symbol@.len() > 0,
            emoji matches Some(e) ==> e.symbol_text() == symbol@ && e.description_text()
                == description@,
    {
        if symbol.is_empty() {
            None
        } else {
            Some(SasEmoji { symbol: symbol.to_owned(), description: description.to_owned() })
        }
    }
}

/// One comparison symbol as the application shows it: the code point of the
/// symbol, and its label.
#[derive(Debug, PartialEq, Eq)]
pub struct SessionVerificationEmoji {
    symbol: u32,
    description: String,
}

impl View for SessionVerificationEmoji {
    type V = (u32, Seq<char>);

    closed spec fn view(&self) -> (u32, Seq<char>) {
        (self.symbol, self.description@)
    }
}

impl SessionVerificationEmoji {
    pub fn symbol(&self) -> (symbol: u32)
        ensures
            symbol == self@.0,
    {
        self.symbol
    }

    pub fn description(&self) -> (description: String)
        ensures
            description@ == self@.1,
    {
        self.description.clone()
    }

    /// The descriptor of a comparison symbol: the first code point of its
    /// text, and its label.
    pub fn from_sas(emoji: &SasEmoji) -> (descriptor: SessionVerificationEmoji)
        ensures
            descriptor@ == described(*emoji),
    {
        proof {
            use_type_invariant(emoji);
        }
        let first: char = emoji.symbol.as_str().get_char(0);
        SessionVerificationEmoji { symbol: first as u32, description: emoji.description.clone() }
    }
}

/// What the application is shown for one comparison symbol.
pub open spec fn described(emoji: SasEmoji) -> (u32, Seq<char>) {
    (emoji.symbol_text()[0] as u32, emoji.description_text())
}

/// What the application is shown for a sequence of comparison symbols.
pub open spec fn described_all(emoji: Seq<SasEmoji>) -> Seq<(u32, Seq<char>)> {
    emoji.map_values(|e: SasEmoji| described(e))
}

/// What a sequence of descriptors shows.
pub open spec fn shown(descriptors: Seq<SessionVerificationEmoji>) -> Seq<(u32, Seq<char>)> {
    descriptors.map_values(|d: SessionVerificationEmoji| d@)
}

/// The outcome of an operation that reports no more than that it went
/// through. It is negative where no object can go by the event's key or
/// none was found.
pub open spec fn settled_done(addressable: bool, reply: Resolution<()>) -> Result<
    bool,
    ActionError,
> {
    if !addressable {
        Ok(false)
    } else {
        match reply {
            Resolution::NotFound => Ok(false),
            Resolution::Failed(message) => Err(ActionError { message }),
            Resolution::Completed(_) => Ok(true),
        }
    }
}

/// The outcome of an operation that reports a flag of its own. It is
/// negative where no object can go by the event's key or none was found.
pub open spec fn settled_flag(addressable: bool, reply: Resolution<bool>) -> Result<
    bool,
    ActionError,
> {
    if !addressable {
        Ok(false)
    } else {
        match reply {
            Resolution::NotFound => Ok(false),
            Resolution::Failed(message) => Err(ActionError { message }),
            Resolution::Completed(flag) => Ok(flag),
        }
    }
}

/// What the application is shown when it asks for the comparison symbols.
/// Nothing is shown where no object can go by the event's key, none was
/// found, or the session has no symbols yet.
pub open spec fn settled_emoji(
    addressable: bool,
    reply: Resolution<Option<Vec<SasEmoji>>>,
) -> Result<Seq<(u32, Seq<char>)>, ActionError> {
    if !addressable {
        Ok(Seq::empty())
    } else {
        match reply {
            Resolution::NotFound => Ok(Seq::empty()),
            Resolution::Failed(message) => Err(ActionError { message }),
            Resolution::Completed(None) => Ok(Seq::empty()),
            Resolution::Completed(Some(emoji)) => Ok(described_all(emoji@)),
        }
    }
}

/// The outcome of one round of sending what the crypto collaborator has
/// queued.
pub open spec fn settled_round(round: Result<(), String>) -> Result<bool, ActionError> {
    match round {
        Ok(_) => Ok(true),
        Err(message) => Err(ActionError { message }),
    }
}

/// An operation whose key matches no live object ends in a negative or
/// empty result, never in an error: whether the collaborator found nothing,
/// or the sender is no user identity, so that nothing could be looked up.
pub proof fn lemma_missing_object_is_negative(
    addressable: bool,
    done: Resolution<()>,
    flag: Resolution<bool>,
    emoji: Resolution<Option<Vec<SasEmoji>>>,
)
    ensures
        settled_done(addressable, Resolution::NotFound) == Ok::<bool, ActionError>(false),
        settled_flag(addressable, Resolution::NotFound) == Ok::<bool, ActionError>(false),
        settled_emoji(addressable, Resolution::NotFound) == Ok::<
            Seq<(u32, Seq<char>)>,
            ActionError,
        >(Seq::empty()),
        !addressable ==> settled_done(addressable, done) == Ok::<bool, ActionError>(false),
        !addressable ==> settled_flag(addressable, flag) == Ok::<bool, ActionError>(false),
        !addressable ==> settled_emoji(addressable, emoji) == Ok::<
            Seq<(u32, Seq<char>)>,
            ActionError,
        >(Seq::empty()),
{
}

/// An error comes out of an operation only where the collaborator found the
/// object and failed on it; the error carries the collaborator's message.
pub proof fn lemma_error_is_collaborator_failure(
    addressable: bool,
    done: Resolution<()>,
    flag: Resolution<bool>,
    emoji: Resolution<Option<Vec<SasEmoji>>>,
)
    ensures
        settled_done(addressable, done) is Err <==> addressable && done is Failed,
        settled_flag(addressable, flag) is Err <==> addressable && flag is Failed,
        settled_emoji(addressable, emoji) is Err <==> addressable && emoji is Failed,
        settled_done(addressable, done) matches Err(e) ==> done == Resolution::<()>::Failed(
            e.message,
        ),
        settled_flag(addressable, flag) matches Err(e) ==> flag == Resolution::<bool>::Failed(
            e.message,
        ),
{
}

/// Settles an operation that reports no more than that it went through,
/// given whether a live object can go by the event's key at all.
pub fn settle_done(addressable: bool, reply: Resolution<()>) -> (outcome: Result<
    bool,
    ActionError,
>)
    ensures
        outcome == settled_done(addressable, reply),
{
    if !addressable {
        return Ok(false);
    }
    match reply {
        Resolution::NotFound => Ok(false),
        Resolution::Failed(message) => Err(ActionError { message }),
        Resolution::Completed(_) => Ok(true),
    }
}

/// Settles an operation that reports a flag of its own, given whether a live
/// object can go by the event's key at all.
pub fn settle_flag(addressable: bool, reply: Resolution<bool>) -> (outcome: Result<
    bool,
    ActionError,
>)
    ensures
        outcome == settled_flag(addressable, reply),
{
    if !addressable {
        return Ok(false);
    }
    match reply {
        Resolution::NotFound => Ok(false),
        Resolution::Failed(message) => Err(ActionError { message }),
        Resolution::Completed(flag) => Ok(flag),
    }
}

/// Settles the request for the comparison symbols, given whether a live
/// object can go by the event's key at all. The symbols come out in the
/// order in which the collaborator lists them.
pub fn settle_emoji(addressable: bool, reply: Resolution<Option<Vec<SasEmoji>>>) -> (outcome:
    Result<Vec<SessionVerificationEmoji>, ActionError>)
    ensures
        match settled_emoji(addressable, reply) {
            Ok(symbols) => outcome matches Ok(list) && shown(list@) == symbols && list@.len()
                == symbols.len(),
            Err(error) => outcome == Err::<Vec<SessionVerificationEmoji>, ActionError>(error),
        },
{
    let mut list: Vec<SessionVerificationEmoji> = Vec::new();
    if !addressable {
        return Ok(list);
    }
    match reply {
        Resolution::NotFound => Ok(list),
        Resolution::Failed(message) => Err(ActionError { message }),
        Resolution::Completed(None) => Ok(list),
        Resolution::Completed(Some(emoji)) => {
            let mut i: usize = 0;
            while i < emoji.len()
                invariant
                    i <= emoji.len(),
                    shown(list@) == described_all(emoji@.take(i as int)),
                decreases emoji.len() - i,
            {
                let descriptor = SessionVerificationEmoji::from_sas(&emoji[i]);
                proof {
                    assert(described_all(emoji@.take(i + 1)) =~= described_all(
                        emoji@.take(i as int),
                    ).push(described(emoji@[i as int])));
                }
                list.push(descriptor);
                i += 1;
            }
            Ok(list)
        },
    }
}

/// Settles one round of sending what the crypto collaborator has queued.
pub fn settle_round(round: Result<(), String>) -> (outcome: Result<bool, ActionError>)
    ensures
        outcome == settled_round(round),
{
    match round {
        Ok(_) => Ok(true),
        Err(message) => Err(ActionError { message }),
    }
}

impl CorrelationKey {
    /// The key of `event`, given whether its sender is a user identity: there
    /// is none if it is not.
    pub fn of_event(event: &SessionVerificationEvent, addressable: bool) -> (key: Option<
        CorrelationKey,
    >)
        ensures
            key is Some <==> addressable,
            key matches Some(k) ==> k.sender@ == event@.sender && k.transaction_id@
                == event@.transaction_id,
    {
        if addressable {
            Some(CorrelationKey { sender: event.get_sender(), transaction_id: event.get_txn_id() })
        } else {
            None
        }
    }
}

impl SessionVerificationEvent {
    /// Whether a live object can go by this event's key at all: the crypto
    /// collaborator files its objects under user identities.
    pub open spec fn addressable(&self) -> bool {
        user_id_accepted(self@.sender)
    }

    /// Whether the sender of this event is a user identity.
    pub fn is_addressable(&self) -> (addressable: bool)
        ensures
            addressable == self.addressable(),
    {
        is_user_id(self.get_sender().as_str())
    }

    /// The key under which the crypto collaborator is asked for the live
    /// object that this event reports on; none if the sender is no user
    /// identity.
    pub fn correlation_key(&self) -> (key: Option<CorrelationKey>)
        ensures
            key is Some <==> self.addressable(),
            key matches Some(k) ==> k.sender@ == self@.sender && k.transaction_id@
                == self@.transaction_id,
    {
        CorrelationKey::of_event(self, self.is_addressable())
    }

    /// Settles the acceptance of the pending verification request.
    pub fn accept_verification_request(&self, reply: Resolution<()>) -> (outcome: Result<
        bool,
        ActionError,
    >)
        ensures
            outcome == settled_done(self.addressable(), reply),
    {
        settle_done(self.is_addressable(), reply)
    }

    /// Settles the cancellation of the pending verification request.
    pub fn cancel_verification_request(&self, reply: Resolution<()>) -> (outcome: Result<
        bool,
        ActionError,
    >)
        ensures
            outcome == settled_done(self.addressable(), reply),
    {
        settle_done(self.is_addressable(), reply)
    }

    /// Settles the acceptance of the pending verification request with the
    /// methods that the application chose.
    pub fn accept_verification_request_with_methods(&self, reply: Resolution<()>) -> (outcome:
        Result<bool, ActionError>)
        ensures
            outcome == settled_done(self.addressable(), reply),
    {
        settle_done(self.is_addressable(), reply)
    }

    /// Settles the start of the comparison on an accepted request. The
    /// collaborator reports whether a session came into being.
    pub fn start_sas_verification(&self, reply: Resolution<bool>) -> (outcome: Result<
        bool,
        ActionError,
    >)
        ensures
            outcome == settled_flag(self.addressable(), reply),
    {
        settle_flag(self.is_addressable(), reply)
    }

    /// Settles the acceptance of the live comparison session.
    pub fn accept_sas_verification(&self, reply: Resolution<()>) -> (outcome: Result<
        bool,
        ActionError,
    >)
        ensures
            outcome == settled_done(self.addressable(), reply),
    {
        settle_done(self.is_addressable(), reply)
    }

    /// Settles the cancellation of the live comparison session.
    pub fn cancel_sas_verification(&self, reply: Resolution<()>) -> (outcome: Result<
        bool,
        ActionError,
    >)
        ensures
            outcome == settled_done(self.addressable(), reply),
    {
        settle_done(self.is_addressable(), reply)
    }

    /// Settles one round of sending what the crypto collaborator has queued.
    /// The round needs no live object.
    pub fn send_verification_key(&self, round: Result<(), String>) -> (outcome: Result<
        bool,
        ActionError,
    >)
        ensures
            outcome == settled_round(round),
    {
        settle_round(round)
    }

    /// Settles the cancellation of the live comparison session at the key
    /// stage.
    pub fn cancel_verification_key(&self, reply: Resolution<()>) -> (outcome: Result<
        bool,
        ActionError,
    >)
        ensures
            outcome == settled_done(self.addressable(), reply),
    {
        settle_done(self.is_addressable(), reply)
    }

    /// Settles the request for the comparison symbols of the live session,
    /// in the order in which the collaborator lists them.
    pub fn get_verification_emoji(&self, reply: Resolution<Option<Vec<SasEmoji>>>) -> (outcome:
        Result<Vec<SessionVerificationEmoji>, ActionError>)
        ensures
            match settled_emoji(self.addressable(), reply) {
                Ok(symbols) => outcome matches Ok(list) && shown(list@) == symbols && list@.len()
                    == symbols.len(),
                Err(error) => outcome == Err::<Vec<SessionVerificationEmoji>, ActionError>(error),
            },
    {
        settle_emoji(self.is_addressable(), reply)
    }

    /// Settles the confirmation that the symbols match. The collaborator
    /// reports whether the session has reached its end.
    pub fn confirm_sas_verification(&self, reply: Resolution<bool>) -> (outcome: Result<
        bool,
        ActionError,
    >)
        ensures
            outcome == settled_flag(self.addressable(), reply),
    {
        settle_flag(self.is_addressable(), reply)
    }

    /// Settles the report that the symbols do not match.
    pub fn mismatch_sas_verification(&self, reply: Resolution<()>) -> (outcome: Result<
        bool,
        ActionError,
    >)
        ensures
            outcome == settled_done(self.addressable(), reply),
    {
        settle_done(self.is_addressable(), reply)
    }

    /// Settles the question whether the live session has reached its end.
    pub fn review_verification_mac(&self, reply: Resolution<bool>) -> (outcome: Result<
        bool,
        ActionError,
    >)
        ensures
            outcome == settled_flag(self.addressable(), reply),
    {
        settle_flag(self.is_addressable(), reply)
    }
}

} // verus!
