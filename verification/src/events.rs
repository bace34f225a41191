//! Payment events: the untrusted record as it was read, and the validated
//! event that the ledger accepts.

use crate::Amount;
use vstd::prelude::*;
use vstd::std_specs::convert::TryFromSpecImpl;
use vstd::string::StringSliceAdditionalSpecFns;
use vstd::utf8::encode_utf8_decode_utf8;

verus! {

/// A raw, unvalidated payment record.
#[derive(Debug)]
pub struct Record {
    /// The type of payment event: one of `deposit`, `withdrawal`, `dispute`,
    /// `resolve`, `chargeback` in a valid record.
    pub kind: String,
    /// The client that the record addresses.
    pub client: u16,
    /// The transaction that the record addresses.
    pub tx: u32,
    /// The amount of funds, required for deposits and withdrawals and
    /// ignored for every other type.
    pub amount: Option<Amount>,
}

impl Clone for Record {
    fn clone(&self) -> (copy: Record)
        ensures
            copy == *self,
    {
        Record { kind: self.kind.clone(), client: self.client, tx: self.tx, amount: self.amount }
    }
}

/// The supported payment events with the data specific to each.
#[derive(Clone, Copy, Debug, PartialEq, Eq, Structural)]
pub enum EventType {
    /// An addition of funds to a client's account.
    Deposit(Amount),
    /// A deduction of funds from a client's account.
    Withdrawal(Amount),
    /// A request to contest a deposit.
    Dispute,
    /// A request to release a contested deposit.
    Resolve,
    /// A request to take back a contested deposit and freeze the account.
    Chargeback,
}

/// Why a record is no valid event.
#[derive(Clone, Copy, Debug, PartialEq, Eq, Structural)]
pub enum ValidationError {
    /// The record's type is none of the five recognised words.
    UnknownEventType,
    /// A deposit or withdrawal came without an amount.
    MissingAmount,
}

/// A valid payment event. The only way to one is to validate a [`Record`]
/// with `Event::try_from`.
#[derive(Clone, Copy, Debug)]
pub struct Event {
    client: u16,
    tx: u32,
    kind: EventType,
}

/// The event type that a record's type word and amount stand for.
/// The word is matched exactly and with case; an amount on a dispute,
/// resolve or chargeback is dropped.
pub open spec fn classify(word: Seq<char>, amount: Option<Amount>) -> Result<
    EventType,
    ValidationError,
> {
    if word == "deposit"@ {
        match amount {
            Some(a) => Ok(EventType::Deposit(a)),
            None => Err(ValidationError::MissingAmount),
        }
    } else if word == "withdrawal"@ {
        match amount {
            Some(a) => Ok(EventType::Withdrawal(a)),
            None => Err(ValidationError::MissingAmount),
        }
    } else if word == "dispute"@ {
        Ok(EventType::Dispute)
    } else if word == "resolve"@ {
        Ok(EventType::Resolve)
    } else if word == "chargeback"@ {
        Ok(EventType::Chargeback)
    } else {
        Err(ValidationError::UnknownEventType)
    }
}

/// Whether two strings hold the same characters.
fn same_text(left: &str, right: &str) -> (same: bool)
    ensures
        same == (left@ == right@),
{
    let a = left.as_bytes();
    let b = right.as_bytes();
    proof {
        // Equal encodings decode to equal texts.
        encode_utf8_decode_utf8(left@);
        encode_utf8_decode_utf8(right@);
    }
    if a.len() != b.len() {
        return false;
    }
    let mut i: usize = 0;
    while i < a.len()
        invariant
            i <= a.len(),
            a.len() == b.len(),
            a@ == left.spec_bytes(),
            b@ == right.spec_bytes(),
            forall|j: int| 0 <= j < i ==> a@[j] == b@[j],
        decreases a.len() - i,
    {
        if a[i] != b[i] {
            return false;
        }
        i += 1;
    }
    assert(a@ =~= b@);
    true
}

impl Event {
    /// What [`Event::client_id`] returns.
    pub closed spec fn spec_client_id(&self) -> u16 {
        self.client
    }

    /// What [`Event::tx`] returns.
    pub closed spec fn spec_tx(&self) -> u32 {
        self.tx
    }

    /// What [`Event::kind`] returns.
    pub closed spec fn spec_kind(&self) -> &EventType {
        &self.kind
    }

    /// The client that the event addresses.
    #[verifier::when_used_as_spec(spec_client_id)]
    pub fn client_id(&self) -> (id: u16)
        ensures
            id == self.client_id(),
    {
        self.client
    }

    /// The transaction that the event addresses.
    #[verifier::when_used_as_spec(spec_tx)]
    pub fn tx(&self) -> (tx: u32)
        ensures
            tx == self.tx(),
    {
        self.tx
    }

    /// The type of the event and the data that comes with it.
    #[verifier::when_used_as_spec(spec_kind)]
    pub fn kind(&self) -> (kind: &EventType)
        ensures
            kind == self.kind(),
    {
        &self.kind
    }

    /// The event for `client` and `tx` of type `kind`.
    pub closed spec fn valid(client: u16, tx: u32, kind: EventType) -> Event {
        Event { client, tx, kind }
    }

    /// An event is made of its client, its transaction and its type.
    pub proof fn lemma_valid_fields(client: u16, tx: u32, kind: EventType)
        ensures
            Event::valid(client, tx, kind).client_id() == client,
            Event::valid(client, tx, kind).tx() == tx,
            *Event::valid(client, tx, kind).kind() == kind,
    {
    }
}

impl TryFromSpecImpl<Record> for Event {
    open spec fn obeys_try_from_spec() -> bool {
        true
    }

    /// The event keeps the record's client and transaction; its type is
    /// what [`classify`] makes of the record's type word and amount, and a
    /// record that `classify` rejects is rejected with the same error.
    open spec fn try_from_spec(record: Record) -> Result<Event, ValidationError> {
        match classify(record.kind@, record.amount) {
            Ok(kind) => Ok(Event::valid(record.client, record.tx, kind)),
            Err(error) => Err(error),
        }
    }
}

impl TryFrom<Record> for Event {
    type Error = ValidationError;

    /// Validates a record: see [`Event::try_from_spec`].
    fn try_from(record: Record) -> (res: Result<Event, ValidationError>)
        ensures
            match classify(record.kind@, record.amount) {
                Ok(kind) => res is Ok && res->Ok_0.client_id() == record.client && res->Ok_0.tx()
                    == record.tx && *res->Ok_0.kind() == kind,
                Err(error) => res == Err::<Event, ValidationError>(error),
            },
    {
        let word = record.kind.as_str();
        let kind = if same_text(word, "deposit") {
            match record.amount {
                Some(amount) => EventType::Deposit(amount),
                None => {
                    return Err(ValidationError::MissingAmount);
                },
            }
        } else if same_text(word, "withdrawal") {
            match record.amount {
                Some(amount) => EventType::Withdrawal(amount),
                None => {
                    return Err(ValidationError::MissingAmount);
                },
            }
        } else if same_text(word, "dispute") {
            EventType::Dispute
        } else if same_text(word, "resolve") {
            EventType::Resolve
        } else if same_text(word, "chargeback") {
            EventType::Chargeback
        } else {
            return Err(ValidationError::UnknownEventType);
        };
        Ok(Event { client: record.client, tx: record.tx, kind })
    }
}

} // verus!
