//! The registration store's logic: which single command each operation sends to the
//! key-value backend, and what each answer of the backend means. Sending the command
//! over the shared connection is left to the caller.
use vstd::prelude::*;
use crate::canonical::{canonical_key, canonicalize};

verus! {

/// What the backend holds, as this system sees it: canonical key to contact.
pub type Keyspace = Map<Seq<char>, Seq<char>>;

/// One primitive backend command.
#[derive(Debug, Clone)]
pub enum StoreCommand {
    /// Write `value` under `key`, overwriting any value there, to expire after
    /// `ttl_secs` seconds.
    SetEx { key: String, value: String, ttl_secs: u64 },
    /// Remove `key`; removing an absent key is no error.
    Del { key: String },
    /// Read the value under `key`.
    Get { key: String },
}

/// A backend command as a mathematical value.
pub ghost enum CommandView {
    SetEx { key: Seq<char>, value: Seq<char>, ttl_secs: nat },
    Del { key: Seq<char> },
    Get { key: Seq<char> },
}

impl View for StoreCommand {
    type V = CommandView;

    open spec fn view(&self) -> CommandView {
        match self {
            StoreCommand::SetEx { key, value, ttl_secs } => CommandView::SetEx {
                key: key@,
                value: value@,
                ttl_secs: *ttl_secs as nat,
            },
            StoreCommand::Del { key } => CommandView::Del { key: key@ },
            StoreCommand::Get { key } => CommandView::Get { key: key@ },
        }
    }
}

/// The backend's answer to one command.
#[derive(Debug, Clone)]
pub enum StoreReply {
    /// A write or a delete went through.
    Done,
    /// A read found this value.
    Value(String),
    /// A read found nothing under the key.
    Missing,
    /// The round trip failed.
    Failed,
}

/// A backend answer as a mathematical value.
pub ghost enum ReplyView {
    Done,
    Value(Seq<char>),
    Missing,
    Failed,
}

impl View for StoreReply {
    type V = ReplyView;

    open spec fn view(&self) -> ReplyView {
        match self {
            StoreReply::Done => ReplyView::Done,
            StoreReply::Value(v) => ReplyView::Value(v@),
            StoreReply::Missing => ReplyView::Missing,
            StoreReply::Failed => ReplyView::Failed,
        }
    }
}

/// A write or delete that the backend did not carry out.
#[derive(Debug, Clone, Copy, PartialEq, Eq, Structural)]
pub enum StoreError {
    Unavailable,
}

/// The keyspace once a healthy backend has carried out `cmd` (before any expiry).
pub open spec fn apply(db: Keyspace, cmd: CommandView) -> Keyspace {
    match cmd {
        CommandView::SetEx { key, value, .. } => db.insert(key, value),
        CommandView::Del { key } => db.remove(key),
        CommandView::Get { .. } => db,
    }
}

/// What a healthy backend holding `db` answers to `cmd`.
pub open spec fn answer(db: Keyspace, cmd: CommandView) -> ReplyView {
    match cmd {
        CommandView::Get { key } => if db.contains_key(key) {
            ReplyView::Value(db[key])
        } else {
            ReplyView::Missing
        },
        _ => ReplyView::Done,
    }
}

/// The command that registers `contact` for `aor` for `expires` seconds; a zero or
/// negative expiry revokes the registration instead.
pub open spec fn register_intent(aor: Seq<char>, contact: Seq<char>, expires: int) -> CommandView {
    if expires <= 0 {
        CommandView::Del { key: canonical_key(aor) }
    } else {
        CommandView::SetEx { key: canonical_key(aor), value: contact, ttl_secs: expires as nat }
    }
}

/// The command that removes the registration of `aor`.
pub open spec fn unregister_intent(aor: Seq<char>) -> CommandView {
    CommandView::Del { key: canonical_key(aor) }
}

/// The command that reads the contact registered for `aor`.
pub open spec fn lookup_intent(aor: Seq<char>) -> CommandView {
    CommandView::Get { key: canonical_key(aor) }
}

/// The outcome of a write or delete, given the backend's answer.
pub open spec fn write_outcome(reply: ReplyView) -> Result<(), StoreError> {
    if reply is Failed {
        Err(StoreError::Unavailable)
    } else {
        Ok(())
    }
}

/// The contact a read yields, given the backend's answer: any failure reads as absence.
pub open spec fn read_outcome(reply: ReplyView) -> Option<Seq<char>> {
    match reply {
        ReplyView::Value(v) => Some(v),
        _ => None,
    }
}

/// The command for `register(aor, contact, expires)`: write `contact` under the
/// canonical key of `aor` with expiry `expires`, or delete that key when
/// `expires <= 0`.
pub fn register_command(aor: &str, contact: &str, expires: i32) -> (cmd: StoreCommand)
    ensures
        cmd@ == register_intent(aor@, contact@, expires as int),
{
    let key = canonicalize(aor);
    if expires <= 0 {
        StoreCommand::Del { key }
    } else {
        StoreCommand::SetEx { key, value: contact.to_owned(), ttl_secs: expires as u64 }
    }
}

/// The command for `unregister(aor)`: delete the canonical key of `aor`.
pub fn unregister_command(aor: &str) -> (cmd: StoreCommand)
    ensures
        cmd@ == unregister_intent(aor@),
{
    StoreCommand::Del { key: canonicalize(aor) }
}

/// The command for `lookup(aor)`: read the canonical key of `aor`.
pub fn lookup_command(aor: &str) -> (cmd: StoreCommand)
    ensures
        cmd@ == lookup_intent(aor@),
{
    StoreCommand::Get { key: canonicalize(aor) }
}

/// The result of a write or delete: failures propagate.
pub fn write_result(reply: &StoreReply) -> (r: Result<(), StoreError>)
    ensures
        r == write_outcome(reply@),
{
    match reply {
        StoreReply::Failed => Err(StoreError::Unavailable),
        _ => Ok(()),
    }
}

/// The result of a read: the value found, or `None` on absence and on any failure alike.
pub fn read_result(reply: StoreReply) -> (r: Option<String>)
    ensures
        r.is_some() == read_outcome(reply@).is_some(),
        r.is_some() ==> r.unwrap()@ == read_outcome(reply@).unwrap(),
{
    match reply {
        StoreReply::Value(v) => Some(v),
        _ => None,
    }
}

} // verus!
