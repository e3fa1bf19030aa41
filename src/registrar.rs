//! The registrar coordinator: the decisions behind the Register, Unregister and
//! LookupContact RPCs. Each request runs as a short sequence of steps; between two steps
//! the caller performs what the first one asked for (a verifier call, a backend round
//! trip) and hands its outcome to the next.
use vstd::prelude::*;
use crate::canonical::{canonical_key, extract_username, user_token};
use crate::error::{code_of, RpcCode, ServiceError};
use crate::store::{
    answer, apply, lookup_command, lookup_intent, read_outcome, read_result, register_command,
    register_intent, unregister_command, unregister_intent, write_outcome, write_result,
    Keyspace, ReplyView, StoreCommand, StoreReply,
};

verus! {

/// What the credential verifier confirms of an identity allowed to register.
#[derive(Debug, Clone)]
pub struct VerifiedIdentity {
    pub tenant_id: String,
}

/// Why the credential verifier did not confirm an identity.
#[derive(Debug, Clone, Copy, PartialEq, Eq, Structural)]
pub enum VerifyError {
    /// The verifier refused the identity.
    Rejected,
    /// The verifier knows no such identity.
    NotFound,
    /// The verifier could not be reached or failed.
    Unreachable,
}

/// A question for the credential verifier: may `username` register in `realm`?
#[derive(Debug, Clone)]
pub struct VerifyRequest {
    pub username: String,
    pub realm: String,
}

/// The registrar service; `realm` is the deployment's fixed verification realm.
pub struct MyRegistrarService {
    realm: String,
}

/// The outcome of a write or delete as reported to the caller.
pub open spec fn reported(r: Result<(), crate::store::StoreError>) -> Result<(), ServiceError> {
    match r {
        Ok(()) => Ok(()),
        Err(_) => Err(ServiceError::StoreUnavailable),
    }
}

/// The contacts listed for the result of a read: none, or the one found.
pub open spec fn contacts_of(found: Option<Seq<char>>) -> Seq<Seq<char>> {
    match found {
        Some(c) => seq![c],
        None => Seq::empty(),
    }
}

/// The reply to `Register(aor, contact, expires)` and the keyspace after it, when the
/// verifier's verdict is `verified` and a healthy backend holds `db`.
pub open spec fn register_flow(
    db: Keyspace,
    aor: Seq<char>,
    contact: Seq<char>,
    expires: int,
    verified: bool,
) -> (Result<(), ServiceError>, Keyspace) {
    if user_token(aor).len() == 0 {
        (Err(ServiceError::InvalidInput), db)
    } else if !verified {
        (Err(ServiceError::Unauthorized), db)
    } else {
        let cmd = register_intent(aor, contact, expires);
        (reported(write_outcome(answer(db, cmd))), apply(db, cmd))
    }
}

/// The reply to `Unregister(aor)` and the keyspace after it, on a healthy backend
/// holding `db`.
pub open spec fn unregister_flow(db: Keyspace, aor: Seq<char>) -> (
    Result<(), ServiceError>,
    Keyspace,
) {
    let cmd = unregister_intent(aor);
    (reported(write_outcome(answer(db, cmd))), apply(db, cmd))
}

/// The contacts that `LookupContact(aor)` lists on a healthy backend holding `db`.
pub open spec fn lookup_flow(db: Keyspace, aor: Seq<char>) -> Seq<Seq<char>> {
    contacts_of(read_outcome(answer(db, lookup_intent(aor))))
}

impl MyRegistrarService {
    /// A registrar that verifies identities in `realm`.
    pub fn new(realm: String) -> (r: Self)
        ensures
            r.realm() == realm@,
    {
        MyRegistrarService { realm }
    }

    /// The verification realm.
    pub closed spec fn realm(&self) -> Seq<char> {
        self.realm@
    }

    /// Register, first step: reject an AOR without an identity token with
    /// `InvalidInput`; else ask the verifier about its user token in the realm.
    pub fn begin_register(&self, sip_uri: &str) -> (r: Result<VerifyRequest, ServiceError>)
        ensures
            user_token(sip_uri@).len() == 0 <==> r is Err,
            r is Err ==> r == Err::<VerifyRequest, ServiceError>(ServiceError::InvalidInput),
            r is Ok ==> r->Ok_0.username@ == user_token(sip_uri@) && r->Ok_0.realm@
                == self.realm(),
    {
        let username = extract_username(sip_uri);
        if username.as_str().is_empty() {
            return Err(ServiceError::InvalidInput);
        }
        Ok(VerifyRequest { username, realm: self.realm.clone() })
    }

    /// Register, second step, once the credential verifier has answered: any failure of
    /// verification is `Unauthorized` and no command is issued; else the command that
    /// registers `contact_uri` for `sip_uri` with expiry `expires`.
    pub fn authorize_register(
        &self,
        sip_uri: &str,
        contact_uri: &str,
        expires: i32,
        verdict: &Result<VerifiedIdentity, VerifyError>,
    ) -> (r: Result<StoreCommand, ServiceError>)
        ensures
            verdict is Err <==> r is Err,
            r is Err ==> r->Err_0 == ServiceError::Unauthorized,
            r is Ok ==> r->Ok_0@ == register_intent(sip_uri@, contact_uri@, expires as int),
    {
        match verdict {
            Ok(_) => Ok(register_command(sip_uri, contact_uri, expires)),
            Err(_) => Err(ServiceError::Unauthorized),
        }
    }

    /// Register, last step, given the backend's answer: a failed write is
    /// `StoreUnavailable`; else success.
    pub fn finish_register(&self, reply: &StoreReply) -> (r: Result<(), ServiceError>)
        ensures
            r == reported(write_outcome(reply@)),
    {
        match write_result(reply) {
            Ok(()) => Ok(()),
            Err(_) => Err(ServiceError::StoreUnavailable),
        }
    }

    /// Unregister, first step: the command that deletes the registration of `sip_uri`.
    /// No authorization is asked for.
    pub fn begin_unregister(&self, sip_uri: &str) -> (cmd: StoreCommand)
        ensures
            cmd@ == unregister_intent(sip_uri@),
    {
        unregister_command(sip_uri)
    }

    /// Unregister, last step: success unless the delete failed, whether or not anything
    /// was registered.
    pub fn finish_unregister(&self, reply: &StoreReply) -> (r: Result<(), ServiceError>)
        ensures
            r == reported(write_outcome(reply@)),
    {
        match write_result(reply) {
            Ok(()) => Ok(()),
            Err(_) => Err(ServiceError::StoreUnavailable),
        }
    }

    /// LookupContact, first step: the command that reads the registration of `sip_uri`.
    pub fn begin_lookup(&self, sip_uri: &str) -> (cmd: StoreCommand)
        ensures
            cmd@ == lookup_intent(sip_uri@),
    {
        lookup_command(sip_uri)
    }

    /// LookupContact, last step: the contacts to list, the one found or none. Never an
    /// error: a failed read lists none, as absence does.
    pub fn finish_lookup(&self, reply: StoreReply) -> (r: Vec<String>)
        ensures
            r@.map_values(|c: String| c@) == contacts_of(read_outcome(reply@)),
    {
        let mut contacts: Vec<String> = Vec::new();
        match read_result(reply) {
            Some(c) => {
                contacts.push(c);
            },
            None => {},
        }
        assert(contacts@.map_values(|c: String| c@) =~= contacts_of(read_outcome(reply@)));
        contacts
    }
}

/// A registration with a positive expiry is found by a lookup right after it: the lookup
/// lists exactly the contact registered.
pub proof fn lemma_register_then_lookup(db: Keyspace, aor: Seq<char>, contact: Seq<char>, expires: int)
    requires
        expires > 0,
    ensures
        lookup_flow(apply(db, register_intent(aor, contact, expires)), aor) == seq![contact],
{
}

/// A registration with a zero or negative expiry deletes: a lookup right after it lists
/// nothing, whatever was registered before.
pub proof fn lemma_zero_expiry_deletes(db: Keyspace, aor: Seq<char>, contact: Seq<char>, expires: int)
    requires
        expires <= 0,
    ensures
        lookup_flow(apply(db, register_intent(aor, contact, expires)), aor) == Seq::<Seq<char>>::empty(),
{
}

/// Unregistering an AOR that holds no registration succeeds and changes nothing.
pub proof fn lemma_unregister_absent(db: Keyspace, aor: Seq<char>)
    requires
        !db.contains_key(canonical_key(aor)),
    ensures
        unregister_flow(db, aor).0 == Ok::<(), ServiceError>(()),
        unregister_flow(db, aor).1 == db,
{
    assert(db.remove(canonical_key(aor)) =~= db);
}

/// A second registration of the same AOR replaces the first: a lookup lists only the
/// second contact.
pub proof fn lemma_register_overwrites(
    db: Keyspace,
    aor: Seq<char>,
    first: Seq<char>,
    second: Seq<char>,
    expires1: int,
    expires2: int,
)
    requires
        expires1 > 0,
        expires2 > 0,
    ensures
        lookup_flow(
            apply(apply(db, register_intent(aor, first, expires1)), register_intent(aor, second, expires2)),
            aor,
        ) == seq![second],
{
}

/// When the verifier rejects the identity of an AOR, Register fails with
/// `Unauthorized` (reported as `Unauthenticated`) and writes nothing, so a lookup of an
/// AOR that was not registered before still lists nothing.
pub proof fn lemma_rejected_register_writes_nothing(
    db: Keyspace,
    aor: Seq<char>,
    contact: Seq<char>,
    expires: int,
)
    requires
        user_token(aor).len() > 0,
        !db.contains_key(canonical_key(aor)),
    ensures
        register_flow(db, aor, contact, expires, false).0 == Err::<(), ServiceError>(
            ServiceError::Unauthorized,
        ),
        code_of(ServiceError::Unauthorized) == RpcCode::Unauthenticated,
        register_flow(db, aor, contact, expires, false).1 == db,
        lookup_flow(register_flow(db, aor, contact, expires, false).1, aor) == Seq::<
            Seq<char>,
        >::empty(),
{
}

} // verus!
