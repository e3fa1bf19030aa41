use std::collections::HashMap;

use sentiric_registrar_service::error::{RpcCode, ServiceError};
use sentiric_registrar_service::registrar::{MyRegistrarService, VerifiedIdentity, VerifyError};
use sentiric_registrar_service::store::{
    lookup_command, read_result, register_command, unregister_command, write_result, StoreCommand,
    StoreError, StoreReply,
};

/// Carries out a command on an in-memory keyspace, as a healthy backend would
/// right after the command (no expiry passes).
fn carry_out(db: &mut HashMap<String, String>, cmd: StoreCommand) -> StoreReply {
    match cmd {
        StoreCommand::SetEx { key, value, .. } => {
            db.insert(key, value);
            StoreReply::Done
        }
        StoreCommand::Del { key } => {
            db.remove(&key);
            StoreReply::Done
        }
        StoreCommand::Get { key } => match db.get(&key) {
            Some(v) => StoreReply::Value(v.clone()),
            None => StoreReply::Missing,
        },
    }
}

fn accepted() -> Result<VerifiedIdentity, VerifyError> {
    Ok(VerifiedIdentity { tenant_id: "tenant-1".to_string() })
}

/// Serves a whole Register request against `db`, with the verifier answering `verdict`.
fn register(
    svc: &MyRegistrarService,
    db: &mut HashMap<String, String>,
    aor: &str,
    contact: &str,
    expires: i32,
    verdict: Result<VerifiedIdentity, VerifyError>,
) -> Result<(), ServiceError> {
    svc.begin_register(aor)?;
    let cmd = svc.authorize_register(aor, contact, expires, &verdict)?;
    let reply = carry_out(db, cmd);
    svc.finish_register(&reply)
}

fn unregister(svc: &MyRegistrarService, db: &mut HashMap<String, String>, aor: &str) -> Result<(), ServiceError> {
    let reply = carry_out(db, svc.begin_unregister(aor));
    svc.finish_unregister(&reply)
}

fn lookup(svc: &MyRegistrarService, db: &mut HashMap<String, String>, aor: &str) -> Vec<String> {
    let reply = carry_out(db, svc.begin_lookup(aor));
    svc.finish_lookup(reply)
}

fn service() -> MyRegistrarService {
    MyRegistrarService::new("sentiric.cloud".to_string())
}

#[test]
fn register_then_lookup_finds_the_contact() {
    let svc = service();
    let mut db = HashMap::new();
    assert_eq!(register(&svc, &mut db, "sip:alice@x", "sip:alice@1.2.3.4:5060", 30, accepted()), Ok(()));
    assert_eq!(lookup(&svc, &mut db, "sip:alice@x"), vec!["sip:alice@1.2.3.4:5060".to_string()]);
    assert_eq!(lookup(&svc, &mut db, "<sip:alice@other>;tag=9"), vec!["sip:alice@1.2.3.4:5060".to_string()]);
}

#[test]
fn zero_expiry_deletes() {
    let svc = service();
    let mut db = HashMap::new();
    assert_eq!(register(&svc, &mut db, "sip:alice@x", "sip:1.2.3.4:5060", 30, accepted()), Ok(()));
    assert_eq!(register(&svc, &mut db, "sip:alice@x", "sip:1.2.3.4:5060", 0, accepted()), Ok(()));
    assert_eq!(lookup(&svc, &mut db, "sip:alice@x"), Vec::<String>::new());
}

#[test]
fn negative_expiry_deletes() {
    let cmd = register_command("sip:alice@x", "sip:1.2.3.4:5060", -5);
    assert!(matches!(cmd, StoreCommand::Del { ref key } if key == "sip_reg:alice"));
}

#[test]
fn positive_expiry_writes_with_that_ttl() {
    let cmd = register_command("<sip:alice@x>", "sip:1.2.3.4:5060", 30);
    match cmd {
        StoreCommand::SetEx { key, value, ttl_secs } => {
            assert_eq!(key, "sip_reg:alice");
            assert_eq!(value, "sip:1.2.3.4:5060");
            assert_eq!(ttl_secs, 30);
        }
        other => panic!("unexpected command {:?}", other),
    }
}

#[test]
fn unregister_and_lookup_commands_use_the_canonical_key() {
    assert!(matches!(unregister_command("sip:bob@h"), StoreCommand::Del { ref key } if key == "sip_reg:bob"));
    assert!(matches!(lookup_command("bob@h"), StoreCommand::Get { ref key } if key == "sip_reg:bob"));
}

#[test]
fn unregister_of_unknown_aor_succeeds() {
    let svc = service();
    let mut db = HashMap::new();
    assert_eq!(unregister(&svc, &mut db, "sip:nobody@x"), Ok(()));
    assert!(db.is_empty());
}

#[test]
fn unregister_removes_the_registration() {
    let svc = service();
    let mut db = HashMap::new();
    assert_eq!(register(&svc, &mut db, "sip:alice@x", "sip:1.2.3.4:5060", 30, accepted()), Ok(()));
    assert_eq!(unregister(&svc, &mut db, "sip:alice@x"), Ok(()));
    assert_eq!(lookup(&svc, &mut db, "sip:alice@x"), Vec::<String>::new());
}

#[test]
fn second_register_overwrites_the_first() {
    let svc = service();
    let mut db = HashMap::new();
    assert_eq!(register(&svc, &mut db, "sip:alice@x", "sip:1.1.1.1:5060", 30, accepted()), Ok(()));
    assert_eq!(register(&svc, &mut db, "sip:alice@x", "sip:2.2.2.2:5060", 30, accepted()), Ok(()));
    assert_eq!(lookup(&svc, &mut db, "sip:alice@x"), vec!["sip:2.2.2.2:5060".to_string()]);
}

#[test]
fn rejected_identity_is_unauthenticated_and_writes_nothing() {
    let svc = service();
    let mut db = HashMap::new();
    let r = register(&svc, &mut db, "sip:alice@x", "sip:1.2.3.4:5060", 30, Err(VerifyError::Rejected));
    assert_eq!(r, Err(ServiceError::Unauthorized));
    assert_eq!(r.unwrap_err().status_code(), RpcCode::Unauthenticated);
    assert!(db.is_empty());
    assert_eq!(lookup(&svc, &mut db, "sip:alice@x"), Vec::<String>::new());
}

#[test]
fn every_verifier_failure_reads_as_unauthorized() {
    let svc = service();
    for e in [VerifyError::Rejected, VerifyError::NotFound, VerifyError::Unreachable] {
        let r = svc.authorize_register("sip:alice@x", "sip:1.2.3.4:5060", 30, &Err(e));
        assert_eq!(r.unwrap_err(), ServiceError::Unauthorized);
    }
}

#[test]
fn malformed_aor_is_invalid_argument() {
    let svc = service();
    for aor in ["   ", ";;;", "", "sip:@h", "<>"] {
        let r = svc.begin_register(aor);
        assert_eq!(r.as_ref().unwrap_err(), &ServiceError::InvalidInput);
        assert_eq!(r.unwrap_err().status_code(), RpcCode::InvalidArgument);
    }
}

#[test]
fn verify_request_carries_user_and_realm() {
    let svc = service();
    let req = svc.begin_register("\"Alice\" <sip:alice@example.com>;tag=3").unwrap();
    assert_eq!(req.username, "alice");
    assert_eq!(req.realm, "sentiric.cloud");
}

#[test]
fn failed_write_is_internal() {
    let svc = service();
    let r = svc.finish_register(&StoreReply::Failed);
    assert_eq!(r, Err(ServiceError::StoreUnavailable));
    assert_eq!(r.unwrap_err().status_code(), RpcCode::Internal);
    assert_eq!(svc.finish_unregister(&StoreReply::Failed), Err(ServiceError::StoreUnavailable));
    assert_eq!(svc.finish_unregister(&StoreReply::Done), Ok(()));
}

#[test]
fn failed_read_lists_nothing() {
    let svc = service();
    assert_eq!(svc.finish_lookup(StoreReply::Failed), Vec::<String>::new());
    assert_eq!(svc.finish_lookup(StoreReply::Missing), Vec::<String>::new());
    assert_eq!(svc.finish_lookup(StoreReply::Value("sip:9.9.9.9".to_string())), vec!["sip:9.9.9.9".to_string()]);
}

#[test]
fn store_results() {
    assert_eq!(write_result(&StoreReply::Done), Ok(()));
    assert_eq!(write_result(&StoreReply::Failed), Err(StoreError::Unavailable));
    assert_eq!(read_result(StoreReply::Value("c".to_string())), Some("c".to_string()));
    assert_eq!(read_result(StoreReply::Missing), None);
    assert_eq!(read_result(StoreReply::Failed), None);
}

#[test]
fn error_messages_carry_no_detail() {
    assert_eq!(ServiceError::Unauthorized.message(), "unauthenticated");
    assert_eq!(ServiceError::StoreUnavailable.message(), "internal error");
    assert_eq!(ServiceError::InvalidInput.message(), "address-of-record carries no identity");
}
