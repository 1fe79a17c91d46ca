use atom_pw::account::{Account, AccountError, Outcome, Pending, Step};
use atom_pw::codec::encode_le;
use atom_pw::config::Argon2Config;
use atom_pw::hashing::HashEngine;
use atom_pw::store::{MemStore, Reply, Request};

fn engine() -> HashEngine {
    Argon2Config {
        pepper: "pepper".to_string(),
        algorithm: "Argon2id".to_string(),
        version: 19,
        m_cost: 8,
        t_cost: 1,
        p_cost: 1,
        output_len: 32,
    }
    .to_argon2()
}

fn create(s: &mut MemStore, e: &HashEngine, pw: &str) -> Result<Outcome, AccountError> {
    s.run(e, Account::create(pw.to_string()))
}

fn check(s: &mut MemStore, e: &HashEngine, id: u64, pw: &str) -> Result<Outcome, AccountError> {
    s.run(e, Account::check(id, pw.to_string()))
}

fn set(s: &mut MemStore, e: &HashEngine, id: u64, pw: &str) -> Result<Outcome, AccountError> {
    s.run(e, Account::set(id, pw.to_string()))
}

fn remove(s: &mut MemStore, e: &HashEngine, id: u64) -> Result<Outcome, AccountError> {
    s.run(e, Account::remove(id))
}

const TRUE: Result<Outcome, AccountError> = Ok(Outcome::Checked { matches: true });
const FALSE: Result<Outcome, AccountError> = Ok(Outcome::Checked { matches: false });
const NOT_FOUND: Result<Outcome, AccountError> = Err(AccountError::NotFound);

#[test]
fn full_lifecycle_scenario() {
    let e = engine();
    let mut s = MemStore::new();
    assert_eq!(create(&mut s, &e, "secret1"), Ok(Outcome::Created { id: 1 }));
    assert_eq!(check(&mut s, &e, 1, "secret1"), TRUE);
    assert_eq!(set(&mut s, &e, 1, "secret2"), Ok(Outcome::PasswordSet));
    assert_eq!(check(&mut s, &e, 1, "secret1"), FALSE);
    assert_eq!(check(&mut s, &e, 1, "secret2"), TRUE);
    assert_eq!(remove(&mut s, &e, 1), Ok(Outcome::Removed));
    assert_eq!(check(&mut s, &e, 1, "secret2"), NOT_FOUND);
}

#[test]
fn create_then_check_accepts_password() {
    let e = engine();
    let mut s = MemStore::new();
    create(&mut s, &e, "a").unwrap();
    let Ok(Outcome::Created { id }) = create(&mut s, &e, "b") else { panic!() };
    assert_eq!(check(&mut s, &e, id, "b"), TRUE);
}

#[test]
fn create_then_check_rejects_wrong_password() {
    let e = engine();
    let mut s = MemStore::new();
    let Ok(Outcome::Created { id }) = create(&mut s, &e, "right") else { panic!() };
    assert_eq!(check(&mut s, &e, id, "wrong"), FALSE);
    assert_eq!(check(&mut s, &e, id, ""), FALSE);
}

#[test]
fn set_replaces_password() {
    let e = engine();
    let mut s = MemStore::new();
    create(&mut s, &e, "old pw").unwrap();
    assert_eq!(set(&mut s, &e, 1, "new pw"), Ok(Outcome::PasswordSet));
    assert_eq!(check(&mut s, &e, 1, "old pw"), FALSE);
    assert_eq!(check(&mut s, &e, 1, "new pw"), TRUE);
    assert_eq!(s.get(1), e.hash("new pw", 1));
}

#[test]
fn removed_account_is_not_found() {
    let e = engine();
    let mut s = MemStore::new();
    create(&mut s, &e, "p").unwrap();
    assert_eq!(remove(&mut s, &e, 1), Ok(Outcome::Removed));
    assert_eq!(set(&mut s, &e, 1, "q"), NOT_FOUND);
    assert_eq!(check(&mut s, &e, 1, "p"), NOT_FOUND);
    assert_eq!(remove(&mut s, &e, 1), NOT_FOUND);
    assert_eq!(s.get(1), None);
}

#[test]
fn unknown_account_is_not_found() {
    let e = engine();
    let mut s = MemStore::new();
    assert_eq!(set(&mut s, &e, 5, "q"), NOT_FOUND);
    assert_eq!(check(&mut s, &e, 5, "q"), NOT_FOUND);
    assert_eq!(remove(&mut s, &e, 5), NOT_FOUND);
}

#[test]
fn identifier_zero_is_not_found() {
    let e = engine();
    let mut s = MemStore::new();
    assert_eq!(set(&mut s, &e, 0, "p"), NOT_FOUND);
    assert_eq!(check(&mut s, &e, 0, "p"), NOT_FOUND);
    assert_eq!(remove(&mut s, &e, 0), NOT_FOUND);
    create(&mut s, &e, "p").unwrap();
    let counter = s.get(0);
    assert_eq!(counter, Some(encode_le(1)));
    assert_eq!(set(&mut s, &e, 0, "p"), NOT_FOUND);
    assert_eq!(check(&mut s, &e, 0, "p"), NOT_FOUND);
    assert_eq!(remove(&mut s, &e, 0), NOT_FOUND);
    assert_eq!(s.get(0), counter);
    assert!(matches!(Account::remove(0), Step::Done { result: Err(AccountError::NotFound) }));
}

#[test]
fn creates_count_up_from_one() {
    let e = engine();
    let mut s = MemStore::new();
    assert_eq!(create(&mut s, &e, "a"), Ok(Outcome::Created { id: 1 }));
    assert_eq!(create(&mut s, &e, "b"), Ok(Outcome::Created { id: 2 }));
    assert_eq!(create(&mut s, &e, "c"), Ok(Outcome::Created { id: 3 }));
    assert_eq!(s.get(0), Some(encode_le(3)));
    assert_eq!(remove(&mut s, &e, 3), Ok(Outcome::Removed));
    assert_eq!(create(&mut s, &e, "d"), Ok(Outcome::Created { id: 4 }));
}

#[test]
fn create_stores_hash_under_new_id() {
    let e = engine();
    let mut s = MemStore::new();
    create(&mut s, &e, "pw").unwrap();
    assert_eq!(s.get(1), e.hash("pw", 1));
}

#[test]
fn create_steps_through_counter() {
    let e = engine();
    let Step::Send { next, request } = Account::create("pw".to_string()) else { panic!() };
    assert!(matches!(request, Request::Find { id: 0 }));
    let Step::Send { next, request } = next.resume(&e, Reply::Found { pw_hash: Some(encode_le(41)) }) else {
        panic!()
    };
    let Request::Update { id: 0, pw_hash } = request else { panic!() };
    assert_eq!(pw_hash, encode_le(42));
    let Step::Send { next, request } = next.resume(&e, Reply::Updated { matched: 1 }) else { panic!() };
    let Request::Insert { id: 42, pw_hash } = request else { panic!() };
    assert_eq!(Some(pw_hash), e.hash("pw", 42));
    let Step::Done { result } = next.resume(&e, Reply::Inserted) else { panic!() };
    assert_eq!(result, Ok(Outcome::Created { id: 42 }));
}

#[test]
fn bad_counter_record() {
    let e = engine();
    let short = Pending::ReadCounter { pw: "pw".to_string() };
    let Step::Done { result } = short.resume(&e, Reply::Found { pw_hash: Some(vec![1, 2, 3]) }) else {
        panic!()
    };
    assert_eq!(result, Err(AccountError::BadCounter));
    let full = Pending::ReadCounter { pw: "pw".to_string() };
    let Step::Done { result } = full.resume(&e, Reply::Found { pw_hash: Some(encode_le(u64::MAX)) }) else {
        panic!()
    };
    assert_eq!(result, Err(AccountError::BadCounter));
}

#[test]
fn store_failure_is_unavailable() {
    let e = engine();
    let p = Pending::CheckAccount { id: 3, pw: "pw".to_string() };
    let Step::Done { result } = p.resume(&e, Reply::Failed) else { panic!() };
    assert_eq!(result, Err(AccountError::StoreUnavailable));
    let p = Pending::InsertAccount { id: 3 };
    let Step::Done { result } = p.resume(&e, Reply::Failed) else { panic!() };
    assert_eq!(result, Err(AccountError::StoreUnavailable));
}

#[test]
fn vanished_record_is_not_found() {
    let e = engine();
    let p = Pending::WriteAccount { id: 3 };
    let Step::Done { result } = p.resume(&e, Reply::Updated { matched: 0 }) else { panic!() };
    assert_eq!(result, NOT_FOUND);
    let p = Pending::WriteCounter { pw: "pw".to_string(), id: 3 };
    let Step::Done { result } = p.resume(&e, Reply::Updated { matched: 0 }) else { panic!() };
    assert_eq!(result, NOT_FOUND);
}

#[test]
fn duplicate_account_insert_fails() {
    let e = engine();
    let mut s = MemStore::new();
    assert!(matches!(s.answer(Request::Insert { id: 2, pw_hash: vec![9] }), Reply::Inserted));
    assert!(matches!(s.answer(Request::Insert { id: 0, pw_hash: encode_le(1) }), Reply::Inserted));
    assert_eq!(create(&mut s, &e, "pw"), Err(AccountError::StoreUnavailable));
    assert_eq!(s.get(2), Some(vec![9]));
    assert_eq!(s.get(0), Some(encode_le(2)));
}
