use vstd::prelude::*;

use crate::codec::{decode_le, encode_le, le_bytes, le_value};
use crate::hashing::{bytes_equal, matches_stored, HashEngine};
use crate::store::{Reply, Request};

verus! {

/// Why an account operation failed.
#[derive(Clone, Copy, Debug, PartialEq, Eq, Structural)]
pub enum AccountError {
    /// The identifier is 0, which is reserved, or no record has it.
    NotFound,
    /// The store could not be reached or refused a request.
    StoreUnavailable,
    /// The counter record does not hold eight bytes, or the counter is exhausted.
    BadCounter,
    /// The hash function refused the password.
    HashFailed,
}

/// What a finished operation returns.
#[derive(Clone, Copy, Debug, PartialEq, Eq, Structural)]
pub enum Outcome {
    Created { id: u64 },
    PasswordSet,
    Removed,
    Checked { matches: bool },
}

/// An operation waiting for the store's reply to its last request. `S` is `String` at run
/// time and `Seq<char>` in contracts.
#[derive(Debug)]
pub enum Pending<S> {
    /// `create` has asked for the counter record.
    ReadCounter { pw: S },
    /// `create` has written the counter back, now `id`.
    WriteCounter { pw: S, id: u64 },
    /// `create` has inserted the account `id`.
    InsertAccount { id: u64 },
    /// `set` has asked for the account.
    ReadAccount { id: u64, pw: S },
    /// `set` has written the new hash.
    WriteAccount { id: u64 },
    /// `remove` has asked for the deletion.
    DeleteAccount { id: u64 },
    /// `check` has asked for the account.
    CheckAccount { id: u64, pw: S },
}

/// The next move of an operation: send a request to the store, or finish.
#[derive(Debug)]
pub enum Step<B, S> {
    Send { next: Pending<S>, request: Request<B> },
    Done { result: Result<Outcome, AccountError> },
}

impl View for Pending<String> {
    type V = Pending<Seq<char>>;

    open spec fn view(&self) -> Pending<Seq<char>> {
        match self {
            Pending::ReadCounter { pw } => Pending::ReadCounter { pw: pw@ },
            Pending::WriteCounter { pw, id } => Pending::WriteCounter { pw: pw@, id: *id },
            Pending::InsertAccount { id } => Pending::InsertAccount { id: *id },
            Pending::ReadAccount { id, pw } => Pending::ReadAccount { id: *id, pw: pw@ },
            Pending::WriteAccount { id } => Pending::WriteAccount { id: *id },
            Pending::DeleteAccount { id } => Pending::DeleteAccount { id: *id },
            Pending::CheckAccount { id, pw } => Pending::CheckAccount { id: *id, pw: pw@ },
        }
    }
}

impl View for Step<Vec<u8>, String> {
    type V = Step<Seq<u8>, Seq<char>>;

    open spec fn view(&self) -> Step<Seq<u8>, Seq<char>> {
        match self {
            Step::Send { next, request } => Step::Send { next: next@, request: request@ },
            Step::Done { result } => Step::Done { result: *result },
        }
    }
}

pub open spec fn fail(e: AccountError) -> Step<Seq<u8>, Seq<char>> {
    Step::Done { result: Err(e) }
}

pub open spec fn finish(o: Outcome) -> Step<Seq<u8>, Seq<char>> {
    Step::Done { result: Ok(o) }
}

/// The first step of `create`: read the counter record. Reading the counter and writing it
/// back are two requests, not one atomic increment: two `create`s that run at the same time
/// can read the same value and hand out the same identifier. Allocation is only sound when
/// `create`s do not overlap (the contracts here describe one operation at a time).
pub open spec fn create_start(pw: Seq<char>) -> Step<Seq<u8>, Seq<char>> {
    Step::Send { next: Pending::ReadCounter { pw }, request: Request::Find { id: 0 } }
}

/// The first step of `set`: identifier 0 is refused, else the account is read.
pub open spec fn set_start(id: u64, pw: Seq<char>) -> Step<Seq<u8>, Seq<char>> {
    if id == 0 {
        fail(AccountError::NotFound)
    } else {
        Step::Send { next: Pending::ReadAccount { id, pw }, request: Request::Find { id } }
    }
}

/// The first step of `remove`: identifier 0 is refused, else the account is deleted.
pub open spec fn remove_start(id: u64) -> Step<Seq<u8>, Seq<char>> {
    if id == 0 {
        fail(AccountError::NotFound)
    } else {
        Step::Send { next: Pending::DeleteAccount { id }, request: Request::Delete { id } }
    }
}

/// The first step of `check`: identifier 0 is refused, else the account is read.
pub open spec fn check_start(id: u64, pw: Seq<char>) -> Step<Seq<u8>, Seq<char>> {
    if id == 0 {
        fail(AccountError::NotFound)
    } else {
        Step::Send { next: Pending::CheckAccount { id, pw }, request: Request::Find { id } }
    }
}

/// `create`, once the counter is written as `id`: hash the password and insert the account.
pub open spec fn insert_account(e: HashEngine, pw: Seq<char>, id: u64) -> Step<
    Seq<u8>,
    Seq<char>,
> {
    match e.digest(pw, id) {
        Some(h) => Step::Send {
            next: Pending::InsertAccount { id },
            request: Request::Insert { id, pw_hash: h },
        },
        None => fail(AccountError::HashFailed),
    }
}

/// What an operation waiting in `p` does on the store's reply `r`.
pub open spec fn resume_spec(e: HashEngine, p: Pending<Seq<char>>, r: Reply<Seq<u8>>) -> Step<
    Seq<u8>,
    Seq<char>,
> {
    match p {
        Pending::ReadCounter { pw } => match r {
            Reply::Found { pw_hash: None } => Step::Send {
                next: Pending::WriteCounter { pw, id: 1 },
                request: Request::Insert { id: 0, pw_hash: le_bytes(1) },
            },
            Reply::Found { pw_hash: Some(b) } => if b.len() != 8 || le_value(b) == u64::MAX {
                fail(AccountError::BadCounter)
            } else {
                Step::Send {
                    next: Pending::WriteCounter { pw, id: (le_value(b) + 1) as u64 },
                    request: Request::Update { id: 0, pw_hash: le_bytes((le_value(b) + 1) as u64) },
                }
            },
            _ => fail(AccountError::StoreUnavailable),
        },
        Pending::WriteCounter { pw, id } => match r {
            Reply::Inserted => insert_account(e, pw, id),
            Reply::Updated { matched } => if matched == 0 {
                fail(AccountError::NotFound)
            } else {
                insert_account(e, pw, id)
            },
            _ => fail(AccountError::StoreUnavailable),
        },
        Pending::InsertAccount { id } => match r {
            Reply::Inserted => finish(Outcome::Created { id }),
            _ => fail(AccountError::StoreUnavailable),
        },
        Pending::ReadAccount { id, pw } => match r {
            Reply::Found { pw_hash: None } => fail(AccountError::NotFound),
            Reply::Found { pw_hash: Some(_) } => match e.digest(pw, id) {
                Some(h) => Step::Send {
                    next: Pending::WriteAccount { id },
                    request: Request::Update { id, pw_hash: h },
                },
                None => fail(AccountError::HashFailed),
            },
            _ => fail(AccountError::StoreUnavailable),
        },
        Pending::WriteAccount { id } => match r {
            Reply::Updated { matched } => if matched == 0 {
                fail(AccountError::NotFound)
            } else {
                finish(Outcome::PasswordSet)
            },
            _ => fail(AccountError::StoreUnavailable),
        },
        Pending::DeleteAccount { id } => match r {
            Reply::Deleted { count } => if count == 1 {
                finish(Outcome::Removed)
            } else {
                fail(AccountError::NotFound)
            },
            _ => fail(AccountError::StoreUnavailable),
        },
        Pending::CheckAccount { id, pw } => match r {
            Reply::Found { pw_hash: None } => fail(AccountError::NotFound),
            Reply::Found { pw_hash: Some(stored) } => match matches_stored(
                e.digest(pw, id),
                stored,
            ) {
                Some(b) => finish(Outcome::Checked { matches: b }),
                None => fail(AccountError::HashFailed),
            },
            _ => fail(AccountError::StoreUnavailable),
        },
    }
}

/// The operations on account records. Each returns its first step; `Pending::resume` takes
/// the store's replies until the operation is done.
pub struct Account;

impl Account {
    /// Starts creating an account with password `pw`. Overlapping `create`s may hand out
    /// one identifier twice: see `create_start`.
    pub fn create(pw: String) -> (r: Step<Vec<u8>, String>)
        ensures
            r@ == create_start(pw@),
    {
        Step::Send { next: Pending::ReadCounter { pw }, request: Request::Find { id: 0 } }
    }

    /// Starts replacing the password of account `id` by `pw`.
    pub fn set(id: u64, pw: String) -> (r: Step<Vec<u8>, String>)
        ensures
            r@ == set_start(id, pw@),
    {
        if id == 0 {
            Step::Done { result: Err(AccountError::NotFound) }
        } else {
            Step::Send { next: Pending::ReadAccount { id, pw }, request: Request::Find { id } }
        }
    }

    /// Starts removing account `id`.
    pub fn remove(id: u64) -> (r: Step<Vec<u8>, String>)
        ensures
            r@ == remove_start(id),
    {
        if id == 0 {
            Step::Done { result: Err(AccountError::NotFound) }
        } else {
            Step::Send { next: Pending::DeleteAccount { id }, request: Request::Delete { id } }
        }
    }

    /// Starts checking `pw` against the hash stored for account `id`.
    pub fn check(id: u64, pw: String) -> (r: Step<Vec<u8>, String>)
        ensures
            r@ == check_start(id, pw@),
    {
        if id == 0 {
            Step::Done { result: Err(AccountError::NotFound) }
        } else {
            Step::Send { next: Pending::CheckAccount { id, pw }, request: Request::Find { id } }
        }
    }
}

fn failed(e: AccountError) -> (r: Step<Vec<u8>, String>)
    ensures
        r@ == fail(e),
{
    Step::Done { result: Err(e) }
}

fn hash_and_insert(e: &HashEngine, pw: &str, id: u64) -> (r: Step<Vec<u8>, String>)
    ensures
        r@ == insert_account(*e, pw@, id),
{
    match e.hash(pw, id) {
        Some(h) => Step::Send {
            next: Pending::InsertAccount { id },
            request: Request::Insert { id, pw_hash: h },
        },
        None => failed(AccountError::HashFailed),
    }
}

impl Pending<String> {
    /// Takes the store's reply to the last request and gives the next step.
    pub fn resume(self, e: &HashEngine, r: Reply<Vec<u8>>) -> (s: Step<Vec<u8>, String>)
        ensures
            s@ == resume_spec(*e, self@, r@),
    {
        match self {
            Pending::ReadCounter { pw } => match r {
                Reply::Found { pw_hash: None } => Step::Send {
                    next: Pending::WriteCounter { pw, id: 1 },
                    request: Request::Insert { id: 0, pw_hash: encode_le(1) },
                },
                Reply::Found { pw_hash: Some(b) } => match decode_le(b.as_slice()) {
                    Some(c) => if c == u64::MAX {
                        failed(AccountError::BadCounter)
                    } else {
                        Step::Send {
                            next: Pending::WriteCounter { pw, id: c + 1 },
                            request: Request::Update { id: 0, pw_hash: encode_le(c + 1) },
                        }
                    },
                    None => failed(AccountError::BadCounter),
                },
                _ => failed(AccountError::StoreUnavailable),
            },
            Pending::WriteCounter { pw, id } => match r {
                Reply::Inserted => hash_and_insert(e, pw.as_str(), id),
                Reply::Updated { matched } => if matched == 0 {
                    failed(AccountError::NotFound)
                } else {
                    hash_and_insert(e, pw.as_str(), id)
                },
                _ => failed(AccountError::StoreUnavailable),
            },
            Pending::InsertAccount { id } => match r {
                Reply::Inserted => Step::Done { result: Ok(Outcome::Created { id }) },
                _ => failed(AccountError::StoreUnavailable),
            },
            Pending::ReadAccount { id, pw } => match r {
                Reply::Found { pw_hash: None } => failed(AccountError::NotFound),
                Reply::Found { pw_hash: Some(_) } => match e.hash(pw.as_str(), id) {
                    Some(h) => Step::Send {
                        next: Pending::WriteAccount { id },
                        request: Request::Update { id, pw_hash: h },
                    },
                    None => failed(AccountError::HashFailed),
                },
                _ => failed(AccountError::StoreUnavailable),
            },
            Pending::WriteAccount { id } => match r {
                Reply::Updated { matched } => if matched == 0 {
                    failed(AccountError::NotFound)
                } else {
                    Step::Done { result: Ok(Outcome::PasswordSet) }
                },
                _ => failed(AccountError::StoreUnavailable),
            },
            Pending::DeleteAccount { id } => match r {
                Reply::Deleted { count } => if count == 1 {
                    Step::Done { result: Ok(Outcome::Removed) }
                } else {
                    failed(AccountError::NotFound)
                },
                _ => failed(AccountError::StoreUnavailable),
            },
            Pending::CheckAccount { id, pw } => match r {
                Reply::Found { pw_hash: None } => failed(AccountError::NotFound),
                Reply::Found { pw_hash: Some(stored) } => match e.verify_pw(
                    stored.as_slice(),
                    pw.as_str(),
                    id,
                ) {
                    Some(b) => Step::Done { result: Ok(Outcome::Checked { matches: b }) },
                    None => failed(AccountError::HashFailed),
                },
                _ => failed(AccountError::StoreUnavailable),
            },
        }
    }
}

} // verus!
