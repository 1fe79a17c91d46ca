use vstd::prelude::*;
use vstd::string::*;

use crate::account::AccountError;

verus! {

/// The failure text that the transport reports for an error.
pub open spec fn reason_text(e: AccountError) -> Seq<char> {
    match e {
        AccountError::NotFound => "pw entry not found"@,
        AccountError::StoreUnavailable => "store unavailable"@,
        AccountError::BadCounter => "bad counter record"@,
        AccountError::HashFailed => "password could not be hashed"@,
    }
}

/// The status of a failure: 404 where nothing was found, else 500.
pub open spec fn failure_status(reason: Seq<char>) -> u16 {
    if reason == "pw entry not found"@ {
        404
    } else {
        500
    }
}

/// The failure text of `e`.
pub fn reason_of(e: AccountError) -> (r: String)
    ensures
        r@ == reason_text(e),
{
    match e {
        AccountError::NotFound => String::from_str("pw entry not found"),
        AccountError::StoreUnavailable => String::from_str("store unavailable"),
        AccountError::BadCounter => String::from_str("bad counter record"),
        AccountError::HashFailed => String::from_str("password could not be hashed"),
    }
}

fn status_of_failure(reason: &String) -> (r: u16)
    ensures
        r == failure_status(reason@),
{
    if *reason == String::from_str("pw entry not found") {
        404
    } else {
        500
    }
}

/// Asks for a new account with password `pw`.
#[derive(Clone, Debug, PartialEq, Eq)]
pub struct CreateReq {
    pub pw: String,
}

/// The answer to `CreateReq`.
#[derive(Clone, Debug, PartialEq, Eq)]
pub enum CreateRes {
    Created { id: u64 },
    Error { reason: String },
}

impl CreateRes {
    pub fn success(id: u64) -> (r: Self)
        ensures
            r == (CreateRes::Created { id }),
    {
        CreateRes::Created { id }
    }

    pub fn failure(e: AccountError) -> (r: Self)
        ensures
            r matches CreateRes::Error { reason } && reason@ == reason_text(e),
    {
        CreateRes::Error { reason: reason_of(e) }
    }

    /// 201 once created, else the failure's status.
    pub fn status(&self) -> (r: u16)
        ensures
            r == match self {
                CreateRes::Created { .. } => 201,
                CreateRes::Error { reason } => failure_status(reason@),
            },
    {
        match self {
            CreateRes::Created { .. } => 201,
            CreateRes::Error { reason } => status_of_failure(reason),
        }
    }
}

/// Asks to replace the password of account `id` by `pw`.
#[derive(Clone, Debug, PartialEq, Eq)]
pub struct SetReq {
    pub id: u64,
    pub pw: String,
}

/// The answer to `SetReq`.
#[derive(Clone, Debug, PartialEq, Eq)]
pub enum SetRes {
    PasswordSet,
    Error { reason: String },
}

impl SetRes {
    pub fn success(_done: ()) -> (r: Self)
        ensures
            r == SetRes::PasswordSet,
    {
        SetRes::PasswordSet
    }

    pub fn failure(e: AccountError) -> (r: Self)
        ensures
            r matches SetRes::Error { reason } && reason@ == reason_text(e),
    {
        SetRes::Error { reason: reason_of(e) }
    }

    /// 200 once set, else the failure's status.
    pub fn status(&self) -> (r: u16)
        ensures
            r == match self {
                SetRes::PasswordSet => 200,
                SetRes::Error { reason } => failure_status(reason@),
            },
    {
        match self {
            SetRes::PasswordSet => 200,
            SetRes::Error { reason } => status_of_failure(reason),
        }
    }
}

/// Asks to remove account `id`.
#[derive(Clone, Debug, PartialEq, Eq)]
pub struct RemoveReq {
    pub id: u64,
}

/// The answer to `RemoveReq`.
#[derive(Clone, Debug, PartialEq, Eq)]
pub enum RemoveRes {
    Removed,
    Error { reason: String },
}

impl RemoveRes {
    pub fn success(_done: ()) -> (r: Self)
        ensures
            r == RemoveRes::Removed,
    {
        RemoveRes::Removed
    }

    pub fn failure(e: AccountError) -> (r: Self)
        ensures
            r matches RemoveRes::Error { reason } && reason@ == reason_text(e),
    {
        RemoveRes::Error { reason: reason_of(e) }
    }

    /// 200 once removed, else the failure's status.
    pub fn status(&self) -> (r: u16)
        ensures
            r == match self {
                RemoveRes::Removed => 200,
                RemoveRes::Error { reason } => failure_status(reason@),
            },
    {
        match self {
            RemoveRes::Removed => 200,
            RemoveRes::Error { reason } => status_of_failure(reason),
        }
    }
}

/// Asks whether `pw` is the password of account `id`.
#[derive(Clone, Debug, PartialEq, Eq)]
pub struct CheckReq {
    pub id: u64,
    pub pw: String,
}

/// The answer to `CheckReq`.
#[derive(Clone, Debug, PartialEq, Eq)]
pub enum CheckRes {
    Checked { matches: bool },
    Error { reason: String },
}

impl CheckRes {
    pub fn success(b: bool) -> (r: Self)
        ensures
            r == (CheckRes::Checked { matches: b }),
    {
        CheckRes::Checked { matches: b }
    }

    pub fn failure(e: AccountError) -> (r: Self)
        ensures
            r matches CheckRes::Error { reason } && reason@ == reason_text(e),
    {
        CheckRes::Error { reason: reason_of(e) }
    }

    /// 200 once checked, whatever the verdict, else the failure's status.
    pub fn status(&self) -> (r: u16)
        ensures
            r == match self {
                CheckRes::Checked { .. } => 200,
                CheckRes::Error { reason } => failure_status(reason@),
            },
    {
        match self {
            CheckRes::Checked { .. } => 200,
            CheckRes::Error { reason } => status_of_failure(reason),
        }
    }
}

} // verus!
