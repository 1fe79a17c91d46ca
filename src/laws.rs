use vstd::prelude::*;

use crate::account::{check_start, create_start, remove_start, set_start, AccountError, Outcome};
use crate::codec::{le_bytes, le_value, lemma_le_round_trip};
use crate::engine::settle;
use crate::hashing::{matches_stored, HashEngine};

verus! {

/// After `create(pw)` returns `id`, `check(id, pw)` returns `true`.
pub proof fn lemma_create_then_check(e: HashEngine, m: Map<u64, Seq<u8>>, pw: Seq<char>, id: u64)
    requires
        settle(e, m, create_start(pw)).1 == Ok::<Outcome, AccountError>(Outcome::Created { id }),
    ensures
        settle(e, settle(e, m, create_start(pw)).0, check_start(id, pw)).1 == Ok::<
            Outcome,
            AccountError,
        >(Outcome::Checked { matches: true }),
{
    reveal_with_fuel(settle, 4);
}

/// What `check` says of a password once `create(pw)` has returned `id`: another password
/// passes only where its hash is the same as that of `pw`.
pub proof fn lemma_create_then_check_other(
    e: HashEngine,
    m: Map<u64, Seq<u8>>,
    pw: Seq<char>,
    other: Seq<char>,
    id: u64,
)
    requires
        settle(e, m, create_start(pw)).1 == Ok::<Outcome, AccountError>(Outcome::Created { id }),
    ensures
        settle(e, settle(e, m, create_start(pw)).0, check_start(id, other)).1 == match e.digest(
            other,
            id,
        ) {
            Some(h) => Ok(Outcome::Checked { matches: Some(h) == e.digest(pw, id) }),
            None => Err(AccountError::HashFailed),
        },
{
    reveal_with_fuel(settle, 4);
}

/// After `set(id, pw)` succeeds, `check(id, pw)` returns `true`, and another password passes
/// only where its hash is the same as that of `pw`.
pub proof fn lemma_set_then_check(
    e: HashEngine,
    m: Map<u64, Seq<u8>>,
    id: u64,
    pw: Seq<char>,
    other: Seq<char>,
)
    requires
        settle(e, m, set_start(id, pw)).1 == Ok::<Outcome, AccountError>(Outcome::PasswordSet),
    ensures
        settle(e, settle(e, m, set_start(id, pw)).0, check_start(id, pw)).1 == Ok::<
            Outcome,
            AccountError,
        >(Outcome::Checked { matches: true }),
        settle(e, settle(e, m, set_start(id, pw)).0, check_start(id, other)).1 == match e.digest(
            other,
            id,
        ) {
            Some(h) => Ok(Outcome::Checked { matches: Some(h) == e.digest(pw, id) }),
            None => Err(AccountError::HashFailed),
        },
{
    reveal_with_fuel(settle, 3);
}

/// After `remove(id)`, whatever it returned, `set`, `check` and `remove` of `id` fail with
/// `NotFound`.
pub proof fn lemma_remove_then_not_found(e: HashEngine, m: Map<u64, Seq<u8>>, id: u64, pw: Seq<char>)
    ensures
        settle(e, settle(e, m, remove_start(id)).0, set_start(id, pw)).1 == Err::<
            Outcome,
            AccountError,
        >(AccountError::NotFound),
        settle(e, settle(e, m, remove_start(id)).0, check_start(id, pw)).1 == Err::<
            Outcome,
            AccountError,
        >(AccountError::NotFound),
        settle(e, settle(e, m, remove_start(id)).0, remove_start(id)).1 == Err::<
            Outcome,
            AccountError,
        >(AccountError::NotFound),
{
    reveal_with_fuel(settle, 3);
}

/// Every operation on identifier 0 fails with `NotFound` and leaves the store as it was.
pub proof fn lemma_zero_not_found(e: HashEngine, m: Map<u64, Seq<u8>>, pw: Seq<char>)
    ensures
        settle(e, m, set_start(0, pw)) == (m, Err::<Outcome, AccountError>(AccountError::NotFound)),
        settle(e, m, check_start(0, pw)) == (m, Err::<Outcome, AccountError>(AccountError::NotFound)),
        settle(e, m, remove_start(0)) == (m, Err::<Outcome, AccountError>(AccountError::NotFound)),
{
    reveal_with_fuel(settle, 2);
}

/// On a store that holds nothing yet, the first `create` returns identifier 1.
pub proof fn lemma_first_create(e: HashEngine, pw: Seq<char>)
    ensures
        settle(e, Map::empty(), create_start(pw)).1 == match e.digest(pw, 1) {
            Some(_) => Ok(Outcome::Created { id: 1 }),
            None => Err(AccountError::HashFailed),
        },
{
    reveal_with_fuel(settle, 4);
}

/// A `create` that follows a `create` which returned `id` returns `id + 1`, if it succeeds.
pub proof fn lemma_create_counts_up(
    e: HashEngine,
    m: Map<u64, Seq<u8>>,
    pw: Seq<char>,
    next_pw: Seq<char>,
    id: u64,
)
    requires
        settle(e, m, create_start(pw)).1 == Ok::<Outcome, AccountError>(Outcome::Created { id }),
    ensures
        settle(e, settle(e, m, create_start(pw)).0, create_start(next_pw)).1 matches Ok(
            Outcome::Created { id: next },
        ) ==> next == id + 1,
{
    reveal_with_fuel(settle, 4);
    lemma_le_round_trip(id);
}

/// The counter a store holds: the value of its counter record, 0 where it has none that
/// is eight bytes long.
pub open spec fn counter(m: Map<u64, Seq<u8>>) -> int {
    if m.contains_key(0) && m[0].len() == 8 {
        le_value(m[0]) as int
    } else {
        0
    }
}

/// No account identifier exceeds the counter.
pub open spec fn ids_bounded(m: Map<u64, Seq<u8>>) -> bool {
    forall|k: u64| #[trigger] m.contains_key(k) && k != 0 ==> k <= counter(m)
}

/// What `create(pw)` does to a store holding `m`: the counter record goes from `c` to
/// `c + 1` (created as 1 where missing), then the account `c + 1` is inserted with its hash.
pub open spec fn create_effect(e: HashEngine, m: Map<u64, Seq<u8>>, pw: Seq<char>) -> (
    Map<u64, Seq<u8>>,
    Result<Outcome, AccountError>,
) {
    if m.contains_key(0) && (m[0].len() != 8 || le_value(m[0]) == u64::MAX) {
        (m, Err(AccountError::BadCounter))
    } else {
        let next = (counter(m) + 1) as u64;
        let m1 = m.insert(0, le_bytes(next));
        match e.digest(pw, next) {
            None => (m1, Err(AccountError::HashFailed)),
            Some(h) => if m1.contains_key(next) {
                (m1, Err(AccountError::StoreUnavailable))
            } else {
                (m1.insert(next, h), Ok(Outcome::Created { id: next }))
            },
        }
    }
}

/// What `set(id, pw)` does: refuse identifier 0 and missing records, else store the new hash.
pub open spec fn set_effect(e: HashEngine, m: Map<u64, Seq<u8>>, id: u64, pw: Seq<char>) -> (
    Map<u64, Seq<u8>>,
    Result<Outcome, AccountError>,
) {
    if id == 0 || !m.contains_key(id) {
        (m, Err(AccountError::NotFound))
    } else {
        match e.digest(pw, id) {
            None => (m, Err(AccountError::HashFailed)),
            Some(h) => (m.insert(id, h), Ok(Outcome::PasswordSet)),
        }
    }
}

/// What `remove(id)` does: refuse identifier 0 and missing records, else delete the record.
pub open spec fn remove_effect(m: Map<u64, Seq<u8>>, id: u64) -> (
    Map<u64, Seq<u8>>,
    Result<Outcome, AccountError>,
) {
    if id == 0 || !m.contains_key(id) {
        (m, Err(AccountError::NotFound))
    } else {
        (m.remove(id), Ok(Outcome::Removed))
    }
}

/// What `check(id, pw)` does: nothing to the store; refuse identifier 0 and missing records,
/// else compare the hash of `pw` with the stored one.
pub open spec fn check_effect(e: HashEngine, m: Map<u64, Seq<u8>>, id: u64, pw: Seq<char>) -> (
    Map<u64, Seq<u8>>,
    Result<Outcome, AccountError>,
) {
    if id == 0 || !m.contains_key(id) {
        (m, Err(AccountError::NotFound))
    } else {
        match matches_stored(e.digest(pw, id), m[id]) {
            Some(b) => (m, Ok(Outcome::Checked { matches: b })),
            None => (m, Err(AccountError::HashFailed)),
        }
    }
}

/// `create` against a store does exactly `create_effect`.
pub proof fn lemma_create_effect(e: HashEngine, m: Map<u64, Seq<u8>>, pw: Seq<char>)
    ensures
        settle(e, m, create_start(pw)) == create_effect(e, m, pw),
{
    reveal_with_fuel(settle, 4);
}

/// `set` against a store does exactly `set_effect`.
pub proof fn lemma_set_effect(e: HashEngine, m: Map<u64, Seq<u8>>, id: u64, pw: Seq<char>)
    ensures
        settle(e, m, set_start(id, pw)) == set_effect(e, m, id, pw),
{
    reveal_with_fuel(settle, 3);
}

/// `remove` against a store does exactly `remove_effect`.
pub proof fn lemma_remove_effect(e: HashEngine, m: Map<u64, Seq<u8>>, id: u64)
    ensures
        settle(e, m, remove_start(id)) == remove_effect(m, id),
{
    reveal_with_fuel(settle, 2);
}

/// `check` against a store does exactly `check_effect`.
pub proof fn lemma_check_effect(e: HashEngine, m: Map<u64, Seq<u8>>, id: u64, pw: Seq<char>)
    ensures
        settle(e, m, check_start(id, pw)) == check_effect(e, m, id, pw),
{
    reveal_with_fuel(settle, 2);
}

/// No operation lowers the counter, and `create` returns the counter it leaves, one above
/// the one it found: identifiers increase whatever other operations come in between.
pub proof fn lemma_counter_grows(e: HashEngine, m: Map<u64, Seq<u8>>, id: u64, pw: Seq<char>)
    ensures
        counter(settle(e, m, create_start(pw)).0) >= counter(m),
        counter(settle(e, m, set_start(id, pw)).0) == counter(m),
        counter(settle(e, m, remove_start(id)).0) == counter(m),
        counter(settle(e, m, check_start(id, pw)).0) == counter(m),
        settle(e, m, create_start(pw)).1 matches Ok(Outcome::Created { id: next }) ==> next
            == counter(m) + 1 && next == counter(settle(e, m, create_start(pw)).0),
{
    lemma_create_effect(e, m, pw);
    lemma_set_effect(e, m, id, pw);
    lemma_remove_effect(e, m, id);
    lemma_check_effect(e, m, id, pw);
    let m1 = create_effect(e, m, pw).0;
    if !(m.contains_key(0) && (m[0].len() != 8 || le_value(m[0]) == u64::MAX)) {
        let next = (counter(m) + 1) as u64;
        lemma_le_round_trip(next);
        assert(le_bytes(next).len() == 8);
        assert(m1.contains_key(0) && m1[0] == le_bytes(next));
    }
}

/// Every operation keeps account identifiers at or below the counter; so the identifier
/// that `create` returns is above every identifier in the store.
pub proof fn lemma_ids_bounded(e: HashEngine, m: Map<u64, Seq<u8>>, id: u64, pw: Seq<char>)
    requires
        ids_bounded(m),
    ensures
        ids_bounded(settle(e, m, create_start(pw)).0),
        ids_bounded(settle(e, m, set_start(id, pw)).0),
        ids_bounded(settle(e, m, remove_start(id)).0),
        ids_bounded(settle(e, m, check_start(id, pw)).0),
{
    lemma_counter_grows(e, m, id, pw);
    lemma_create_effect(e, m, pw);
    lemma_set_effect(e, m, id, pw);
    lemma_remove_effect(e, m, id);
    lemma_check_effect(e, m, id, pw);
    let m1 = settle(e, m, create_start(pw)).0;
    assert forall|k: u64| #[trigger] m1.contains_key(k) && k != 0 implies k <= counter(m1) by {
        if !(m.contains_key(0) && (m[0].len() != 8 || le_value(m[0]) == u64::MAX)) {
            let next = (counter(m) + 1) as u64;
            lemma_le_round_trip(next);
            assert(counter(m1) == next);
            if k != next {
                assert(m.contains_key(k));
            }
        }
    }
    let m2 = settle(e, m, set_start(id, pw)).0;
    assert forall|k: u64| #[trigger] m2.contains_key(k) && k != 0 implies k <= counter(m2) by {
        assert(m.contains_key(k));
    }
    let m3 = settle(e, m, remove_start(id)).0;
    assert forall|k: u64| #[trigger] m3.contains_key(k) && k != 0 implies k <= counter(m3) by {
        assert(m.contains_key(k));
    }
}

/// The counter record is absent or eight bytes long, as `create` writes it.
pub open spec fn counter_well_formed(m: Map<u64, Seq<u8>>) -> bool {
    m.contains_key(0) ==> m[0].len() == 8
}

/// Every operation keeps the counter record absent or eight bytes long; so where only
/// these operations write the store, `create` reports `BadCounter` only once the counter
/// has reached `u64::MAX`.
pub proof fn lemma_counter_well_formed(e: HashEngine, m: Map<u64, Seq<u8>>, id: u64, pw: Seq<char>)
    requires
        counter_well_formed(m),
    ensures
        counter_well_formed(settle(e, m, create_start(pw)).0),
        counter_well_formed(settle(e, m, set_start(id, pw)).0),
        counter_well_formed(settle(e, m, remove_start(id)).0),
        counter_well_formed(settle(e, m, check_start(id, pw)).0),
        settle(e, m, create_start(pw)).1 == Err::<Outcome, AccountError>(AccountError::BadCounter)
            ==> counter(m) == u64::MAX,
{
    lemma_create_effect(e, m, pw);
    lemma_set_effect(e, m, id, pw);
    lemma_remove_effect(e, m, id);
    lemma_check_effect(e, m, id, pw);
}

} // verus!
