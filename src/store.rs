use std::collections::HashMap;
use vstd::prelude::*;

verus! {

broadcast use vstd::std_specs::hash::group_hash_axioms;

/// A request to the backing store, which keeps one byte string (`pwHash`) per identifier.
/// `B` is `Vec<u8>` at run time and `Seq<u8>` in contracts.
#[derive(Debug)]
pub enum Request<B> {
    /// Point lookup by identifier.
    Find { id: u64 },
    /// Insert one record; refused when the identifier is taken.
    Insert { id: u64, pw_hash: B },
    /// Overwrite the bytes of the record with this identifier, if there is one.
    Update { id: u64, pw_hash: B },
    /// Delete the record with this identifier, if there is one.
    Delete { id: u64 },
}

/// The store's answer to a request.
#[derive(Debug)]
pub enum Reply<B> {
    Found { pw_hash: Option<B> },
    Inserted,
    Updated { matched: u64 },
    Deleted { count: u64 },
    /// The store could not be reached, or refused the request.
    Failed,
}

impl View for Request<Vec<u8>> {
    type V = Request<Seq<u8>>;

    open spec fn view(&self) -> Request<Seq<u8>> {
        match self {
            Request::Find { id } => Request::Find { id: *id },
            Request::Insert { id, pw_hash } => Request::Insert { id: *id, pw_hash: pw_hash@ },
            Request::Update { id, pw_hash } => Request::Update { id: *id, pw_hash: pw_hash@ },
            Request::Delete { id } => Request::Delete { id: *id },
        }
    }
}

impl View for Reply<Vec<u8>> {
    type V = Reply<Seq<u8>>;

    open spec fn view(&self) -> Reply<Seq<u8>> {
        match self {
            Reply::Found { pw_hash } => Reply::Found {
                pw_hash: match pw_hash {
                    Some(b) => Some(b@),
                    None => None,
                },
            },
            Reply::Inserted => Reply::Inserted,
            Reply::Updated { matched } => Reply::Updated { matched: *matched },
            Reply::Deleted { count } => Reply::Deleted { count: *count },
            Reply::Failed => Reply::Failed,
        }
    }
}

/// How a key-document store holding `m` answers `req`, and what it holds afterwards.
pub open spec fn answer(m: Map<u64, Seq<u8>>, req: Request<Seq<u8>>) -> (
    Map<u64, Seq<u8>>,
    Reply<Seq<u8>>,
) {
    match req {
        Request::Find { id } => (
            m,
            Reply::Found {
                pw_hash: if m.contains_key(id) {
                    Some(m[id])
                } else {
                    None
                },
            },
        ),
        Request::Insert { id, pw_hash } => if m.contains_key(id) {
            (m, Reply::Failed)
        } else {
            (m.insert(id, pw_hash), Reply::Inserted)
        },
        Request::Update { id, pw_hash } => if m.contains_key(id) {
            (m.insert(id, pw_hash), Reply::Updated { matched: 1 })
        } else {
            (m, Reply::Updated { matched: 0 })
        },
        Request::Delete { id } => if m.contains_key(id) {
            (m.remove(id), Reply::Deleted { count: 1 })
        } else {
            (m, Reply::Deleted { count: 0 })
        },
    }
}

/// A backing store in memory, for isolated instances.
#[derive(Debug)]
pub struct MemStore {
    records: HashMap<u64, Vec<u8>>,
}

impl View for MemStore {
    type V = Map<u64, Seq<u8>>;

    closed spec fn view(&self) -> Map<u64, Seq<u8>> {
        self.records@.map_values(|v: Vec<u8>| v@)
    }
}

impl MemStore {
    /// An empty store.
    pub fn new() -> (r: MemStore)
        ensures
            r@ == Map::<u64, Seq<u8>>::empty(),
    {
        let r = MemStore { records: HashMap::new() };
        assert(r@ =~= Map::<u64, Seq<u8>>::empty());
        r
    }

    /// The bytes stored under `id`, if any.
    pub fn get(&self, id: u64) -> (r: Option<Vec<u8>>)
        ensures
            r matches Some(b) ==> self@.contains_key(id) && b@ == self@[id],
            r is None ==> !self@.contains_key(id),
    {
        match self.records.get(&id) {
            Some(b) => Some(b.clone()),
            None => None,
        }
    }

    /// Answers `req` as a key-document store does.
    pub fn answer(&mut self, req: Request<Vec<u8>>) -> (r: Reply<Vec<u8>>)
        ensures
            (final(self)@, r@) == answer(old(self)@, req@),
    {
        match req {
            Request::Find { id } => Reply::Found { pw_hash: self.get(id) },
            Request::Insert { id, pw_hash } => {
                if self.records.contains_key(&id) {
                    Reply::Failed
                } else {
                    self.records.insert(id, pw_hash);
                    assert(self@ =~= old(self)@.insert(id, pw_hash@));
                    Reply::Inserted
                }
            },
            Request::Update { id, pw_hash } => {
                if self.records.contains_key(&id) {
                    self.records.insert(id, pw_hash);
                    assert(self@ =~= old(self)@.insert(id, pw_hash@));
                    Reply::Updated { matched: 1 }
                } else {
                    Reply::Updated { matched: 0 }
                }
            },
            Request::Delete { id } => {
                if self.records.contains_key(&id) {
                    self.records.remove(&id);
                    assert(self@ =~= old(self)@.remove(id));
                    Reply::Deleted { count: 1 }
                } else {
                    Reply::Deleted { count: 0 }
                }
            },
        }
    }
}

} // verus!
