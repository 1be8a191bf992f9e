//! The session store: create, fetch and list persisted work sessions.
//!
//! `SessionDb` models the sessions table behind the storage connection:
//! records in creation order, identifiers assigned consecutively from 1.
//! The host process serializes access to it exactly as it serializes the
//! storage connection itself.

use crate::models::{CreateSession, Error, GetSessionsOptions, Session};
use vstd::prelude::*;

verus! {

/// The sessions table: records in creation order.
pub struct SessionDb {
    sessions: Vec<Session>,
}

impl View for SessionDb {
    type V = Seq<Session>;

    closed spec fn view(&self) -> Seq<Session> {
        self.sessions@
    }
}

impl SessionDb {
    /// Well-formed table: identifiers are assigned consecutively from 1 in
    /// creation order, so every id fits in an `i32`.
    pub open spec fn wf(&self) -> bool {
        &&& self@.len() <= i32::MAX
        &&& forall|i: int| 0 <= i < self@.len() ==> (#[trigger] self@[i]).id == i + 1
    }

    /// An empty table.
    pub fn new() -> (db: SessionDb)
        ensures
            db@ == Seq::<Session>::empty(),
            db.wf(),
    {
        SessionDb { sessions: Vec::new() }
    }
}

/// The session a create request persists under the given id.
pub open spec fn session_of(data: CreateSession, id: i32) -> Session {
    Session { id, session_type: data.session_type, duration_secs: data.duration_secs }
}

/// The result of a lookup by id: the matching record, or `NotFound` when
/// no record carries the id.
pub open spec fn lookup(db: Seq<Session>, id: i32) -> Result<Session, Error> {
    if 1 <= id <= db.len() {
        Ok(db[id - 1])
    } else {
        Err(Error::NotFound)
    }
}

/// Whether a session passes the filter; an absent filter, or an absent
/// field of it, constrains nothing.
pub open spec fn matches_options(options: Option<GetSessionsOptions>, s: Session) -> bool {
    match options {
        None => true,
        Some(o) => match o.session_type {
            None => true,
            Some(session_type) => s.session_type == session_type,
        },
    }
}

/// Inserts one session and returns the assigned identifier, the next
/// consecutive one. Fails with `StorageError` exactly when the id space is
/// exhausted, the one constraint the model can violate.
pub fn create_session(db: &mut SessionDb, data: CreateSession) -> (result: Result<i32, Error>)
    requires
        old(db).wf(),
    ensures
        final(db).wf(),
        old(db)@.len() < i32::MAX ==> {
            &&& result == Ok::<i32, Error>((old(db)@.len() + 1) as i32)
            &&& final(db)@ == old(db)@.push(session_of(data, (old(db)@.len() + 1) as i32))
        },
        old(db)@.len() == i32::MAX ==> result == Err::<i32, Error>(Error::StorageError) && final(db)@ == old(db)@,
{
    let len = db.sessions.len();
    if len >= i32::MAX as usize {
        return Err(Error::StorageError);
    }
    let id = len as i32 + 1;
    db.sessions.push(Session { id, session_type: data.session_type, duration_secs: data.duration_secs });
    Ok(id)
}

/// Fetches exactly the session with the given id, or `NotFound`.
pub fn get_session(db: &SessionDb, id: i32) -> (result: Result<Session, Error>)
    requires
        db.wf(),
    ensures
        result == lookup(db@, id),
{
    if 1 <= id && id as usize <= db.sessions.len() {
        Ok(db.sessions[(id - 1) as usize])
    } else {
        Err(Error::NotFound)
    }
}

/// Whether a session passes the filter; mirrors `matches_options`.
fn session_matches(options: &Option<GetSessionsOptions>, s: &Session) -> (b: bool)
    ensures
        b == matches_options(*options, *s),
{
    match options {
        None => true,
        Some(o) => match o.session_type {
            None => true,
            Some(session_type) => s.session_type == session_type,
        },
    }
}

/// Lists the sessions passing the filter, in creation order; with no
/// filter, every session. The model never fails, so the result is always
/// `Ok`.
pub fn get_sessions(db: &SessionDb, options: Option<GetSessionsOptions>) -> (result: Result<Vec<Session>, Error>)
    requires
        db.wf(),
    ensures
        result matches Ok(list) && list@ == db@.filter(|s: Session| matches_options(options, s)),
{
    let mut list: Vec<Session> = Vec::new();
    let mut i: usize = 0;
    while i < db.sessions.len()
        invariant
            i <= db@.len(),
            list@ == db@.take(i as int).filter(|s: Session| matches_options(options, s)),
        decreases db@.len() - i,
    {
        let s = db.sessions[i];
        if session_matches(&options, &s) {
            list.push(s);
        }
        proof {
            assert(db@.take(i + 1) =~= db@.take(i as int).push(db@[i as int]));
            db@.take(i as int).lemma_filter_push(db@[i as int], |s: Session| matches_options(options, s));
        }
        i = i + 1;
    }
    proof {
        assert(db@.take(db@.len() as int) =~= db@);
    }
    Ok(list)
}

/// Law: creating a session and then looking up the assigned id finds
/// exactly the created record — the creation fields plus that id — and the
/// next id is not found until a further create.
pub proof fn lemma_create_then_get(db: Seq<Session>, data: CreateSession)
    requires
        db.len() < i32::MAX,
    ensures
        ({
            let id = (db.len() + 1) as i32;
            let created = db.push(session_of(data, id));
            &&& lookup(created, id) == Ok::<Session, Error>(session_of(data, id))
            &&& session_of(data, id).session_type == data.session_type
            &&& session_of(data, id).duration_secs == data.duration_secs
            &&& id < i32::MAX ==> lookup(created, (id + 1) as i32) == Err::<Session, Error>(Error::NotFound)
        }),
{
}

/// Law: an absent filter constrains nothing, so the unfiltered listing is
/// every session so far, in creation order.
pub proof fn lemma_unfiltered_listing_is_everything(db: Seq<Session>)
    ensures
        db.filter(|s: Session| matches_options(None::<GetSessionsOptions>, s)) == db,
    decreases db.len(),
{
    reveal(Seq::filter);
    let pred = |s: Session| matches_options(None::<GetSessionsOptions>, s);
    if db.len() == 0 {
        assert(db.filter(pred) =~= db);
    } else {
        lemma_unfiltered_listing_is_everything(db.drop_last());
        assert(db.filter(pred) =~= db);
    }
}

/// Law: a filtered listing is exactly consistent with the filter's
/// predicate — every stored session that matches is included, in order,
/// and nothing else is.
pub proof fn lemma_filtered_listing_is_exact(db: Seq<Session>, options: GetSessionsOptions)
    ensures
        ({
            let listed = db.filter(|s: Session| matches_options(Some(options), s));
            &&& forall|i: int|
                0 <= i < db.len() && matches_options(Some(options), db[i]) ==> listed.contains(#[trigger] db[i])
            &&& forall|j: int|
                0 <= j < listed.len() ==> matches_options(Some(options), #[trigger] listed[j]) && db.contains(
                    listed[j],
                )
        }),
{
    broadcast use vstd::seq_lib::group_filter_ensures;

    let pred = |s: Session| matches_options(Some(options), s);
    assert forall|j: int| 0 <= j < db.filter(pred).len() implies db.contains(db.filter(pred)[j]) by {
        db.lemma_filter_contains_rev(pred, db.filter(pred)[j]);
    }
}

} // verus!
