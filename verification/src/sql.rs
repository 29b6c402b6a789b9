use vstd::prelude::*;
use crate::model::{
    all_unloaded, fresh_row, has_key, key_eq, schema_wf, with_loaded, ModRowModel, RowModel,
    StoreModel, TableModel,
};

verus! {

// The relational store behind the library. `Store` owns the connection
// together with a ghost model of the store's contents: the durable
// (committed) tables and, while a transaction is open, the pending
// contents. Every `external_body` item here is trusted: Verus believes
// the stated contract and never reads the body. Each contract says, over
// the spec functions of `crate::model`, what the one statement in its
// body does to the contents, as far as the statement's text and the
// store's documented behaviour show it; the verified lifecycle operations
// of `crate::version` then prove their own effects from these alone.

#[verifier::external_type_specification]
#[verifier::external_body]
pub struct ExConnection(rusqlite::Connection);

#[verifier::external_type_specification]
#[verifier::external_body]
pub struct ExError(rusqlite::Error);

/// A handle over the relational store: the connection, and the ghost
/// model of what the store holds.
pub struct Store {
    conn: rusqlite::Connection,
    state: Ghost<StoreModel>,
}

impl View for Store {
    type V = StoreModel;

    closed spec fn view(&self) -> StoreModel {
        self.state@
    }
}

impl Store {
    /// No transaction is open and the durable contents satisfy what the
    /// schema enforces. Every lifecycle operation keeps this.
    pub open spec fn ready(self) -> bool {
        &&& self@.pending is None
        &&& schema_wf(self@.durable.rows, self@.durable.next)
    }

    /// Adopts an existing connection, creating the canonical schema where
    /// it is absent, and rows already present are kept. Trusted, so that
    /// the returned store's model is unconstrained beyond `ready()` and
    /// can denote whatever the adopted database really holds, which this
    /// library cannot inspect. The promise — no open transaction, ids and
    /// natural keys unique, ids at least 1 and below the next fresh one —
    /// relies on the two tables, where they pre-exist, having the
    /// canonical schema of `setup_schema` (whose constraints and id check
    /// enforce exactly that) and contents admitted by it. A pre-existing
    /// table of a foreign shape, which the schema creation leaves in
    /// place, is outside the promise: the operations on such a store fail
    /// and propagate the store's errors.
    #[verifier::external_body]
    pub fn open(conn: rusqlite::Connection) -> (r: Result<Store, crate::version::StoreError>)
        ensures
            r is Ok ==> r.unwrap().ready(),
    {
        match setup_schema(&conn) {
            Ok(_) => Ok(Store { conn, state: Ghost(vstd::pervasive::arbitrary()) }),
            Err(e) => Err(crate::version::StoreError { source: e }),
        }
    }

    /// A store over a fresh private in-memory database: both tables
    /// empty, and the store assigns ids from 1.
    pub fn create_in_memory() -> (r: Result<Store, crate::version::StoreError>)
        ensures
            r is Ok ==> ({
                let st = r.unwrap();
                &&& st.ready()
                &&& st@.durable.rows == Seq::<RowModel>::empty()
                &&& st@.durable.next == 1
                &&& st@.durable.mods == Seq::<ModRowModel>::empty()
            }),
    {
        let conn = match open_memory_conn() {
            Ok(c) => c,
            Err(e) => return Err(crate::version::StoreError { source: e }),
        };
        match setup_schema(&conn) {
            Ok(_) => (),
            Err(e) => return Err(crate::version::StoreError { source: e }),
        }
        let ghost m = StoreModel {
            durable: TableModel { rows: Seq::empty(), next: 1, mods: Seq::empty() },
            pending: None,
        };
        Ok(Store { conn, state: Ghost(m) })
    }

    /// Hands the underlying connection back, ending the store's
    /// governance of it.
    pub fn into_connection(self) -> rusqlite::Connection {
        self.conn
    }
}

/// Relies on rusqlite::Connection::open_in_memory: a connection to a
/// fresh, private, empty in-memory database.
#[verifier::external_body]
fn open_memory_conn() -> (r: Result<rusqlite::Connection, rusqlite::Error>) {
    rusqlite::Connection::open_in_memory()
}

/// Relies on rusqlite::Connection::execute_batch: creates the version
/// table — with the natural-key uniqueness constraint the save protocol
/// rests on, and a check that every id is at least 1 — and the child
/// table, where they do not exist yet.
#[verifier::external_body]
fn setup_schema(conn: &rusqlite::Connection) -> (r: Result<(), rusqlite::Error>) {
    conn.execute_batch(
        "CREATE TABLE IF NOT EXISTS modpack_versions (id INTEGER PRIMARY KEY CHECK (id >= 1), \
         modpack_id INTEGER NOT NULL, game_version TEXT NOT NULL, \
         installed INTEGER NOT NULL DEFAULT 0, loaded INTEGER NOT NULL DEFAULT 0, \
         UNIQUE (modpack_id, game_version)); \
         CREATE TABLE IF NOT EXISTS mod_versions (id INTEGER PRIMARY KEY, \
         mod_id INTEGER NOT NULL, version_id INTEGER NOT NULL, \
         game_version TEXT NOT NULL, download_url TEXT NOT NULL, \
         dependency_of INTEGER, \
         modpack_version_id INTEGER NOT NULL REFERENCES modpack_versions (id))",
    )
}

/// Relies on rusqlite::Connection::execute_batch: begins a transaction.
/// Until commit the durable contents are untouched; the pending contents
/// start as a copy of them. A failed begin leaves no transaction open.
#[verifier::external_body]
pub(crate) fn begin(st: &mut Store) -> (r: Result<(), rusqlite::Error>)
    requires
        old(st)@.pending is None,
    ensures
        final(st)@.durable == old(st)@.durable,
        r is Ok ==> final(st)@.pending == Some(old(st)@.durable),
        r is Err ==> final(st)@.pending is None,
{
    st.conn.execute_batch("BEGIN")
}

/// Relies on rusqlite::Connection::execute_batch: commits the open
/// transaction, making the pending contents durable. On an error nothing
/// was committed and the durable contents are unchanged.
#[verifier::external_body]
pub(crate) fn commit(st: &mut Store) -> (r: Result<(), rusqlite::Error>)
    requires
        old(st)@.pending is Some,
    ensures
        r is Ok ==> final(st)@.durable == old(st)@.pending.unwrap() && final(st)@.pending
            is None,
        r is Err ==> final(st)@.durable == old(st)@.durable,
{
    st.conn.execute_batch("COMMIT")
}

/// Relies on rusqlite::Connection::execute_batch: abandons the open
/// transaction, if one is still open, discarding its pending contents;
/// the durable contents are untouched either way. A rollback error is
/// discarded, as the store's own transaction drop does.
#[verifier::external_body]
pub(crate) fn rollback_quiet(st: &mut Store)
    ensures
        final(st)@.durable == old(st)@.durable,
        final(st)@.pending is None,
{
    let _ = st.conn.execute_batch("ROLLBACK");
}

/// Relies on rusqlite::Connection::prepare and rusqlite::Statement::insert:
/// runs the row insert for the natural key inside the open transaction,
/// with both flags at their false defaults, and returns the rowid the
/// store assigned — the next fresh id. The schema's uniqueness constraint
/// makes the statement fail whenever a row with the key is already
/// pending; a failed statement changes nothing.
#[verifier::external_body]
pub(crate) fn insert_version(st: &mut Store, modpack_id: i64, game_version: &String) -> (r: Result<
    i64,
    rusqlite::Error,
>)
    requires
        old(st)@.pending is Some,
        old(st)@.pending.unwrap().next < i64::MAX,
    ensures
        final(st)@.durable == old(st)@.durable,
        ({
            let p = old(st)@.pending.unwrap();
            match r {
                Ok(id) => {
                    &&& !has_key(p.rows, modpack_id as int, game_version@)
                    &&& id as int == p.next
                    &&& final(st)@.pending == Some(
                        TableModel {
                            rows: p.rows.push(
                                fresh_row(p.next, modpack_id as int, game_version@),
                            ),
                            next: p.next + 1,
                            mods: p.mods,
                        },
                    )
                },
                Err(_) => final(st)@.pending == old(st)@.pending,
            }
        }),
{
    st.conn
        .prepare("INSERT INTO modpack_versions (modpack_id, game_version) VALUES (?1, ?2)")?
        .insert((modpack_id, game_version.as_str()))
}

/// Relies on rusqlite::Error::sqlite_error: tells the violation of a
/// uniqueness constraint apart from every other failure of the store.
#[verifier::external_body]
pub(crate) fn is_unique_violation(e: &rusqlite::Error) -> (r: bool) {
    match e.sqlite_error() {
        Some(inner) => inner.extended_code == rusqlite::ffi::SQLITE_CONSTRAINT_UNIQUE,
        None => false,
    }
}

/// Relies on rusqlite::Connection::query_row: point lookup, inside the
/// open transaction, of the id column of the row with the given natural
/// key; what it returns on success is the id of a pending row bearing
/// that key. It fails with QueryReturnedNoRows when no such row exists,
/// and a read changes nothing.
#[verifier::external_body]
pub(crate) fn lookup_id(st: &Store, modpack_id: i64, game_version: &String) -> (r: Result<
    i64,
    rusqlite::Error,
>)
    requires
        st@.pending is Some,
    ensures
        r is Ok ==> exists|j: int|
            0 <= j < st@.pending.unwrap().rows.len() && key_eq(
                #[trigger] st@.pending.unwrap().rows[j],
                modpack_id as int,
                game_version@,
            ) && st@.pending.unwrap().rows[j].id == r.unwrap() as int,
{
    st.conn.query_row(
        "SELECT id FROM modpack_versions WHERE modpack_id = ?1 AND game_version = ?2",
        (modpack_id, game_version.as_str()),
        |row| row.get(0),
    )
}

/// Relies on rusqlite::Connection::execute: clears the loaded flag on
/// every version row, inside the open transaction; nothing else of any
/// row changes, and a failed statement changes nothing.
#[verifier::external_body]
pub(crate) fn clear_all_loaded_tx(st: &mut Store) -> (r: Result<usize, rusqlite::Error>)
    requires
        old(st)@.pending is Some,
    ensures
        final(st)@.durable == old(st)@.durable,
        ({
            let p = old(st)@.pending.unwrap();
            match r {
                Ok(_) => final(st)@.pending == Some(
                    TableModel { rows: all_unloaded(p.rows), next: p.next, mods: p.mods },
                ),
                Err(_) => final(st)@.pending == old(st)@.pending,
            }
        }),
{
    st.conn.execute("UPDATE modpack_versions SET loaded = 0", ())
}

/// Relies on rusqlite::Connection::execute: sets the loaded flag on the
/// version rows with the given id, inside the open transaction — zero
/// rows when none has that id; nothing else of any row changes, and a
/// failed statement changes nothing.
#[verifier::external_body]
pub(crate) fn set_loaded_by_id(st: &mut Store, id: i64) -> (r: Result<usize, rusqlite::Error>)
    requires
        old(st)@.pending is Some,
    ensures
        final(st)@.durable == old(st)@.durable,
        ({
            let p = old(st)@.pending.unwrap();
            match r {
                Ok(_) => final(st)@.pending == Some(
                    TableModel { rows: with_loaded(p.rows, id as int), next: p.next, mods: p.mods },
                ),
                Err(_) => final(st)@.pending == old(st)@.pending,
            }
        }),
{
    st.conn.execute("UPDATE modpack_versions SET loaded = 1 WHERE id = ?1", (id,))
}

/// Relies on rusqlite::Connection::execute: clears the loaded flag on
/// every version row in one atomic autocommitting statement; nothing else
/// of any row changes, and a failed statement changes nothing.
#[verifier::external_body]
pub(crate) fn clear_all_loaded(st: &mut Store) -> (r: Result<usize, rusqlite::Error>)
    requires
        old(st)@.pending is None,
    ensures
        final(st)@.pending is None,
        ({
            let d = old(st)@.durable;
            match r {
                Ok(_) => final(st)@.durable == TableModel {
                    rows: all_unloaded(d.rows),
                    next: d.next,
                    mods: d.mods,
                },
                Err(_) => final(st)@.durable == old(st)@.durable,
            }
        }),
{
    st.conn.execute("UPDATE modpack_versions SET loaded = 0", ())
}

/// The model of one child row handed back as a plain column tuple.
pub open spec fn tuple_model(t: (i64, i64, i64, String, String, Option<i64>, i64)) -> ModRowModel {
    ModRowModel {
        id: t.0 as int,
        mod_id: t.1 as int,
        version_id: t.2 as int,
        game_version: t.3@,
        download_url: t.4@,
        dependency_of: match t.5 {
            Some(i) => Some(i as int),
            None => None,
        },
        modpack_version_id: t.6 as int,
    }
}

/// The models of a sequence of such tuples.
pub open spec fn tuples_model(s: Seq<(i64, i64, i64, String, String, Option<i64>, i64)>) -> Seq<
    ModRowModel,
> {
    s.map_values(|t: (i64, i64, i64, String, String, Option<i64>, i64)| tuple_model(t))
}

/// Relies on rusqlite::Connection::prepare, rusqlite::Statement::query_map
/// and rusqlite::Row::get: reads, in id order, every child row whose
/// modpack_version_id column equals `parent_id` and no other, each as the
/// plain column tuple (id, mod_id, version_id, game_version, download_url,
/// dependency_of, modpack_version_id) — exactly the rows that
/// `crate::model::children_of` selects from the durable child table,
/// which this model carries in id order. A read changes nothing.
#[verifier::external_body]
pub(crate) fn select_children(st: &Store, parent_id: i64) -> (r: Result<
    Vec<(i64, i64, i64, String, String, Option<i64>, i64)>,
    rusqlite::Error,
>)
    requires
        st@.pending is None,
    ensures
        r is Ok ==> tuples_model(r.unwrap()@) == crate::model::children_of(
            st@.durable.mods,
            parent_id as int,
        ),
{
    let mut stmt = st.conn.prepare(
        "SELECT id, mod_id, version_id, game_version, download_url, dependency_of, \
         modpack_version_id FROM mod_versions WHERE modpack_version_id = ?1 ORDER BY id",
    )?;
    let rows = stmt.query_map((parent_id,), |row| {
        Ok((
            row.get(0)?,
            row.get(1)?,
            row.get(2)?,
            row.get(3)?,
            row.get(4)?,
            row.get(5)?,
            row.get(6)?,
        ))
    })?;
    rows.collect()
}

} // verus!
