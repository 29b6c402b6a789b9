use vstd::prelude::*;
use core::marker::PhantomData;
use crate::model::{
    all_unloaded, children_of, has_key, key_eq, key_index, lemma_children_exact,
    lemma_load_exclusive, lemma_save_unique, lemma_set_after_clear, loaded_only, upsert_id,
    upsert_next, upserted, ModRowModel,
};
use crate::sql;
use crate::sql::{tuple_model, tuples_model, Store};

verus! {

/// Error of the persistence operations: a failure of the underlying
/// relational store, propagated unchanged. The one store failure that is
/// ever recovered locally is the natural-key uniqueness conflict inside
/// [`ModpackVersion::save`]; every other failure becomes this error.
#[derive(Debug)]
pub struct StoreError {
    pub source: rusqlite::Error,
}

/// Marker for an entity that has not yet been persisted: it carries no
/// durable identity.
pub struct NotSaved;

/// Marker for an entity that has been persisted: its `id` is set and
/// immutable from then on.
pub struct Saved;

/// Mathematical view of a [`ModpackVersion`] in either state.
pub ghost struct VersionView {
    pub id: Option<int>,
    pub modpack_id: int,
    pub game_version: Seq<char>,
    pub installed: bool,
    pub loaded: bool,
}

/// A pinned combination of a modpack and a target game version, together
/// with its local installation and activation flags.
///
/// The `State` parameter is a compile-time tag: operations that need a
/// durable identity exist only on `ModpackVersion<Saved>`, so a transient
/// instance can never be loaded, unloaded or queried for children. The
/// private marker field keeps callers from minting a `Saved` value by hand.
pub struct ModpackVersion<State = NotSaved> {
    pub id: Option<i64>,
    pub modpack_id: i64,
    pub game_version: String,
    pub installed: bool,
    pub loaded: bool,
    state: PhantomData<State>,
}

impl<State> View for ModpackVersion<State> {
    type V = VersionView;

    closed spec fn view(&self) -> VersionView {
        VersionView {
            id: match self.id {
                Some(i) => Some(i as int),
                None => None,
            },
            modpack_id: self.modpack_id as int,
            game_version: self.game_version@,
            installed: self.installed,
            loaded: self.loaded,
        }
    }
}

impl ModpackVersion<NotSaved> {
    /// Creates a transient instance: no id yet, both flags false.
    pub fn new(modpack_id: i64, game_version: String) -> (r: ModpackVersion<NotSaved>)
        ensures
            r@.id is None,
            r@.modpack_id == modpack_id as int,
            r@.game_version == game_version@,
            !r@.installed,
            !r@.loaded,
    {
        ModpackVersion {
            id: None,
            modpack_id,
            game_version,
            installed: false,
            loaded: false,
            state: PhantomData,
        }
    }

    /// Persists this transient instance inside one transaction: it inserts
    /// a fresh row for `(modpack_id, game_version)` and, when that fails
    /// only because a row with the same natural key already exists, it
    /// resolves to the existing row's id instead; any other store failure
    /// rolls the transaction back and is propagated, the store unchanged.
    ///
    /// On success the store's version rows become exactly
    /// `upserted(rows, next, modpack_id, game_version)` — unchanged when
    /// the key was present, one fresh deactivated row appended when not —
    /// and the persisted result carries `upsert_id(..)`, the resolved
    /// row's id, with every supplied field kept verbatim: the
    /// resolved-existing path deliberately does not refresh `installed` or
    /// `loaded` from the store.
    pub fn save(self, st: &mut Store) -> (r: Result<ModpackVersion<Saved>, StoreError>)
        requires
            old(st).ready(),
            old(st)@.durable.next < i64::MAX,
        ensures
            final(st).ready(),
            final(st)@.durable.mods == old(st)@.durable.mods,
            r is Err ==> final(st)@.durable == old(st)@.durable,
            r is Ok ==> ({
                let d0 = old(st)@.durable;
                let s = r.unwrap()@;
                &&& final(st)@.durable.rows == upserted(
                    d0.rows,
                    d0.next,
                    self@.modpack_id,
                    self@.game_version,
                )
                &&& final(st)@.durable.next == upsert_next(
                    d0.rows,
                    d0.next,
                    self@.modpack_id,
                    self@.game_version,
                )
                &&& s.id == Some(upsert_id(d0.rows, d0.next, self@.modpack_id, self@.game_version))
                &&& s.modpack_id == self@.modpack_id
                &&& s.game_version == self@.game_version
                &&& s.installed == self@.installed
                &&& s.loaded == self@.loaded
            }),
    {
        let ghost d0 = st@.durable;
        proof {
            lemma_save_unique(d0.rows, d0.next, self@.modpack_id, self@.game_version);
        }
        match sql::begin(st) {
            Ok(_) => (),
            Err(e) => return Err(StoreError { source: e }),
        }
        let id: i64 = match sql::insert_version(st, self.modpack_id, &self.game_version) {
            Ok(fresh) => fresh,
            Err(err) => {
                if !sql::is_unique_violation(&err) {
                    sql::rollback_quiet(st);
                    return Err(StoreError { source: err });
                }
                match sql::lookup_id(st, self.modpack_id, &self.game_version) {
                    Ok(found) => found,
                    Err(e) => {
                        sql::rollback_quiet(st);
                        return Err(StoreError { source: e });
                    },
                }
            },
        };
        match sql::commit(st) {
            Ok(_) => (),
            Err(e) => {
                sql::rollback_quiet(st);
                return Err(StoreError { source: e });
            },
        }
        proof {
            let m = self@.modpack_id;
            let gv = self@.game_version;
            if has_key(d0.rows, m, gv) {
                let k = key_index(d0.rows, m, gv);
                assert(0 <= k < d0.rows.len() && key_eq(d0.rows[k], m, gv));
                assert(exists|j: int|
                    0 <= j < d0.rows.len() && key_eq(#[trigger] d0.rows[j], m, gv)
                        && d0.rows[j].id == id as int);
                let j = choose|j: int|
                    0 <= j < d0.rows.len() && key_eq(#[trigger] d0.rows[j], m, gv)
                        && d0.rows[j].id == id as int;
                assert(k == j);
                assert(id as int == upsert_id(d0.rows, d0.next, m, gv));
            }
        }
        Ok(ModpackVersion {
            id: Some(id),
            modpack_id: self.modpack_id,
            game_version: self.game_version,
            installed: self.installed,
            loaded: self.loaded,
            state: PhantomData,
        })
    }
}

impl ModpackVersion {
    /// Makes the row with identity `modpack_version_id` the sole active
    /// one: within a single transaction the loaded flag is first cleared
    /// on every row and then set on the matching row, so no state with two
    /// active rows is ever committed. On success the version rows become
    /// exactly `loaded_only(rows, modpack_version_id)`: the flag true on
    /// the matching row alone — on no row at all when the identity
    /// matches nothing, a benign no-op that still commits — and nothing
    /// else of any row changes. On an error the transaction is rolled
    /// back and the store is unchanged.
    pub fn load(modpack_version_id: i64, st: &mut Store) -> (r: Result<(), StoreError>)
        requires
            old(st).ready(),
        ensures
            final(st).ready(),
            final(st)@.durable.next == old(st)@.durable.next,
            final(st)@.durable.mods == old(st)@.durable.mods,
            r is Ok ==> final(st)@.durable.rows == loaded_only(
                old(st)@.durable.rows,
                modpack_version_id as int,
            ),
            r is Err ==> final(st)@.durable == old(st)@.durable,
    {
        let ghost d0 = st@.durable;
        proof {
            lemma_load_exclusive(d0.rows, d0.next, modpack_version_id as int);
            lemma_set_after_clear(d0.rows, modpack_version_id as int);
        }
        match sql::begin(st) {
            Ok(_) => (),
            Err(e) => return Err(StoreError { source: e }),
        }
        match sql::clear_all_loaded_tx(st) {
            Ok(_) => (),
            Err(e) => {
                sql::rollback_quiet(st);
                return Err(StoreError { source: e });
            },
        }
        match sql::set_loaded_by_id(st, modpack_version_id) {
            Ok(_) => (),
            Err(e) => {
                sql::rollback_quiet(st);
                return Err(StoreError { source: e });
            },
        }
        match sql::commit(st) {
            Ok(_) => (),
            Err(e) => {
                sql::rollback_quiet(st);
                return Err(StoreError { source: e });
            },
        }
        Ok(())
    }

    /// Clears the loaded flag on every row in one atomic statement, so no
    /// version is active afterwards: on success the version rows become
    /// exactly `all_unloaded(rows)`, and nothing else of any row changes.
    /// On an error the store is unchanged.
    pub fn unload_all(st: &mut Store) -> (r: Result<(), StoreError>)
        requires
            old(st).ready(),
        ensures
            final(st).ready(),
            final(st)@.durable.next == old(st)@.durable.next,
            final(st)@.durable.mods == old(st)@.durable.mods,
            r is Ok ==> final(st)@.durable.rows == all_unloaded(old(st)@.durable.rows),
            r is Err ==> final(st)@.durable == old(st)@.durable,
    {
        proof {
            lemma_load_exclusive(st@.durable.rows, st@.durable.next, 0);
        }
        match sql::clear_all_loaded(st) {
            Ok(_) => Ok(()),
            Err(e) => Err(StoreError { source: e }),
        }
    }
}

impl ModpackVersion<Saved> {
    /// Reads the child mod-version records whose foreign reference points
    /// at this persisted instance's identity. Read-only: no row of the
    /// store is changed. On success the result is, row for row, exactly
    /// `children_of(mods, id)` — the child rows bearing this identity, in
    /// id order, empty when there are none — and every returned child is
    /// persisted and carries this instance's identity as its parent
    /// reference.
    pub fn get_mod_versions(&self, st: &Store) -> (r: Result<Vec<ModVersion<Saved>>, StoreError>)
        requires
            self@.id is Some,
            st.ready(),
        ensures
            r is Ok ==> mod_views(r.unwrap()@) == children_of(
                st@.durable.mods,
                self@.id.unwrap(),
            ),
            r is Ok ==> forall|i: int|
                0 <= i < r.unwrap()@.len() ==> {
                    let m = (#[trigger] r.unwrap()@[i])@;
                    m.id is Some && m.modpack_version_id == self@.id.unwrap()
                },
    {
        let own_id: i64 = self.id.unwrap();
        let tuples = match sql::select_children(st, own_id) {
            Ok(t) => t,
            Err(e) => return Err(StoreError { source: e }),
        };
        let ghost target = children_of(st@.durable.mods, own_id as int);
        proof {
            lemma_children_exact(st@.durable.mods, own_id as int);
            assert(tuples_model(tuples@) == target);
        }
        let mut out: Vec<ModVersion<Saved>> = Vec::new();
        let mut idx: usize = 0;
        while idx < tuples.len()
            invariant
                idx <= tuples@.len(),
                tuples_model(tuples@) == target,
                forall|i: int|
                    0 <= i < target.len() ==> (#[trigger] target[i]).modpack_version_id == own_id
                         as int,
                own_id as int == self@.id.unwrap(),
                out@.len() == idx,
                forall|i: int|
                    0 <= i < idx ==> mod_entity_model(#[trigger] out@[i]) == tuple_model(
                        tuples@[i],
                    ),
                forall|i: int|
                    0 <= i < out@.len() ==> {
                        let m = (#[trigger] out@[i])@;
                        m.id is Some && m.modpack_version_id == own_id as int
                    },
            decreases tuples@.len() - idx,
        {
            proof {
                assert(tuple_model(tuples@[idx as int]) == target[idx as int]);
            }
            let t = &tuples[idx];
            out.push(ModVersion {
                id: Some(t.0),
                mod_id: t.1,
                version_id: t.2,
                game_version: t.3.clone(),
                download_url: t.4.clone(),
                dependency_of: t.5,
                modpack_version_id: t.6,
                state: PhantomData,
            });
            idx = idx + 1;
        }
        proof {
            assert(mod_views(out@) =~= tuples_model(tuples@));
        }
        Ok(out)
    }
}

/// Mathematical view of a [`ModVersion`].
pub ghost struct ModVersionView {
    pub id: Option<int>,
    pub mod_id: int,
    pub version_id: int,
    pub game_version: Seq<char>,
    pub download_url: Seq<char>,
    pub dependency_of: Option<int>,
    pub modpack_version_id: int,
}

/// A single mod version that belongs to exactly one [`ModpackVersion`]
/// through `modpack_version_id`. From this core's perspective it is
/// read-only: child records are fetched from the store, never constructed
/// or written here, so the library only ever hands out `ModVersion<Saved>`.
pub struct ModVersion<State = Saved> {
    pub id: Option<i64>,
    pub mod_id: i64,
    pub version_id: i64,
    pub game_version: String,
    pub download_url: String,
    pub dependency_of: Option<i64>,
    pub modpack_version_id: i64,
    state: PhantomData<State>,
}

impl<State> View for ModVersion<State> {
    type V = ModVersionView;

    closed spec fn view(&self) -> ModVersionView {
        ModVersionView {
            id: match self.id {
                Some(i) => Some(i as int),
                None => None,
            },
            mod_id: self.mod_id as int,
            version_id: self.version_id as int,
            game_version: self.game_version@,
            download_url: self.download_url@,
            dependency_of: match self.dependency_of {
                Some(i) => Some(i as int),
                None => None,
            },
            modpack_version_id: self.modpack_version_id as int,
        }
    }
}

/// The child-table row that a persisted [`ModVersion`] stands for.
pub open spec fn mod_entity_model(m: ModVersion<Saved>) -> ModRowModel {
    ModRowModel {
        id: m@.id.unwrap(),
        mod_id: m@.mod_id,
        version_id: m@.version_id,
        game_version: m@.game_version,
        download_url: m@.download_url,
        dependency_of: m@.dependency_of,
        modpack_version_id: m@.modpack_version_id,
    }
}

/// The child-table rows that a sequence of persisted children stands for.
pub open spec fn mod_views(s: Seq<ModVersion<Saved>>) -> Seq<ModRowModel> {
    s.map_values(|m: ModVersion<Saved>| mod_entity_model(m))
}

} // verus!
