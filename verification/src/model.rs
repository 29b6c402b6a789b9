use vstd::prelude::*;

verus! {

// Mathematical semantics of the version table and of the child
// mod-version table. The lifecycle operations of `crate::version` change
// the relational store; the functions here say, over sequences of row
// models, exactly what those changes are, and the lemmas prove the
// store-wide laws: idempotent saves, unique natural keys, and at most one
// active row.

/// Mathematical model of one row of the version table.
pub ghost struct RowModel {
    pub id: int,
    pub modpack_id: int,
    pub game_version: Seq<char>,
    pub installed: bool,
    pub loaded: bool,
}

/// Mathematical model of one row of the child mod-version table.
pub ghost struct ModRowModel {
    pub id: int,
    pub mod_id: int,
    pub version_id: int,
    pub game_version: Seq<char>,
    pub download_url: Seq<char>,
    pub dependency_of: Option<int>,
    pub modpack_version_id: int,
}

/// The row matches the natural key `(modpack_id, game_version)`.
pub open spec fn key_eq(r: RowModel, modpack_id: int, game_version: Seq<char>) -> bool {
    r.modpack_id == modpack_id && r.game_version == game_version
}

/// Some row of `s` matches the natural key.
pub open spec fn has_key(s: Seq<RowModel>, modpack_id: int, game_version: Seq<char>) -> bool {
    exists|i: int| 0 <= i < s.len() && key_eq(#[trigger] s[i], modpack_id, game_version)
}

/// An index of a row of `s` that matches the natural key.
pub open spec fn key_index(s: Seq<RowModel>, modpack_id: int, game_version: Seq<char>) -> int {
    choose|i: int| 0 <= i < s.len() && key_eq(#[trigger] s[i], modpack_id, game_version)
}

/// No two distinct rows share an id.
pub open spec fn unique_ids(s: Seq<RowModel>) -> bool {
    forall|i: int, j: int|
        0 <= i < s.len() && 0 <= j < s.len() && i != j ==> (#[trigger] s[i]).id != (
        #[trigger] s[j]).id
}

/// No two distinct rows share a natural key.
pub open spec fn unique_keys(s: Seq<RowModel>) -> bool {
    forall|i: int, j: int|
        0 <= i < s.len() && 0 <= j < s.len() && i != j ==> !key_eq(
            #[trigger] s[i],
            (#[trigger] s[j]).modpack_id,
            s[j].game_version,
        )
}

/// At most one row is active.
pub open spec fn loaded_at_most_one(s: Seq<RowModel>) -> bool {
    forall|i: int, j: int|
        0 <= i < s.len() && 0 <= j < s.len() && (#[trigger] s[i]).loaded && (
        #[trigger] s[j]).loaded ==> i == j
}

/// No row is active.
pub open spec fn none_loaded(s: Seq<RowModel>) -> bool {
    forall|i: int| 0 <= i < s.len() ==> !(#[trigger] s[i]).loaded
}

/// Every id is durable (at least 1) and below the next fresh id.
pub open spec fn ids_below(s: Seq<RowModel>, next: int) -> bool {
    forall|i: int| 0 <= i < s.len() ==> 1 <= (#[trigger] s[i]).id < next
}

/// The standing invariant of the version table. Ids unique (the primary
/// key), natural keys unique (the uniqueness constraint) and ids at least
/// 1 (the schema's id check) are enforced by the canonical schema itself;
/// that every id stays below the next fresh one is bookkeeping of the
/// insert protocol, not a store constraint. The at-most-one-active rule
/// is neither: it is established by the load and unload operations alone,
/// so it is stated separately.
pub open spec fn schema_wf(s: Seq<RowModel>, next: int) -> bool {
    &&& unique_ids(s)
    &&& unique_keys(s)
    &&& ids_below(s, next)
    &&& 1 <= next
}

/// Mathematical model of the whole store's contents: the version rows with
/// the next fresh id, and the child mod-version rows in id order.
pub ghost struct TableModel {
    pub rows: Seq<RowModel>,
    pub next: int,
    pub mods: Seq<ModRowModel>,
}

/// The store as the library sees it: the durable (committed) contents,
/// and, while a transaction is open, the pending contents it would commit.
pub ghost struct StoreModel {
    pub durable: TableModel,
    pub pending: Option<TableModel>,
}


/// The row that a first-time save of a natural key appends: fresh id, both
/// flags false.
pub open spec fn fresh_row(id: int, modpack_id: int, game_version: Seq<char>) -> RowModel {
    RowModel { id, modpack_id, game_version, installed: false, loaded: false }
}

/// Contents of the version table after an idempotent save of the natural
/// key: unchanged when some row already bears the key, else extended by a
/// fresh row whose id is `next`.
pub open spec fn upserted(
    s: Seq<RowModel>,
    next: int,
    modpack_id: int,
    game_version: Seq<char>,
) -> Seq<RowModel> {
    if has_key(s, modpack_id, game_version) {
        s
    } else {
        s.push(fresh_row(next, modpack_id, game_version))
    }
}

/// The id such a save resolves to: the existing row's id when the key is
/// present, else the fresh id `next`.
pub open spec fn upsert_id(
    s: Seq<RowModel>,
    next: int,
    modpack_id: int,
    game_version: Seq<char>,
) -> int {
    if has_key(s, modpack_id, game_version) {
        s[key_index(s, modpack_id, game_version)].id
    } else {
        next
    }
}

/// The next fresh id after such a save.
pub open spec fn upsert_next(
    s: Seq<RowModel>,
    next: int,
    modpack_id: int,
    game_version: Seq<char>,
) -> int {
    if has_key(s, modpack_id, game_version) {
        next
    } else {
        next + 1
    }
}

/// The same row with its loaded flag cleared.
pub open spec fn unloaded_row(r: RowModel) -> RowModel {
    RowModel {
        id: r.id,
        modpack_id: r.modpack_id,
        game_version: r.game_version,
        installed: r.installed,
        loaded: false,
    }
}

/// The same row with its loaded flag set exactly when its id is `id`.
pub open spec fn activated_row(r: RowModel, id: int) -> RowModel {
    RowModel {
        id: r.id,
        modpack_id: r.modpack_id,
        game_version: r.game_version,
        installed: r.installed,
        loaded: r.id == id,
    }
}

/// Contents after deactivating every row.
pub open spec fn all_unloaded(s: Seq<RowModel>) -> Seq<RowModel> {
    s.map_values(|r: RowModel| unloaded_row(r))
}

/// Contents after activating the row with identity `id`: the loaded flag
/// is true exactly on rows whose id matches, false everywhere else.
pub open spec fn loaded_only(s: Seq<RowModel>, id: int) -> Seq<RowModel> {
    s.map_values(|r: RowModel| activated_row(r, id))
}

/// The same row with its loaded flag additionally set when its id is `id`.
pub open spec fn flagged_row(r: RowModel, id: int) -> RowModel {
    RowModel {
        id: r.id,
        modpack_id: r.modpack_id,
        game_version: r.game_version,
        installed: r.installed,
        loaded: r.loaded || r.id == id,
    }
}

/// Contents after the bare set-loaded-by-identity statement: matching rows
/// become loaded, every other row keeps its flag.
pub open spec fn with_loaded(s: Seq<RowModel>, id: int) -> Seq<RowModel> {
    s.map_values(|r: RowModel| flagged_row(r, id))
}

/// Exactly one row of `s` bears the natural key.
pub open spec fn exactly_one_key(s: Seq<RowModel>, modpack_id: int, game_version: Seq<char>) -> bool {
    &&& has_key(s, modpack_id, game_version)
    &&& forall|i: int, j: int|
        0 <= i < s.len() && 0 <= j < s.len() && key_eq(#[trigger] s[i], modpack_id, game_version)
            && key_eq(#[trigger] s[j], modpack_id, game_version) ==> i == j
}

/// The ordered children of the version with identity `parent` in the
/// mod-version table.
pub open spec fn children_of(s: Seq<ModRowModel>, parent: int) -> Seq<ModRowModel> {
    s.filter(|r: ModRowModel| r.modpack_version_id == parent)
}

/// Law: an idempotent save preserves the schema invariant, afterwards the
/// table bears its natural key on exactly one row, no save ever touches an
/// existing row, and a save never activates a row: when at most one row
/// was active before, at most one is after.
pub proof fn lemma_save_unique(s: Seq<RowModel>, next: int, modpack_id: int, game_version: Seq<char>)
    requires
        schema_wf(s, next),
    ensures
        schema_wf(
            upserted(s, next, modpack_id, game_version),
            upsert_next(s, next, modpack_id, game_version),
        ),
        exactly_one_key(upserted(s, next, modpack_id, game_version), modpack_id, game_version),
        forall|i: int|
            0 <= i < s.len() ==> upserted(s, next, modpack_id, game_version)[i] == s[i],
        loaded_at_most_one(s) ==> loaded_at_most_one(upserted(s, next, modpack_id, game_version)),
{
    let s1 = upserted(s, next, modpack_id, game_version);
    if has_key(s, modpack_id, game_version) {
        assert(s1 == s);
    } else {
        assert(s1 == s.push(fresh_row(next, modpack_id, game_version)));
        assert(s1[s.len() as int] == fresh_row(next, modpack_id, game_version));
        assert(forall|i: int| 0 <= i < s.len() ==> s1[i] == s[i]);
        assert(key_eq(s1[s.len() as int], modpack_id, game_version));
        assert forall|i: int, j: int|
            0 <= i < s1.len() && 0 <= j < s1.len() && i != j implies !key_eq(
            #[trigger] s1[i],
            (#[trigger] s1[j]).modpack_id,
            s1[j].game_version,
        ) by {
            if i < s.len() && j < s.len() {
                assert(!key_eq(s[i], s[j].modpack_id, s[j].game_version));
            } else if i == s.len() {
                // the fresh row cannot repeat an existing key: none was found
                assert(!key_eq(s[j], modpack_id, game_version));
            } else {
                assert(!key_eq(s[i], modpack_id, game_version));
            }
        }
    }
}

/// Law: saving the same natural key twice resolves to the same id both
/// times and leaves the table of the first save unchanged, so repeated
/// saves keep exactly one row for the key.
pub proof fn lemma_save_idempotent(
    s: Seq<RowModel>,
    next: int,
    modpack_id: int,
    game_version: Seq<char>,
)
    requires
        schema_wf(s, next),
    ensures
        ({
            let s1 = upserted(s, next, modpack_id, game_version);
            let n1 = upsert_next(s, next, modpack_id, game_version);
            &&& upserted(s1, n1, modpack_id, game_version) == s1
            &&& upsert_id(s1, n1, modpack_id, game_version) == upsert_id(
                s,
                next,
                modpack_id,
                game_version,
            )
            &&& exactly_one_key(s1, modpack_id, game_version)
        }),
{
    lemma_save_unique(s, next, modpack_id, game_version);
    let s1 = upserted(s, next, modpack_id, game_version);
    let n1 = upsert_next(s, next, modpack_id, game_version);
    assert(has_key(s1, modpack_id, game_version));
    assert(upserted(s1, n1, modpack_id, game_version) == s1);
    let k1 = key_index(s1, modpack_id, game_version);
    assert(0 <= k1 < s1.len() && key_eq(s1[k1], modpack_id, game_version));
    if has_key(s, modpack_id, game_version) {
        let k0 = key_index(s, modpack_id, game_version);
        assert(0 <= k0 < s.len() && key_eq(s[k0], modpack_id, game_version));
        assert(k1 == k0);
    } else {
        assert(key_eq(s1[s.len() as int], modpack_id, game_version));
        assert(k1 == s.len() as int);
        assert(s1[k1].id == next);
    }
}

/// Law: activating one identity and deactivating all rows both preserve
/// the schema invariant, and after either at most one row is active —
/// whatever was active before; after deactivation none is. So any
/// sequence of load and unload calls leaves at most one active row.
pub proof fn lemma_load_exclusive(s: Seq<RowModel>, next: int, id: int)
    requires
        schema_wf(s, next),
    ensures
        schema_wf(loaded_only(s, id), next),
        schema_wf(all_unloaded(s), next),
        loaded_at_most_one(loaded_only(s, id)),
        none_loaded(all_unloaded(s)),
{
    let sl = loaded_only(s, id);
    let su = all_unloaded(s);
    assert(sl.len() == s.len());
    assert(su.len() == s.len());
    assert(forall|i: int| 0 <= i < s.len() ==> #[trigger] sl[i] == activated_row(s[i], id));
    assert(forall|i: int| 0 <= i < s.len() ==> #[trigger] su[i] == unloaded_row(s[i]));
    assert forall|i: int, j: int|
        0 <= i < sl.len() && 0 <= j < sl.len() && (#[trigger] sl[i]).loaded && (
        #[trigger] sl[j]).loaded implies i == j by {
        assert(s[i].id == id && s[j].id == id);
    }
}

/// Law: clearing every loaded flag and then setting it by identity — the
/// two statements of one load transaction — activates exactly the rows
/// whose id matches, which is the whole load effect.
pub proof fn lemma_set_after_clear(s: Seq<RowModel>, id: int)
    ensures
        with_loaded(all_unloaded(s), id) == loaded_only(s, id),
{
    let t = with_loaded(all_unloaded(s), id);
    assert(forall|i: int|
        0 <= i < s.len() ==> #[trigger] t[i] == flagged_row(unloaded_row(s[i]), id));
    assert(t =~= loaded_only(s, id));
}

/// Law: a load of identity `x` followed by a full unload leaves no row
/// active, the row of `x` included.
pub proof fn lemma_load_then_unload(s: Seq<RowModel>, x: int)
    ensures
        none_loaded(all_unloaded(loaded_only(s, x))),
{
    let t = all_unloaded(loaded_only(s, x));
    assert(forall|i: int|
        0 <= i < t.len() ==> #[trigger] t[i] == unloaded_row(activated_row(s[i], x)));
}

/// Law: loading `a` and then loading `b` is the same as loading `b` alone,
/// and it leaves the loaded flag true exactly on rows whose id is `b`.
pub proof fn lemma_load_switch(s: Seq<RowModel>, a: int, b: int)
    ensures
        loaded_only(loaded_only(s, a), b) == loaded_only(s, b),
        forall|i: int|
            0 <= i < s.len() ==> ((#[trigger] loaded_only(loaded_only(s, a), b)[i]).loaded
                <==> s[i].id == b),
{
    let t = loaded_only(loaded_only(s, a), b);
    assert(forall|i: int|
        0 <= i < s.len() ==> #[trigger] t[i] == activated_row(activated_row(s[i], a), b));
    assert(forall|i: int|
        0 <= i < s.len() ==> activated_row(activated_row(#[trigger] s[i], a), b) == activated_row(
            s[i],
            b,
        ));
    assert(t =~= loaded_only(s, b));
}

/// Law: the child enumeration of `parent` is empty when no row of the
/// mod-version table refers to `parent`, every enumerated child carries
/// `parent` as its reference, and every referring row is enumerated.
pub proof fn lemma_children_exact(s: Seq<ModRowModel>, parent: int)
    ensures
        (forall|i: int| 0 <= i < s.len() ==> (#[trigger] s[i]).modpack_version_id != parent)
            ==> children_of(s, parent).len() == 0,
        forall|i: int|
            0 <= i < children_of(s, parent).len() ==> (#[trigger] children_of(s, parent)[i])
                .modpack_version_id == parent,
        forall|i: int|
            0 <= i < s.len() && (#[trigger] s[i]).modpack_version_id == parent ==> children_of(
                s,
                parent,
            ).contains(s[i]),
    decreases s.len(),
{
    reveal(Seq::filter);
    let pred = |r: ModRowModel| r.modpack_version_id == parent;
    if s.len() == 0 {
        assert(s.filter(pred) =~= Seq::<ModRowModel>::empty());
    } else {
        lemma_children_exact(s.drop_last(), parent);
        assert(forall|i: int| 0 <= i < s.len() - 1 ==> s.drop_last()[i] == s[i]);
        if pred(s.last()) {
            assert(children_of(s, parent) == children_of(s.drop_last(), parent).push(s.last()));
            assert(children_of(s, parent).last() == s.last());
            assert forall|i: int|
                0 <= i < s.len() && (#[trigger] s[i]).modpack_version_id == parent implies
                children_of(s, parent).contains(s[i]) by {
                if i < s.len() - 1 {
                    let prev = children_of(s.drop_last(), parent);
                    let w = choose|k: int| 0 <= k < prev.len() && prev[k] == s[i];
                    assert(children_of(s, parent)[w] == s[i]);
                } else {
                    assert(children_of(s, parent).last() == s[i]);
                }
            }
        } else {
            assert(children_of(s, parent) == children_of(s.drop_last(), parent));
            assert forall|i: int|
                0 <= i < s.len() && (#[trigger] s[i]).modpack_version_id == parent implies
                children_of(s, parent).contains(s[i]) by {
                assert(i < s.len() - 1);
            }
        }
    }
}

} // verus!
