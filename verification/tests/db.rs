use modpack_store::sql::Store;
use modpack_store::version::ModpackVersion;
use rusqlite::Connection;

fn loaded_ids(conn: &Connection) -> Vec<i64> {
    let mut stmt = conn
        .prepare("SELECT id FROM modpack_versions WHERE loaded = 1 ORDER BY id")
        .expect("prepare");
    let rows = stmt
        .query_map((), |row| row.get::<_, i64>(0))
        .expect("query");
    rows.collect::<Result<Vec<i64>, _>>().expect("collect")
}

fn row_count(conn: &Connection) -> i64 {
    conn.query_row("SELECT COUNT(*) FROM modpack_versions", (), |row| row.get(0))
        .expect("count")
}

#[test]
fn save_assigns_first_id_and_keeps_fields() {
    let mut st = Store::create_in_memory().expect("open store");
    let saved = ModpackVersion::new(1, String::from("1.20"))
        .save(&mut st)
        .expect("save");
    assert_eq!(saved.id, Some(1));
    assert_eq!(saved.modpack_id, 1);
    assert_eq!(saved.game_version, "1.20");
    assert!(!saved.installed);
    assert!(!saved.loaded);
    let conn = st.into_connection();
    assert_eq!(row_count(&conn), 1);
    let (installed, loaded): (i64, i64) = conn
        .query_row("SELECT installed, loaded FROM modpack_versions WHERE id = 1", (), |row| {
            Ok((row.get(0)?, row.get(1)?))
        })
        .expect("lookup");
    assert_eq!(installed, 0);
    assert_eq!(loaded, 0);
}

#[test]
fn save_twice_resolves_to_the_same_id() {
    let mut st = Store::create_in_memory().expect("open store");
    let first = ModpackVersion::new(1, String::from("1.20"))
        .save(&mut st)
        .expect("first save");
    let second = ModpackVersion::new(1, String::from("1.20"))
        .save(&mut st)
        .expect("second save");
    assert_eq!(first.id, Some(1));
    assert_eq!(second.id, Some(1));
    assert_eq!(row_count(&st.into_connection()), 1);
}

#[test]
fn save_keeps_supplied_flags_on_the_resolved_path() {
    let mut st = Store::create_in_memory().expect("open store");
    ModpackVersion::new(1, String::from("1.20"))
        .save(&mut st)
        .expect("first save");
    let mut transient = ModpackVersion::new(1, String::from("1.20"));
    transient.installed = true;
    let resolved = transient.save(&mut st).expect("resolved save");
    // The resolved-existing path keeps the caller's fields verbatim; it
    // does not refresh them from the store.
    assert_eq!(resolved.id, Some(1));
    assert!(resolved.installed);
    let stored: i64 = st
        .into_connection()
        .query_row("SELECT installed FROM modpack_versions WHERE id = 1", (), |row| row.get(0))
        .expect("lookup");
    assert_eq!(stored, 0);
}

#[test]
fn saves_of_distinct_keys_get_distinct_ids() {
    let mut st = Store::create_in_memory().expect("open store");
    let a = ModpackVersion::new(1, String::from("1.20"))
        .save(&mut st)
        .expect("save a");
    let b = ModpackVersion::new(1, String::from("1.21"))
        .save(&mut st)
        .expect("save b");
    let c = ModpackVersion::new(2, String::from("1.20"))
        .save(&mut st)
        .expect("save c");
    assert_eq!(a.id, Some(1));
    assert_eq!(b.id, Some(2));
    assert_eq!(c.id, Some(3));
    assert_eq!(row_count(&st.into_connection()), 3);
}

#[test]
fn save_propagates_store_failures() {
    // A pre-existing table of a foreign shape — outside the promise that
    // Store::open documents: the insert fails and the failure is
    // propagated, never recovered.
    let conn = Connection::open_in_memory().expect("open");
    conn.execute_batch("CREATE TABLE modpack_versions (x INTEGER)")
        .expect("foreign table");
    let mut st = Store::open(conn).expect("open store");
    let result = ModpackVersion::new(1, String::from("1.20")).save(&mut st);
    assert!(result.is_err());
    assert_eq!(row_count(&st.into_connection()), 0);
}

#[test]
fn save_recovers_only_the_uniqueness_conflict() {
    // A table whose CHECK constraint rejects every insert: a constraint
    // failure that is not the natural-key uniqueness conflict must come
    // back as the insert's own error, not take the lookup fallback.
    let conn = Connection::open_in_memory().expect("open");
    conn.execute_batch(
        "CREATE TABLE modpack_versions (id INTEGER PRIMARY KEY, \
         modpack_id INTEGER NOT NULL CHECK (modpack_id < 0), \
         game_version TEXT NOT NULL, installed INTEGER NOT NULL DEFAULT 0, \
         loaded INTEGER NOT NULL DEFAULT 0, UNIQUE (modpack_id, game_version))",
    )
    .expect("check table");
    let mut st = Store::open(conn).expect("open store");
    let err = ModpackVersion::new(1, String::from("1.20"))
        .save(&mut st)
        .err()
        .expect("check constraint must fail the save");
    assert!(matches!(
        err.source,
        rusqlite::Error::SqliteFailure(f, _)
            if f.extended_code == rusqlite::ffi::SQLITE_CONSTRAINT_CHECK
    ));
}

#[test]
fn load_activates_only_the_given_id() {
    let mut st = Store::create_in_memory().expect("open store");
    let a = ModpackVersion::new(1, String::from("1.20"))
        .save(&mut st)
        .expect("save a")
        .id
        .unwrap();
    let b = ModpackVersion::new(2, String::from("1.20"))
        .save(&mut st)
        .expect("save b")
        .id
        .unwrap();
    ModpackVersion::load(a, &mut st).expect("load a");
    let conn = st.into_connection();
    assert_eq!(loaded_ids(&conn), vec![a]);
    let mut st = Store::open(conn).expect("reopen");
    ModpackVersion::load(b, &mut st).expect("load b");
    assert_eq!(loaded_ids(&st.into_connection()), vec![b]);
}

#[test]
fn load_then_unload_all_leaves_nothing_loaded() {
    let mut st = Store::create_in_memory().expect("open store");
    let a = ModpackVersion::new(1, String::from("1.20"))
        .save(&mut st)
        .expect("save")
        .id
        .unwrap();
    ModpackVersion::load(a, &mut st).expect("load");
    ModpackVersion::unload_all(&mut st).expect("unload all");
    assert_eq!(loaded_ids(&st.into_connection()), Vec::<i64>::new());
}

#[test]
fn load_of_unknown_id_commits_as_a_benign_no_op() {
    let mut st = Store::create_in_memory().expect("open store");
    let a = ModpackVersion::new(1, String::from("1.20"))
        .save(&mut st)
        .expect("save")
        .id
        .unwrap();
    ModpackVersion::load(a, &mut st).expect("load");
    ModpackVersion::load(999, &mut st).expect("load of unknown id");
    let conn = st.into_connection();
    assert_eq!(loaded_ids(&conn), Vec::<i64>::new());
    assert_eq!(row_count(&conn), 1);
}

#[test]
fn loaded_stays_exclusive_over_any_sequence() {
    let mut st = Store::create_in_memory().expect("open store");
    for m in 1..4i64 {
        ModpackVersion::new(m, String::from("1.20"))
            .save(&mut st)
            .expect("save");
    }
    let steps: Vec<Option<i64>> = vec![Some(1), Some(2), None, Some(3), Some(3), Some(-1), Some(2)];
    for step in steps {
        match step {
            Some(id) => ModpackVersion::load(id, &mut st).expect("load"),
            None => ModpackVersion::unload_all(&mut st).expect("unload"),
        }
        let conn = st.into_connection();
        assert!(loaded_ids(&conn).len() <= 1);
        st = Store::open(conn).expect("reopen");
    }
}

#[test]
fn get_mod_versions_of_childless_version_is_empty() {
    let mut st = Store::create_in_memory().expect("open store");
    let saved = ModpackVersion::new(1, String::from("1.20"))
        .save(&mut st)
        .expect("save");
    let kids = saved.get_mod_versions(&st).expect("children");
    assert!(kids.is_empty());
}

#[test]
fn get_mod_versions_returns_exactly_the_linked_children() {
    let mut st = Store::create_in_memory().expect("open store");
    let parent = ModpackVersion::new(1, String::from("1.20"))
        .save(&mut st)
        .expect("save parent");
    let other = ModpackVersion::new(2, String::from("1.20"))
        .save(&mut st)
        .expect("save other");
    let parent_id = parent.id.unwrap();
    let other_id = other.id.unwrap();

    // Children are linked from outside this core; insert them directly,
    // out of id order, to see the enumeration come back in id order.
    let conn = st.into_connection();
    let insert = "INSERT INTO mod_versions (id, mod_id, version_id, game_version, \
         download_url, dependency_of, modpack_version_id) VALUES (?1, ?2, ?3, ?4, ?5, ?6, ?7)";
    conn.execute(
        insert,
        (3i64, 13i64, 103i64, "1.20", "https://example.invalid/3", Some(11i64), parent_id),
    )
    .expect("insert child 3");
    conn.execute(
        insert,
        (1i64, 11i64, 101i64, "1.20", "https://example.invalid/1", None::<i64>, parent_id),
    )
    .expect("insert child 1");
    conn.execute(
        insert,
        (2i64, 12i64, 102i64, "1.20", "https://example.invalid/2", Some(11i64), other_id),
    )
    .expect("insert child 2");
    let st = Store::open(conn).expect("reopen");

    let kids = parent.get_mod_versions(&st).expect("children");
    assert_eq!(kids.len(), 2);
    for k in &kids {
        assert_eq!(k.modpack_version_id, parent_id);
        assert!(k.id.is_some());
    }
    assert_eq!(kids[0].id, Some(1));
    assert_eq!(kids[0].mod_id, 11);
    assert_eq!(kids[0].version_id, 101);
    assert_eq!(kids[0].game_version, "1.20");
    assert_eq!(kids[0].download_url, "https://example.invalid/1");
    assert_eq!(kids[0].dependency_of, None);
    assert_eq!(kids[1].id, Some(3));
    assert_eq!(kids[1].mod_id, 13);
    assert_eq!(kids[1].dependency_of, Some(11));

    let other_kids = other.get_mod_versions(&st).expect("other children");
    assert_eq!(other_kids.len(), 1);
    assert_eq!(other_kids[0].mod_id, 12);
}
