use orm::data::{F64Bits, ObjectId};
use orm::error::Error;
use orm::records::{Named, Sample};
use orm::storage::StorageTx;
use orm::transaction::{ObjectState, Transaction};
use rusqlite::Connection;

fn named(name: &str) -> Named {
    Named { name: String::from(name) }
}

#[test]
fn create_auto_creates_the_table_and_assigns_id_one() {
    let mut conn = Connection::open_in_memory().unwrap();
    {
        let tx = conn.transaction().unwrap();
        let mut tr = Transaction::new(StorageTx::new(tx));
        let h = tr.create(named("a")).unwrap();
        assert_eq!(h.id().into_i64(), 1);
        let (res, _log) = tr.commit();
        res.unwrap();
    }
    let stored: String = conn
        .query_row("SELECT name FROM T WHERE id = 1", (), |row| row.get(0))
        .unwrap();
    assert_eq!(stored, "a");
}

#[test]
fn get_after_create_shares_the_instance() {
    let mut conn = Connection::open_in_memory().unwrap();
    let tx = conn.transaction().unwrap();
    let mut tr = Transaction::new(StorageTx::new(tx));
    let h1 = tr.create(named("a")).unwrap();
    let id = h1.id();
    let mut g = h1.borrow_mut(&mut tr);
    g.set(named("b"));
    g.release(&mut tr);
    // The storage row still holds "a": nothing is flushed before commit. A
    // fresh handle for the same key must observe the in-memory mutation,
    // which shows it shares the tracked instance instead of re-reading.
    let h2 = tr.get::<Named>(id).unwrap();
    let r = h2.borrow(&mut tr);
    assert_eq!(r.get().name, "b");
    r.release(&mut tr);
}

#[test]
fn mutation_reaches_storage_at_commit() {
    let mut conn = Connection::open_in_memory().unwrap();
    {
        let tx = conn.transaction().unwrap();
        let mut tr = Transaction::new(StorageTx::new(tx));
        let h = tr.create(named("a")).unwrap();
        assert_eq!(h.id().into_i64(), 1);
        let (res, _log) = tr.commit();
        res.unwrap();
    }
    {
        let tx = conn.transaction().unwrap();
        let mut tr = Transaction::new(StorageTx::new(tx));
        let h = tr.get::<Named>(ObjectId::new(1)).unwrap();
        let mut g = h.borrow_mut(&mut tr);
        g.set(named("changed"));
        g.release(&mut tr);
        let (res, _log) = tr.commit();
        res.unwrap();
    }
    let stored: String = conn
        .query_row("SELECT name FROM T WHERE id = 1", (), |row| row.get(0))
        .unwrap();
    assert_eq!(stored, "changed");
}

#[test]
fn commit_flushes_modified_and_removed_and_skips_clean() {
    let mut conn = Connection::open_in_memory().unwrap();
    {
        let tx = conn.transaction().unwrap();
        let mut tr = Transaction::new(StorageTx::new(tx));
        let h1 = tr.create(named("a")).unwrap();
        let h2 = tr.create(named("b")).unwrap();
        let h3 = tr.create(named("c")).unwrap();
        let mut g = h1.borrow_mut(&mut tr);
        g.set(named("x"));
        g.release(&mut tr);
        h2.delete(&mut tr);
        assert_eq!(h3.state(&tr), ObjectState::Clean);
        let (res, _log) = tr.commit();
        res.unwrap();
    }
    let first: String = conn
        .query_row("SELECT name FROM T WHERE id = 1", (), |row| row.get(0))
        .unwrap();
    assert_eq!(first, "x");
    let second: Result<String, rusqlite::Error> =
        conn.query_row("SELECT name FROM T WHERE id = 2", (), |row| row.get(0));
    assert!(matches!(second, Err(rusqlite::Error::QueryReturnedNoRows)));
    let third: String = conn
        .query_row("SELECT name FROM T WHERE id = 3", (), |row| row.get(0))
        .unwrap();
    assert_eq!(third, "c");
}

#[test]
fn delete_is_visible_to_every_handle_and_to_get() {
    let mut conn = Connection::open_in_memory().unwrap();
    let tx = conn.transaction().unwrap();
    let mut tr = Transaction::new(StorageTx::new(tx));
    let h1 = tr.create(named("a")).unwrap();
    let id = h1.id();
    let h2 = h1.duplicate();
    h1.delete(&mut tr);
    assert_eq!(h2.state(&tr), ObjectState::Removed);
    match tr.get::<Named>(id) {
        Err(Error::NotFound(n)) => {
            assert_eq!(n.object_id, id);
            assert_eq!(n.type_label, "Named");
        },
        other => panic!("expected the not-found condition, got {:?}", other.map(|h| h.id())),
    }
}

#[test]
fn shared_borrows_coexist() {
    let mut conn = Connection::open_in_memory().unwrap();
    let tx = conn.transaction().unwrap();
    let mut tr = Transaction::new(StorageTx::new(tx));
    let h1 = tr.create(named("a")).unwrap();
    let h2 = h1.duplicate();
    let g1 = h1.borrow(&mut tr);
    let g2 = h2.borrow(&mut tr);
    assert_eq!(g1.get().name, "a");
    assert_eq!(g2.get().name, "a");
    g1.release(&mut tr);
    g2.release(&mut tr);
    // With every shared borrow released, the exclusive borrow is free again.
    let mut g = h1.borrow_mut(&mut tr);
    g.set(named("b"));
    g.release(&mut tr);
    assert_eq!(h2.state(&tr), ObjectState::Modified);
}

#[test]
fn borrow_mut_marks_modified_even_without_a_write() {
    let mut conn = Connection::open_in_memory().unwrap();
    let tx = conn.transaction().unwrap();
    let mut tr = Transaction::new(StorageTx::new(tx));
    let h = tr.create(named("a")).unwrap();
    assert_eq!(h.state(&tr), ObjectState::Clean);
    let g = h.borrow_mut(&mut tr);
    g.release(&mut tr);
    assert_eq!(h.state(&tr), ObjectState::Modified);
}

#[test]
fn get_on_an_empty_table_is_not_found() {
    let mut conn = Connection::open_in_memory().unwrap();
    let tx = conn.transaction().unwrap();
    let mut tr = Transaction::new(StorageTx::new(tx));
    match tr.get::<Named>(ObjectId::new(999)) {
        Err(Error::NotFound(n)) => {
            assert_eq!(n.object_id.into_i64(), 999);
            assert_eq!(n.type_label, "Named");
        },
        other => panic!("expected the not-found condition, got {:?}", other.map(|h| h.id())),
    }
}

#[test]
fn engine_missing_column_is_translated() {
    let mut conn = Connection::open_in_memory().unwrap();
    conn.execute("CREATE TABLE T (id INTEGER PRIMARY KEY AUTOINCREMENT)", ())
        .unwrap();
    let tx = conn.transaction().unwrap();
    let mut tr = Transaction::new(StorageTx::new(tx));
    match tr.create(named("a")) {
        Err(Error::MissingColumn(m)) => {
            assert_eq!(m.type_label, "Named");
            assert_eq!(m.attr_name, "name");
            assert_eq!(m.table_name, "T");
            assert_eq!(m.column_name, "name");
        },
        other => panic!("expected a missing-column error, got {:?}", other.map(|h| h.id())),
    }
}

#[test]
fn engine_type_mismatch_is_translated() {
    let mut conn = Connection::open_in_memory().unwrap();
    conn.execute(
        "CREATE TABLE T (id INTEGER PRIMARY KEY AUTOINCREMENT, name name)",
        (),
    )
    .unwrap();
    conn.execute("INSERT INTO T (name) VALUES (5)", ()).unwrap();
    let tx = conn.transaction().unwrap();
    let mut tr = Transaction::new(StorageTx::new(tx));
    match tr.get::<Named>(ObjectId::new(1)) {
        Err(Error::UnexpectedType(u)) => {
            assert_eq!(u.type_label, "Named");
            assert_eq!(u.attr_name, "name");
            assert_eq!(u.table_name, "T");
            assert_eq!(u.column_name, "name");
            assert_eq!(u.got_type, "Integer");
        },
        other => panic!("expected a type-mismatch error, got {:?}", other.map(|h| h.id())),
    }
}

#[test]
fn rollback_discards_the_eager_insert() {
    let mut conn = Connection::open_in_memory().unwrap();
    {
        let tx = conn.transaction().unwrap();
        let mut tr = Transaction::new(StorageTx::new(tx));
        let h = tr.create(named("a")).unwrap();
        assert_eq!(h.id().into_i64(), 1);
        let (res, _log) = tr.rollback();
        res.unwrap();
    }
    {
        let tx = conn.transaction().unwrap();
        let mut tr = Transaction::new(StorageTx::new(tx));
        assert!(matches!(
            tr.get::<Named>(ObjectId::new(1)),
            Err(Error::NotFound(_))
        ));
    }
}

#[test]
fn every_scalar_kind_survives_a_storage_round_trip() {
    let mut conn = Connection::open_in_memory().unwrap();
    let original = Sample {
        title: String::from("hello"),
        payload: vec![0, 255, 7],
        count: -42,
        ratio: F64Bits(0.125f64.to_bits()),
        flag: true,
    };
    let id;
    {
        let tx = conn.transaction().unwrap();
        let mut tr = Transaction::new(StorageTx::new(tx));
        let h = tr.create(original.clone()).unwrap();
        id = h.id();
        let (res, _log) = tr.commit();
        res.unwrap();
    }
    {
        let tx = conn.transaction().unwrap();
        let mut tr = Transaction::new(StorageTx::new(tx));
        let h = tr.get::<Sample>(id).unwrap();
        let g = h.borrow(&mut tr);
        assert_eq!(*g.get(), original);
        assert_eq!(f64::from_bits(g.get().ratio.0), 0.125f64);
        g.release(&mut tr);
    }
}

#[test]
fn two_record_types_live_in_one_unit_of_work() {
    let mut conn = Connection::open_in_memory().unwrap();
    let tx = conn.transaction().unwrap();
    let mut tr = Transaction::new(StorageTx::new(tx));
    let hn = tr.create(named("a")).unwrap();
    let hs = tr
        .create(Sample {
            title: String::from("s"),
            payload: vec![],
            count: 1,
            ratio: F64Bits(0),
            flag: false,
        })
        .unwrap();
    assert_eq!(hn.id().into_i64(), 1);
    assert_eq!(hs.id().into_i64(), 1);
    let gn = hn.borrow(&mut tr);
    assert_eq!(gn.get().name, "a");
    gn.release(&mut tr);
    let gs = hs.borrow(&mut tr);
    assert_eq!(gs.get().title, "s");
    gs.release(&mut tr);
}
