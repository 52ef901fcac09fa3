use grand_pattern_bench_v2::Database;

#[test]
fn test_database_gc_actually_removes() {
    let mut db: Database<Vec<f64>> = Database::new();
    for i in 0..100 {
        db.insert(vec![i as f64]);
    }
    assert_eq!(db.count(), 100);

    db.gc(50);
    assert_eq!(db.count(), 50);
    // First entry should now be 50
    assert!((db.entries[0][0] - 50.0).abs() < 1e-10);
}

#[test]
fn new_and_default_are_empty() {
    let db: Database<u64> = Database::new();
    assert_eq!(db.count(), 0);
    let d: Database<u64> = Database::default();
    assert_eq!(d.count(), 0);
    assert!(d.entries.is_empty());
}

#[test]
fn insert_appends_newest_last() {
    let mut db: Database<u64> = Database::new();
    db.insert(7);
    db.insert(3);
    db.insert(9);
    assert_eq!(db.count(), 3);
    assert_eq!(db.entries, vec![7, 3, 9]);
}

#[test]
fn gc_under_threshold_keeps_everything() {
    let mut db: Database<u64> = Database::new();
    for i in 0..5 {
        db.insert(i);
    }
    db.gc(5);
    assert_eq!(db.entries, vec![0, 1, 2, 3, 4]);
    db.gc(100);
    assert_eq!(db.entries, vec![0, 1, 2, 3, 4]);
}

#[test]
fn gc_keeps_newest_in_order() {
    let mut db: Database<u64> = Database::new();
    for i in 0..10 {
        db.insert(i * 10);
    }
    db.gc(3);
    assert_eq!(db.entries, vec![70, 80, 90]);
}

#[test]
fn gc_to_zero_empties() {
    let mut db: Database<u64> = Database::new();
    db.insert(1);
    db.insert(2);
    db.gc(0);
    assert_eq!(db.count(), 0);
}

#[test]
fn gc_is_idempotent_and_composes() {
    let mut a: Database<u64> = Database::new();
    let mut b: Database<u64> = Database::new();
    for i in 0..20 {
        a.insert(i);
        b.insert(i);
    }
    a.gc(8);
    a.gc(8);
    a.gc(12);
    b.gc(8);
    assert_eq!(a.entries, b.entries);
    a.gc(4);
    b.gc(4);
    assert_eq!(a.entries, vec![16, 17, 18, 19]);
    assert_eq!(a.entries, b.entries);
}

#[test]
fn newest_insert_survives_gc() {
    let mut db: Database<u64> = Database::new();
    for i in 0..30 {
        db.insert(i);
        db.gc(7);
        assert_eq!(*db.entries.last().unwrap(), i);
        assert!(db.count() <= 7);
    }
}
