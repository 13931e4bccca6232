use collied::schema::{feeds_table, items_table, keys_table, migration, Migration};

fn open_store() -> rusqlite::Connection {
    let conn = rusqlite::Connection::open_in_memory().unwrap();
    conn.execute_batch("PRAGMA foreign_keys = ON").unwrap();
    conn.execute_batch(&migration().to_sql()).unwrap();
    conn
}

#[test]
fn migration_is_idempotent() {
    let conn = rusqlite::Connection::open_in_memory().unwrap();
    let sql = migration().to_sql();
    conn.execute_batch(&sql).unwrap();
    // safe to apply on every process start
    conn.execute_batch(&sql).unwrap();
    let count: i64 = conn
        .query_row(
            "SELECT count(*) FROM sqlite_master WHERE type = 'table' \
             AND name IN ('feeds', 'items', 'keys')",
            [],
            |row| row.get(0),
        )
        .unwrap();
    assert_eq!(count, 3);
}

#[test]
fn rendered_statements_have_the_declared_constraints() {
    let keys_sql = keys_table().to_sql();
    assert!(keys_sql.starts_with("CREATE TABLE IF NOT EXISTS \"keys\""));
    assert!(keys_sql.contains("\"access\" text NOT NULL UNIQUE"));
    assert!(keys_sql.contains("\"id\" integer NOT NULL PRIMARY KEY AUTOINCREMENT"));

    let items_sql = items_table().to_sql();
    assert!(items_sql.contains("\"fingerprint\" text NOT NULL UNIQUE"));
    assert!(items_sql.contains("\"is_saved\" integer NOT NULL DEFAULT 0 CHECK (\"is_saved\" IN (0, 1))"));
    assert!(items_sql.contains(
        "CONSTRAINT \"fk_items_feeds\" FOREIGN KEY (\"feed\") REFERENCES \"feeds\" (\"id\") \
         ON DELETE CASCADE ON UPDATE CASCADE"
    ));

    let feeds_sql = feeds_table().to_sql();
    assert!(feeds_sql.contains("\"status\" text NOT NULL DEFAULT 'subscribed' \
         CHECK (\"status\" IN ('subscribed', 'unsubscribed'))"));
    assert!(feeds_sql.contains("CONSTRAINT \"uk_feeds_title_link\" UNIQUE (\"title\", \"link\")"));

    let batch = Migration::new().table(feeds_table()).table(keys_table()).to_sql();
    assert_eq!(batch, format!("{};{}", feeds_sql, keys_sql));
}

#[test]
fn keys_access_must_be_unique() {
    let conn = open_store();
    conn.execute(
        "INSERT INTO keys (access, secret) VALUES ('a1', 's1')",
        [],
    )
    .unwrap();
    let dup = conn.execute("INSERT INTO keys (access, secret) VALUES ('a1', 's2')", []);
    assert!(dup.is_err());
    let other = conn.execute("INSERT INTO keys (access, secret) VALUES ('a2', 's2')", []);
    assert!(other.is_ok());
}

#[test]
fn item_fingerprints_must_be_unique() {
    let conn = open_store();
    conn.execute(
        "INSERT INTO feeds (title, link, checked_at) VALUES ('t', 'l', '2024-01-01')",
        [],
    )
    .unwrap();
    conn.execute(
        "INSERT INTO items (fingerprint, title, description, link, published_at, feed) \
         VALUES ('f1', 'i', 'd', 'l', '2024-01-01', 1)",
        [],
    )
    .unwrap();
    let dup = conn.execute(
        "INSERT INTO items (fingerprint, title, description, link, published_at, feed) \
         VALUES ('f1', 'j', 'e', 'm', '2024-01-02', 1)",
        [],
    );
    assert!(dup.is_err());
}

#[test]
fn feed_title_link_pair_must_be_unique() {
    let conn = open_store();
    conn.execute(
        "INSERT INTO feeds (title, link, checked_at) VALUES ('t', 'l', '2024-01-01')",
        [],
    )
    .unwrap();
    let dup = conn.execute(
        "INSERT INTO feeds (title, link, checked_at) VALUES ('t', 'l', '2024-01-02')",
        [],
    );
    assert!(dup.is_err());
    let same_title = conn.execute(
        "INSERT INTO feeds (title, link, checked_at) VALUES ('t', 'other', '2024-01-02')",
        [],
    );
    assert!(same_title.is_ok());
}

#[test]
fn feed_status_is_checked_and_defaulted() {
    let conn = open_store();
    conn.execute(
        "INSERT INTO feeds (title, link, checked_at) VALUES ('t', 'l', '2024-01-01')",
        [],
    )
    .unwrap();
    let status: String = conn
        .query_row("SELECT status FROM feeds WHERE title = 't'", [], |row| row.get(0))
        .unwrap();
    assert_eq!(status, "subscribed");
    let bad = conn.execute(
        "INSERT INTO feeds (title, link, status, checked_at) VALUES ('u', 'm', 'paused', '2024-01-01')",
        [],
    );
    assert!(bad.is_err());
}

#[test]
fn deleting_a_feed_cascades_to_its_items() {
    let conn = open_store();
    conn.execute(
        "INSERT INTO feeds (title, link, checked_at) VALUES ('t', 'l', '2024-01-01')",
        [],
    )
    .unwrap();
    conn.execute(
        "INSERT INTO items (fingerprint, title, description, link, published_at, feed) \
         VALUES ('f1', 'i', 'd', 'l', '2024-01-01', 1)",
        [],
    )
    .unwrap();
    conn.execute(
        "INSERT INTO items (fingerprint, title, description, link, published_at, feed) \
         VALUES ('f2', 'j', 'e', 'm', '2024-01-02', 1)",
        [],
    )
    .unwrap();
    conn.execute("DELETE FROM feeds WHERE id = 1", []).unwrap();
    let left: i64 = conn
        .query_row("SELECT count(*) FROM items", [], |row| row.get(0))
        .unwrap();
    assert_eq!(left, 0);
}
