use vstd::prelude::*;

verus! {

/// Identifiers of the feeds table and its columns.
pub enum Feeds {
    Table,
    Id,
    Title,
    Link,
    Status,
    CheckedAt,
    FetchOldItems,
}

/// Identifiers of the items table and its columns.
pub enum Items {
    Table,
    Id,
    Fingerprint,
    Author,
    Title,
    Description,
    Link,
    Status,
    IsSaved,
    PublishedAt,
    Feed,
}

/// Identifiers of the keys table and its columns.
pub enum Keys {
    Table,
    Id,
    Access,
    Secret,
    Description,
    ExpiredAt,
}

impl Feeds {
    pub open spec fn spec_name(&self) -> Seq<char> {
        match self {
            Feeds::Table => "feeds"@,
            Feeds::Id => "id"@,
            Feeds::Title => "title"@,
            Feeds::Link => "link"@,
            Feeds::Status => "status"@,
            Feeds::CheckedAt => "checked_at"@,
            Feeds::FetchOldItems => "fetch_old_items"@,
        }
    }

    pub fn name(&self) -> (r: &'static str)
        ensures
            r@ == self.spec_name(),
    {
        match self {
            Feeds::Table => "feeds",
            Feeds::Id => "id",
            Feeds::Title => "title",
            Feeds::Link => "link",
            Feeds::Status => "status",
            Feeds::CheckedAt => "checked_at",
            Feeds::FetchOldItems => "fetch_old_items",
        }
    }
}

impl Items {
    pub open spec fn spec_name(&self) -> Seq<char> {
        match self {
            Items::Table => "items"@,
            Items::Id => "id"@,
            Items::Fingerprint => "fingerprint"@,
            Items::Author => "author"@,
            Items::Title => "title"@,
            Items::Description => "description"@,
            Items::Link => "link"@,
            Items::Status => "status"@,
            Items::IsSaved => "is_saved"@,
            Items::PublishedAt => "published_at"@,
            Items::Feed => "feed"@,
        }
    }

    pub fn name(&self) -> (r: &'static str)
        ensures
            r@ == self.spec_name(),
    {
        match self {
            Items::Table => "items",
            Items::Id => "id",
            Items::Fingerprint => "fingerprint",
            Items::Author => "author",
            Items::Title => "title",
            Items::Description => "description",
            Items::Link => "link",
            Items::Status => "status",
            Items::IsSaved => "is_saved",
            Items::PublishedAt => "published_at",
            Items::Feed => "feed",
        }
    }
}

impl Keys {
    pub open spec fn spec_name(&self) -> Seq<char> {
        match self {
            Keys::Table => "keys"@,
            Keys::Id => "id"@,
            Keys::Access => "access"@,
            Keys::Secret => "secret"@,
            Keys::Description => "description"@,
            Keys::ExpiredAt => "expired_at"@,
        }
    }

    pub fn name(&self) -> (r: &'static str)
        ensures
            r@ == self.spec_name(),
    {
        match self {
            Keys::Table => "keys",
            Keys::Id => "id",
            Keys::Access => "access",
            Keys::Secret => "secret",
            Keys::Description => "description",
            Keys::ExpiredAt => "expired_at",
        }
    }
}

/// SQL column type, as the store declares it.
pub enum ColumnType {
    Integer,
    Text,
    DateTime,
    Boolean,
}

/// A literal in a column default or a check list.
pub enum SqlValue {
    Int(u64),
    Text(String),
    Bool(bool),
}

/// One column of a table: its type, nullability, key role, uniqueness,
/// default, and the value list of an enum-like check constraint.
pub struct ColumnSpec {
    pub name: String,
    pub ty: ColumnType,
    pub not_null: bool,
    pub primary_key: bool,
    pub auto_increment: bool,
    pub unique: bool,
    pub default_value: Option<SqlValue>,
    pub check_in: Option<Vec<SqlValue>>,
}

/// A named multi-column uniqueness constraint.
pub struct UniqueIndexSpec {
    pub name: String,
    pub columns: Vec<String>,
}

/// A named foreign key; with `cascade`, deleting or updating the
/// referenced row carries over to the referencing rows.
pub struct ForeignKeySpec {
    pub name: String,
    pub column: String,
    pub ref_table: String,
    pub ref_column: String,
    pub cascade: bool,
}

/// One table declaration; `if_not_exists` makes its application
/// idempotent, safe to run on every process start.
pub struct TableSpec {
    pub name: String,
    pub if_not_exists: bool,
    pub columns: Vec<ColumnSpec>,
    pub uniques: Vec<UniqueIndexSpec>,
    pub foreign_keys: Vec<ForeignKeySpec>,
}

/// An ordered batch of table declarations, applied front to back.
pub struct Migration {
    pub tables: Vec<TableSpec>,
}

pub open spec fn id_column_wf(c: ColumnSpec) -> bool {
    &&& c.name@ == "id"@
    &&& c.ty is Integer
    &&& c.not_null
    &&& c.primary_key
    &&& c.auto_increment
}

/// The feeds table as the store declares it: an id key, title and link —
/// unique as a pair — a checked status, and the fetch flag.
pub open spec fn feeds_table_wf(t: TableSpec) -> bool {
    &&& t.name@ == "feeds"@
    &&& t.if_not_exists
    &&& t.columns@.len() == 6
    &&& id_column_wf(t.columns@[0])
    &&& t.columns@[1].name@ == "title"@ && t.columns@[1].ty is Text && t.columns@[1].not_null
    &&& t.columns@[2].name@ == "link"@ && t.columns@[2].ty is Text && t.columns@[2].not_null
    &&& t.columns@[3].name@ == "status"@ && t.columns@[3].ty is Text && t.columns@[3].not_null
    &&& (t.columns@[3].default_value matches Some(SqlValue::Text(d)) && d@ == "subscribed"@)
    &&& (t.columns@[3].check_in matches Some(vs) && vs@.len() == 2 && (vs@[0] matches
        SqlValue::Text(a)
        && a@ == "subscribed"@) && (vs@[1] matches SqlValue::Text(b) && b@ == "unsubscribed"@))
    &&& t.columns@[4].name@ == "checked_at"@ && t.columns@[4].ty is DateTime
        && t.columns@[4].not_null
    &&& t.columns@[5].name@ == "fetch_old_items"@ && t.columns@[5].ty is Boolean
        && t.columns@[5].not_null
    &&& (t.columns@[5].default_value matches Some(SqlValue::Bool(b)) && b)
    &&& t.uniques@.len() == 1
    &&& t.uniques@[0].name@ == "uk_feeds_title_link"@
    &&& t.uniques@[0].columns@.len() == 2 && t.uniques@[0].columns@[0]@ == "title"@
        && t.uniques@[0].columns@[1]@ == "link"@
    &&& t.foreign_keys@.len() == 0
}

/// The items table: a unique fingerprint deduplicates items, and the
/// owning feed is a cascading foreign key, so deleting a feed deletes its
/// items.
pub open spec fn items_table_wf(t: TableSpec) -> bool {
    &&& t.name@ == "items"@
    &&& t.if_not_exists
    &&& t.columns@.len() == 10
    &&& id_column_wf(t.columns@[0])
    &&& t.columns@[1].name@ == "fingerprint"@ && t.columns@[1].ty is Text && t.columns@[1].not_null
        && t.columns@[1].unique
    &&& t.columns@[2].name@ == "author"@ && t.columns@[2].ty is Text && !t.columns@[2].not_null
    &&& t.columns@[3].name@ == "title"@ && t.columns@[3].ty is Text && t.columns@[3].not_null
    &&& t.columns@[4].name@ == "description"@ && t.columns@[4].ty is Text
        && t.columns@[4].not_null
    &&& t.columns@[5].name@ == "link"@ && t.columns@[5].ty is Text && t.columns@[5].not_null
    &&& t.columns@[6].name@ == "status"@ && t.columns@[6].ty is Text && t.columns@[6].not_null
    &&& (t.columns@[6].default_value matches Some(SqlValue::Text(d)) && d@ == "unread"@)
    &&& (t.columns@[6].check_in matches Some(vs) && vs@.len() == 2 && (vs@[0] matches
        SqlValue::Text(a)
        && a@ == "unread"@) && (vs@[1] matches SqlValue::Text(b) && b@ == "read"@))
    &&& t.columns@[7].name@ == "is_saved"@ && t.columns@[7].ty is Integer
        && t.columns@[7].not_null
    &&& t.columns@[7].default_value == Some(SqlValue::Int(0))
    &&& (t.columns@[7].check_in matches Some(vs) && vs@.len() == 2 && vs@[0] == SqlValue::Int(0)
        && vs@[1] == SqlValue::Int(1))
    &&& t.columns@[8].name@ == "published_at"@ && t.columns@[8].ty is DateTime
        && t.columns@[8].not_null
    &&& t.columns@[9].name@ == "feed"@ && t.columns@[9].ty is Integer && t.columns@[9].not_null
    &&& t.uniques@.len() == 0
    &&& t.foreign_keys@.len() == 1
    &&& t.foreign_keys@[0].name@ == "fk_items_feeds"@
    &&& t.foreign_keys@[0].column@ == "feed"@
    &&& t.foreign_keys@[0].ref_table@ == "feeds"@
    &&& t.foreign_keys@[0].ref_column@ == "id"@
    &&& t.foreign_keys@[0].cascade
}

/// The keys table: the access identifier is unique — the authoritative
/// guard behind `KeyStore`'s invariant — the secret is required, and the
/// expiry is optional.
pub open spec fn keys_table_wf(t: TableSpec) -> bool {
    &&& t.name@ == "keys"@
    &&& t.if_not_exists
    &&& t.columns@.len() == 5
    &&& id_column_wf(t.columns@[0])
    &&& t.columns@[1].name@ == "access"@ && t.columns@[1].ty is Text && t.columns@[1].not_null
        && t.columns@[1].unique
    &&& t.columns@[2].name@ == "secret"@ && t.columns@[2].ty is Text && t.columns@[2].not_null
        && !t.columns@[2].unique
    &&& t.columns@[3].name@ == "description"@ && t.columns@[3].ty is Text
        && !t.columns@[3].not_null
    &&& t.columns@[4].name@ == "expired_at"@ && t.columns@[4].ty is DateTime
        && !t.columns@[4].not_null
    &&& t.uniques@.len() == 0
    &&& t.foreign_keys@.len() == 0
}

fn plain_column(name: &'static str, ty: ColumnType, not_null: bool) -> (c: ColumnSpec)
    ensures
        c.name@ == name@,
        c.ty == ty,
        c.not_null == not_null,
        !c.primary_key,
        !c.auto_increment,
        !c.unique,
        c.default_value is None,
        c.check_in is None,
{
    ColumnSpec {
        name: name.to_owned(),
        ty,
        not_null,
        primary_key: false,
        auto_increment: false,
        unique: false,
        default_value: None,
        check_in: None,
    }
}

fn id_column() -> (c: ColumnSpec)
    ensures
        id_column_wf(c),
        c.default_value is None,
        c.check_in is None,
        !c.unique,
{
    ColumnSpec {
        name: Keys::Id.name().to_owned(),
        ty: ColumnType::Integer,
        not_null: true,
        primary_key: true,
        auto_increment: true,
        unique: false,
        default_value: None,
        check_in: None,
    }
}

/// Declares the feeds table.
pub fn feeds_table() -> (t: TableSpec)
    ensures
        feeds_table_wf(t),
{
    let status = ColumnSpec {
        name: Feeds::Status.name().to_owned(),
        ty: ColumnType::Text,
        not_null: true,
        primary_key: false,
        auto_increment: false,
        unique: false,
        default_value: Some(SqlValue::Text("subscribed".to_owned())),
        check_in: Some(
            vec![
                SqlValue::Text("subscribed".to_owned()),
                SqlValue::Text("unsubscribed".to_owned()),
            ],
        ),
    };
    let fetch_old_items = ColumnSpec {
        name: Feeds::FetchOldItems.name().to_owned(),
        ty: ColumnType::Boolean,
        not_null: true,
        primary_key: false,
        auto_increment: false,
        unique: false,
        default_value: Some(SqlValue::Bool(true)),
        check_in: None,
    };
    TableSpec {
        name: Feeds::Table.name().to_owned(),
        if_not_exists: true,
        columns: vec![
            id_column(),
            plain_column(Feeds::Title.name(), ColumnType::Text, true),
            plain_column(Feeds::Link.name(), ColumnType::Text, true),
            status,
            plain_column(Feeds::CheckedAt.name(), ColumnType::DateTime, true),
            fetch_old_items,
        ],
        uniques: vec![
            UniqueIndexSpec {
                name: "uk_feeds_title_link".to_owned(),
                columns: vec![Feeds::Title.name().to_owned(), Feeds::Link.name().to_owned()],
            },
        ],
        foreign_keys: Vec::new(),
    }
}

/// Declares the items table.
pub fn items_table() -> (t: TableSpec)
    ensures
        items_table_wf(t),
{
    let fingerprint = ColumnSpec {
        name: Items::Fingerprint.name().to_owned(),
        ty: ColumnType::Text,
        not_null: true,
        primary_key: false,
        auto_increment: false,
        unique: true,
        default_value: None,
        check_in: None,
    };
    let status = ColumnSpec {
        name: Items::Status.name().to_owned(),
        ty: ColumnType::Text,
        not_null: true,
        primary_key: false,
        auto_increment: false,
        unique: false,
        default_value: Some(SqlValue::Text("unread".to_owned())),
        check_in: Some(
            vec![SqlValue::Text("unread".to_owned()), SqlValue::Text("read".to_owned())],
        ),
    };
    let is_saved = ColumnSpec {
        name: Items::IsSaved.name().to_owned(),
        ty: ColumnType::Integer,
        not_null: true,
        primary_key: false,
        auto_increment: false,
        unique: false,
        default_value: Some(SqlValue::Int(0)),
        check_in: Some(vec![SqlValue::Int(0), SqlValue::Int(1)]),
    };
    TableSpec {
        name: Items::Table.name().to_owned(),
        if_not_exists: true,
        columns: vec![
            id_column(),
            fingerprint,
            plain_column(Items::Author.name(), ColumnType::Text, false),
            plain_column(Items::Title.name(), ColumnType::Text, true),
            plain_column(Items::Description.name(), ColumnType::Text, true),
            plain_column(Items::Link.name(), ColumnType::Text, true),
            status,
            is_saved,
            plain_column(Items::PublishedAt.name(), ColumnType::DateTime, true),
            plain_column(Items::Feed.name(), ColumnType::Integer, true),
        ],
        uniques: Vec::new(),
        foreign_keys: vec![
            ForeignKeySpec {
                name: "fk_items_feeds".to_owned(),
                column: Items::Feed.name().to_owned(),
                ref_table: Feeds::Table.name().to_owned(),
                ref_column: Feeds::Id.name().to_owned(),
                cascade: true,
            },
        ],
    }
}

/// Declares the keys table.
pub fn keys_table() -> (t: TableSpec)
    ensures
        keys_table_wf(t),
{
    let access = ColumnSpec {
        name: Keys::Access.name().to_owned(),
        ty: ColumnType::Text,
        not_null: true,
        primary_key: false,
        auto_increment: false,
        unique: true,
        default_value: None,
        check_in: None,
    };
    TableSpec {
        name: Keys::Table.name().to_owned(),
        if_not_exists: true,
        columns: vec![
            id_column(),
            access,
            plain_column(Keys::Secret.name(), ColumnType::Text, true),
            plain_column(Keys::Description.name(), ColumnType::Text, false),
            plain_column(Keys::ExpiredAt.name(), ColumnType::DateTime, false),
        ],
        uniques: Vec::new(),
        foreign_keys: Vec::new(),
    }
}

/// The name wrapped in double quotes, as SQL identifiers are written.
pub open spec fn quoted(name: Seq<char>) -> Seq<char> {
    "\""@ + name + "\""@
}

pub open spec fn digit_char(d: nat) -> char {
    if d == 0 {
        '0'
    } else if d == 1 {
        '1'
    } else if d == 2 {
        '2'
    } else if d == 3 {
        '3'
    } else if d == 4 {
        '4'
    } else if d == 5 {
        '5'
    } else if d == 6 {
        '6'
    } else if d == 7 {
        '7'
    } else if d == 8 {
        '8'
    } else {
        '9'
    }
}

/// The decimal digits of `n`, most significant first.
pub open spec fn dec_digits(n: nat) -> Seq<char>
    decreases n,
{
    if n < 10 {
        seq![digit_char(n)]
    } else {
        dec_digits(n / 10).push(digit_char(n % 10))
    }
}

/// The parts joined with the separator between them.
pub open spec fn join_with(parts: Seq<Seq<char>>, sep: Seq<char>) -> Seq<char>
    decreases parts.len(),
{
    if parts.len() == 0 {
        Seq::empty()
    } else if parts.len() == 1 {
        parts[0]
    } else {
        join_with(parts.drop_last(), sep) + sep + parts.last()
    }
}

/// Every part, concatenated.
pub open spec fn concat_all(parts: Seq<Seq<char>>) -> Seq<char>
    decreases parts.len(),
{
    if parts.len() == 0 {
        Seq::empty()
    } else {
        concat_all(parts.drop_last()) + parts.last()
    }
}

pub open spec fn render_type(t: ColumnType) -> Seq<char> {
    match t {
        ColumnType::Integer => "integer"@,
        ColumnType::Text => "text"@,
        ColumnType::DateTime => "datetime"@,
        ColumnType::Boolean => "boolean"@,
    }
}

pub open spec fn render_value(v: SqlValue) -> Seq<char> {
    match v {
        SqlValue::Int(n) => dec_digits(n as nat),
        SqlValue::Text(t) => "'"@ + t@ + "'"@,
        SqlValue::Bool(b) => if b {
            "TRUE"@
        } else {
            "FALSE"@
        },
    }
}

pub open spec fn rendered_values(vs: Seq<SqlValue>) -> Seq<Seq<char>> {
    vs.map_values(|v: SqlValue| render_value(v))
}

pub open spec fn quoted_names(ns: Seq<String>) -> Seq<Seq<char>> {
    ns.map_values(|n: String| quoted(n@))
}

/// The column's NOT NULL, key, and UNIQUE marks.
pub open spec fn render_flags(c: ColumnSpec) -> Seq<char> {
    (if c.not_null {
        " NOT NULL"@
    } else {
        Seq::<char>::empty()
    }) + (if c.primary_key {
        " PRIMARY KEY"@
    } else {
        Seq::<char>::empty()
    }) + (if c.auto_increment {
        " AUTOINCREMENT"@
    } else {
        Seq::<char>::empty()
    }) + (if c.unique {
        " UNIQUE"@
    } else {
        Seq::<char>::empty()
    })
}

/// The column's DEFAULT clause, if any.
pub open spec fn render_default(c: ColumnSpec) -> Seq<char> {
    match c.default_value {
        Some(v) => " DEFAULT "@ + render_value(v),
        None => Seq::<char>::empty(),
    }
}

/// The column's enum-like CHECK clause, if any.
pub open spec fn render_check(c: ColumnSpec) -> Seq<char> {
    match c.check_in {
        Some(vs) => " CHECK ("@ + quoted(c.name@) + " IN ("@ + join_with(
            rendered_values(vs@),
            ", "@,
        ) + "))"@,
        None => Seq::<char>::empty(),
    }
}

/// One column definition as SQLite takes it.
pub open spec fn render_column(c: ColumnSpec) -> Seq<char> {
    quoted(c.name@) + " "@ + render_type(c.ty) + render_flags(c) + render_default(c)
        + render_check(c)
}

pub open spec fn rendered_columns(cs: Seq<ColumnSpec>) -> Seq<Seq<char>> {
    cs.map_values(|c: ColumnSpec| render_column(c))
}

/// A table-level uniqueness constraint, as appended after the columns.
pub open spec fn render_unique(u: UniqueIndexSpec) -> Seq<char> {
    ", CONSTRAINT "@ + quoted(u.name@) + " UNIQUE ("@ + join_with(quoted_names(u.columns@), ", "@)
        + ")"@
}

pub open spec fn rendered_uniques(us: Seq<UniqueIndexSpec>) -> Seq<Seq<char>> {
    us.map_values(|u: UniqueIndexSpec| render_unique(u))
}

/// A foreign-key constraint, as appended after the columns.
pub open spec fn render_foreign_key(f: ForeignKeySpec) -> Seq<char> {
    ", CONSTRAINT "@ + quoted(f.name@) + " FOREIGN KEY ("@ + quoted(f.column@) + ") REFERENCES "@
        + quoted(f.ref_table@) + " ("@ + quoted(f.ref_column@) + ")"@ + (if f.cascade {
        " ON DELETE CASCADE ON UPDATE CASCADE"@
    } else {
        Seq::<char>::empty()
    })
}

pub open spec fn rendered_foreign_keys(fs: Seq<ForeignKeySpec>) -> Seq<Seq<char>> {
    fs.map_values(|f: ForeignKeySpec| render_foreign_key(f))
}

/// The whole CREATE TABLE statement for one declaration.
pub open spec fn render_table(t: TableSpec) -> Seq<char> {
    "CREATE TABLE "@ + (if t.if_not_exists {
        "IF NOT EXISTS "@
    } else {
        Seq::<char>::empty()
    }) + quoted(t.name@) + " ("@ + join_with(rendered_columns(t.columns@), ", "@) + concat_all(
        rendered_uniques(t.uniques@),
    ) + concat_all(rendered_foreign_keys(t.foreign_keys@)) + ")"@
}

pub open spec fn rendered_tables(ts: Seq<TableSpec>) -> Seq<Seq<char>> {
    ts.map_values(|t: TableSpec| render_table(t))
}

/// The statements of the batch, in order, joined with ';'.
pub open spec fn render_migration(ts: Seq<TableSpec>) -> Seq<char> {
    join_with(rendered_tables(ts), ";"@)
}

proof fn lemma_join_push(parts: Seq<Seq<char>>, x: Seq<char>, sep: Seq<char>)
    ensures
        join_with(parts.push(x), sep) == (if parts.len() == 0 {
            x
        } else {
            join_with(parts, sep) + sep + x
        }),
{
    assert(parts.push(x).drop_last() =~= parts);
    assert(parts.push(x).last() == x);
    if parts.len() == 0 {
        assert(parts.push(x)[0] == x);
    }
}

proof fn lemma_concat_push(parts: Seq<Seq<char>>, x: Seq<char>)
    ensures
        concat_all(parts.push(x)) == concat_all(parts) + x,
{
    assert(parts.push(x).drop_last() =~= parts);
    assert(parts.push(x).last() == x);
}

fn digit_str(d: u64) -> (r: &'static str)
    requires
        d < 10,
    ensures
        r@ == seq![digit_char(d as nat)],
{
    let r: &'static str = match d {
        0 => "0",
        1 => "1",
        2 => "2",
        3 => "3",
        4 => "4",
        5 => "5",
        6 => "6",
        7 => "7",
        8 => "8",
        _ => "9",
    };
    proof {
        reveal_strlit("0");
        reveal_strlit("1");
        reveal_strlit("2");
        reveal_strlit("3");
        reveal_strlit("4");
        reveal_strlit("5");
        reveal_strlit("6");
        reveal_strlit("7");
        reveal_strlit("8");
        reveal_strlit("9");
        assert(r@ =~= seq![digit_char(d as nat)]);
    }
    r
}

/// The decimal text of `n`.
fn digits_u64(n: u64) -> (r: String)
    ensures
        r@ == dec_digits(n as nat),
    decreases n,
{
    if n < 10 {
        let s = digit_str(n).to_owned();
        s
    } else {
        let mut s = digits_u64(n / 10);
        s.append(digit_str(n % 10));
        proof {
            assert(s@ =~= dec_digits((n / 10) as nat).push(digit_char((n % 10) as nat)));
        }
        s
    }
}

fn push_quoted(out: &mut String, name: &str)
    ensures
        final(out)@ == old(out)@ + quoted(name@),
{
    out.append("\"");
    out.append(name);
    out.append("\"");
    proof {
        assert(out@ =~= old(out)@ + quoted(name@));
    }
}

fn push_value(out: &mut String, v: &SqlValue)
    ensures
        final(out)@ == old(out)@ + render_value(*v),
{
    match v {
        SqlValue::Int(n) => {
            let d = digits_u64(*n);
            out.append(d.as_str());
        },
        SqlValue::Text(t) => {
            out.append("'");
            out.append(t.as_str());
            out.append("'");
            proof {
                assert(out@ =~= old(out)@ + render_value(*v));
            }
        },
        SqlValue::Bool(b) => {
            if *b {
                out.append("TRUE");
            } else {
                out.append("FALSE");
            }
        },
    }
}

fn push_values_list(out: &mut String, vs: &Vec<SqlValue>)
    ensures
        final(out)@ == old(out)@ + join_with(rendered_values(vs@), ", "@),
{
    let n = vs.len();
    let mut i: usize = 0;
    while i < n
        invariant
            i <= n,
            n == vs@.len(),
            out@ == old(out)@ + join_with(rendered_values(vs@).take(i as int), ", "@),
        decreases n - i,
    {
        if i > 0 {
            out.append(", ");
        }
        push_value(out, &vs[i]);
        proof {
            let parts = rendered_values(vs@);
            assert(parts.take(i + 1) =~= parts.take(i as int).push(render_value(vs@[i as int])));
            lemma_join_push(parts.take(i as int), render_value(vs@[i as int]), ", "@);
            assert(out@ =~= old(out)@ + join_with(parts.take(i + 1), ", "@));
        }
        i += 1;
    }
    proof {
        assert(rendered_values(vs@).take(n as int) =~= rendered_values(vs@));
    }
}

fn push_quoted_names(out: &mut String, ns: &Vec<String>)
    ensures
        final(out)@ == old(out)@ + join_with(quoted_names(ns@), ", "@),
{
    let n = ns.len();
    let mut i: usize = 0;
    while i < n
        invariant
            i <= n,
            n == ns@.len(),
            out@ == old(out)@ + join_with(quoted_names(ns@).take(i as int), ", "@),
        decreases n - i,
    {
        if i > 0 {
            out.append(", ");
        }
        push_quoted(out, ns[i].as_str());
        proof {
            let parts = quoted_names(ns@);
            assert(parts.take(i + 1) =~= parts.take(i as int).push(quoted(ns@[i as int]@)));
            lemma_join_push(parts.take(i as int), quoted(ns@[i as int]@), ", "@);
            assert(out@ =~= old(out)@ + join_with(parts.take(i + 1), ", "@));
        }
        i += 1;
    }
    proof {
        assert(quoted_names(ns@).take(n as int) =~= quoted_names(ns@));
    }
}

fn type_str(t: &ColumnType) -> (r: &'static str)
    ensures
        r@ == render_type(*t),
{
    match t {
        ColumnType::Integer => "integer",
        ColumnType::Text => "text",
        ColumnType::DateTime => "datetime",
        ColumnType::Boolean => "boolean",
    }
}

fn push_flags(out: &mut String, c: &ColumnSpec)
    ensures
        final(out)@ == old(out)@ + render_flags(*c),
{
    if c.not_null {
        out.append(" NOT NULL");
    }
    if c.primary_key {
        out.append(" PRIMARY KEY");
    }
    if c.auto_increment {
        out.append(" AUTOINCREMENT");
    }
    if c.unique {
        out.append(" UNIQUE");
    }
    proof {
        assert(out@ =~= old(out)@ + render_flags(*c));
    }
}

fn push_default(out: &mut String, c: &ColumnSpec)
    ensures
        final(out)@ == old(out)@ + render_default(*c),
{
    match &c.default_value {
        Some(v) => {
            out.append(" DEFAULT ");
            push_value(out, v);
            proof {
                assert(out@ =~= old(out)@ + render_default(*c));
            }
        },
        None => {
            proof {
                assert(out@ =~= old(out)@ + render_default(*c));
            }
        },
    }
}

fn push_check(out: &mut String, c: &ColumnSpec)
    ensures
        final(out)@ == old(out)@ + render_check(*c),
{
    match &c.check_in {
        Some(vs) => {
            out.append(" CHECK (");
            push_quoted(out, c.name.as_str());
            out.append(" IN (");
            push_values_list(out, vs);
            out.append("))");
            proof {
                assert(out@ =~= old(out)@ + render_check(*c));
            }
        },
        None => {
            proof {
                assert(out@ =~= old(out)@ + render_check(*c));
            }
        },
    }
}

fn push_column(out: &mut String, c: &ColumnSpec)
    ensures
        final(out)@ == old(out)@ + render_column(*c),
{
    push_quoted(out, c.name.as_str());
    out.append(" ");
    out.append(type_str(&c.ty));
    push_flags(out, c);
    push_default(out, c);
    push_check(out, c);
    proof {
        assert(out@ =~= old(out)@ + render_column(*c));
    }
}

fn push_unique(out: &mut String, u: &UniqueIndexSpec)
    ensures
        final(out)@ == old(out)@ + render_unique(*u),
{
    out.append(", CONSTRAINT ");
    push_quoted(out, u.name.as_str());
    out.append(" UNIQUE (");
    push_quoted_names(out, &u.columns);
    out.append(")");
    proof {
        assert(out@ =~= old(out)@ + render_unique(*u));
    }
}

fn push_foreign_key(out: &mut String, f: &ForeignKeySpec)
    ensures
        final(out)@ == old(out)@ + render_foreign_key(*f),
{
    out.append(", CONSTRAINT ");
    push_quoted(out, f.name.as_str());
    out.append(" FOREIGN KEY (");
    push_quoted(out, f.column.as_str());
    out.append(") REFERENCES ");
    push_quoted(out, f.ref_table.as_str());
    out.append(" (");
    push_quoted(out, f.ref_column.as_str());
    out.append(")");
    if f.cascade {
        out.append(" ON DELETE CASCADE ON UPDATE CASCADE");
    }
    proof {
        assert(out@ =~= old(out)@ + render_foreign_key(*f));
    }
}

impl TableSpec {
    /// The CREATE TABLE statement this declaration stands for.
    pub fn to_sql(&self) -> (r: String)
        ensures
            r@ == render_table(*self),
    {
        let mut out = String::new();
        out.append("CREATE TABLE ");
        if self.if_not_exists {
            out.append("IF NOT EXISTS ");
        }
        push_quoted(&mut out, self.name.as_str());
        out.append(" (");
        let ghost head = out@;
        let ncols = self.columns.len();
        let mut i: usize = 0;
        while i < ncols
            invariant
                i <= ncols,
                ncols == self.columns@.len(),
                out@ == head + join_with(rendered_columns(self.columns@).take(i as int), ", "@),
            decreases ncols - i,
        {
            if i > 0 {
                out.append(", ");
            }
            push_column(&mut out, &self.columns[i]);
            proof {
                let parts = rendered_columns(self.columns@);
                assert(parts.take(i + 1) =~= parts.take(i as int).push(
                    render_column(self.columns@[i as int]),
                ));
                lemma_join_push(parts.take(i as int), render_column(self.columns@[i as int]), ", "@);
                assert(out@ =~= head + join_with(parts.take(i + 1), ", "@));
            }
            i += 1;
        }
        proof {
            assert(rendered_columns(self.columns@).take(ncols as int) =~= rendered_columns(
                self.columns@,
            ));
        }
        let ghost after_cols = out@;
        let nuniq = self.uniques.len();
        let mut j: usize = 0;
        while j < nuniq
            invariant
                j <= nuniq,
                nuniq == self.uniques@.len(),
                out@ == after_cols + concat_all(rendered_uniques(self.uniques@).take(j as int)),
            decreases nuniq - j,
        {
            push_unique(&mut out, &self.uniques[j]);
            proof {
                let parts = rendered_uniques(self.uniques@);
                assert(parts.take(j + 1) =~= parts.take(j as int).push(
                    render_unique(self.uniques@[j as int]),
                ));
                lemma_concat_push(parts.take(j as int), render_unique(self.uniques@[j as int]));
                assert(out@ =~= after_cols + concat_all(parts.take(j + 1)));
            }
            j += 1;
        }
        proof {
            assert(rendered_uniques(self.uniques@).take(nuniq as int) =~= rendered_uniques(
                self.uniques@,
            ));
        }
        let ghost after_uniques = out@;
        let nfk = self.foreign_keys.len();
        let mut k: usize = 0;
        while k < nfk
            invariant
                k <= nfk,
                nfk == self.foreign_keys@.len(),
                out@ == after_uniques + concat_all(
                    rendered_foreign_keys(self.foreign_keys@).take(k as int),
                ),
            decreases nfk - k,
        {
            push_foreign_key(&mut out, &self.foreign_keys[k]);
            proof {
                let parts = rendered_foreign_keys(self.foreign_keys@);
                assert(parts.take(k + 1) =~= parts.take(k as int).push(
                    render_foreign_key(self.foreign_keys@[k as int]),
                ));
                lemma_concat_push(
                    parts.take(k as int),
                    render_foreign_key(self.foreign_keys@[k as int]),
                );
                assert(out@ =~= after_uniques + concat_all(parts.take(k + 1)));
            }
            k += 1;
        }
        proof {
            assert(rendered_foreign_keys(self.foreign_keys@).take(nfk as int)
                =~= rendered_foreign_keys(self.foreign_keys@));
        }
        out.append(")");
        proof {
            assert(out@ =~= render_table(*self));
        }
        out
    }
}

impl Migration {
    /// An empty batch, to be grown with `table`.
    pub fn new() -> (m: Migration)
        ensures
            m.tables@.len() == 0,
    {
        Migration { tables: Vec::new() }
    }

    /// Appends one table declaration to the batch.
    pub fn table(self, t: TableSpec) -> (m: Migration)
        ensures
            m.tables@ == self.tables@.push(t),
    {
        let mut tables = self.tables;
        tables.push(t);
        Migration { tables }
    }

    /// The batch as one ';'-joined script of CREATE TABLE statements, in
    /// declaration order, ready to be applied to the store in one step.
    pub fn to_sql(&self) -> (r: String)
        ensures
            r@ == render_migration(self.tables@),
    {
        let mut out = String::new();
        let n = self.tables.len();
        let mut i: usize = 0;
        while i < n
            invariant
                i <= n,
                n == self.tables@.len(),
                out@ == join_with(rendered_tables(self.tables@).take(i as int), ";"@),
            decreases n - i,
        {
            if i > 0 {
                out.append(";");
            }
            let stmt = self.tables[i].to_sql();
            out.append(stmt.as_str());
            proof {
                let parts = rendered_tables(self.tables@);
                assert(parts.take(i + 1) =~= parts.take(i as int).push(
                    render_table(self.tables@[i as int]),
                ));
                lemma_join_push(parts.take(i as int), render_table(self.tables@[i as int]), ";"@);
                assert(out@ =~= join_with(parts.take(i + 1), ";"@));
            }
            i += 1;
        }
        proof {
            assert(rendered_tables(self.tables@).take(n as int) =~= rendered_tables(self.tables@));
        }
        out
    }
}

/// The whole persistent schema in its deterministic order: feeds, then
/// items (whose foreign key needs feeds), then keys. Every table is
/// declared `IF NOT EXISTS`, so applying the batch is idempotent.
pub fn migration() -> (m: Migration)
    ensures
        m.tables@.len() == 3,
        feeds_table_wf(m.tables@[0]),
        items_table_wf(m.tables@[1]),
        keys_table_wf(m.tables@[2]),
{
    Migration::new().table(feeds_table()).table(items_table()).table(keys_table())
}

} // verus!
