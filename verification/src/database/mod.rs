//! The contract surface of the database layer: row metadata types, cell
//! marshaling helpers, the statement each backend runs to page records, and
//! what a statement execution returns.  The driver calls themselves happen
//! outside the engine.

use vstd::prelude::*;
use crate::dbtree::{Database, Table, view_opt};
use crate::strutil;

verus! {

use vstd::string::StringExecFns;

/// Rows fetched per page.
pub const RECORDS_LIMIT_PER_PAGE: u8 = 200;

/// A displayable metadata row: an ordered header list and the matching cells.
pub trait TableRow {
    fn fields(&self) -> Vec<String>;

    fn columns(&self) -> Vec<String>;
}

/// What executing an ad-hoc statement produced.
pub enum ExecuteResult {
    Read { headers: Vec<String>, rows: Vec<Vec<String>>, database: Database, table: Table },
    Write { updated_rows: u64 },
}

/// `NULL` cells render as the literal `NULL`.
pub open spec fn or_null(v: Option<Seq<char>>) -> Seq<char> {
    match v {
        Some(s) => s,
        None => "NULL"@,
    }
}

/// The rendering of an absent value.
pub fn get_or_null(val: Option<String>) -> (r: String)
    ensures
        r@ == or_null(view_opt(val)),
{
    match val {
        Some(v) => v,
        None => String::from_str("NULL"),
    }
}

/// An empty string for an absent value, as the metadata grids show them.
pub open spec fn or_empty(v: Option<Seq<char>>) -> Seq<char> {
    match v {
        Some(s) => s,
        None => Seq::empty(),
    }
}

fn get_or_empty(val: &Option<String>) -> (r: String)
    ensures
        r@ == or_empty(view_opt(*val)),
{
    match val {
        Some(v) => v.clone(),
        None => String::new(),
    }
}

pub struct Column {
    pub name: Option<String>,
    pub col_type: Option<String>,
    pub null: Option<String>,
    pub default: Option<String>,
    pub comment: Option<String>,
}

impl TableRow for Column {
    fn fields(&self) -> (r: Vec<String>)
        ensures
            r@.map_values(|s: String| s@) == seq![
                "name"@,
                "type"@,
                "null"@,
                "default"@,
                "comment"@,
            ],
    {
        let mut v: Vec<String> = Vec::new();
        v.push(String::from_str("name"));
        v.push(String::from_str("type"));
        v.push(String::from_str("null"));
        v.push(String::from_str("default"));
        v.push(String::from_str("comment"));
        proof {
            assert(v@.map_values(|s: String| s@) =~= seq![
                "name"@,
                "type"@,
                "null"@,
                "default"@,
                "comment"@,
            ]);
        }
        v
    }

    fn columns(&self) -> (r: Vec<String>)
        ensures
            r@.map_values(|s: String| s@) == seq![
                or_empty(view_opt(self.name)),
                or_empty(view_opt(self.col_type)),
                or_empty(view_opt(self.null)),
                or_empty(view_opt(self.default)),
                or_empty(view_opt(self.comment)),
            ],
    {
        let mut v: Vec<String> = Vec::new();
        v.push(get_or_empty(&self.name));
        v.push(get_or_empty(&self.col_type));
        v.push(get_or_empty(&self.null));
        v.push(get_or_empty(&self.default));
        v.push(get_or_empty(&self.comment));
        proof {
            assert(v@.map_values(|s: String| s@) =~= seq![
                or_empty(view_opt(self.name)),
                or_empty(view_opt(self.col_type)),
                or_empty(view_opt(self.null)),
                or_empty(view_opt(self.default)),
                or_empty(view_opt(self.comment)),
            ]);
        }
        v
    }
}

pub struct Index {
    pub name: Option<String>,
    pub column_name: Option<String>,
    pub index_type: Option<String>,
}

impl TableRow for Index {
    fn fields(&self) -> (r: Vec<String>)
        ensures
            r@.map_values(|s: String| s@) == seq!["name"@, "column_name"@, "type"@],
    {
        let mut v: Vec<String> = Vec::new();
        v.push(String::from_str("name"));
        v.push(String::from_str("column_name"));
        v.push(String::from_str("type"));
        proof {
            assert(v@.map_values(|s: String| s@) =~= seq!["name"@, "column_name"@, "type"@]);
        }
        v
    }

    fn columns(&self) -> (r: Vec<String>)
        ensures
            r@.map_values(|s: String| s@) == seq![
                or_empty(view_opt(self.name)),
                or_empty(view_opt(self.column_name)),
                or_empty(view_opt(self.index_type)),
            ],
    {
        let mut v: Vec<String> = Vec::new();
        v.push(get_or_empty(&self.name));
        v.push(get_or_empty(&self.column_name));
        v.push(get_or_empty(&self.index_type));
        proof {
            assert(v@.map_values(|s: String| s@) =~= seq![
                or_empty(view_opt(self.name)),
                or_empty(view_opt(self.column_name)),
                or_empty(view_opt(self.index_type)),
            ]);
        }
        v
    }
}

pub struct ForeignKey {
    pub name: Option<String>,
    pub column_name: Option<String>,
    pub ref_table: Option<String>,
    pub ref_column: Option<String>,
}

impl TableRow for ForeignKey {
    fn fields(&self) -> (r: Vec<String>)
        ensures
            r@.map_values(|s: String| s@) == seq![
                "name"@,
                "column_name"@,
                "ref_table"@,
                "ref_column"@,
            ],
    {
        let mut v: Vec<String> = Vec::new();
        v.push(String::from_str("name"));
        v.push(String::from_str("column_name"));
        v.push(String::from_str("ref_table"));
        v.push(String::from_str("ref_column"));
        proof {
            assert(v@.map_values(|s: String| s@) =~= seq![
                "name"@,
                "column_name"@,
                "ref_table"@,
                "ref_column"@,
            ]);
        }
        v
    }

    fn columns(&self) -> (r: Vec<String>)
        ensures
            r@.map_values(|s: String| s@) == seq![
                or_empty(view_opt(self.name)),
                or_empty(view_opt(self.column_name)),
                or_empty(view_opt(self.ref_table)),
                or_empty(view_opt(self.ref_column)),
            ],
    {
        let mut v: Vec<String> = Vec::new();
        v.push(get_or_empty(&self.name));
        v.push(get_or_empty(&self.column_name));
        v.push(get_or_empty(&self.ref_table));
        v.push(get_or_empty(&self.ref_column));
        proof {
            assert(v@.map_values(|s: String| s@) =~= seq![
                or_empty(view_opt(self.name)),
                or_empty(view_opt(self.column_name)),
                or_empty(view_opt(self.ref_table)),
                or_empty(view_opt(self.ref_column)),
            ]);
        }
        v
    }
}

pub struct Constraint {
    pub name: String,
    pub column_name: String,
    pub origin: Option<String>,
}

impl TableRow for Constraint {
    /// The `origin` column appears only where the backend reports one.
    fn fields(&self) -> (r: Vec<String>)
        ensures
            self.origin is Some ==> r@.map_values(|s: String| s@) == seq![
                "name"@,
                "column_name"@,
                "origin"@,
            ],
            self.origin is None ==> r@.map_values(|s: String| s@) == seq![
                "name"@,
                "column_name"@,
            ],
    {
        let mut v: Vec<String> = Vec::new();
        v.push(String::from_str("name"));
        v.push(String::from_str("column_name"));
        if self.origin.is_some() {
            v.push(String::from_str("origin"));
            proof {
                assert(v@.map_values(|s: String| s@) =~= seq![
                    "name"@,
                    "column_name"@,
                    "origin"@,
                ]);
            }
        } else {
            proof {
                assert(v@.map_values(|s: String| s@) =~= seq!["name"@, "column_name"@]);
            }
        }
        v
    }

    fn columns(&self) -> (r: Vec<String>)
        ensures
            self.origin matches Some(o) ==> r@.map_values(|s: String| s@) == seq![
                self.name@,
                self.column_name@,
                o@,
            ],
            self.origin is None ==> r@.map_values(|s: String| s@) == seq![
                self.name@,
                self.column_name@,
            ],
    {
        let mut v: Vec<String> = Vec::new();
        v.push(self.name.clone());
        v.push(self.column_name.clone());
        match &self.origin {
            Some(o) => {
                v.push(o.clone());
                proof {
                    assert(v@.map_values(|s: String| s@) =~= seq![
                        self.name@,
                        self.column_name@,
                        self.origin.unwrap()@,
                    ]);
                }
            },
            None => {
                proof {
                    assert(v@.map_values(|s: String| s@) =~= seq![self.name@, self.column_name@]);
                }
            },
        }
        v
    }
}

/// Two lowercase hex digits per byte, the rendering of binary cells.
pub open spec fn hex_of(bs: Seq<u8>) -> Seq<char>
    decreases bs.len(),
{
    if bs.len() == 0 {
        Seq::empty()
    } else {
        hex_of(bs.drop_last()) + seq![
            hex_digit((bs.last() / 16) as int),
            hex_digit((bs.last() % 16) as int),
        ]
    }
}

pub open spec fn hex_digit(d: int) -> char {
    if d == 0 {
        '0'
    } else if d == 1 {
        '1'
    } else if d == 2 {
        '2'
    } else if d == 3 {
        '3'
    } else if d == 4 {
        '4'
    } else if d == 5 {
        '5'
    } else if d == 6 {
        '6'
    } else if d == 7 {
        '7'
    } else if d == 8 {
        '8'
    } else if d == 9 {
        '9'
    } else if d == 10 {
        'a'
    } else if d == 11 {
        'b'
    } else if d == 12 {
        'c'
    } else if d == 13 {
        'd'
    } else if d == 14 {
        'e'
    } else {
        'f'
    }
}

fn hex_digit_exec(d: u8) -> (r: char)
    requires
        d < 16,
    ensures
        r == hex_digit(d as int),
{
    match d {
        0 => '0',
        1 => '1',
        2 => '2',
        3 => '3',
        4 => '4',
        5 => '5',
        6 => '6',
        7 => '7',
        8 => '8',
        9 => '9',
        10 => 'a',
        11 => 'b',
        12 => 'c',
        13 => 'd',
        14 => 'e',
        _ => 'f',
    }
}

/// Renders binary cell contents as `\xHH…`.
pub fn bytes_to_hex(bytes: &Vec<u8>) -> (r: String)
    ensures
        r@ == "\\x"@ + hex_of(bytes@),
{
    let mut chars: Vec<char> = Vec::new();
    chars.push('\\');
    chars.push('x');
    proof {
        reveal_strlit("\\x");
        assert(chars@ =~= "\\x"@ + hex_of(bytes@.subrange(0, 0)));
    }
    let mut i: usize = 0;
    while i < bytes.len()
        invariant
            i <= bytes@.len(),
            chars@ == "\\x"@ + hex_of(bytes@.subrange(0, i as int)),
        decreases bytes@.len() - i,
    {
        let b = bytes[i];
        chars.push(hex_digit_exec(b / 16));
        chars.push(hex_digit_exec(b % 16));
        i = i + 1;
        proof {
            assert(bytes@.subrange(0, i as int).drop_last() =~= bytes@.subrange(0, i - 1));
            assert(bytes@.subrange(0, i as int).last() == bytes@[i - 1]);
            assert(chars@ =~= "\\x"@ + hex_of(bytes@.subrange(0, i as int)));
        }
    }
    proof {
        assert(bytes@.subrange(0, bytes@.len() as int) =~= bytes@);
    }
    strutil::string_from_chars(&chars)
}

/// Array cell values joined with commas.
pub open spec fn comma_joined(vs: Seq<Seq<char>>) -> Seq<char>
    decreases vs.len(),
{
    if vs.len() == 0 {
        Seq::empty()
    } else if vs.len() == 1 {
        vs[0]
    } else {
        comma_joined(vs.drop_last()) + seq![','] + vs.last()
    }
}

/// Renders an array cell as its comma-joined element text.
pub fn join_comma(vals: &Vec<String>) -> (r: String)
    ensures
        r@ == comma_joined(vals@.map_values(|s: String| s@)),
{
    let ghost vs = vals@.map_values(|s: String| s@);
    let mut chars: Vec<char> = Vec::new();
    let mut i: usize = 0;
    while i < vals.len()
        invariant
            vs == vals@.map_values(|s: String| s@),
            vs.len() == vals@.len(),
            i <= vals@.len(),
            chars@ == comma_joined(vs.subrange(0, i as int)),
        decreases vals@.len() - i,
    {
        let ghost pre = chars@;
        if i > 0 {
            chars.push(',');
        }
        let elem = strutil::chars_of(vals[i].as_str());
        let mut j: usize = 0;
        while j < elem.len()
            invariant
                i < vals@.len(),
                vs.len() == vals@.len(),
                vs == vals@.map_values(|s: String| s@),
                elem@ == vs[i as int],
                j <= elem@.len(),
                chars@ == pre + (if i > 0 {
                    seq![',']
                } else {
                    Seq::<char>::empty()
                }) + elem@.subrange(0, j as int),
            decreases elem@.len() - j,
        {
            chars.push(elem[j]);
            j = j + 1;
            assert(chars@ =~= pre + (if i > 0 {
                seq![',']
            } else {
                Seq::<char>::empty()
            }) + elem@.subrange(0, j as int));
        }
        i = i + 1;
        proof {
            assert(elem@.subrange(0, elem@.len() as int) =~= elem@);
            assert(vs.subrange(0, i as int).drop_last() =~= vs.subrange(0, i - 1));
            assert(vs.subrange(0, i as int).last() == vs[i - 1]);
            if i == 1 {
                assert(chars@ =~= comma_joined(vs.subrange(0, 1)));
            } else {
                assert(chars@ =~= comma_joined(vs.subrange(0, i as int)));
            }
        }
    }
    proof {
        assert(vs.subrange(0, vs.len() as int) =~= vs);
    }
    strutil::string_from_chars(&chars)
}

/// The paging statement the MySQL backend runs.
pub open spec fn mysql_records_query_spec(
    db: Seq<char>,
    table: Seq<char>,
    page: u16,
    filter: Option<Seq<char>>,
) -> Seq<char> {
    "SELECT * FROM `"@ + db + "`.`"@ + table + "`"@ + (match filter {
        Some(f) => " WHERE "@ + f,
        None => Seq::empty(),
    }) + " LIMIT "@ + strutil::dec_digits(page as nat) + ", 200"@
}

/// Builds the MySQL paging statement; the filter appears verbatim as the
/// `WHERE` predicate.
pub fn mysql_records_query(database: &Database, table: &Table, page: u16, filter: &Option<String>)
    -> (r: String)
    ensures
        r@ == mysql_records_query_spec(database@.name, table@.name, page, view_opt(*filter)),
{
    let mut q = String::from_str("SELECT * FROM `").concat(database.name.as_str()).concat(
        "`.`",
    ).concat(table.name.as_str()).concat("`");
    if let Some(f) = filter {
        q = q.concat(" WHERE ").concat(f.as_str());
    }
    q = q.concat(" LIMIT ").concat(strutil::u64_to_string(page as u64).as_str()).concat(", 200");
    q
}

/// The paging statement the SQLite backend runs; the database name plays no
/// part, a connection is single-database.
pub open spec fn sqlite_records_query_spec(
    table: Seq<char>,
    page: u16,
    filter: Option<Seq<char>>,
) -> Seq<char> {
    "SELECT * FROM `"@ + table + "`"@ + (match filter {
        Some(f) => " WHERE "@ + f,
        None => Seq::empty(),
    }) + " LIMIT "@ + strutil::dec_digits(page as nat) + ", 200"@
}

pub fn sqlite_records_query(table: &Table, page: u16, filter: &Option<String>) -> (r: String)
    ensures
        r@ == sqlite_records_query_spec(table@.name, page, view_opt(*filter)),
{
    let mut q = String::from_str("SELECT * FROM `").concat(table.name.as_str()).concat("`");
    if let Some(f) = filter {
        q = q.concat(" WHERE ").concat(f.as_str());
    }
    q = q.concat(" LIMIT ").concat(strutil::u64_to_string(page as u64).as_str()).concat(", 200");
    q
}

/// The paging statement the PostgreSQL backend runs; a table without a
/// schema lives in `public`.
pub open spec fn postgres_records_query_spec(
    db: Seq<char>,
    schema: Option<Seq<char>>,
    table: Seq<char>,
    page: u16,
    filter: Option<Seq<char>>,
) -> Seq<char> {
    "SELECT * FROM \""@ + db + "\".\""@ + (match schema {
        Some(s) => s,
        None => "public"@,
    }) + "\".\""@ + table + "\""@ + (match filter {
        Some(f) => " WHERE "@ + f,
        None => Seq::empty(),
    }) + " LIMIT 200 OFFSET "@ + strutil::dec_digits(page as nat)
}

pub fn postgres_records_query(
    database: &Database,
    table: &Table,
    page: u16,
    filter: &Option<String>,
) -> (r: String)
    ensures
        r@ == postgres_records_query_spec(
            database@.name,
            view_opt(table.schema),
            table@.name,
            page,
            view_opt(*filter),
        ),
{
    let schema = match &table.schema {
        Some(s) => s.clone(),
        None => String::from_str("public"),
    };
    let mut q = String::from_str("SELECT * FROM \"").concat(database.name.as_str()).concat(
        "\".\"",
    ).concat(schema.as_str()).concat("\".\"").concat(table.name.as_str()).concat("\"");
    if let Some(f) = filter {
        q = q.concat(" WHERE ").concat(f.as_str());
    }
    q = q.concat(" LIMIT 200 OFFSET ").concat(strutil::u64_to_string(page as u64).as_str());
    q
}

} // verus!
