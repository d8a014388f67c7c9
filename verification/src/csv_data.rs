//! Customers to and from CSV: the export table, and the rules by which an
//! uploaded file's columns are found and each of its rows becomes a customer.
use vstd::prelude::*;

use crate::models::{CreateCustomer, Customer, UpdateCustomer};
use crate::search::{first_such, lemma_find_first_at, lemma_find_first_none};
use crate::status::{is_known_status, is_valid_status, status_named, STATUSES};
use crate::text::{decimal, lowercased, push_decimal, text_ends_with, text_eq, to_lowercase, trim, trimmed, occurs_at};

verus! {

// ---------------------------------------------------------------------------
// The `csv` crate
// ---------------------------------------------------------------------------

/// What a `csv` reader with a header row reads from `text`: the header fields,
/// then each record's fields (`None` for a record the reader rejects); `None`
/// when the header row cannot be read.
pub uninterp spec fn csv_read(text: Seq<char>) -> Option<(Seq<Seq<char>>, Seq<Option<Seq<Seq<char>>>>)>;

/// The bytes that a `csv` writer produces for `rows`, one record per row;
/// `None` when the writer cannot be flushed.
pub uninterp spec fn csv_written(rows: Seq<Seq<Seq<char>>>) -> Option<Seq<u8>>;

/// Reads `text` with `csv::ReaderBuilder::new().has_headers(true)`: the fields of
/// `headers()`, then those of each item of `records()`; the result is named, not stated.
#[verifier::external_body]
fn read_csv(text: &str) -> (r: Option<(Vec<String>, Vec<Option<Vec<String>>>)>)
    ensures
        r.deep_view() == csv_read(text@),
{
    let mut reader = ::csv::ReaderBuilder::new().has_headers(true).from_reader(text.as_bytes());
    let headers: Vec<String> = match reader.headers() {
        Ok(h) => h.iter().map(|f| f.to_string()).collect(),
        Err(_) => return None,
    };
    let records = reader.records().map(|r| r.ok().map(|rec| rec.iter().map(|f| f.to_string()).collect())).collect();
    Some((headers, records))
}

/// Writes each row as a record with `csv::WriterBuilder::new().from_writer`
/// (`write_record`, whose errors are ignored) and takes the bytes with
/// `into_inner`, or the text of its error; the bytes are named, not stated,
/// and the error text is left unsaid.
#[verifier::external_body]
fn write_csv(rows: &Vec<Vec<String>>) -> (r: Result<Vec<u8>, String>)
    ensures
        r is Ok <==> csv_written(rows.deep_view()) is Some,
        r matches Ok(bytes) ==> csv_written(rows.deep_view()) == Some(bytes@),
{
    let mut writer = ::csv::WriterBuilder::new().from_writer(Vec::new());
    for row in rows {
        let _ = writer.write_record(row);
    }
    writer.into_inner().map_err(|e| e.to_string())
}

// ---------------------------------------------------------------------------
// Export
// ---------------------------------------------------------------------------

/// The columns of an exported file, in order.
pub const CSV_COLUMNS: [&'static str; 8] = ["name", "email", "phone", "website", "city", "state", "industry", "status"];

/// An optional text, empty when missing.
pub open spec fn or_empty(s: Option<String>) -> Seq<char> {
    match s {
        Some(t) => t@,
        None => Seq::empty(),
    }
}

/// The exported fields of a customer.
pub open spec fn export_row(c: Customer) -> Seq<Seq<char>> {
    seq![
        c.name@,
        or_empty(c.email),
        or_empty(c.phone),
        or_empty(c.website),
        or_empty(c.city),
        or_empty(c.state),
        or_empty(c.industry),
        c.status@,
    ]
}

/// The header row of an exported file.
pub open spec fn export_header() -> Seq<Seq<char>> {
    CSV_COLUMNS@.map_values(|c: &'static str| c@)
}

/// The rows of an exported file: the header and one row per customer, or
/// nothing at all when there are no customers (the header is written with the
/// first record).
pub open spec fn export_table(customers: Seq<Customer>) -> Seq<Seq<Seq<char>>> {
    if customers.len() == 0 {
        Seq::empty()
    } else {
        seq![export_header()] + customers.map_values(|c: Customer| export_row(c))
    }
}

/// The value that a customer has for the column named `col`, as CSV text
/// (an absent optional value is the empty text).
pub open spec fn field_named(c: Customer, col: Seq<char>) -> Seq<char> {
    let text = |o: Option<String>| -> Seq<char> {
        match o {
            Some(v) => v@,
            None => Seq::empty(),
        }
    };
    if col == "name"@ {
        c.name@
    } else if col == "email"@ {
        text(c.email)
    } else if col == "phone"@ {
        text(c.phone)
    } else if col == "website"@ {
        text(c.website)
    } else if col == "city"@ {
        text(c.city)
    } else if col == "state"@ {
        text(c.state)
    } else if col == "industry"@ {
        text(c.industry)
    } else if col == "status"@ {
        c.status@
    } else {
        Seq::empty()
    }
}

/// In an exported file, the field under each header of each customer's row is
/// that customer's value for the column the header names; the header names
/// every column once and there is one row per customer, in order.
pub proof fn lemma_export_fields_under_their_headers(customers: Seq<Customer>, k: int, i: int)
    requires
        0 <= k < customers.len(),
        0 <= i < 8,
    ensures
        export_table(customers).len() == customers.len() + 1,
        export_table(customers)[0].len() == 8,
        export_table(customers)[k + 1].len() == 8,
        export_table(customers)[k + 1][i] == field_named(customers[k], export_table(customers)[0][i]),
{
    reveal_strlit("name");
    reveal_strlit("email");
    reveal_strlit("phone");
    reveal_strlit("website");
    reveal_strlit("city");
    reveal_strlit("state");
    reveal_strlit("industry");
    reveal_strlit("status");
    let h = export_header();
    assert(h[0] == "name"@);
    assert(h[1] == "email"@);
    assert(h[2] == "phone"@);
    assert(h[3] == "website"@);
    assert(h[4] == "city"@);
    assert(h[5] == "state"@);
    assert(h[6] == "industry"@);
    assert(h[7] == "status"@);
    assert("name"@.len() == 4 && "email"@.len() == 5 && "phone"@.len() == 5 && "website"@.len() == 7);
    assert("city"@.len() == 4 && "state"@.len() == 5 && "industry"@.len() == 8 && "status"@.len() == 6);
    assert("name"@[0] != "city"@[0]);
    assert("email"@[0] != "phone"@[0] && "email"@[0] != "state"@[0] && "phone"@[0] != "state"@[0]);
    assert(export_table(customers)[0] == h);
    assert(export_table(customers)[k + 1] == export_row(customers[k]));
}

fn owned_or_empty(s: &Option<String>) -> (r: String)
    ensures
        r@ == or_empty(*s),
{
    match s {
        Some(t) => t.clone(),
        None => String::new(),
    }
}

/// The exported fields of a customer.
pub fn customer_row(c: &Customer) -> (r: Vec<String>)
    ensures
        r.deep_view() == export_row(*c),
{
    let mut r: Vec<String> = Vec::new();
    r.push(c.name.clone());
    r.push(owned_or_empty(&c.email));
    r.push(owned_or_empty(&c.phone));
    r.push(owned_or_empty(&c.website));
    r.push(owned_or_empty(&c.city));
    r.push(owned_or_empty(&c.state));
    r.push(owned_or_empty(&c.industry));
    r.push(c.status.clone());
    assert(r.deep_view() =~= export_row(*c));
    r
}

/// The rows of the export file for `customers`.
pub fn export_rows(customers: &Vec<Customer>) -> (r: Vec<Vec<String>>)
    ensures
        r.deep_view() == export_table(customers@),
{
    let mut rows: Vec<Vec<String>> = Vec::new();
    if customers.len() == 0 {
        assert(rows.deep_view() =~= export_table(customers@));
        return rows;
    }
    let mut header: Vec<String> = Vec::new();
    let mut k: usize = 0;
    while k < 8
        invariant
            k <= 8,
            header.deep_view() =~= CSV_COLUMNS@.take(k as int).map_values(|c: &'static str| c@),
        decreases 8 - k,
    {
        let ghost before = header.deep_view();
        header.push(CSV_COLUMNS[k].to_owned());
        assert(header.deep_view() =~= before.push(CSV_COLUMNS@[k as int]@));
        assert(CSV_COLUMNS@.take(k + 1) =~= CSV_COLUMNS@.take(k as int).push(CSV_COLUMNS@[k as int]));
        assert(CSV_COLUMNS@.take(k + 1).map_values(|c: &'static str| c@) =~= CSV_COLUMNS@.take(
            k as int,
        ).map_values(|c: &'static str| c@).push(CSV_COLUMNS@[k as int]@));
        k += 1;
    }
    assert(CSV_COLUMNS@.take(8) =~= CSV_COLUMNS@);
    rows.push(header);
    let mut i: usize = 0;
    while i < customers.len()
        invariant
            i <= customers.len(),
            customers.len() > 0,
            rows.deep_view() =~= seq![export_header()] + customers@.take(i as int).map_values(
                |c: Customer| export_row(c),
            ),
        decreases customers.len() - i,
    {
        let row = customer_row(&customers[i]);
        let ghost before = rows.deep_view();
        rows.push(row);
        assert(rows.deep_view() =~= before.push(export_row(customers@[i as int])));
        assert(customers@.take(i + 1) =~= customers@.take(i as int).push(customers@[i as int]));
        assert(customers@.take(i + 1).map_values(|c: Customer| export_row(c)) =~= customers@.take(
            i as int,
        ).map_values(|c: Customer| export_row(c)).push(export_row(customers@[i as int])));
        i += 1;
    }
    assert(customers@.take(customers.len() as int) =~= customers@);
    rows
}

/// The bytes of the CSV file that exports `customers`, or the writer's error text.
pub fn export_csv(customers: &Vec<Customer>) -> (r: Result<Vec<u8>, String>)
    ensures
        r is Ok <==> csv_written(export_table(customers@)) is Some,
        r matches Ok(bytes) ==> csv_written(export_table(customers@)) == Some(bytes@),
{
    let rows = export_rows(customers);
    write_csv(&rows)
}

// ---------------------------------------------------------------------------
// Import: the file and its columns
// ---------------------------------------------------------------------------

/// Why an upload is turned away as a whole.
pub enum ImportError {
    /// The uploaded file's name does not end in `.csv`.
    InvalidFileType,
    /// The form holds no file.
    NoFile,
    /// The header row cannot be read.
    InvalidCsv,
    /// A required column is missing; the text is its name.
    MissingColumn(String),
}

/// The columns that every imported file must have.
pub const REQUIRED_COLUMNS: [&'static str; 4] = ["name", "phone", "city", "state"];

/// The page that an upload returns to when it is turned away.
pub const IMPORT_PAGE: &'static str = "/customers/import";

/// The page that a finished import returns to.
pub const CUSTOMERS_PAGE: &'static str = "/customers";

impl ImportError {
    /// The message shown for this error.
    pub fn message(&self) -> (r: String)
        ensures
            r@ == import_error_message(*self),
    {
        match self {
            ImportError::InvalidFileType => "Invalid file type. Please upload a CSV file.".to_owned(),
            ImportError::NoFile => "No file uploaded".to_owned(),
            ImportError::InvalidCsv => "Invalid CSV format".to_owned(),
            ImportError::MissingColumn(name) => {
                let mut r = "Missing required column: ".to_owned();
                r.append(name.as_str());
                r
            },
        }
    }
}

/// The message shown for an import error.
pub open spec fn import_error_message(e: ImportError) -> Seq<char> {
    match e {
        ImportError::InvalidFileType => "Invalid file type. Please upload a CSV file."@,
        ImportError::NoFile => "No file uploaded"@,
        ImportError::InvalidCsv => "Invalid CSV format"@,
        ImportError::MissingColumn(name) => "Missing required column: "@ + name@,
    }
}

/// Whether an uploaded file's name marks it as CSV.
pub fn is_csv_filename(name: &str) -> (r: bool)
    ensures
        r == (".csv"@.len() <= name@.len() && occurs_at(name@, ".csv"@, name@.len() - ".csv"@.len())),
{
    text_ends_with(name, ".csv")
}

/// Where each column of an import file is: the required ones, and the optional
/// ones that the file has.
pub struct ImportColumns {
    pub name: usize,
    pub phone: usize,
    pub city: usize,
    pub state: usize,
    pub email: Option<usize>,
    pub website: Option<usize>,
    pub industry: Option<usize>,
    pub status: Option<usize>,
}

/// The column names of a header row, lower-cased.
pub open spec fn header_names(headers: Seq<Seq<char>>) -> Seq<Seq<char>> {
    headers.map_values(|h: Seq<char>| lowercased(h))
}

/// The last position of `name` among `names` (a later column of the same name
/// replaces an earlier one).
pub open spec fn last_position(names: Seq<Seq<char>>, name: Seq<char>) -> Option<int>
    decreases names.len(),
{
    if names.len() == 0 {
        None
    } else if names.last() == name {
        Some(names.len() - 1)
    } else {
        last_position(names.drop_last(), name)
    }
}

/// The column of an import file named `name`, case aside.
pub open spec fn column_of(headers: Seq<Seq<char>>, name: Seq<char>) -> Option<int> {
    last_position(header_names(headers), name)
}

/// The predicate "this required column is missing".
pub open spec fn column_missing(headers: Seq<Seq<char>>) -> spec_fn(&'static str) -> bool {
    |c: &'static str| column_of(headers, c@) is None
}

/// The first required column, in the order name, phone, city, state, that a
/// file with header row `headers` lacks.
pub open spec fn first_missing_column(headers: Seq<Seq<char>>) -> Option<Seq<char>> {
    match first_such(REQUIRED_COLUMNS@, column_missing(headers)) {
        Some(c) => Some(c@),
        None => None,
    }
}

/// `cols` are the positions of the columns of a file whose header row is `headers`.
pub open spec fn planned_columns(headers: Seq<Seq<char>>, cols: ImportColumns) -> bool {
    &&& column_of(headers, "name"@) == Some(cols.name as int)
    &&& column_of(headers, "phone"@) == Some(cols.phone as int)
    &&& column_of(headers, "city"@) == Some(cols.city as int)
    &&& column_of(headers, "state"@) == Some(cols.state as int)
    &&& opt_int(cols.email) == column_of(headers, "email"@)
    &&& opt_int(cols.website) == column_of(headers, "website"@)
    &&& opt_int(cols.industry) == column_of(headers, "industry"@)
    &&& opt_int(cols.status) == column_of(headers, "status"@)
}

/// An optional position as an integer.
pub open spec fn opt_int(p: Option<usize>) -> Option<int> {
    match p {
        Some(i) => Some(i as int),
        None => None,
    }
}

fn column_index(names: &Vec<String>, name: &str) -> (r: Option<usize>)
    ensures
        opt_int(r) == last_position(names.deep_view(), name@),
        r matches Some(i) ==> i < names.len(),
{
    let ghost nv = names.deep_view();
    let mut found: Option<usize> = None;
    let mut i: usize = 0;
    while i < names.len()
        invariant
            i <= names.len(),
            nv == names.deep_view(),
            nv.len() == names.len(),
            opt_int(found) == last_position(nv.take(i as int), name@),
            found matches Some(k) ==> k < i,
        decreases names.len() - i,
    {
        assert(nv.take(i + 1).drop_last() =~= nv.take(i as int));
        assert(nv.take(i + 1).last() == names[i as int]@);
        if text_eq(names[i].as_str(), name) {
            found = Some(i);
        }
        i += 1;
    }
    assert(nv.take(names.len() as int) =~= nv);
    found
}

/// Finds the columns of an import file from its header row.
pub fn plan_columns(headers: &Vec<String>) -> (r: Result<ImportColumns, ImportError>)
    ensures
        match r {
            Ok(cols) => first_missing_column(headers.deep_view()) is None && planned_columns(
                headers.deep_view(),
                cols,
            ),
            Err(ImportError::MissingColumn(c)) => first_missing_column(headers.deep_view()) == Some(c@),
            Err(_) => false,
        },
{
    let ghost hv = headers.deep_view();
    let mut names: Vec<String> = Vec::new();
    let mut i: usize = 0;
    while i < headers.len()
        invariant
            i <= headers.len(),
            hv == headers.deep_view(),
            names.deep_view() =~= header_names(hv).take(i as int),
        decreases headers.len() - i,
    {
        names.push(to_lowercase(headers[i].as_str()));
        assert(header_names(hv).take(i + 1) =~= header_names(hv).take(i as int).push(
            lowercased(hv[i as int]),
        ));
        i += 1;
    }
    assert(header_names(hv).take(headers.len() as int) =~= header_names(hv));
    let mut k: usize = 0;
    while k < 4
        invariant
            k <= 4,
            hv == headers.deep_view(),
            names.deep_view() == header_names(hv),
            forall|j: int| 0 <= j < k ==> !column_missing(hv)(#[trigger] REQUIRED_COLUMNS@[j]),
        decreases 4 - k,
    {
        if column_index(&names, REQUIRED_COLUMNS[k]).is_none() {
            proof {
                lemma_find_first_at(REQUIRED_COLUMNS@, column_missing(hv), k as int);
            }
            return Err(ImportError::MissingColumn(REQUIRED_COLUMNS[k].to_owned()));
        }
        k += 1;
    }
    proof {
        lemma_find_first_none(REQUIRED_COLUMNS@, column_missing(hv));
    }
    assert(!column_missing(hv)(REQUIRED_COLUMNS@[0]));
    assert(!column_missing(hv)(REQUIRED_COLUMNS@[1]));
    assert(!column_missing(hv)(REQUIRED_COLUMNS@[2]));
    assert(!column_missing(hv)(REQUIRED_COLUMNS@[3]));
    let name = column_index(&names, "name");
    let phone = column_index(&names, "phone");
    let city = column_index(&names, "city");
    let state = column_index(&names, "state");
    let (name, phone, city, state) = match (name, phone, city, state) {
        (Some(a), Some(b), Some(c), Some(d)) => (a, b, c, d),
        _ => {
            assert(false);
            return Err(ImportError::InvalidCsv);
        },
    };
    Ok(ImportColumns {
        name,
        phone,
        city,
        state,
        email: column_index(&names, "email"),
        website: column_index(&names, "website"),
        industry: column_index(&names, "industry"),
        status: column_index(&names, "status"),
    })
}

/// The header row and records of an upload, or `InvalidCsv` when the header
/// row cannot be read.
pub fn read_upload(text: &str) -> (r: Result<(Vec<String>, Vec<Option<Vec<String>>>), ImportError>)
    ensures
        match r {
            Ok(t) => csv_read(text@) == Some(t.deep_view()),
            Err(e) => csv_read(text@) is None && e is InvalidCsv,
        },
{
    match read_csv(text) {
        Some(t) => Ok(t),
        None => Err(ImportError::InvalidCsv),
    }
}

// ---------------------------------------------------------------------------
// Import: one row
// ---------------------------------------------------------------------------

/// Field `i` of a record, trimmed; empty when the record has no such field.
pub open spec fn field_at(record: Seq<Seq<char>>, i: int) -> Seq<char> {
    if 0 <= i < record.len() {
        trimmed(record[i])
    } else {
        Seq::empty()
    }
}

/// An optional field, trimmed; `None` when the column is absent, the record
/// lacks the field, or the field is blank.
pub open spec fn optional_field(record: Seq<Seq<char>>, col: Option<usize>) -> Option<Seq<char>> {
    match col {
        Some(i) => if (i as int) < record.len() && trimmed(record[i as int]).len() > 0 {
            Some(trimmed(record[i as int]))
        } else {
            None
        },
        None => None,
    }
}

/// The status an imported customer is given: the file's, trimmed, when it is
/// a known status, and `new` otherwise.
pub open spec fn imported_status(record: Seq<Seq<char>>, col: Option<usize>) -> Seq<char> {
    let given = match col {
        Some(i) => if (i as int) < record.len() {
            trimmed(record[i as int])
        } else {
            "new"@
        },
        None => "new"@,
    };
    if is_known_status(given) {
        given
    } else {
        "new"@
    }
}

/// A row is imported when its name, phone, city and state are all non-blank.
pub open spec fn row_accepted(record: Seq<Seq<char>>, cols: ImportColumns) -> bool {
    &&& field_at(record, cols.name as int).len() > 0
    &&& field_at(record, cols.phone as int).len() > 0
    &&& field_at(record, cols.city as int).len() > 0
    &&& field_at(record, cols.state as int).len() > 0
}

/// A customer to create from one row, and the status it is meant to have.
pub struct ImportRow {
    pub customer: CreateCustomer,
    pub status: String,
}

/// The customer fields that a row gives.
pub open spec fn row_customer(record: Seq<Seq<char>>, cols: ImportColumns, c: CreateCustomer) -> bool {
    &&& c.name@ == field_at(record, cols.name as int)
    &&& c.phone.deep_view() == Some(field_at(record, cols.phone as int))
    &&& c.city.deep_view() == Some(field_at(record, cols.city as int))
    &&& c.state.deep_view() == Some(field_at(record, cols.state as int))
    &&& c.email.deep_view() == optional_field(record, cols.email)
    &&& c.website.deep_view() == optional_field(record, cols.website)
    &&& c.industry.deep_view() == optional_field(record, cols.industry)
}

fn field(record: &Vec<String>, i: usize) -> (r: String)
    ensures
        r@ == field_at(record.deep_view(), i as int),
{
    if i < record.len() {
        assert(record.deep_view()[i as int] == record[i as int]@);
        trim(record[i].as_str())
    } else {
        String::new()
    }
}

fn optional(record: &Vec<String>, col: Option<usize>) -> (r: Option<String>)
    ensures
        r.deep_view() == optional_field(record.deep_view(), col),
{
    match col {
        Some(i) => {
            if i < record.len() {
                assert(record.deep_view()[i as int] == record[i as int]@);
                let t = trim(record[i].as_str());
                if t.as_str().is_empty() {
                    None
                } else {
                    Some(t)
                }
            } else {
                None
            }
        },
        None => None,
    }
}

fn row_status(record: &Vec<String>, col: Option<usize>) -> (r: String)
    ensures
        r@ == imported_status(record.deep_view(), col),
{
    let given = match col {
        Some(i) => {
            if i < record.len() {
                assert(record.deep_view()[i as int] == record[i as int]@);
                trim(record[i].as_str())
            } else {
                "new".to_owned()
            }
        },
        None => "new".to_owned(),
    };
    if is_valid_status(given.as_str()) {
        given
    } else {
        "new".to_owned()
    }
}

/// The customer that a row of an import file describes, or `None` when one of
/// its required fields is blank.
pub fn prepare_row(record: &Vec<String>, cols: &ImportColumns) -> (r: Option<ImportRow>)
    ensures
        r is Some <==> row_accepted(record.deep_view(), *cols),
        r matches Some(row) ==> row_customer(record.deep_view(), *cols, row.customer)
            && row.status@ == imported_status(record.deep_view(), cols.status),
{
    let name = field(record, cols.name);
    let phone = field(record, cols.phone);
    let city = field(record, cols.city);
    let state = field(record, cols.state);
    if name.as_str().is_empty() || phone.as_str().is_empty() || city.as_str().is_empty()
        || state.as_str().is_empty() {
        return None;
    }
    let customer = CreateCustomer {
        name,
        email: optional(record, cols.email),
        phone: Some(phone),
        website: optional(record, cols.website),
        city: Some(city),
        state: Some(state),
        industry: optional(record, cols.industry),
    };
    Some(ImportRow { customer, status: row_status(record, cols.status) })
}

/// Cell `i` of a record holds text other than whitespace.
pub open spec fn cell_filled(record: Seq<Seq<char>>, i: usize) -> bool {
    (i as int) < record.len() && trimmed(record[i as int]).len() > 0
}

/// A row is imported exactly when each of its required cells (name, phone,
/// city, state) holds text other than whitespace.
pub proof fn lemma_row_accepted_iff_required_filled(record: Seq<Seq<char>>, cols: ImportColumns)
    ensures
        row_accepted(record, cols) <==> (cell_filled(record, cols.name) && cell_filled(record, cols.phone)
            && cell_filled(record, cols.city) && cell_filled(record, cols.state)),
{
}

/// The customer of an imported row has a name, phone, city and state, each
/// non-empty and trimmed, and each the trimmed cell of its column.
pub proof fn lemma_imported_customer_has_required_fields(
    record: Seq<Seq<char>>,
    cols: ImportColumns,
    c: CreateCustomer,
)
    requires
        row_accepted(record, cols),
        row_customer(record, cols, c),
    ensures
        c.name@.len() > 0 && c.name@ == trimmed(record[cols.name as int]),
        c.phone matches Some(p) && p@.len() > 0 && p@ == trimmed(record[cols.phone as int]),
        c.city matches Some(t) && t@.len() > 0 && t@ == trimmed(record[cols.city as int]),
        c.state matches Some(t) && t@.len() > 0 && t@ == trimmed(record[cols.state as int]),
{
}

/// Every imported customer is meant to have one of the known statuses.
pub proof fn lemma_imported_status_known(record: Seq<Seq<char>>, col: Option<usize>)
    ensures
        is_known_status(imported_status(record, col)),
{
    assert(STATUSES@[0]@ == "new"@);
    lemma_find_first_at(STATUSES@, status_named("new"@), 0);
}

/// The change made after a row's customer is created (created customers start
/// as `new`): the row's status is set when it is any other, and nothing is
/// changed when it is `new`. Every imported customer so ends with the status
/// that its row gives.
pub fn status_update(row: &ImportRow) -> (r: Option<UpdateCustomer>)
    ensures
        r is Some <==> row.status@ != "new"@,
        r matches Some(u) ==> u.status == Some(row.status) && u.name is None && u.email is None
            && u.phone is None && u.website is None && u.city is None && u.state is None
            && u.industry is None,
{
    if text_eq(row.status.as_str(), "new") {
        None
    } else {
        Some(UpdateCustomer::status_only(row.status.clone()))
    }
}

/// The message that ends an import.
pub open spec fn import_summary_text(imported: nat) -> Seq<char> {
    if imported > 0 {
        "Successfully imported "@ + decimal(imported) + " customer(s)."@
    } else {
        "No customers were imported."@
    }
}

/// The message that ends an import of `imported` customers.
pub fn import_summary(imported: usize) -> (r: String)
    ensures
        r@ == import_summary_text(imported as nat),
{
    if imported > 0 {
        let mut r = "Successfully imported ".to_owned();
        push_decimal(&mut r, imported as u64);
        r.append(" customer(s).");
        r
    } else {
        "No customers were imported.".to_owned()
    }
}

/// The note on row `row_index` of the records (the header is line 1, so the
/// row is line `row_index + 2`) with `reason`.
pub open spec fn row_note(row_index: int, reason: Seq<char>) -> Seq<char> {
    "Row "@ + decimal((row_index + 2) as nat) + ": "@ + reason
}

/// The note kept for a row that was not imported: its line number in the file
/// (the header is line 1) and what was wrong with it.
pub fn row_error(row_index: usize, reason: &str) -> (r: String)
    requires
        row_index <= u64::MAX - 2,
    ensures
        r@ == row_note(row_index as int, reason@),
{
    let mut r = "Row ".to_owned();
    push_decimal(&mut r, row_index as u64 + 2);
    r.append(": ");
    r.append(reason);
    r
}

// ---------------------------------------------------------------------------
// The import, record by record
// ---------------------------------------------------------------------------

/// What became of one record of an import file.
pub enum RowOutcome {
    /// The reader could not read the record.
    Unreadable,
    /// A required field of the record is blank.
    MissingFields,
    /// Its customer was created.
    Created,
    /// Creating its customer failed; the text says why.
    CreateFailed(String),
}

/// The note that an outcome leaves, if any.
pub open spec fn outcome_note(row_index: int, outcome: RowOutcome) -> Option<Seq<char>> {
    match outcome {
        RowOutcome::Unreadable => Some(row_note(row_index, "Invalid format"@)),
        RowOutcome::MissingFields => Some(row_note(row_index, "Missing required fields"@)),
        RowOutcome::Created => None,
        RowOutcome::CreateFailed(m) => Some(row_note(row_index, m@)),
    }
}

/// Reads one record of an import file: the customer to create, or the outcome
/// that ends the record (unreadable, or a required field blank).
pub fn classify_record(record: &Option<Vec<String>>, cols: &ImportColumns) -> (r: Result<ImportRow, RowOutcome>)
    ensures
        match r {
            Ok(row) => record matches Some(rec) && row_accepted(rec.deep_view(), *cols)
                && row_customer(rec.deep_view(), *cols, row.customer)
                && row.status@ == imported_status(rec.deep_view(), cols.status),
            Err(o) => match record {
                None => o is Unreadable,
                Some(rec) => !row_accepted(rec.deep_view(), *cols) && o is MissingFields,
            },
        },
{
    match record {
        None => Err(RowOutcome::Unreadable),
        Some(rec) => match prepare_row(rec, cols) {
            Some(row) => Ok(row),
            None => Err(RowOutcome::MissingFields),
        },
    }
}

/// Where an import stands: how many customers it created, and the notes on
/// the records it did not import, in file order.
pub struct ImportProgress {
    pub imported: usize,
    pub errors: Vec<String>,
}

impl ImportProgress {
    /// An import that has read no record yet.
    pub fn new() -> (r: ImportProgress)
        ensures
            r.imported == 0,
            r.errors@.len() == 0,
    {
        ImportProgress { imported: 0, errors: Vec::new() }
    }

    /// Counts what became of record `row_index`: one more customer when it
    /// was created, else one more note.
    pub fn record(&mut self, row_index: usize, outcome: RowOutcome)
        requires
            row_index <= u64::MAX - 2,
            old(self).imported < usize::MAX,
        ensures
            match outcome_note(row_index as int, outcome) {
                None => final(self).imported == old(self).imported + 1
                    && final(self).errors.deep_view() == old(self).errors.deep_view(),
                Some(note) => final(self).imported == old(self).imported
                    && final(self).errors.deep_view() == old(self).errors.deep_view().push(note),
            },
    {
        let ghost before = self.errors.deep_view();
        let note = match outcome {
            RowOutcome::Unreadable => row_error(row_index, "Invalid format"),
            RowOutcome::MissingFields => row_error(row_index, "Missing required fields"),
            RowOutcome::Created => {
                self.imported = self.imported + 1;
                return;
            },
            RowOutcome::CreateFailed(m) => row_error(row_index, m.as_str()),
        };
        self.errors.push(note);
        assert(self.errors.deep_view() =~= before.push(note@));
    }

    /// The message that ends the import.
    pub fn summary(&self) -> (r: String)
        ensures
            r@ == import_summary_text(self.imported as nat),
    {
        import_summary(self.imported)
    }
}

} // verus!
