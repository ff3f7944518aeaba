//! Lookup of a member in the record store: header-less comma-separated
//! rows of key, display name, external id and category.

use vstd::prelude::*;
use crate::entry::MemberData;

verus! {

/// csv's error, carried through unopened.
#[verifier::external_type_specification]
#[verifier::external_body]
pub struct ExCsvError(csv::Error);

/// std's I/O error, carried through unopened.
#[verifier::external_type_specification]
#[verifier::external_body]
pub struct ExIoError(std::io::Error);

/// Why the record store could not be searched.
pub enum GetRecordError {
    /// The store could not be opened.
    IOError(std::io::Error),
    /// A row of the store could not be read.
    CSVError(csv::Error),
    /// The row that the search reached lacks one of its fields.
    MalformedRecord,
}

impl From<std::io::Error> for GetRecordError {
    fn from(value: std::io::Error) -> (r: GetRecordError)
        ensures
            r == GetRecordError::IOError(value),
    {
        GetRecordError::IOError(value)
    }
}

impl vstd::std_specs::convert::FromSpecImpl<std::io::Error> for GetRecordError {
    open spec fn obeys_from_spec() -> bool {
        true
    }

    open spec fn from_spec(v: std::io::Error) -> GetRecordError {
        GetRecordError::IOError(v)
    }
}

impl From<csv::Error> for GetRecordError {
    fn from(value: csv::Error) -> (r: GetRecordError)
        ensures
            r == GetRecordError::CSVError(value),
    {
        GetRecordError::CSVError(value)
    }
}

impl vstd::std_specs::convert::FromSpecImpl<csv::Error> for GetRecordError {
    open spec fn obeys_from_spec() -> bool {
        true
    }

    open spec fn from_spec(v: csv::Error) -> GetRecordError {
        GetRecordError::CSVError(v)
    }
}

/// The rows that the csv reader finds in `input`, read without a header:
/// each row's fields, or `None` where the reader failed on that row.
pub uninterp spec fn csv_rows(input: Seq<u8>) -> Seq<Option<Seq<Seq<char>>>>;

/// The text of each field of a row.
pub open spec fn fields_view(fields: Vec<String>) -> Seq<Seq<char>> {
    fields@.map_values(|f: String| f@)
}

/// The rows as the reader gave them, each field as its text.
pub open spec fn rows_view(rows: Vec<Result<Vec<String>, csv::Error>>) -> Seq<Option<Seq<Seq<char>>>> {
    rows@.map_values(
        |row: Result<Vec<String>, csv::Error>|
            match row {
                Ok(fields) => Some(fields_view(fields)),
                Err(_) => None,
            },
    )
}

/// Relies on csv's `ReaderBuilder` without headers and `Reader::records`:
/// the records of a byte slice, each with its fields, in order, depend on
/// the bytes alone.
#[verifier::external_body]
fn read_rows(input: &[u8]) -> (r: Vec<Result<Vec<String>, csv::Error>>)
    ensures
        rows_view(r) == csv_rows(input@),
{
    csv::ReaderBuilder::new()
        .has_headers(false)
        .from_reader(input)
        .records()
        .map(|row| row.map(|fields| fields.iter().map(String::from).collect()))
        .collect()
}

/// Where a search for `key` ends.
pub enum StoreLookup {
    /// No row has the key.
    Absent,
    /// A row before the match could not be read.
    Unreadable,
    /// The search reached a row without any field.
    Malformed,
    /// The first row with the key, with all its fields.
    Found(Seq<Seq<char>>),
}

/// The search of `rows` for `key`: rows are taken in order; the first that
/// cannot be read, has no field, or has the key as its first field ends it.
pub open spec fn lookup_rows(rows: Seq<Option<Seq<Seq<char>>>>, key: Seq<char>) -> StoreLookup
    decreases rows.len(),
{
    if rows.len() == 0 {
        StoreLookup::Absent
    } else {
        match rows[0] {
            None => StoreLookup::Unreadable,
            Some(fields) => if fields.len() == 0 {
                StoreLookup::Malformed
            } else if fields[0] == key {
                StoreLookup::Found(fields)
            } else {
                lookup_rows(rows.drop_first(), key)
            },
        }
    }
}

/// The member that a row's fields describe: display name, external id,
/// category.
pub open spec fn member_of(fields: Seq<Seq<char>>, m: MemberData) -> bool {
    &&& m.name@ == fields[1]
    &&& m.roll_number@ == fields[2]
    &&& m.gender@ == fields[3]
}

/// The answer of a search that ended as `lookup` says: the matching row
/// whole.
pub open spec fn answers(lookup: StoreLookup, r: Result<Option<Vec<String>>, GetRecordError>) -> bool {
    match lookup {
        StoreLookup::Absent => r matches Ok(None),
        StoreLookup::Unreadable => r matches Err(GetRecordError::CSVError(_)),
        StoreLookup::Malformed => r matches Err(GetRecordError::MalformedRecord),
        StoreLookup::Found(fields) => r matches Ok(Some(v)) && fields_view(v) == fields,
    }
}

/// The member answer of a search that ended as `lookup` says; a matching
/// row needs its display name, external id and category.
pub open spec fn answers_member(lookup: StoreLookup, r: Result<Option<MemberData>, GetRecordError>) -> bool {
    match lookup {
        StoreLookup::Absent => r matches Ok(None),
        StoreLookup::Unreadable => r matches Err(GetRecordError::CSVError(_)),
        StoreLookup::Malformed => r matches Err(GetRecordError::MalformedRecord),
        StoreLookup::Found(fields) => if fields.len() < 4 {
            r matches Err(GetRecordError::MalformedRecord)
        } else {
            r matches Ok(Some(m)) && member_of(fields, m)
        },
    }
}

fn string_eq(a: &String, b: &str) -> (r: bool)
    ensures
        r == (a@ == b@),
{
    let b_owned = String::from_str(b);
    *a == b_owned
}

/// A row that ends the search for `key`.
pub open spec fn stops_search(row: Option<Seq<Seq<char>>>, key: Seq<char>) -> bool {
    match row {
        None => true,
        Some(fields) => fields.len() == 0 || fields[0] == key,
    }
}

fn stops_at(row: &Result<Vec<String>, csv::Error>, key: &str) -> (r: bool)
    ensures
        r == stops_search(
            match row {
                Ok(fields) => Some(fields_view(*fields)),
                Err(_) => None,
            },
            key@,
        ),
{
    match row {
        Err(_) => true,
        Ok(fields) => fields.len() == 0 || string_eq(&fields[0], key),
    }
}

fn answer_at(rows: Vec<Result<Vec<String>, csv::Error>>, i: usize, key: &str) -> (r: Result<
    Option<Vec<String>>,
    GetRecordError,
>)
    requires
        i < rows@.len(),
        stops_search(rows_view(rows)[i as int], key@),
    ensures
        answers(lookup_rows(rows_view(rows).subrange(i as int, rows@.len() as int), key@), r),
{
    let ghost tail = rows_view(rows).subrange(i as int, rows@.len() as int);
    assert(tail[0] == rows_view(rows)[i as int]);
    let mut rows = rows;
    let row = rows.remove(i);
    match row {
        Err(e) => Err(GetRecordError::CSVError(e)),
        Ok(fields) => {
            if fields.len() == 0 {
                Err(GetRecordError::MalformedRecord)
            } else {
                Ok(Some(fields))
            }
        },
    }
}

/// Searches rows that the reader gave for the first with `key`.
pub fn find_record(rows: Vec<Result<Vec<String>, csv::Error>>, key: &str) -> (r: Result<
    Option<Vec<String>>,
    GetRecordError,
>)
    ensures
        answers(lookup_rows(rows_view(rows), key@), r),
{
    let ghost all = rows_view(rows);
    let n = rows.len();
    let mut i: usize = 0;
    assert(all.subrange(0, n as int) =~= all);
    while i < n
        invariant
            n == all.len(),
            i <= n,
            all == rows_view(rows),
            lookup_rows(all, key@) == lookup_rows(all.subrange(i as int, n as int), key@),
        decreases n - i,
    {
        if stops_at(&rows[i], key) {
            return answer_at(rows, i, key);
        }
        assert(all.subrange(i as int, n as int)[0] == all[i as int]);
        assert(all.subrange(i as int, n as int).drop_first() =~= all.subrange(i + 1, n as int));
        i = i + 1;
    }
    assert(all.subrange(i as int, n as int) =~= Seq::<Option<Seq<Seq<char>>>>::empty());
    Ok(None)
}

/// Finds the first row whose first field is `key` in the text of the record
/// store, and gives it whole.
pub fn get_member_record(store: &[u8], key: &str) -> (r: Result<Option<Vec<String>>, GetRecordError>)
    ensures
        answers(lookup_rows(csv_rows(store@), key@), r),
{
    let rows = read_rows(store);
    find_record(rows, key)
}

/// Finds the member whose key is `key` in the text of the record store:
/// display name, external id and category of the first row with that key;
/// that row lacking one of them is a malformed store.
pub fn get_member_data(store: &[u8], key: &str) -> (r: Result<Option<MemberData>, GetRecordError>)
    ensures
        answers_member(lookup_rows(csv_rows(store@), key@), r),
{
    match get_member_record(store, key) {
        Ok(Some(fields)) => {
            if fields.len() < 4 {
                return Err(GetRecordError::MalformedRecord);
            }
            let mut fields = fields;
            let category = fields.remove(3);
            let roll_number = fields.remove(2);
            let name = fields.remove(1);
            Ok(Some(MemberData { name, gender: category, roll_number }))
        },
        Ok(None) => Ok(None),
        Err(e) => Err(e),
    }
}

} // verus!
