//! The database file and what is fetched from it.

use vstd::prelude::*;
use vstd::string::StringExecFns;
use crate::error::{default_message, Error, ErrorKind};

verus! {

/// The name of the database file of the application called `app_name`.
pub open spec fn file_name_of(app_name: Seq<char>) -> Seq<char> {
    app_name + ".db"@
}

/// The payload a fetch hands out: that of the first row, if there is a row.
pub open spec fn first_payload(rows: Seq<Seq<u8>>) -> Option<Seq<u8>> {
    if rows.len() > 0 {
        Some(rows.first())
    } else {
        None
    }
}

/// The database file is named after the application, with the extension
/// `db`. The directory it lies in is for the caller to find.
pub fn database_file_name(app_name: &str) -> (name: String)
    ensures
        name@ == file_name_of(app_name@),
{
    String::from_str(app_name).concat(".db")
}

/// Picks the document to return out of the payloads of all document rows, in
/// the order in which the store gave them: the first one. Where there is no
/// row there is no document, which is an error of its own kind and not a
/// fault.
pub fn first_document(rows: Vec<Vec<u8>>) -> (result: Result<Vec<u8>, Error>)
    ensures
        match result {
            Ok(payload) => rows@.len() > 0 && payload == rows@[0],
            Err(error) => {
                &&& rows@.len() == 0
                &&& error.kind == ErrorKind::NotFound
                &&& error.message@ == default_message(ErrorKind::NotFound)
            },
        },
        match result {
            Ok(payload) => Some(payload@) == first_payload(rows.deep_view()),
            Err(_) => first_payload(rows.deep_view()) is None,
        },
{
    let mut rows = rows;
    if rows.len() == 0 {
        Err(Error::failure(ErrorKind::NotFound, None))
    } else {
        Ok(rows.swap_remove(0))
    }
}

} // verus!
