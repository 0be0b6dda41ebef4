use document_store::documents::{database_file_name, first_document};
use document_store::error::{for_shell, Error, ErrorKind};

#[test]
fn database_file_is_named_after_the_application() {
    assert_eq!(database_file_name("notes"), "notes.db");
    assert_eq!(database_file_name(""), ".db");
    assert_eq!(database_file_name("my.app"), "my.app.db");
}

#[test]
fn fetch_returns_the_first_of_several_documents() {
    let rows = vec![vec![1u8, 2, 3], vec![4u8], vec![]];
    assert_eq!(first_document(rows).expect("a document"), vec![1u8, 2, 3]);
}

#[test]
fn fetch_returns_the_only_document() {
    assert_eq!(first_document(vec![vec![9u8; 4]]).expect("a document"), vec![9u8, 9, 9, 9]);
}

#[test]
fn fetch_returns_an_empty_document_as_it_is() {
    assert_eq!(first_document(vec![vec![], vec![1u8]]).expect("a document"), Vec::<u8>::new());
}

#[test]
fn fetch_without_rows_is_not_found() {
    let error = first_document(Vec::new()).expect_err("no document");
    assert_eq!(error.kind, ErrorKind::NotFound);
    assert_eq!(error.message, "No document has been stored");
}

#[test]
fn error_keeps_its_kind_and_message() {
    let error = Error::new(ErrorKind::StoreIo, String::from("disk full"));
    assert_eq!(error.kind, ErrorKind::StoreIo);
    assert_eq!(error.message, "disk full");
    assert_eq!(error.into_message(), "disk full");
}

#[test]
fn failure_with_a_cause_shows_the_cause() {
    let error = Error::failure(ErrorKind::SourceIo, Some(String::from("permission denied")));
    assert_eq!(error, Error { kind: ErrorKind::SourceIo, message: String::from("permission denied") });
}

#[test]
fn failure_without_a_cause_shows_the_wording_of_its_kind() {
    let wording = [
        (ErrorKind::PathResolution, "Could not find local data directory!"),
        (ErrorKind::Open, "Could not open or create the database"),
        (ErrorKind::Migration, "Could not bring the database schema up to date"),
        (ErrorKind::SourceIo, "Could not read the source file"),
        (ErrorKind::StoreIo, "Could not write the document to the database"),
        (ErrorKind::NotFound, "No document has been stored"),
        (ErrorKind::Protocol, "The operation was driven out of order"),
    ];
    for (kind, message) in wording {
        let error = Error::failure(kind, None);
        assert_eq!(error.kind, kind);
        assert_eq!(error.message, message);
    }
}

#[test]
fn open_failure_names_the_database_file() {
    let error = Error::open_failed("/home/me/.local/share/notes/notes.db");
    assert_eq!(error.kind, ErrorKind::Open);
    assert_eq!(
        error.message,
        "Could not open or create the database at /home/me/.local/share/notes/notes.db"
    );
}

#[test]
fn shell_receives_the_value_or_the_message() {
    assert_eq!(for_shell(Ok::<u8, Error>(7)), Ok(7));
    let failed: Result<u8, Error> = Err(Error::failure(ErrorKind::Migration, None));
    assert_eq!(for_shell(failed), Err(String::from("Could not bring the database schema up to date")));
    let failed: Result<(), Error> = Err(Error::new(ErrorKind::StoreIo, String::from("no such table")));
    assert_eq!(for_shell(failed), Err(String::from("no such table")));
}
