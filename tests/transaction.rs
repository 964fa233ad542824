use cowdb::{creation_result, lookup_result, opening_result, removal_result, Error, IoFailure};

#[test]
fn lookup_of_missing_file_is_none() {
    assert_eq!(lookup_result(Ok(vec![1])), Ok(Some(vec![1])));
    assert_eq!(lookup_result(Err(IoFailure::NotFound("gone".to_string()))), Ok(None));
    assert_eq!(
        lookup_result(Err(IoFailure::Other("denied".to_string()))),
        Err(Error::Io("denied".to_string()))
    );
}

#[test]
fn removing_missing_file_succeeds() {
    assert_eq!(removal_result(Ok(())), Ok(()));
    assert_eq!(removal_result(Err(IoFailure::NotFound("gone".to_string()))), Ok(()));
    assert_eq!(
        removal_result(Err(IoFailure::Other("busy".to_string()))),
        Err(Error::Io("busy".to_string()))
    );
}

#[test]
fn creating_existing_table_fails() {
    assert_eq!(creation_result(Ok(())), Ok(()));
    assert_eq!(creation_result(Err(IoFailure::AlreadyExists("exists".to_string()))), Err(Error::AlreadyExists));
    assert_eq!(
        creation_result(Err(IoFailure::Other("full".to_string()))),
        Err(Error::Io("full".to_string()))
    );
}

#[test]
fn creation_failures_other_than_existing_are_io() {
    assert_eq!(
        creation_result(Err(IoFailure::NotFound("no parent".to_string()))),
        Err(Error::Io("no parent".to_string()))
    );
}

#[test]
fn lookup_and_removal_pass_on_other_failures_as_io() {
    assert_eq!(
        lookup_result(Err(IoFailure::AlreadyExists("odd".to_string()))),
        Err(Error::Io("odd".to_string()))
    );
    assert_eq!(
        removal_result(Err(IoFailure::AlreadyExists("odd".to_string()))),
        Err(Error::Io("odd".to_string()))
    );
}

#[test]
fn opening_missing_table_fails() {
    assert_eq!(opening_result(true), Ok(()));
    assert_eq!(opening_result(false), Err(Error::NotFound));
}
