use sugarloaf::ui::{Error, ErrorKind};

#[test]
fn a_menu_that_exists_is_reported_in_words() {
    let error = Error::menu_exists();
    assert_eq!(error.kind(), ErrorKind::MenuExists);
    assert_eq!(error.message(), "a menu already exists for the given menu target");
    assert!(error.source().is_none());
}

#[test]
fn an_unexpected_window_type_is_reported_in_words() {
    let error = Error::unexpected_window_type();
    assert_eq!(error.kind(), ErrorKind::UnexpectedWindowType);
    assert_eq!(error.message(), "unexpected window type");
    assert!(error.source().is_none());
}

#[test]
fn the_last_io_error_has_a_source() {
    let error = Error::last_io_error();
    assert_eq!(error.kind(), ErrorKind::Io);
    let source = error.source().unwrap();
    assert_eq!(error.message(), format!("{}", source));
}
