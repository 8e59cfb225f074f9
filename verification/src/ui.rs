//! Errors of the native menu bar.

use vstd::prelude::*;

verus! {

/// `std::io::Error`, the error of an input or output operation.
#[verifier::external_type_specification]
#[verifier::external_body]
pub struct ExIoError(std::io::Error);

/// `std::io::Error::last_os_error`: the error that the operating system reported last, which
/// nothing here can foretell.
pub assume_specification[ std::io::Error::last_os_error ]() -> std::io::Error;

/// `std::io::Error`'s `Display`: the text depends on the error and on the platform.
#[verifier::external_body]
fn io_error_text(error: &std::io::Error) -> String {
    format!("{}", error)
}

enum Impl {
    /// Standard input/output error.
    Io(std::io::Error),
    /// A menu already exists.
    MenuExists,
    /// This isn't the window type we expected.
    UnexpectedWindowType,
}

/// The three things that can go wrong with the menu bar.
#[derive(Clone, Copy, Debug, PartialEq, Eq, Structural)]
pub enum ErrorKind {
    /// Standard input/output error.
    Io,
    /// A menu already exists.
    MenuExists,
    /// This isn't the window type we expected.
    UnexpectedWindowType,
}

/// Error that can occur during operation of `menubar`.
pub struct Error(Box<Impl>);

impl Error {
    /// Which of the three errors this is.
    pub closed spec fn spec_kind(&self) -> ErrorKind {
        match *self.0 {
            Impl::Io(_) => ErrorKind::Io,
            Impl::MenuExists => ErrorKind::MenuExists,
            Impl::UnexpectedWindowType => ErrorKind::UnexpectedWindowType,
        }
    }

    /// The input/output error inside, if this is one.
    pub closed spec fn spec_source(&self) -> Option<std::io::Error> {
        match *self.0 {
            Impl::Io(io) => Some(io),
            _ => None,
        }
    }

    /// What `message` says of an error that is no input/output error.
    pub open spec fn fixed_message(kind: ErrorKind) -> Seq<char> {
        match kind {
            ErrorKind::MenuExists => "a menu already exists for the given menu target"@,
            _ => "unexpected window type"@,
        }
    }

    /// The input/output error that the operating system reported last.
    pub fn last_io_error() -> (error: Self)
        ensures
            error.spec_kind() == ErrorKind::Io,
    {
        Error(Box::new(Impl::Io(std::io::Error::last_os_error())))
    }

    /// A menu already exists for the target.
    pub fn menu_exists() -> (error: Self)
        ensures
            error.spec_kind() == ErrorKind::MenuExists,
            error.spec_source() is None,
    {
        Error(Box::new(Impl::MenuExists))
    }

    /// The window is not of the type that the menu bar can be attached to.
    pub fn unexpected_window_type() -> (error: Self)
        ensures
            error.spec_kind() == ErrorKind::UnexpectedWindowType,
            error.spec_source() is None,
    {
        Error(Box::new(Impl::UnexpectedWindowType))
    }

    /// Which of the three errors this is.
    #[verifier::when_used_as_spec(spec_kind)]
    pub fn kind(&self) -> (kind: ErrorKind)
        ensures
            kind == self.spec_kind(),
    {
        match &*self.0 {
            Impl::Io(_) => ErrorKind::Io,
            Impl::MenuExists => ErrorKind::MenuExists,
            Impl::UnexpectedWindowType => ErrorKind::UnexpectedWindowType,
        }
    }

    /// The error in words, for the user.
    pub fn message(&self) -> (text: String)
        ensures
            self.spec_kind() != ErrorKind::Io ==> text@ == Self::fixed_message(self.spec_kind()),
    {
        match &*self.0 {
            Impl::Io(io) => io_error_text(io),
            Impl::MenuExists => "a menu already exists for the given menu target".to_owned(),
            Impl::UnexpectedWindowType => "unexpected window type".to_owned(),
        }
    }

    /// The lower-level cause: the input/output error, where this is one.
    pub fn source(&self) -> (cause: Option<&std::io::Error>)
        ensures
            cause is Some == (self.spec_kind() == ErrorKind::Io),
            cause matches Some(io) ==> self.spec_source() == Some(*io),
    {
        match &*self.0 {
            Impl::Io(io) => Some(io),
            _ => None,
        }
    }
}

} // verus!
