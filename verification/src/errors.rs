//! Errors of the server's request handling.

use vstd::prelude::*;

verus! {

/// What can go wrong while serving a request. The storage, hashing,
/// serialisation and I/O failures carry the text of the underlying error.
#[derive(Debug, PartialEq)]
pub enum AppError {
    Validation(String),
    UserExists,
    BadCredentials,
    Db(String),
    Crypto(String),
    Serde(String),
    Io(String),
}

impl Clone for AppError {
    fn clone(&self) -> (r: Self)
        ensures
            r == *self,
    {
        match self {
            AppError::Validation(m) => AppError::Validation(m.clone()),
            AppError::UserExists => AppError::UserExists,
            AppError::BadCredentials => AppError::BadCredentials,
            AppError::Db(m) => AppError::Db(m.clone()),
            AppError::Crypto(m) => AppError::Crypto(m.clone()),
            AppError::Serde(m) => AppError::Serde(m.clone()),
            AppError::Io(m) => AppError::Io(m.clone()),
        }
    }
}

/// `AppError` with its text seen as characters.
pub enum AppErrorV {
    Validation(Seq<char>),
    UserExists,
    BadCredentials,
    Db(Seq<char>),
    Crypto(Seq<char>),
    Serde(Seq<char>),
    Io(Seq<char>),
}

impl View for AppError {
    type V = AppErrorV;

    open spec fn view(&self) -> AppErrorV {
        match self {
            AppError::Validation(m) => AppErrorV::Validation(m@),
            AppError::UserExists => AppErrorV::UserExists,
            AppError::BadCredentials => AppErrorV::BadCredentials,
            AppError::Db(m) => AppErrorV::Db(m@),
            AppError::Crypto(m) => AppErrorV::Crypto(m@),
            AppError::Serde(m) => AppErrorV::Serde(m@),
            AppError::Io(m) => AppErrorV::Io(m@),
        }
    }
}

/// The human-readable description of an error.
pub open spec fn error_text(e: AppErrorV) -> Seq<char> {
    match e {
        AppErrorV::Validation(m) => "dati non validi: "@ + m,
        AppErrorV::UserExists => "utente già esistente"@,
        AppErrorV::BadCredentials => "credenziali errate"@,
        AppErrorV::Db(m) => "db error: "@ + m,
        AppErrorV::Crypto(m) => "crypto error: "@ + m,
        AppErrorV::Serde(m) => "serde error: "@ + m,
        AppErrorV::Io(m) => "io error: "@ + m,
    }
}

impl AppError {
    /// The description of the error, as its `Display` would print it.
    pub fn to_text(&self) -> (r: String)
        ensures
            r@ == error_text(self@),
    {
        match self {
            AppError::Validation(m) => String::from_str("dati non validi: ").concat(m.as_str()),
            AppError::UserExists => String::from_str("utente già esistente"),
            AppError::BadCredentials => String::from_str("credenziali errate"),
            AppError::Db(m) => String::from_str("db error: ").concat(m.as_str()),
            AppError::Crypto(m) => String::from_str("crypto error: ").concat(m.as_str()),
            AppError::Serde(m) => String::from_str("serde error: ").concat(m.as_str()),
            AppError::Io(m) => String::from_str("io error: ").concat(m.as_str()),
        }
    }
}

} // verus!
