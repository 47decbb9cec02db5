//! Errors in resolving the settings.
use vstd::prelude::*;

verus! {

/// Why the settings could not be resolved.
#[allow(non_camel_case_types)]
#[derive(Debug)]
pub enum Error {
    /// A setting holds a value that cannot be used; the payload names it.
    Config(String),
    GetSN,
    NoSettingFile,
    /// The settings file could not be read; the payload is the reader's
    /// message.
    ConfigError(String),
    home_path_not_set,
    conductor_url_not_set,
    invalid_conductro_url,
    https_server_privkey_not_found,
    https_server_certificate_not_found,
    NoneError,
}

/// An error, with its text payload taken by view.
pub enum ErrorView {
    Config(Seq<char>),
    GetSN,
    NoSettingFile,
    ConfigError(Seq<char>),
    HomePathNotSet,
    ConductorUrlNotSet,
    InvalidConductorUrl,
    HttpsServerPrivkeyNotFound,
    HttpsServerCertificateNotFound,
    NoneError,
}

impl View for Error {
    type V = ErrorView;

    open spec fn view(&self) -> ErrorView {
        match self {
            Error::Config(s) => ErrorView::Config(s@),
            Error::GetSN => ErrorView::GetSN,
            Error::NoSettingFile => ErrorView::NoSettingFile,
            Error::ConfigError(s) => ErrorView::ConfigError(s@),
            Error::home_path_not_set => ErrorView::HomePathNotSet,
            Error::conductor_url_not_set => ErrorView::ConductorUrlNotSet,
            Error::invalid_conductro_url => ErrorView::InvalidConductorUrl,
            Error::https_server_privkey_not_found => ErrorView::HttpsServerPrivkeyNotFound,
            Error::https_server_certificate_not_found => ErrorView::HttpsServerCertificateNotFound,
            Error::NoneError => ErrorView::NoneError,
        }
    }
}

} // verus!
