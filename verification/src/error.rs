//! The error taxonomy of the service.

use vstd::prelude::*;

verus! {

/// Which of a tile's three URLs a check speaks of.
#[derive(Clone, Copy, PartialEq, Eq, Structural, Debug)]
pub enum UrlSpecies {
    Advertiser,
    Click,
    Impression,
}

impl UrlSpecies {
    /// The label used in telemetry tags.
    pub open spec fn label_spec(self) -> Seq<char> {
        match self {
            UrlSpecies::Advertiser => "Advertiser"@,
            UrlSpecies::Click => "Click"@,
            UrlSpecies::Impression => "Impression"@,
        }
    }

    /// The label used in telemetry tags.
    pub fn label(&self) -> (r: String)
        ensures
            r@ == self.label_spec(),
    {
        match self {
            UrlSpecies::Advertiser => "Advertiser".to_owned(),
            UrlSpecies::Click => "Click".to_owned(),
            UrlSpecies::Impression => "Impression".to_owned(),
        }
    }
}

/// Request- and tile-level failures. Tile-level kinds carry the offending
/// value: the advertiser name, the URL text, or the host.
#[derive(Debug)]
pub enum HandlerErrorKind {
    /// No ruleset entry for the tile's advertiser name.
    UnexpectedAdvertiser(String),
    /// The URL parsed but has no host component.
    MissingHost(UrlSpecies, String),
    /// The URL's host is not in the effective allowlist.
    UnexpectedHost(UrlSpecies, String),
    /// The URL did not parse, or its query parameters break the rules.
    InvalidHost(UrlSpecies, String),
    /// The upstream answered with a body that did not parse.
    BadAdmResponse(String),
    /// The upstream timed out inside the cold-start window.
    AdmLoadError,
    /// Any other upstream transport failure or bad status.
    AdmServerError,
    /// The client's input was malformed.
    Validation(String),
    /// An unexpected local failure.
    Internal(String),
}

/// The mathematical shape of a `HandlerErrorKind`.
pub enum ErrorView {
    UnexpectedAdvertiser(Seq<char>),
    MissingHost(UrlSpecies, Seq<char>),
    UnexpectedHost(UrlSpecies, Seq<char>),
    InvalidHost(UrlSpecies, Seq<char>),
    BadAdmResponse(Seq<char>),
    AdmLoadError,
    AdmServerError,
    Validation(Seq<char>),
    Internal(Seq<char>),
}

impl View for HandlerErrorKind {
    type V = ErrorView;

    open spec fn view(&self) -> ErrorView {
        match self {
            HandlerErrorKind::UnexpectedAdvertiser(s) => ErrorView::UnexpectedAdvertiser(s@),
            HandlerErrorKind::MissingHost(sp, s) => ErrorView::MissingHost(*sp, s@),
            HandlerErrorKind::UnexpectedHost(sp, s) => ErrorView::UnexpectedHost(*sp, s@),
            HandlerErrorKind::InvalidHost(sp, s) => ErrorView::InvalidHost(*sp, s@),
            HandlerErrorKind::BadAdmResponse(s) => ErrorView::BadAdmResponse(s@),
            HandlerErrorKind::AdmLoadError => ErrorView::AdmLoadError,
            HandlerErrorKind::AdmServerError => ErrorView::AdmServerError,
            HandlerErrorKind::Validation(s) => ErrorView::Validation(s@),
            HandlerErrorKind::Internal(s) => ErrorView::Internal(s@),
        }
    }
}

} // verus!
