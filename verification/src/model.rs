//! The data model: the two prelogin variants the classifier can produce, the
//! failure taxonomy, and their mathematical views.

use vstd::prelude::*;

verus! {

/// Mathematical view of [`SamlPrelogin`].
pub ghost struct SamlModel {
    pub region: Seq<char>,
    pub is_gateway: bool,
    pub saml_request: Seq<char>,
    pub support_default_browser: bool,
}

/// Mathematical view of [`StandardPrelogin`].
pub ghost struct StandardModel {
    pub region: Seq<char>,
    pub is_gateway: bool,
    pub auth_message: Seq<char>,
    pub label_username: Seq<char>,
    pub label_password: Seq<char>,
}

/// Mathematical view of [`Prelogin`].
pub ghost enum PreloginModel {
    Saml(SamlModel),
    Standard(StandardModel),
}

impl PreloginModel {
    pub open spec fn region(self) -> Seq<char> {
        match self {
            PreloginModel::Saml(saml) => saml.region,
            PreloginModel::Standard(standard) => standard.region,
        }
    }

    pub open spec fn is_gateway(self) -> bool {
        match self {
            PreloginModel::Saml(saml) => saml.is_gateway,
            PreloginModel::Standard(standard) => standard.is_gateway,
        }
    }
}

/// Mathematical view of [`ParseFailure`].
pub ghost enum ParseFailureModel {
    MalformedDocument(Seq<char>),
    MissingStatus,
    BadSamlEncoding,
}

/// Mathematical view of [`PreloginError`].
pub ghost enum ErrorModel {
    TransportError(Seq<char>),
    EndpointNotFound,
    RemoteRejected(Seq<char>),
    RemoteLogicalError(Seq<char>),
    ParseError(ParseFailureModel),
    InvalidResponseShape,
}

/// The browser-delegated single-sign-on variant: the endpoint wants the
/// caller to forward `saml_request` to a browser flow.
#[derive(Debug, Clone)]
pub struct SamlPrelogin {
    pub region: String,
    pub is_gateway: bool,
    pub saml_request: String,
    pub support_default_browser: bool,
}

impl View for SamlPrelogin {
    type V = SamlModel;

    open spec fn view(&self) -> SamlModel {
        SamlModel {
            region: self.region@,
            is_gateway: self.is_gateway,
            saml_request: self.saml_request@,
            support_default_browser: self.support_default_browser,
        }
    }
}

impl SamlPrelogin {
    pub fn region(&self) -> (r: &str)
        ensures
            r@ == self@.region,
    {
        self.region.as_str()
    }

    pub fn saml_request(&self) -> (r: &str)
        ensures
            r@ == self@.saml_request,
    {
        self.saml_request.as_str()
    }

    pub fn support_default_browser(&self) -> (r: bool)
        ensures
            r == self@.support_default_browser,
    {
        self.support_default_browser
    }
}

/// The direct username/password variant, with the labels and the message the
/// user interface shows.
#[derive(Debug, Clone)]
pub struct StandardPrelogin {
    pub region: String,
    pub is_gateway: bool,
    pub auth_message: String,
    pub label_username: String,
    pub label_password: String,
}

impl View for StandardPrelogin {
    type V = StandardModel;

    open spec fn view(&self) -> StandardModel {
        StandardModel {
            region: self.region@,
            is_gateway: self.is_gateway,
            auth_message: self.auth_message@,
            label_username: self.label_username@,
            label_password: self.label_password@,
        }
    }
}

impl StandardPrelogin {
    pub fn region(&self) -> (r: &str)
        ensures
            r@ == self@.region,
    {
        self.region.as_str()
    }

    pub fn auth_message(&self) -> (r: &str)
        ensures
            r@ == self@.auth_message,
    {
        self.auth_message.as_str()
    }

    pub fn label_username(&self) -> (r: &str)
        ensures
            r@ == self@.label_username,
    {
        self.label_username.as_str()
    }

    pub fn label_password(&self) -> (r: &str)
        ensures
            r@ == self@.label_password,
    {
        self.label_password.as_str()
    }
}

/// What a successful prelogin negotiation produced: exactly one of the two
/// authentication modes.
#[derive(Debug, Clone)]
pub enum Prelogin {
    Saml(SamlPrelogin),
    Standard(StandardPrelogin),
}

impl View for Prelogin {
    type V = PreloginModel;

    open spec fn view(&self) -> PreloginModel {
        match self {
            Prelogin::Saml(saml) => PreloginModel::Saml(saml@),
            Prelogin::Standard(standard) => PreloginModel::Standard(standard@),
        }
    }
}

impl Prelogin {
    pub fn region(&self) -> (r: &str)
        ensures
            r@ == self@.region(),
    {
        match self {
            Prelogin::Saml(saml) => saml.region(),
            Prelogin::Standard(standard) => standard.region(),
        }
    }

    pub fn is_gateway(&self) -> (r: bool)
        ensures
            r == self@.is_gateway(),
    {
        match self {
            Prelogin::Saml(saml) => saml.is_gateway,
            Prelogin::Standard(standard) => standard.is_gateway,
        }
    }
}

/// Why a response document could not be understood.
#[derive(Debug, Clone)]
pub enum ParseFailure {
    /// The body is not a well-formed document; it is carried for diagnostics.
    MalformedDocument(String),
    /// The document lacks the mandatory `status` element.
    MissingStatus,
    /// The SAML request field is not valid transport-encoded text.
    BadSamlEncoding,
}

impl View for ParseFailure {
    type V = ParseFailureModel;

    open spec fn view(&self) -> ParseFailureModel {
        match self {
            ParseFailure::MalformedDocument(body) => ParseFailureModel::MalformedDocument(body@),
            ParseFailure::MissingStatus => ParseFailureModel::MissingStatus,
            ParseFailure::BadSamlEncoding => ParseFailureModel::BadSamlEncoding,
        }
    }
}

/// The failure taxonomy of a prelogin call.
#[derive(Debug, Clone)]
pub enum PreloginError {
    /// The request never completed: connection, name resolution, TLS or
    /// timeout trouble, with the underlying cause.
    TransportError(String),
    /// The endpoint answered "not found": the server is not a portal or
    /// gateway of this kind at all.
    EndpointNotFound,
    /// The endpoint answered with another error status; carries a
    /// human-readable reason.
    RemoteRejected(String),
    /// The endpoint answered, but the document reports a status other than
    /// success; carries the server-supplied message.
    RemoteLogicalError(String),
    /// The response document could not be understood.
    ParseError(ParseFailure),
    /// A well-formed success document matching neither known auth-mode
    /// pattern.
    InvalidResponseShape,
}

impl View for PreloginError {
    type V = ErrorModel;

    open spec fn view(&self) -> ErrorModel {
        match self {
            PreloginError::TransportError(cause) => ErrorModel::TransportError(cause@),
            PreloginError::EndpointNotFound => ErrorModel::EndpointNotFound,
            PreloginError::RemoteRejected(reason) => ErrorModel::RemoteRejected(reason@),
            PreloginError::RemoteLogicalError(msg) => ErrorModel::RemoteLogicalError(msg@),
            PreloginError::ParseError(failure) => ErrorModel::ParseError(failure@),
            PreloginError::InvalidResponseShape => ErrorModel::InvalidResponseShape,
        }
    }
}

} // verus!
