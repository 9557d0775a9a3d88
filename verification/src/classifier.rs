//! The response classifier: given the raw response body and the gateway flag,
//! decide which authentication mode the endpoint requires, or fail. A pure
//! decision tree, evaluated strictly in order: well-formedness, status,
//! SAML field pair, standard field pair.

use crate::encoding::decode_text;
use crate::encoding::decode_to_string;
use crate::model::ErrorModel;
use crate::model::ParseFailure;
use crate::model::ParseFailureModel;
use crate::model::Prelogin;
use crate::model::PreloginError;
use crate::model::PreloginModel;
use crate::model::SamlModel;
use crate::model::SamlPrelogin;
use crate::model::StandardModel;
use crate::model::StandardPrelogin;
use crate::strutil::eq_ignore_case;
use crate::strutil::str_eq_ignore_case;
use crate::xml::doc_parses;
use crate::xml::get_child_text;
use crate::xml::xml_child_text;
use crate::xml::xml_well_formed;
use vstd::prelude::*;
use vstd::string::StringExecFns;

verus! {

/// The region a response names, with its soft default.
pub open spec fn response_region(body: Seq<char>) -> Seq<char> {
    match xml_child_text(body, "region"@) {
        Some(region) => region,
        None => "Unknown"@,
    }
}

/// Whether a response permits the system's default browser for the SSO flow:
/// the field must be present and case-insensitively "yes"; anything else,
/// absence included, means no.
pub open spec fn response_default_browser(body: Seq<char>) -> bool {
    match xml_child_text(body, "saml-default-browser"@) {
        Some(answer) => eq_ignore_case(answer, "yes"@),
        None => false,
    }
}

/// The message shown to the user for a standard login, with its fixed
/// default prompt.
pub open spec fn response_auth_message(body: Seq<char>) -> Seq<char> {
    match xml_child_text(body, "authentication-message"@) {
        Some(msg) => msg,
        None => "Please enter the login credentials"@,
    }
}

/// The message of a document-level failure, with its default.
pub open spec fn response_failure_message(body: Seq<char>) -> Seq<char> {
    match xml_child_text(body, "msg"@) {
        Some(msg) => msg,
        None => "Unknown error"@,
    }
}

/// What the classifier produces for a response body: the decision tree of the
/// negotiation protocol, first match wins.
pub open spec fn classify(body: Seq<char>, is_gateway: bool) -> Result<PreloginModel, ErrorModel> {
    if !xml_well_formed(body) {
        Err(ErrorModel::ParseError(ParseFailureModel::MalformedDocument(body)))
    } else {
        match xml_child_text(body, "status"@) {
            None => Err(ErrorModel::ParseError(ParseFailureModel::MissingStatus)),
            Some(status) => if !eq_ignore_case(status, "SUCCESS"@) {
                Err(ErrorModel::RemoteLogicalError(response_failure_message(body)))
            } else {
                match (xml_child_text(body, "saml-auth-method"@), xml_child_text(
                    body,
                    "saml-request"@,
                )) {
                    (Some(_), Some(encoded)) => match decode_text(encoded) {
                        None => Err(ErrorModel::ParseError(ParseFailureModel::BadSamlEncoding)),
                        Some(request) => Ok(
                            PreloginModel::Saml(
                                SamlModel {
                                    region: response_region(body),
                                    is_gateway,
                                    saml_request: request,
                                    support_default_browser: response_default_browser(body),
                                },
                            ),
                        ),
                    },
                    _ => match (xml_child_text(body, "username-label"@), xml_child_text(
                        body,
                        "password-label"@,
                    )) {
                        (Some(label_username), Some(label_password)) => Ok(
                            PreloginModel::Standard(
                                StandardModel {
                                    region: response_region(body),
                                    is_gateway,
                                    auth_message: response_auth_message(body),
                                    label_username,
                                    label_password,
                                },
                            ),
                        ),
                        _ => Err(ErrorModel::InvalidResponseShape),
                    },
                }
            },
        }
    }
}

/// Classifies a response body. Returns exactly what [`classify`] says for the
/// body's text and the flag.
pub fn parse_res_xml(res_xml: &str, is_gateway: bool) -> (r: Result<Prelogin, PreloginError>)
    ensures
        match r {
            Ok(p) => classify(res_xml@, is_gateway) == Ok::<PreloginModel, ErrorModel>(p@),
            Err(e) => classify(res_xml@, is_gateway) == Err::<PreloginModel, ErrorModel>(e@),
        },
{
    if !doc_parses(res_xml) {
        return Err(
            PreloginError::ParseError(ParseFailure::MalformedDocument(String::from_str(res_xml))),
        );
    }
    let status = match get_child_text(res_xml, "status") {
        Some(status) => status,
        None => {
            return Err(PreloginError::ParseError(ParseFailure::MissingStatus));
        },
    };
    if !str_eq_ignore_case(status.as_str(), "SUCCESS") {
        let msg = match get_child_text(res_xml, "msg") {
            Some(msg) => msg,
            None => String::from_str("Unknown error"),
        };
        return Err(PreloginError::RemoteLogicalError(msg));
    }
    let region = match get_child_text(res_xml, "region") {
        Some(region) => region,
        None => String::from_str("Unknown"),
    };
    let saml_method = get_child_text(res_xml, "saml-auth-method");
    let saml_request = get_child_text(res_xml, "saml-request");
    if saml_method.is_some() && saml_request.is_some() {
        let encoded = saml_request.unwrap();
        let request = match decode_to_string(encoded.as_str()) {
            Some(request) => request,
            None => {
                return Err(PreloginError::ParseError(ParseFailure::BadSamlEncoding));
            },
        };
        let support_default_browser = match get_child_text(res_xml, "saml-default-browser") {
            Some(answer) => str_eq_ignore_case(answer.as_str(), "yes"),
            None => false,
        };
        return Ok(
            Prelogin::Saml(
                SamlPrelogin { region, is_gateway, saml_request: request, support_default_browser },
            ),
        );
    }
    let label_username = get_child_text(res_xml, "username-label");
    let label_password = get_child_text(res_xml, "password-label");
    if label_username.is_some() && label_password.is_some() {
        let auth_message = match get_child_text(res_xml, "authentication-message") {
            Some(msg) => msg,
            None => String::from_str("Please enter the login credentials"),
        };
        Ok(
            Prelogin::Standard(
                StandardPrelogin {
                    region,
                    is_gateway,
                    auth_message,
                    label_username: label_username.unwrap(),
                    label_password: label_password.unwrap(),
                },
            ),
        )
    } else {
        Err(PreloginError::InvalidResponseShape)
    }
}

/// A well-formed success response presenting both SAML fields, with a
/// decodable request, is classified as SAML — whether or not the standard
/// field pair is also present, since the SAML test comes first. The region
/// takes its soft default, the request is the decoded plaintext, and the
/// default-browser support holds exactly when the field is present and
/// case-insensitively "yes" — so it is false when the field is absent.
pub proof fn lemma_saml_classification(
    body: Seq<char>,
    is_gateway: bool,
    status: Seq<char>,
    encoded: Seq<char>,
    request: Seq<char>,
)
    requires
        xml_well_formed(body),
        xml_child_text(body, "status"@) == Some(status),
        eq_ignore_case(status, "SUCCESS"@),
        xml_child_text(body, "saml-auth-method"@) is Some,
        xml_child_text(body, "saml-request"@) == Some(encoded),
        decode_text(encoded) == Some(request),
    ensures
        classify(body, is_gateway) == Ok::<PreloginModel, ErrorModel>(
            PreloginModel::Saml(
                SamlModel {
                    region: response_region(body),
                    is_gateway,
                    saml_request: request,
                    support_default_browser: response_default_browser(body),
                },
            ),
        ),
        xml_child_text(body, "saml-default-browser"@) is None ==> !response_default_browser(body),
{
}

/// A well-formed success response without the full SAML field pair but with
/// both labels is classified as standard, the labels carried through and the
/// authentication message defaulting to the fixed prompt when absent.
pub proof fn lemma_standard_classification(
    body: Seq<char>,
    is_gateway: bool,
    status: Seq<char>,
    label_username: Seq<char>,
    label_password: Seq<char>,
)
    requires
        xml_well_formed(body),
        xml_child_text(body, "status"@) == Some(status),
        eq_ignore_case(status, "SUCCESS"@),
        xml_child_text(body, "saml-auth-method"@) is None || xml_child_text(
            body,
            "saml-request"@,
        ) is None,
        xml_child_text(body, "username-label"@) == Some(label_username),
        xml_child_text(body, "password-label"@) == Some(label_password),
    ensures
        classify(body, is_gateway) == Ok::<PreloginModel, ErrorModel>(
            PreloginModel::Standard(
                StandardModel {
                    region: response_region(body),
                    is_gateway,
                    auth_message: response_auth_message(body),
                    label_username,
                    label_password,
                },
            ),
        ),
        xml_child_text(body, "authentication-message"@) is None ==> response_auth_message(body)
            == "Please enter the login credentials"@,
{
}

/// A well-formed response whose status is not success fails with the
/// server-supplied message, or "Unknown error" where the document carries
/// none — whatever else the document holds.
pub proof fn lemma_failure_status(body: Seq<char>, is_gateway: bool, status: Seq<char>)
    requires
        xml_well_formed(body),
        xml_child_text(body, "status"@) == Some(status),
        !eq_ignore_case(status, "SUCCESS"@),
    ensures
        classify(body, is_gateway) == Err::<PreloginModel, ErrorModel>(
            ErrorModel::RemoteLogicalError(response_failure_message(body)),
        ),
        xml_child_text(body, "msg"@) is None ==> response_failure_message(body)
            == "Unknown error"@,
{
}

/// A well-formed success response presenting neither the SAML pair nor the
/// standard pair is an invalid response shape.
pub proof fn lemma_invalid_shape(body: Seq<char>, is_gateway: bool, status: Seq<char>)
    requires
        xml_well_formed(body),
        xml_child_text(body, "status"@) == Some(status),
        eq_ignore_case(status, "SUCCESS"@),
        xml_child_text(body, "saml-auth-method"@) is None || xml_child_text(
            body,
            "saml-request"@,
        ) is None,
        xml_child_text(body, "username-label"@) is None || xml_child_text(
            body,
            "password-label"@,
        ) is None,
    ensures
        classify(body, is_gateway) == Err::<PreloginModel, ErrorModel>(
            ErrorModel::InvalidResponseShape,
        ),
{
}

} // verus!
