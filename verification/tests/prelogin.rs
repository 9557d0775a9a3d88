use base64::Engine;
use gpapi::classifier::parse_res_xml;
use gpapi::exchange::classify_exchange;
use gpapi::exchange::handle_prelogin_exchange;
use gpapi::exchange::prelogin_url;
use gpapi::exchange::HttpOutcome;
use gpapi::model::ParseFailure;
use gpapi::model::Prelogin;
use gpapi::model::PreloginError;

fn encode(text: &str) -> String {
    base64::engine::general_purpose::STANDARD.encode(text.as_bytes())
}

fn saml_body(default_browser: Option<&str>, request_plain: &str) -> String {
    let browser = match default_browser {
        Some(answer) => format!("<saml-default-browser>{}</saml-default-browser>", answer),
        None => String::new(),
    };
    format!(
        "<prelogin-response><status>SUCCESS</status><region>US</region>\
         <saml-auth-method>REDIRECT</saml-auth-method>\
         <saml-request>{}</saml-request>{}</prelogin-response>",
        encode(request_plain),
        browser
    )
}

#[test]
fn saml_response_with_default_browser() {
    let plain = "<samlp:AuthnRequest ID=\"x\"/>";
    let body = saml_body(Some("yes"), plain);
    match parse_res_xml(&body, false) {
        Ok(Prelogin::Saml(saml)) => {
            assert_eq!(saml.region(), "US");
            assert_eq!(saml.saml_request(), plain);
            assert!(saml.support_default_browser());
        }
        other => panic!("expected a SAML prelogin, got {:?}", other),
    }
}

#[test]
fn saml_default_browser_case_insensitive() {
    let body = saml_body(Some("YES"), "req");
    match parse_res_xml(&body, false) {
        Ok(Prelogin::Saml(saml)) => assert!(saml.support_default_browser()),
        other => panic!("expected a SAML prelogin, got {:?}", other),
    }
}

#[test]
fn saml_default_browser_absent_means_false() {
    let body = saml_body(None, "req");
    match parse_res_xml(&body, false) {
        Ok(Prelogin::Saml(saml)) => assert!(!saml.support_default_browser()),
        other => panic!("expected a SAML prelogin, got {:?}", other),
    }
}

#[test]
fn saml_default_browser_other_answer_means_false() {
    let body = saml_body(Some("no"), "req");
    match parse_res_xml(&body, false) {
        Ok(Prelogin::Saml(saml)) => assert!(!saml.support_default_browser()),
        other => panic!("expected a SAML prelogin, got {:?}", other),
    }
}

#[test]
fn saml_bad_encoding_is_parse_error() {
    let body = "<prelogin-response><status>SUCCESS</status>\
                <saml-auth-method>REDIRECT</saml-auth-method>\
                <saml-request>!!!</saml-request></prelogin-response>";
    match parse_res_xml(body, false) {
        Err(PreloginError::ParseError(ParseFailure::BadSamlEncoding)) => (),
        other => panic!("expected a decode failure, got {:?}", other),
    }
}

#[test]
fn standard_response_with_default_message() {
    let body = "<prelogin-response><status>Success</status>\
                <username-label>User</username-label>\
                <password-label>Pass</password-label></prelogin-response>";
    match parse_res_xml(body, false) {
        Ok(Prelogin::Standard(standard)) => {
            assert_eq!(standard.label_username(), "User");
            assert_eq!(standard.label_password(), "Pass");
            assert_eq!(standard.auth_message(), "Please enter the login credentials");
            assert_eq!(standard.region(), "Unknown");
        }
        other => panic!("expected a standard prelogin, got {:?}", other),
    }
}

#[test]
fn standard_response_with_message_and_region() {
    let body = "<prelogin-response><status>SUCCESS</status><region>EU</region>\
                <authentication-message>Corporate login</authentication-message>\
                <username-label>Email</username-label>\
                <password-label>PIN</password-label></prelogin-response>";
    match parse_res_xml(body, true) {
        Ok(Prelogin::Standard(standard)) => {
            assert_eq!(standard.auth_message(), "Corporate login");
            assert_eq!(standard.region(), "EU");
        }
        other => panic!("expected a standard prelogin, got {:?}", other),
    }
}

#[test]
fn both_pairs_present_is_classified_as_saml() {
    let plain = "the-request";
    let body = format!(
        "<prelogin-response><status>SUCCESS</status>\
         <saml-auth-method>POST</saml-auth-method><saml-request>{}</saml-request>\
         <username-label>User</username-label><password-label>Pass</password-label>\
         </prelogin-response>",
        encode(plain)
    );
    match parse_res_xml(&body, false) {
        Ok(Prelogin::Saml(saml)) => assert_eq!(saml.saml_request(), plain),
        other => panic!("expected the SAML branch to win, got {:?}", other),
    }
}

#[test]
fn failure_status_carries_server_message() {
    let body = "<prelogin-response><status>fail</status>\
                <msg>Invalid client</msg></prelogin-response>";
    match parse_res_xml(body, false) {
        Err(PreloginError::RemoteLogicalError(msg)) => assert_eq!(msg, "Invalid client"),
        other => panic!("expected a logical failure, got {:?}", other),
    }
}

#[test]
fn failure_status_without_message_is_unknown_error() {
    let body = "<prelogin-response><status>fail</status></prelogin-response>";
    match parse_res_xml(body, false) {
        Err(PreloginError::RemoteLogicalError(msg)) => assert_eq!(msg, "Unknown error"),
        other => panic!("expected a logical failure, got {:?}", other),
    }
}

#[test]
fn success_without_known_pairs_is_invalid_shape() {
    let body = "<prelogin-response><status>SUCCESS</status>\
                <region>US</region></prelogin-response>";
    match parse_res_xml(body, false) {
        Err(PreloginError::InvalidResponseShape) => (),
        other => panic!("expected an invalid shape, got {:?}", other),
    }
}

#[test]
fn malformed_document_is_parse_error_with_body() {
    let body = "this is no xml <";
    match parse_res_xml(body, false) {
        Err(PreloginError::ParseError(ParseFailure::MalformedDocument(carried))) => {
            assert_eq!(carried, body);
        }
        other => panic!("expected a malformed-document failure, got {:?}", other),
    }
}

#[test]
fn missing_status_is_parse_error() {
    let body = "<prelogin-response><region>US</region></prelogin-response>";
    match parse_res_xml(body, false) {
        Err(PreloginError::ParseError(ParseFailure::MissingStatus)) => (),
        other => panic!("expected a missing-status failure, got {:?}", other),
    }
}

#[test]
fn is_gateway_flag_is_carried_through() {
    let body = "<prelogin-response><status>SUCCESS</status>\
                <username-label>User</username-label>\
                <password-label>Pass</password-label></prelogin-response>";
    assert!(parse_res_xml(body, true).unwrap().is_gateway());
    assert!(!parse_res_xml(body, false).unwrap().is_gateway());
}

#[test]
fn prelogin_region_getter() {
    let body = "<prelogin-response><status>SUCCESS</status><region>JP</region>\
                <username-label>User</username-label>\
                <password-label>Pass</password-label></prelogin-response>";
    assert_eq!(parse_res_xml(body, false).unwrap().region(), "JP");
}

#[test]
fn not_found_is_endpoint_not_found() {
    let outcome = HttpOutcome::Response {
        status: 404,
        reason: "Not Found".to_string(),
        body: String::new(),
    };
    match classify_exchange(outcome) {
        Err(PreloginError::EndpointNotFound) => (),
        other => panic!("expected endpoint-not-found, got {:?}", other),
    }
}

#[test]
fn other_error_status_is_remote_rejected() {
    let outcome = HttpOutcome::Response {
        status: 500,
        reason: "Internal Server Error".to_string(),
        body: String::new(),
    };
    match classify_exchange(outcome) {
        Err(PreloginError::RemoteRejected(reason)) => assert_eq!(reason, "Internal Server Error"),
        other => panic!("expected a rejection, got {:?}", other),
    }
}

#[test]
fn network_failure_is_transport_error() {
    let outcome = HttpOutcome::NetworkFailure("connection refused".to_string());
    match classify_exchange(outcome) {
        Err(PreloginError::TransportError(cause)) => assert_eq!(cause, "connection refused"),
        other => panic!("expected a transport error, got {:?}", other),
    }
}

#[test]
fn success_status_hands_body_on() {
    let outcome = HttpOutcome::Response {
        status: 200,
        reason: "OK".to_string(),
        body: "<x/>".to_string(),
    };
    assert_eq!(classify_exchange(outcome).unwrap(), "<x/>");
}

#[test]
fn handle_exchange_classifies_body() {
    let body = "<prelogin-response><status>SUCCESS</status>\
                <username-label>User</username-label>\
                <password-label>Pass</password-label></prelogin-response>";
    let outcome = HttpOutcome::Response {
        status: 200,
        reason: "OK".to_string(),
        body: body.to_string(),
    };
    match handle_prelogin_exchange(outcome, false) {
        Ok(Prelogin::Standard(standard)) => assert_eq!(standard.label_username(), "User"),
        other => panic!("expected a standard prelogin, got {:?}", other),
    }
}

#[test]
fn handle_exchange_surfaces_http_failure() {
    let outcome = HttpOutcome::Response {
        status: 404,
        reason: "Not Found".to_string(),
        body: String::new(),
    };
    match handle_prelogin_exchange(outcome, false) {
        Err(PreloginError::EndpointNotFound) => (),
        other => panic!("expected endpoint-not-found, got {:?}", other),
    }
}

#[test]
fn url_for_gateway_and_portal() {
    assert_eq!(
        prelogin_url("https://vpn.example.com", true),
        "https://vpn.example.com/ssl-vpn/prelogin.esp"
    );
    assert_eq!(
        prelogin_url("https://vpn.example.com", false),
        "https://vpn.example.com/global-protect/prelogin.esp"
    );
}
