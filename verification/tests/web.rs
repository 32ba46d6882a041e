use opensovd_cda::trace::failure_record;
use opensovd_cda::uri_rewrite::{rewrite_request_uri, rewritten_or_original, rewritten_text};
use opensovd_cda::webserver::{
    BaseUriPath, DoipGatewaySetupError, WebServerConfig, OPENAPI_JSON_ROUTE, SWAGGER_UI_ROUTE,
};

fn uri(text: &str) -> http::Uri {
    text.parse().expect("test input is a URI")
}

fn rewritten(text: &str) -> String {
    rewrite_request_uri(&uri(text)).uri.to_string()
}

#[test]
fn paths_are_lowercased() {
    assert_eq!(rewritten("/Vehicle/v15/Apps"), "/vehicle/v15/apps");
    assert_eq!(rewritten("/"), "/");
}

#[test]
fn escapes_in_path_and_query_are_decoded() {
    assert_eq!(
        rewritten("/vehicle/v15/components/flxc1000%2Fdata?include%2Dschema=TRUE"),
        "/vehicle/v15/components/flxc1000/data?include-schema=true"
    );
    assert_eq!(rewritten("/a%zz%4"), "/a%zz%4");
}

#[test]
fn scheme_and_authority_are_dropped_when_the_path_is_rewritten() {
    assert_eq!(rewritten("http://Localhost:8080/A?B=C"), "/a?b=c");
}

#[test]
fn a_result_that_is_no_uri_keeps_the_original() {
    // decodes to a text with a space
    assert_eq!(rewritten("/A%20B"), "/A%20B");
    let kept = rewrite_request_uri(&uri("/A%20B"));
    assert_eq!(kept.error.as_deref(), Some("invalid uri character"));
    // has a query, but no path
    assert_eq!(rewritten("http://host?Q=R"), "http://host/?Q=R");
    assert_eq!(rewrite_request_uri(&uri("/A")).error, None);
}

#[test]
fn a_uri_without_a_path_stays_as_it_is() {
    assert_eq!(uri("Example.com:80").path_and_query(), None);
    assert_eq!(rewritten("Example.com:80"), "Example.com:80");
}

#[test]
fn undecodable_bytes_fall_back_to_the_whole_uri() {
    assert_eq!(rewritten("/A%FF"), "/a%ff");
    assert_eq!(
        rewritten("http://Localhost/A%FF"),
        "http://localhost/a%ff"
    );
}

#[test]
fn rewritten_texts() {
    assert_eq!(rewritten_text(Some("/%41%c3%84?X"), "whole"), "/a\u{e4}?x");
    assert_eq!(rewritten_text(Some("%9F"), "WHOLE"), "whole");
    assert_eq!(rewritten_text(Some("%2541"), ""), "%41");
    assert_eq!(rewritten_text(None, "whole"), "");
}

#[test]
fn a_parsed_uri_replaces_the_original() {
    let original = uri("/A");
    let replaced = rewritten_or_original(Ok(uri("/b")), &original);
    assert_eq!(replaced.uri, uri("/b"));
    assert_eq!(replaced.error, None);
    let kept = rewritten_or_original(Err("no".to_owned()), &original);
    assert_eq!(kept.uri, original);
    assert_eq!(kept.error.as_deref(), Some("no"));
}

#[test]
fn no_upper_case_letter_remains() {
    for text in ["/A%C3%84B?C=%E2%84%AA", "/X", "http://Host/Q?R", "http://Host"] {
        let rewritten = rewrite_request_uri(&uri(text));
        assert_eq!(rewritten.error, None);
        let part = rewritten.uri.path_and_query().unwrap().as_str().to_owned();
        assert!(!part.chars().any(|c| c.is_ascii_uppercase()), "{part}");
    }
    // the Kelvin sign
    assert_eq!(rewritten_text(Some("/%E2%84%AA"), ""), "/k");
}

#[test]
fn addresses_of_the_server() {
    let config = WebServerConfig {
        host: "0.0.0.0".to_owned(),
        port: 20002,
    };
    assert_eq!(config.listen_address(), "0.0.0.0:20002");
    assert_eq!(config.server_url(), "http://0.0.0.0:20002");
    assert_eq!(config.clone().listen_address(), "0.0.0.0:20002");
    assert!(matches!(config.bound::<u8>(Ok(7)), Ok(7)));
    assert!(matches!(
        config.bound::<u8>(Err("in use".to_owned())),
        Err(DoipGatewaySetupError::ServerError(text))
            if text == "Failed to bind to 0.0.0.0:20002: in use"
    ));
}

#[test]
fn routes_are_joined_to_the_base_path() {
    let base = BaseUriPath::new("/vehicle/v15".to_owned());
    assert_eq!(base.join("/apps"), "/vehicle/v15/apps");
    assert_eq!(SWAGGER_UI_ROUTE, "/swagger-ui");
    assert_eq!(OPENAPI_JSON_ROUTE, "/openapi.json");
}

#[test]
fn bad_gateway_is_not_an_error_of_the_server() {
    let bad_gateway = failure_record(Some(502));
    assert_eq!(bad_gateway.status_code, Some(502));
    assert!(!bad_gateway.is_error);
    let internal = failure_record(Some(500));
    assert_eq!(internal.status_code, Some(500));
    assert!(internal.is_error);
    let lost = failure_record(None);
    assert_eq!(lost.status_code, None);
    assert!(lost.is_error);
}
