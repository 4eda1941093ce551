use pngsize::service::{
    favicon_response, missing_url_response, plan_request, render_outcome, resolve_chunk, route,
    FetchOutcome, RequestPlan, Route,
};

const MISSING_BODY: &str = "{\"error\":{\"message\":\"No URL parameter set, please use function_path/?url=http://domain/path/to/image.png\"}}";
const UNSUPPORTED_BODY: &str = "{\"error\":{\"message\":\"Currently only PNG format is supported\"}}";

fn png_chunk() -> Vec<u8> {
    let mut bytes = vec![0x89, 0x50, 0x4E, 0x47, 0x0D, 0x0A, 0x1A, 0x0A];
    bytes.extend_from_slice(&[0, 0, 0, 13, b'I', b'H', b'D', b'R']);
    bytes.extend_from_slice(&[0, 0, 1, 0]);
    bytes.extend_from_slice(&[0, 0, 0, 0xC8]);
    bytes.extend_from_slice(&[8, 6, 0, 0, 0]);
    bytes
}

#[test]
fn route_table_matches_method_and_path() {
    assert_eq!(route("GET", "/"), Route::Service);
    assert_eq!(route("GET", "/favicon.ico"), Route::Favicon);
    assert_eq!(route("POST", "/"), Route::NotFound);
    assert_eq!(route("GET", "/other"), Route::NotFound);
    assert_eq!(route("PUT", "/favicon.ico"), Route::NotFound);
    assert_eq!(route("get", "/"), Route::NotFound);
}

#[test]
fn png_url_yields_dimensions_response() {
    let plan = plan_request("GET", "/", b"url=http://example.com/pic.png");
    let url = match plan {
        RequestPlan::Fetch(url) => url,
        RequestPlan::Respond(_) => panic!("expected a fetch"),
    };
    assert_eq!(url, b"http://example.com/pic.png".to_vec());
    let chunk = png_chunk();
    let outcome = resolve_chunk(Some(&chunk));
    let response = render_outcome(&outcome);
    assert_eq!(response.status, 200);
    assert_eq!(response.body, "{\"width\":256,\"height\":200}");
}

#[test]
fn jpeg_url_yields_unsupported_format() {
    let plan = plan_request("GET", "/", b"url=http://example.com/pic.jpg");
    assert!(matches!(plan, RequestPlan::Fetch(_)));
    let mut chunk = vec![0xFF, 0xD8, 0xFF];
    chunk.extend_from_slice(&[0; 40]);
    let outcome = resolve_chunk(Some(&chunk));
    assert_eq!(outcome, FetchOutcome::UnsupportedFormat);
    let response = render_outcome(&outcome);
    assert_eq!(response.status, 415);
    assert_eq!(response.body, UNSUPPORTED_BODY);
}

#[test]
fn request_without_query_yields_400() {
    let plan = plan_request("GET", "/", b"");
    match plan {
        RequestPlan::Respond(resp) => {
            assert_eq!(resp.status, 400);
            assert_eq!(resp.body, MISSING_BODY);
        }
        RequestPlan::Fetch(_) => panic!("expected an immediate response"),
    }
}

#[test]
fn empty_url_value_yields_400() {
    let plan = plan_request("GET", "/", b"url=");
    match plan {
        RequestPlan::Respond(resp) => {
            assert_eq!(resp.status, 400);
            assert_eq!(resp.body, MISSING_BODY);
        }
        RequestPlan::Fetch(_) => panic!("expected an immediate response"),
    }
}

#[test]
fn favicon_probe_is_answered_empty() {
    let plan = plan_request("GET", "/favicon.ico", b"");
    match plan {
        RequestPlan::Respond(resp) => {
            assert_eq!(resp.status, 204);
            assert_eq!(resp.body, "");
        }
        RequestPlan::Fetch(_) => panic!("expected an immediate response"),
    }
    let direct = favicon_response();
    assert_eq!(direct.status, 204);
    assert_eq!(direct.body, "");
}

#[test]
fn unknown_path_yields_404_with_empty_body() {
    let plan = plan_request("GET", "/images", b"url=x");
    match plan {
        RequestPlan::Respond(resp) => {
            assert_eq!(resp.status, 404);
            assert_eq!(resp.body, "");
        }
        RequestPlan::Fetch(_) => panic!("expected an immediate response"),
    }
}

#[test]
fn transport_failure_is_not_conflated_with_unsupported_format() {
    let response = render_outcome(&FetchOutcome::TransportFailure);
    assert_eq!(response.status, 502);
    assert_ne!(response.status, 415);
    assert_ne!(response.body, UNSUPPORTED_BODY);
}

#[test]
fn absent_first_chunk_is_unsupported() {
    assert_eq!(resolve_chunk(None), FetchOutcome::UnsupportedFormat);
}

#[test]
fn short_first_chunk_is_unsupported_not_a_crash() {
    let chunk = png_chunk();
    assert_eq!(resolve_chunk(Some(&chunk[..16])), FetchOutcome::UnsupportedFormat);
}

#[test]
fn missing_parameter_message_names_the_expected_format() {
    let resp = missing_url_response();
    assert_eq!(resp.status, 400);
    assert!(resp.body.contains("?url="));
}
