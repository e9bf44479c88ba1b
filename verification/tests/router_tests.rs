use model_server::router::{
    inference_plan, method_not_allowed_plan, preflight_plan, resize_error_plan, route_request,
    video_plan, RequestMethod, ResponseBody, Route,
};

const ORIGIN: (&str, &str) = ("Access-Control-Allow-Origin", "https://madebycommon.com");

#[test]
fn options_is_preflight_whatever_the_path() {
    assert_eq!(route_request(RequestMethod::Options, "/inference"), Route::Preflight);
    assert_eq!(route_request(RequestMethod::Options, "/resize-video"), Route::Preflight);
    assert_eq!(route_request(RequestMethod::Options, "/"), Route::Preflight);
}

#[test]
fn post_routes_by_path() {
    assert_eq!(route_request(RequestMethod::Post, "/inference"), Route::Inference);
    assert_eq!(route_request(RequestMethod::Post, "/resize-video"), Route::ResizeVideo);
    // The bare-path legacy endpoint: any other POST is an inference request.
    assert_eq!(route_request(RequestMethod::Post, "/"), Route::Inference);
    assert_eq!(route_request(RequestMethod::Post, "/anything"), Route::Inference);
}

#[test]
fn other_methods_are_rejected() {
    assert_eq!(route_request(RequestMethod::Other, "/inference"), Route::NotAllowed);
    assert_eq!(route_request(RequestMethod::Other, "/"), Route::NotAllowed);
}

#[test]
fn preflight_answer_is_an_empty_204_with_cors_headers() {
    let p = preflight_plan();
    assert_eq!(p.status, 204);
    assert!(matches!(p.body, ResponseBody::Empty));
    assert_eq!(
        p.headers,
        vec![
            ORIGIN,
            ("Access-Control-Allow-Methods", "POST, OPTIONS"),
            (
                "Access-Control-Allow-Headers",
                "Content-Type, X-Inference-Type, X-Max-Width, X-Max-Height"
            ),
        ]
    );
}

#[test]
fn rejection_is_a_405_with_the_allow_origin_header() {
    let p = method_not_allowed_plan();
    assert_eq!(p.status, 405);
    assert_eq!(p.headers, vec![ORIGIN]);
    match p.body {
        ResponseBody::Text(t) => assert_eq!(t, "Method not allowed"),
        _ => panic!("expected a text body"),
    }
}

#[test]
fn inference_answer_is_json_with_the_allow_origin_header() {
    let p = inference_plan("[1,2,3]".to_string());
    assert_eq!(p.status, 200);
    assert_eq!(p.headers, vec![ORIGIN, ("Content-Type", "application/json")]);
    match p.body {
        ResponseBody::Text(t) => assert_eq!(t, "[1,2,3]"),
        _ => panic!("expected a text body"),
    }
}

#[test]
fn video_answer_carries_the_bytes_back() {
    let p = video_plan(vec![1, 2, 3]);
    assert_eq!(p.status, 200);
    assert_eq!(p.headers, vec![ORIGIN, ("Content-Type", "video/mp4")]);
    match p.body {
        ResponseBody::Bytes(b) => assert_eq!(b, vec![1, 2, 3]),
        _ => panic!("expected a byte body"),
    }
}

#[test]
fn resize_failure_is_a_500_with_the_error_document() {
    let p = resize_error_plan("No video stream found");
    assert_eq!(p.status, 500);
    assert_eq!(p.headers, vec![ORIGIN, ("Content-Type", "application/json")]);
    match p.body {
        ResponseBody::Text(t) => assert_eq!(
            t,
            "{\"error\":\"Failed to process video\",\"details\":\"No video stream found\"}"
        ),
        _ => panic!("expected a text body"),
    }
}
