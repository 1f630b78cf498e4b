use std::cell::RefCell;
use waxosuit_host::policy::{
    check_token_with_opa, classify_response, decide, post_json, read_verdict, request_body,
    HttpOutcome, PolicyVerdict, PolicyViolation,
};

#[test]
fn request_body_is_the_token_object() {
    assert_eq!(request_body("abc.def.ghi"), "{\"token\":\"abc.def.ghi\"}");
}

#[test]
fn request_body_escapes_what_json_escapes() {
    assert_eq!(request_body("a\"b\\c\n"), "{\"token\":\"a\\\"b\\\\c\\n\"}");
    assert_eq!(request_body(""), "{\"token\":\"\"}");
}

#[test]
fn success_statuses_are_200_to_299() {
    for status in [200u16, 201, 204, 250, 299] {
        let res = classify_response(HttpOutcome::Response(status, "body".to_string()));
        assert_eq!(res, Ok("body".to_string()));
    }
    for status in [0u16, 100, 199, 300, 301, 400, 403, 404, 500, 503, 65535] {
        let res = classify_response(HttpOutcome::Response(status, "body".to_string()));
        assert_eq!(res, Err(PolicyViolation::NonSuccessStatus));
    }
}

#[test]
fn failed_transport_is_a_violation() {
    assert_eq!(classify_response(HttpOutcome::Failed), Err(PolicyViolation::TransportFailure));
}

#[test]
fn decoded_verdict_decides() {
    assert_eq!(decide(Some(true)), Ok(()));
    assert_eq!(decide(Some(false)), Err(PolicyViolation::Denied));
    assert_eq!(decide(None), Err(PolicyViolation::UndecodableReply));
}

#[test]
fn verdict_is_read_from_the_allow_member() {
    assert_eq!(read_verdict("{\"allow\": true}"), Ok(()));
    assert_eq!(read_verdict("{\"allow\":false}"), Err(PolicyViolation::Denied));
    assert_eq!(read_verdict("{\"allow\": true, \"reason\": \"ok\"}"), Ok(()));
    assert_eq!(read_verdict("  {\"other\": 1, \"allow\": false}  "), Err(PolicyViolation::Denied));
}

#[test]
fn reply_without_a_boolean_verdict_is_undecodable() {
    for body in [
        "",
        "not json",
        "{}",
        "{\"allow\": \"true\"}",
        "{\"allow\": 1}",
        "{\"allow\": null}",
        "{\"Allow\": true}",
        "{\"result\": {\"allow\": true}}",
        "[true]",
        "true",
        "{\"allow\": true",
    ] {
        assert_eq!(read_verdict(body), Err(PolicyViolation::UndecodableReply), "body {:?}", body);
    }
}

#[test]
fn violation_messages() {
    assert_eq!(PolicyViolation::TransportFailure.message(), "transport failure");
    assert_eq!(
        PolicyViolation::NonSuccessStatus.message(),
        "policy service returned non-success status"
    );
    assert_eq!(PolicyViolation::Denied.message(), "denied");
    assert_eq!(
        PolicyViolation::UndecodableReply.message(),
        "policy service reply holds no verdict"
    );
}

#[test]
fn verdict_is_not_requested_only_without_an_endpoint() {
    assert_eq!(PolicyVerdict::of(false, &Ok(())), PolicyVerdict::NotRequested);
    assert_eq!(
        PolicyVerdict::of(false, &Err(PolicyViolation::Denied)),
        PolicyVerdict::NotRequested
    );
    assert_eq!(PolicyVerdict::of(true, &Ok(())), PolicyVerdict::Allowed);
    assert_eq!(PolicyVerdict::of(true, &Err(PolicyViolation::Denied)), PolicyVerdict::Denied);
    assert_eq!(
        PolicyVerdict::of(true, &Err(PolicyViolation::TransportFailure)),
        PolicyVerdict::Denied
    );
    assert_eq!(
        PolicyVerdict::of(true, &Err(PolicyViolation::NonSuccessStatus)),
        PolicyVerdict::Denied
    );
}

#[test]
fn post_json_sends_the_token_object_once_and_returns_the_body() {
    let sent: RefCell<Vec<(String, String)>> = RefCell::new(Vec::new());
    let res = post_json(&"http://opa/v1/data".to_string(), "tok", |url: &String, body: &String| {
        sent.borrow_mut().push((url.clone(), body.clone()));
        HttpOutcome::Response(200, "{\"allow\": true}".to_string())
    });
    assert_eq!(res, Ok("{\"allow\": true}".to_string()));
    assert_eq!(
        *sent.borrow(),
        vec![("http://opa/v1/data".to_string(), "{\"token\":\"tok\"}".to_string())]
    );
}

#[test]
fn post_json_reports_non_success_and_transport_failure() {
    let url = "http://opa".to_string();
    let res = post_json(&url, "tok", |_: &String, _: &String| {
        HttpOutcome::Response(500, "{\"allow\": true}".to_string())
    });
    assert_eq!(res, Err(PolicyViolation::NonSuccessStatus));
    let res = post_json(&url, "tok", |_: &String, _: &String| HttpOutcome::Failed);
    assert_eq!(res, Err(PolicyViolation::TransportFailure));
}

#[test]
fn no_endpoint_means_no_request_and_success() {
    let res = check_token_with_opa(None, "tok", |_: &String, _: &String| -> HttpOutcome {
        panic!("nothing is sent without an endpoint")
    });
    assert_eq!(res, Ok(()));
}

#[test]
fn allowing_service_lets_the_module_pass() {
    let url = "http://opa".to_string();
    let calls = RefCell::new(0u32);
    let res = check_token_with_opa(Some(&url), "tok", |u: &String, body: &String| {
        *calls.borrow_mut() += 1;
        assert_eq!(u, "http://opa");
        assert_eq!(body, "{\"token\":\"tok\"}");
        HttpOutcome::Response(200, "{\"allow\": true}".to_string())
    });
    assert_eq!(res, Ok(()));
    assert_eq!(*calls.borrow(), 1);
}

#[test]
fn denying_service_stops_the_module() {
    let url = "http://opa".to_string();
    let res = check_token_with_opa(Some(&url), "tok", |_: &String, _: &String| {
        HttpOutcome::Response(200, "{\"allow\": false}".to_string())
    });
    assert_eq!(res, Err(PolicyViolation::Denied));
}

#[test]
fn every_other_answer_stops_the_module() {
    let url = "http://opa".to_string();
    let res = check_token_with_opa(Some(&url), "tok", |_: &String, _: &String| {
        HttpOutcome::Response(403, "{\"allow\": true}".to_string())
    });
    assert_eq!(res, Err(PolicyViolation::NonSuccessStatus));
    let res = check_token_with_opa(Some(&url), "tok", |_: &String, _: &String| HttpOutcome::Failed);
    assert_eq!(res, Err(PolicyViolation::TransportFailure));
    let res = check_token_with_opa(Some(&url), "tok", |_: &String, _: &String| {
        HttpOutcome::Response(200, "<html>".to_string())
    });
    assert_eq!(res, Err(PolicyViolation::UndecodableReply));
}
