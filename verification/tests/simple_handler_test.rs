use excelsior::domain::{FilterParams, Message, Params};
use excelsior::handlers::outbound_handler::{get_answer1, get_answer2, get_ayo};
use excelsior::handlers::simple_handler::{
    call_external_service, external_url, get_params, get_pong, get_question, post_body_data,
    protected_reply, protected_route, ExternalOutcome,
};
use http::{HeaderMap, HeaderValue};

#[test]
fn test_get_pong() {
    let response = get_pong();
    let body = response.body_text().unwrap();

    assert_eq!(body.as_bytes(), b"PONG!");
}

#[test]
fn simple_handler_test_test_get_pong() {
    let response = get_pong();
    assert_eq!(response.status, 200);
    assert_eq!(response.body_text(), Some("PONG!"));
}

#[test]
fn test_call_external_service_ok() {
    let answered = ExternalOutcome::Answered(Some(Message {
        code: 200,
        message_text: "PONG".to_string(),
    }));

    let response = call_external_service(answered);

    assert_eq!(response.status, 200);
    assert_eq!(response.body_text(), Some("PONG !!"));
}

#[test]
fn simple_handler_test_test_call_external_service_ok() {
    let url = external_url(Some("http://127.0.0.1:5000".to_string()));
    assert_eq!(url, "http://127.0.0.1:5000/pong");

    let response = call_external_service(ExternalOutcome::Answered(Some(get_answer1())));
    assert_eq!(response.status, 200);
    assert_eq!(response.body_text(), Some("Ladaradiradadada! !!"));
}

#[test]
fn test_call_external_service_fail() {
    let url = external_url(Some("localhost:99999".to_string()));
    assert_eq!(url, "localhost:99999/pong");

    let response = call_external_service(ExternalOutcome::Unreachable);

    assert_ne!(response.status, 200);
}

#[test]
fn simple_handler_test_test_call_external_service_fail() {
    let response = call_external_service(ExternalOutcome::Unreachable);
    assert_eq!(response.status, 417);
    assert_eq!(response.body_text(), Some("Failed to reach external service"));
}

#[test]
fn test_protected_route_no_auth() {
    let headers = HeaderMap::new();
    let response = protected_route(&headers);

    assert_eq!(response.status, 401);
}

#[test]
fn simple_handler_test_test_protected_route_no_auth() {
    let headers = HeaderMap::new();
    let response = protected_route(&headers);

    assert_eq!(response.status, 401);
    assert_eq!(response.body_text(), Some("Invalid or missing header"));
}

#[test]
fn test_protected_route_with_auth() {
    let mut headers = HeaderMap::new();
    headers.insert("X-Custom-Header", HeaderValue::from_str("secret-value").unwrap());

    let response = protected_route(&headers);
    assert_eq!(response.status, 200);
}

#[test]
fn simple_handler_test_test_protected_route_with_auth() {
    let mut headers = HeaderMap::new();
    headers.insert("X-Custom-Header", HeaderValue::from_str("secret-value").unwrap());

    let response = protected_route(&headers);
    assert_eq!(response.status, 200);
    assert_eq!(response.body_text(), Some("Access Granted!"));
}

#[test]
fn protected_route_refuses_any_other_value() {
    for value in ["secret-valu", "secret-value ", "Secret-Value", "", "secret-valuf", "other"] {
        let mut headers = HeaderMap::new();
        headers.insert("X-Custom-Header", HeaderValue::from_str(value).unwrap());
        let response = protected_route(&headers);
        assert_eq!(response.status, 401);
        assert_eq!(response.body_text(), Some("Invalid or missing header"));
    }
}

#[test]
fn protected_route_reads_the_guarding_header_only() {
    let mut headers = HeaderMap::new();
    headers.insert("X-Other-Header", HeaderValue::from_static("secret-value"));
    assert_eq!(protected_route(&headers).status, 401);

    headers.insert("x-custom-header", HeaderValue::from_static("secret-value"));
    assert_eq!(protected_route(&headers).status, 200);

    let mut several = HeaderMap::new();
    several.append("X-Custom-Header", HeaderValue::from_static("first"));
    several.append("X-Custom-Header", HeaderValue::from_static("secret-value"));
    assert_eq!(protected_route(&several).status, 401);
}

#[test]
fn protected_reply_for_given_values() {
    assert_eq!(protected_reply(None).status, 401);
    assert_eq!(protected_reply(Some(b"secret-value".to_vec())).status, 200);
    assert_eq!(protected_reply(Some(b"secret-valuE".to_vec())).status, 401);
    assert_eq!(protected_reply(Some(vec![])).status, 401);
    assert_eq!(protected_reply(Some(vec![0xff, 0xfe])).status, 401);
}

#[test]
fn test_get_params() {
    let param_in = Params {
        param_1: 1,
        param_2: "test2".to_string(),
    };
    let response = get_params(param_in);
    let body = response.body_text().unwrap();

    assert_eq!(body.as_bytes(), b"Parameter 1: 1, Parameter 2: test2");
}

#[test]
fn simple_handler_test_test_get_params() {
    let param_in = Params {
        param_1: 1,
        param_2: "test2".to_string(),
    };
    let response = get_params(param_in);

    assert_eq!(response.status, 200);
    assert_eq!(response.body_text(), Some("Parameter 1: 1, Parameter 2: test2"));
}

#[test]
fn test_get_question() {
    let query = FilterParams {
        name: Option::from("Jack".to_string()),
        age: Option::from(25),
        active: Option::from(true),
    };

    let response = get_question(query);
    let body = response.body_text().unwrap();

    assert_eq!(body.as_bytes(), b"Filters: name=Jack, age=25, active=true");
}

#[test]
fn simple_handler_test_test_get_question() {
    let query = FilterParams {
        name: Option::from("Jack".to_string()),
        age: Option::from(25),
        active: Option::from(true),
    };

    let response = get_question(query);
    let s = response.body_text().unwrap();
    assert!(s.contains("Jack"));
    assert!(s.contains("25"));
    assert!(s.contains("true"));
}

#[test]
fn get_question_fills_in_defaults() {
    let response = get_question(FilterParams { name: None, age: None, active: None });
    assert_eq!(response.status, 200);
    assert_eq!(response.body_text(), Some("Filters: name=, age=0, active=false"));

    let response = get_question(FilterParams {
        name: None,
        age: Some(4294967295),
        active: Some(false),
    });
    assert_eq!(response.body_text(), Some("Filters: name=, age=4294967295, active=false"));
}

#[test]
fn test_post_body_data() {
    let body_data = Message {
        code: 777,
        message_text: "Received body data successfully!".to_string(),
    };

    let response = post_body_data(body_data);
    let body = response.body_text().unwrap();

    assert_eq!(
        body.as_bytes(),
        b"Received message with code: 777, text: Received body data successfully!"
    );
}

#[test]
fn simple_handler_test_test_post_body_data() {
    let response = post_body_data(Message { code: -2147483648, message_text: "".to_string() });
    assert_eq!(response.status, 200);
    assert_eq!(
        response.body_text(),
        Some("Received message with code: -2147483648, text: ")
    );
    let response = post_body_data(Message { code: 0, message_text: "zero".to_string() });
    assert_eq!(response.body_text(), Some("Received message with code: 0, text: zero"));
}

#[test]
fn external_url_defaults_to_the_local_neighbour() {
    assert_eq!(external_url(None), "http://localhost:3001/pong");
    assert_eq!(external_url(Some("".to_string())), "/pong");
}

#[test]
fn external_reply_takes_its_status_from_the_code() {
    let reply = |code: i32| {
        call_external_service(ExternalOutcome::Answered(Some(Message {
            code,
            message_text: "text".to_string(),
        })))
    };
    assert_eq!(reply(100).status, 100);
    assert_eq!(reply(404).status, 404);
    assert_eq!(reply(999).status, 999);
    assert_eq!(reply(99).status, 417);
    assert_eq!(reply(1000).status, 417);
    assert_eq!(reply(0).status, 417);
    assert_eq!(reply(-1).status, 417);
    // Only the low sixteen bits of the code count: 65536 + 200.
    assert_eq!(reply(65736).status, 200);
    assert_eq!(reply(-65336).status, 200);
    assert_eq!(reply(404).body_text(), Some("text !!"));
}

#[test]
fn external_reply_for_an_unparsed_body() {
    let response = call_external_service(ExternalOutcome::Answered(None));
    assert_eq!(response.status, 400);
    assert_eq!(response.body_text(), Some("Failed to parse external response !!"));
}

#[test]
fn fixed_answers() {
    let ayo = get_ayo();
    assert_eq!(ayo.code, 200);
    assert_eq!(ayo.message_text, "PONG!");
    let first = get_answer1();
    assert_eq!(first.code, 200);
    assert_eq!(first.message_text, "Ladaradiradadada!");
    let second = get_answer2();
    assert_eq!(second.code, 200);
    assert_eq!(second.message_text, "E-E!");
}
