use sensor::uplink::{
    classify, post_request, Outcome, CONTENT_TYPE, CONTENT_TYPE_JSON, ENDPOINT, METHOD,
    TOKEN_HEADER, TOKEN_VALUE,
};

#[test]
fn status_200_is_reported_as_success() {
    assert_eq!(classify(200), Outcome::Success);
    assert_eq!(classify(200).report(), "success!");
}

#[test]
fn status_500_is_reported_as_server_error_with_the_status() {
    assert_eq!(classify(500), Outcome::ServerError(500));
    assert_eq!(classify(500).report(), "server error! Status: 500");
}

#[test]
fn status_404_is_reported_as_something_else() {
    assert_eq!(classify(404), Outcome::Other(404));
    assert_eq!(classify(404).report(), "Something else happened. Status: 404");
}

#[test]
fn classes_end_where_the_hundreds_end() {
    assert_eq!(classify(199), Outcome::Other(199));
    assert_eq!(classify(200), Outcome::Success);
    assert_eq!(classify(204), Outcome::Success);
    assert_eq!(classify(299), Outcome::Success);
    assert_eq!(classify(300), Outcome::Other(300));
    assert_eq!(classify(400), Outcome::Other(400));
    assert_eq!(classify(499), Outcome::Other(499));
    assert_eq!(classify(500), Outcome::ServerError(500));
    assert_eq!(classify(503), Outcome::ServerError(503));
    assert_eq!(classify(599), Outcome::ServerError(599));
    assert_eq!(classify(600), Outcome::Other(600));
    assert_eq!(classify(0), Outcome::Other(0));
    assert_eq!(classify(65535), Outcome::Other(65535));
}

#[test]
fn reports_end_in_the_status() {
    assert_eq!(classify(0).report(), "Something else happened. Status: 0");
    assert_eq!(classify(7).report(), "Something else happened. Status: 7");
    assert_eq!(classify(100).report(), "Something else happened. Status: 100");
    assert_eq!(classify(301).report(), "Something else happened. Status: 301");
    assert_eq!(classify(65535).report(), "Something else happened. Status: 65535");
    assert_eq!(classify(599).report(), "server error! Status: 599");
    assert_eq!(classify(299).report(), "success!");
}

#[test]
fn classes_agree_with_the_http_client() {
    for number in 100u16..1000 {
        let status = reqwest::StatusCode::from_u16(number).unwrap();
        let outcome = classify(number);
        assert_eq!(outcome == Outcome::Success, status.is_success());
        assert_eq!(outcome == Outcome::ServerError(number), status.is_server_error());
        assert_eq!(
            outcome == Outcome::Other(number),
            !status.is_success() && !status.is_server_error()
        );
        if status.is_success() {
            assert_eq!(outcome.report(), "success!");
        } else if status.is_server_error() {
            assert_eq!(outcome.report(), format!("server error! Status: {:?}", status));
        } else {
            assert_eq!(
                outcome.report(),
                format!("Something else happened. Status: {:?}", status)
            );
        }
    }
}

#[test]
fn request_goes_to_the_endpoint_with_the_token() {
    let request = post_request("{\"a\":1}".to_string());
    assert_eq!(request.method, "POST");
    assert_eq!(request.method, METHOD);
    assert_eq!(
        request.url,
        "https://bko7deq544.execute-api.us-east-2.amazonaws.com/dev/sensors"
    );
    assert_eq!(request.url, ENDPOINT);
    assert_eq!(request.body, "{\"a\":1}");
    assert_eq!(request.headers.len(), 2);
    assert_eq!(request.headers[0].name, "content-type");
    assert_eq!(request.headers[0].value, "application/json");
    assert_eq!(request.headers[1].name, "authorization-token");
    assert_eq!(request.headers[1].value, "allow");
    assert_eq!(request.headers[0].name, CONTENT_TYPE);
    assert_eq!(request.headers[0].value, CONTENT_TYPE_JSON);
    assert_eq!(request.headers[1].name, TOKEN_HEADER);
    assert_eq!(request.headers[1].value, TOKEN_VALUE);
}

#[test]
fn request_headers_are_valid_for_the_http_client() {
    let request = post_request(String::new());
    assert_eq!(
        reqwest::Method::from_bytes(request.method.as_bytes()).unwrap(),
        reqwest::Method::POST
    );
    assert!(reqwest::Url::parse(&request.url).is_ok());
    assert_eq!(reqwest::Url::parse(&request.url).unwrap().scheme(), "https");
    for header in &request.headers {
        assert!(reqwest::header::HeaderName::from_bytes(header.name.as_bytes()).is_ok());
        assert!(reqwest::header::HeaderValue::from_str(&header.value).is_ok());
    }
    assert_eq!(request.headers[0].name, reqwest::header::CONTENT_TYPE.as_str());
}
