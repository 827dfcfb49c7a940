use fetch_client::FetchError;
use fetch_client::FetchOutcome;
use fetch_client::Headers;
use fetch_client::Method;
use fetch_client::Options;
use fetch_client::Request;

#[test]
fn method_labels_are_canonical() {
    assert_eq!(Method::Get.as_str(), "Get");
    assert_eq!(Method::Head.as_str(), "Head");
    assert_eq!(Method::Post.as_str(), "Post");
    assert_eq!(Method::Put.as_str(), "Put");
    assert_eq!(Method::Delete.as_str(), "Delete");
    assert_eq!(Method::Connect.as_str(), "Connect");
    assert_eq!(Method::Options.as_str(), "Options");
    assert_eq!(Method::Trace.as_str(), "Trace");
    assert_eq!(Method::Patch.as_str(), "Patch");
}

#[test]
fn method_labels_nonempty_and_distinct() {
    let labels = vec![
        Method::Get.as_str(),
        Method::Head.as_str(),
        Method::Post.as_str(),
        Method::Put.as_str(),
        Method::Delete.as_str(),
        Method::Connect.as_str(),
        Method::Options.as_str(),
        Method::Trace.as_str(),
        Method::Patch.as_str(),
    ];
    for label in &labels {
        assert!(!label.is_empty());
    }
    for i in 0..labels.len() {
        for j in 0..labels.len() {
            if i != j {
                assert_ne!(labels[i], labels[j]);
            }
        }
    }
}

#[test]
fn options_default_method_is_get() {
    let opts = Options::new();
    assert_eq!(opts.selected(), Method::Get);
}

#[test]
fn options_method_overwrites() {
    let mut opts = Options::new();
    opts.method(Method::Put);
    assert_eq!(opts.selected(), Method::Put);
    opts.method(Method::Delete);
    assert_eq!(opts.selected(), Method::Delete);
}

#[test]
fn headers_add_same_name_overwrites() {
    let mut h = Headers::new();
    h.add(String::from("content-type"), String::from("text/html"));
    h.add(String::from("content-type"), String::from("application/json"));
    assert_eq!(h.len(), 1);
    assert_eq!(
        h.get(&String::from("content-type")),
        Some(&String::from("application/json"))
    );
}

#[test]
fn headers_add_distinct_names_keeps_both() {
    let mut h = Headers::new();
    h.add(String::from("accept"), String::from("text/plain"));
    h.add(String::from("origin"), String::from("http://example.test"));
    assert_eq!(h.len(), 2);
    assert_eq!(
        h.get(&String::from("accept")),
        Some(&String::from("text/plain"))
    );
    assert_eq!(
        h.get(&String::from("origin")),
        Some(&String::from("http://example.test"))
    );
    assert_eq!(h.get(&String::from("missing")), None);
}

#[test]
fn get_request_sends_get_method_label() {
    let req = Request::get(String::from("http://example.test/a"));
    assert_eq!(req.settings().method, "Get");
    assert_eq!(req.url().as_str(), "http://example.test/a");
}

#[test]
fn post_request_sends_post_method_label() {
    let req = Request::post(String::from("http://example.test/a"));
    assert_eq!(req.settings().method, "Post");
}

#[test]
fn with_header_is_chainable_and_order_independent() {
    let a = Request::get(String::from("http://example.test"))
        .with_header(String::from("x-one"), String::from("1"))
        .with_header(String::from("x-two"), String::from("2"));
    let b = Request::get(String::from("http://example.test"))
        .with_header(String::from("x-two"), String::from("2"))
        .with_header(String::from("x-one"), String::from("1"));
    for req in [&a, &b] {
        let h = req.headers();
        assert_eq!(h.len(), 2);
        assert_eq!(h.get(&String::from("x-one")), Some(&String::from("1")));
        assert_eq!(h.get(&String::from("x-two")), Some(&String::from("2")));
    }
}

#[test]
fn with_header_same_name_keeps_second_value() {
    let req = Request::get(String::from("http://example.test"))
        .with_header(String::from("x-k"), String::from("first"))
        .with_header(String::from("x-k"), String::from("second"));
    let h = req.headers();
    assert_eq!(h.len(), 1);
    assert_eq!(h.get(&String::from("x-k")), Some(&String::from("second")));
}

#[test]
fn with_header_leaves_url_and_method_alone() {
    let req = Request::post(String::from("http://example.test/p"))
        .with_header(String::from("x-k"), String::from("v"));
    assert_eq!(req.url().as_str(), "http://example.test/p");
    assert_eq!(req.settings().method, "Post");
}

#[test]
fn fetch_text_returns_the_resolved_text() {
    let req = Request::get(String::from("http://example.test"));
    let outcome = FetchOutcome::Resolved(String::from("\"hello world\""));
    assert_eq!(req.fetch_text(outcome), Ok(String::from("hello world")));
}

#[test]
fn fetch_text_rejects_undecodable_payload() {
    let req = Request::get(String::from("http://example.test"));
    let outcome = FetchOutcome::Resolved(String::from("{ not a json string"));
    match req.fetch_text(outcome) {
        Err(FetchError::Deserialization(msg)) => assert!(!msg.is_empty()),
        other => panic!("expected a deserialization error, got {:?}", other),
    }
}

#[test]
fn fetch_text_propagates_rejection_unaltered() {
    let req = Request::get(String::from("http://example.test"));
    let outcome = FetchOutcome::Rejected(String::from("connection reset"));
    assert_eq!(
        req.fetch_text(outcome),
        Err(FetchError::Transport(String::from("connection reset")))
    );
}

#[test]
fn fetch_json_decodes_a_number() {
    let req = Request::get(String::from("http://example.test"));
    let outcome = FetchOutcome::Resolved(String::from("42"));
    assert_eq!(req.fetch_json::<u64>(outcome), Ok(42));
}

#[test]
fn fetch_json_decodes_the_article_shape() {
    let payload = String::from(
        "{\"id\":1,\"name\":\"Test Article #00\",\"stock\":42,\
         \"description\":\"This marvellous article is made of hopes, dreams, and lots of time.\",\
         \"price\":300.42,\"currency\":\"euro\",\"created_at\":\"2020-08-17T11:40:07Z\",\
         \"image_paths\":[\"/img/articles/1/logo.63a7d78d.svg\",\"/img/articles/1/logo.82b9c7a5.png\"]}",
    );
    let req = Request::post(String::from("https://myawesomesite/article/1"));
    let value = req
        .fetch_json::<serde_json::Value>(FetchOutcome::Resolved(payload))
        .expect("the payload matches the expected shape");
    assert_eq!(value.get("id").and_then(|v| v.as_u64()), Some(1));
    assert_eq!(
        value.get("name").and_then(|v| v.as_str()),
        Some("Test Article #00")
    );
    assert_eq!(value.get("stock").and_then(|v| v.as_u64()), Some(42));
    assert_eq!(
        value.get("currency").and_then(|v| v.as_str()),
        Some("euro")
    );
    let paths = value
        .get("image_paths")
        .and_then(|v| v.as_array())
        .expect("image_paths is an array");
    assert_eq!(paths.len(), 2);
    assert_eq!(paths[0].as_str(), Some("/img/articles/1/logo.63a7d78d.svg"));
}

#[test]
fn fetch_json_rejects_mismatched_shape() {
    let req = Request::get(String::from("http://example.test"));
    let outcome = FetchOutcome::Resolved(String::from("\"not a number\""));
    match req.fetch_json::<u64>(outcome) {
        Err(FetchError::Deserialization(msg)) => assert!(!msg.is_empty()),
        other => panic!("expected a deserialization error, got {:?}", other),
    }
}

#[test]
fn fetch_json_rejects_malformed_payload() {
    let req = Request::get(String::from("http://example.test"));
    let outcome = FetchOutcome::Resolved(String::from("<html>oops</html>"));
    match req.fetch_json::<serde_json::Value>(outcome) {
        Err(FetchError::Deserialization(msg)) => assert!(!msg.is_empty()),
        other => panic!("expected a deserialization error, got {:?}", other),
    }
}

#[test]
fn fetch_json_propagates_rejection_unaltered() {
    let req = Request::post(String::from("http://example.test"));
    let outcome = FetchOutcome::Rejected(String::from("dns failure"));
    assert_eq!(
        req.fetch_json::<u64>(outcome),
        Err(FetchError::Transport(String::from("dns failure")))
    );
}
