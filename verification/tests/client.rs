use digitalocean::api::{Action, Shape, Volume};
use digitalocean::client::{classify, unwrap_answer, Answer, Outcome};
use digitalocean::method::{Create, Delete, Get, List, Method, Update, Verb};
use digitalocean::request::Request;
use digitalocean::{DigitalOcean, Error};

fn client() -> DigitalOcean {
    DigitalOcean::new("example-token".to_string()).unwrap()
}

fn answered(status: u16, body: &str) -> Outcome {
    Outcome::Answered { status, body: body.to_string() }
}

#[test]
fn client_keeps_its_token() {
    let c = DigitalOcean::new("t0ken".to_string()).unwrap();
    assert_eq!(c.token(), "t0ken");
}

#[test]
fn verbs_of_the_tags() {
    assert_eq!(List::verb(), Verb::Get);
    assert_eq!(Get::verb(), Verb::Get);
    assert_eq!(Create::verb(), Verb::Post);
    assert_eq!(Update::verb(), Verb::Put);
    assert_eq!(Delete::verb(), Verb::Delete);
}

#[test]
fn tags_that_send_a_body() {
    assert!(!List::sends_body());
    assert!(!Get::sends_body());
    assert!(Create::sends_body());
    assert!(Update::sends_body());
    assert!(!Delete::sends_body());
}

#[test]
fn execute_create_sends_body_and_token() {
    let request = Volume::get("abc123").unwrap().resize(100);
    let body = request.body().clone();
    let call = client().execute(request);
    assert_eq!(call.verb, Verb::Post);
    assert_eq!(call.url, "https://api.digitalocean.com/v2/volumes/abc123/actions");
    assert_eq!(call.authorization, "Bearer example-token");
    assert!(body.is_some());
    assert_eq!(call.body, body);
    assert_eq!(call.shape, Shape::Single);
    assert_eq!(call.envelope, "action");
}

#[test]
fn execute_list_expects_a_collection() {
    let call = client().execute(Volume::get("abc123").unwrap().actions());
    assert_eq!(call.verb, Verb::Get);
    assert_eq!(call.url, "https://api.digitalocean.com/v2/volumes/abc123/actions");
    assert_eq!(call.body, None);
    assert_eq!(call.shape, Shape::Collection);
    assert_eq!(call.envelope, "actions");
}

#[test]
fn execute_get_sends_no_body() {
    let mut request = Volume::get("abc123").unwrap();
    request.set_body(digitalocean::payload::Payload::of_kind("stray"));
    let call = client().execute(request);
    assert_eq!(call.verb, Verb::Get);
    assert_eq!(call.body, None);
    assert_eq!(call.shape, Shape::Single);
    assert_eq!(call.envelope, "volume");
}

#[test]
fn execute_delete_expects_nothing() {
    let request: Request<Delete, Volume> = Volume::get("abc123").unwrap().transmute();
    let call = client().execute(request);
    assert_eq!(call.verb, Verb::Delete);
    assert_eq!(call.shape, Shape::Empty);
    assert_eq!(call.body, None);
    let request: Request<Delete, ()> = Volume::get("abc123").unwrap().transmute();
    let call = client().execute(request);
    assert_eq!(call.shape, Shape::Empty);
    assert_eq!(call.envelope, "");
}

#[test]
fn execute_update_puts() {
    let request: Request<Update, Action> = Volume::get("abc123").unwrap().resize(1).transmute();
    let call = client().execute(request);
    assert_eq!(call.verb, Verb::Put);
    assert!(call.body.is_some());
}

#[test]
fn not_found_gives_api_fault() {
    let body = "{\"id\":\"not_found\",\"message\":\"The resource you were accessing could not be found.\"}";
    let r = client().settle(answered(404, body));
    assert_eq!(
        r,
        Err(Error::Api {
            status: 404,
            id: "not_found".to_string(),
            message: "The resource you were accessing could not be found.".to_string(),
        })
    );
}

#[test]
fn fault_with_escapes_is_decoded() {
    let body = "{ \"message\": \"say \\\"no\\\"\", \"id\": \"unprocessable_entity\", \"request_id\": 5 }";
    let r = client().settle(answered(422, body));
    assert_eq!(
        r,
        Err(Error::Api {
            status: 422,
            id: "unprocessable_entity".to_string(),
            message: "say \"no\"".to_string(),
        })
    );
}

#[test]
fn fault_without_provider_payload_keeps_status_and_body() {
    let r = client().settle(answered(502, "<html>Bad Gateway</html>"));
    assert_eq!(
        r,
        Err(Error::Status { status: 502, body: "<html>Bad Gateway</html>".to_string() })
    );
    let r = client().settle(answered(404, "{\"id\":\"not_found\"}"));
    assert_eq!(
        r,
        Err(Error::Status { status: 404, body: "{\"id\":\"not_found\"}".to_string() })
    );
    let r = client().settle(answered(404, "{\"id\":1,\"message\":\"m\"}"));
    assert_eq!(
        r,
        Err(Error::Status { status: 404, body: "{\"id\":1,\"message\":\"m\"}".to_string() })
    );
    let r = client().settle(answered(500, ""));
    assert_eq!(r, Err(Error::Status { status: 500, body: String::new() }));
}

#[test]
fn success_hands_the_body_on() {
    let body = "{\"actions\":[]}";
    assert_eq!(client().settle(answered(200, body)), Ok(body.to_string()));
    assert_eq!(client().settle(answered(201, body)), Ok(body.to_string()));
    assert_eq!(client().settle(answered(202, body)), Ok(body.to_string()));
    assert_eq!(client().settle(answered(204, "")), Ok(String::new()));
    assert_eq!(client().settle(answered(299, "x")), Ok("x".to_string()));
}

#[test]
fn success_is_never_a_fault_even_with_fault_payload() {
    let body = "{\"id\":\"not_found\",\"message\":\"m\"}";
    assert_eq!(client().settle(answered(200, body)), Ok(body.to_string()));
}

#[test]
fn status_bounds() {
    assert!(client().settle(answered(199, "")).is_err());
    assert!(client().settle(answered(300, "")).is_err());
    assert!(client().settle(answered(0, "")).is_err());
}

#[test]
fn transport_fault_is_its_own_kind() {
    let r = client().settle(Outcome::Failed("connection refused".to_string()));
    assert_eq!(r, Err(Error::Transport("connection refused".to_string())));
}

#[test]
fn classify_by_hand() {
    let r = classify(404, "raw".to_string(), Some("i".to_string()), Some("m".to_string()));
    assert_eq!(
        r,
        Err(Error::Api { status: 404, id: "i".to_string(), message: "m".to_string() })
    );
    let r = classify(404, "raw".to_string(), None, Some("m".to_string()));
    assert_eq!(r, Err(Error::Status { status: 404, body: "raw".to_string() }));
    let r = classify(404, "raw".to_string(), Some("i".to_string()), None);
    assert_eq!(r, Err(Error::Status { status: 404, body: "raw".to_string() }));
    let r = classify(200, "raw".to_string(), Some("i".to_string()), Some("m".to_string()));
    assert_eq!(r, Ok("raw".to_string()));
}

#[test]
fn faults_in_words() {
    assert_eq!(
        Error::Transport("timed out".to_string()).describe(),
        "transport fault: timed out"
    );
    assert_eq!(
        Error::Serialization("missing field `id`".to_string()).describe(),
        "serialization fault: missing field `id`"
    );
    assert_eq!(
        Error::Api { status: 404, id: "not_found".to_string(), message: "gone".to_string() }
            .describe(),
        "API fault 404 (not_found): gone"
    );
    assert_eq!(
        Error::Status { status: 500, body: "oops".to_string() }.describe(),
        "API fault 500: oops"
    );
}

#[test]
fn list_answer_is_handed_on_whole() {
    let payload = "{\"actions\":[{\"id\":72531856,\"status\":\"completed\",\"type\":\"attach_volume\",\"resource_id\":null},{\"id\":68212773,\"status\":\"in-progress\",\"type\":\"resize\",\"resource_id\":7}],\"meta\":{\"total\":2}}";
    let c = client();
    let call = c.execute(Volume::get("abc123").unwrap().actions());
    assert_eq!(call.shape, Shape::Collection);
    let body = c.settle(answered(200, payload)).unwrap();
    assert_eq!(body, payload);
    let items = match call.open(&body) {
        Ok(Answer::Many(items)) => items,
        other => panic!("unexpected: {:?}", other),
    };
    assert_eq!(items.len(), 2);
    let first: serde_json::Value = serde_json::from_str(&items[0]).unwrap();
    let second: serde_json::Value = serde_json::from_str(&items[1]).unwrap();
    assert_eq!(first.get("id").unwrap().as_u64(), Some(72531856));
    assert_eq!(first.get("status").unwrap().as_str(), Some("completed"));
    assert_eq!(first.get("type").unwrap().as_str(), Some("attach_volume"));
    assert!(first.get("resource_id").unwrap().is_null());
    assert_eq!(second.get("id").unwrap().as_u64(), Some(68212773));
    assert_eq!(second.get("status").unwrap().as_str(), Some("in-progress"));
    assert_eq!(second.get("type").unwrap().as_str(), Some("resize"));
    assert_eq!(second.get("resource_id").unwrap().as_u64(), Some(7));
}

#[test]
fn empty_list_answer() {
    let call = client().execute(Volume::get("abc123").unwrap().actions());
    assert_eq!(call.open("{\"actions\":[]}"), Ok(Answer::Many(vec![])));
}

#[test]
fn single_answer_is_the_member() {
    let call = client().execute(Volume::get("abc123").unwrap().resize(100));
    let body = "{\"action\":{\"id\":36804751,\"status\":\"in-progress\",\"type\":\"resize\"}}";
    let record = match call.open(body) {
        Ok(Answer::One(record)) => record,
        other => panic!("unexpected: {:?}", other),
    };
    let value: serde_json::Value = serde_json::from_str(&record).unwrap();
    assert_eq!(value.get("id").unwrap().as_u64(), Some(36804751));
    assert_eq!(value.get("type").unwrap().as_str(), Some("resize"));
    assert_eq!(value.as_object().unwrap().len(), 3);
}

#[test]
fn answer_of_the_wrong_form_is_a_serialization_fault() {
    let list = client().execute(Volume::get("abc123").unwrap().actions());
    assert_eq!(
        list.open("{\"action\":{}}"),
        Err(Error::Serialization("missing member: actions".to_string()))
    );
    assert_eq!(
        list.open("{\"actions\":{\"id\":1}}"),
        Err(Error::Serialization("not a list: actions".to_string()))
    );
    assert_eq!(
        list.open("not json"),
        Err(Error::Serialization("missing member: actions".to_string()))
    );
    let single = client().execute(Volume::get("abc123").unwrap().action(7));
    assert_eq!(
        single.open("{\"actions\":[]}"),
        Err(Error::Serialization("missing member: action".to_string()))
    );
    assert_eq!(
        single.open("[1,2]"),
        Err(Error::Serialization("missing member: action".to_string()))
    );
}

#[test]
fn deletion_is_answered_with_nothing() {
    let request: Request<Delete, Volume> = Volume::get("abc123").unwrap().transmute();
    let call = client().execute(request);
    assert_eq!(call.open(""), Ok(Answer::Nothing));
    assert_eq!(call.open("{\"volume\":{}}"), Ok(Answer::Nothing));
}

#[test]
fn unwrap_by_hand() {
    assert_eq!(unwrap_answer(Shape::Empty, "x", Some("1".to_string()), None), Ok(Answer::Nothing));
    assert_eq!(
        unwrap_answer(Shape::Single, "x", Some("1".to_string()), Some(vec![])),
        Ok(Answer::One("1".to_string()))
    );
    assert_eq!(
        unwrap_answer(Shape::Single, "x", None, None),
        Err(Error::Serialization("missing member: x".to_string()))
    );
    assert_eq!(
        unwrap_answer(Shape::Collection, "x", Some("[1]".to_string()), Some(vec!["1".to_string()])),
        Ok(Answer::Many(vec!["1".to_string()]))
    );
    assert_eq!(
        unwrap_answer(Shape::Collection, "x", Some("1".to_string()), None),
        Err(Error::Serialization("not a list: x".to_string()))
    );
    assert_eq!(
        unwrap_answer(Shape::Collection, "x", None, Some(vec![])),
        Err(Error::Serialization("missing member: x".to_string()))
    );
}
