use corpus_assembly::response::endpoint;
use corpus_assembly::response::find_part;
use corpus_assembly::response::get_content;
use corpus_assembly::response::item;
use corpus_assembly::response::member;
use corpus_assembly::response::Json;

fn object(members: Vec<(&str, Json)>) -> Json {
    Json::Object(members.into_iter().map(|(k, v)| (k.to_string(), v)).collect())
}

fn reply_with(part: Json) -> Json {
    object(vec![
        ("usage", Json::Number("12".to_string())),
        (
            "candidates",
            Json::List(vec![
                object(vec![
                    ("finishReason", Json::Text("STOP".to_string())),
                    ("content", object(vec![("role", Json::Text("model".to_string())), ("parts", Json::List(vec![part]))])),
                ]),
                object(vec![("content", Json::Null)]),
            ]),
        ),
    ])
}

#[test]
fn generated_text_is_found_in_a_reply() {
    let reply = reply_with(object(vec![("text", Json::Text("# Overview".to_string()))]));
    assert_eq!(get_content(&reply).unwrap(), "# Overview");
}

#[test]
fn reply_without_candidates_has_no_content() {
    assert!(get_content(&object(vec![("error", Json::Text("quota".to_string()))])).is_err());
    assert!(get_content(&Json::Null).is_err());
    assert!(get_content(&object(vec![("candidates", Json::List(Vec::new()))])).is_err());
    assert!(get_content(&object(vec![("candidates", Json::Bool(true))])).is_err());
}

#[test]
fn reply_whose_part_has_no_text_has_no_content() {
    let reply = reply_with(object(vec![("inlineData", Json::Text("...".to_string()))]));
    assert!(find_part(&reply).is_none());
    assert!(get_content(&reply).is_err());
}

#[test]
fn part_that_is_no_string_is_found_as_it_is() {
    let reply = reply_with(object(vec![("text", Json::Number("7".to_string()))]));
    assert!(matches!(find_part(&reply), Some(Json::Number(n)) if n == "7"));
}

#[test]
fn member_and_item_look_into_objects_and_lists_only() {
    let list = Json::List(vec![Json::Bool(false), Json::Text("b".to_string())]);
    assert!(matches!(item(&list, 1), Some(Json::Text(t)) if t == "b"));
    assert!(item(&list, 2).is_none());
    assert!(member(&list, "0").is_none());
    let obj = object(vec![("a", Json::Null), ("b", Json::Bool(true)), ("a", Json::Bool(false))]);
    assert!(matches!(member(&obj, "a"), Some(Json::Null)));
    assert!(matches!(member(&obj, "b"), Some(Json::Bool(true))));
    assert!(member(&obj, "c").is_none());
    assert!(member(&obj, "A").is_none());
    assert!(item(&obj, 0).is_none());
}

#[test]
fn endpoint_holds_model_and_key() {
    assert_eq!(
        endpoint("gemini-1.5-flash", "k123"),
        "https://generativelanguage.googleapis.com/v1beta/models/gemini-1.5-flash:generateContent?key=k123"
    );
}
