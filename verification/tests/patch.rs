use masto_vision::captions::CaptionMap;
use masto_vision::json::Json;
use masto_vision::patch::PatchPayload;

fn text(s: &str) -> Json {
    Json::Text(s.to_string())
}

fn object(members: Vec<(&str, Json)>) -> Json {
    Json::Object(members.into_iter().map(|(k, v)| (k.to_string(), v)).collect())
}

fn two_attachments() -> Json {
    object(vec![
        ("content", text("<p>Hi<br />there</p>")),
        ("sensitive", Json::Bool(true)),
        ("visibility", text("public")),
        (
            "media_attachments",
            Json::Array(vec![object(vec![("id", text("A"))]), object(vec![("id", text("B"))])]),
        ),
    ])
}

#[test]
fn patch_keeps_fields_and_adds_caption() {
    let mut captions = CaptionMap::new();
    captions.insert("A".to_string(), "a cat".to_string());
    let payload = PatchPayload::from_document(&two_attachments(), &captions);
    assert_eq!(payload.status, "Hi\nthere");
    assert!(payload.media_ids.contains(&"A".to_string()));
    assert!(payload.media_ids.contains(&"B".to_string()));
    assert_eq!(payload.media_ids, vec!["A".to_string(), "B".to_string()]);
    assert_eq!(payload.media_attributes.len(), 2);
    assert_eq!(payload.media_attributes[0].get("id"), Some(&text("A")));
    assert_eq!(payload.media_attributes[0].get("description"), Some(&text("a cat")));
    assert_eq!(payload.media_attributes[1], object(vec![("id", text("B"))]));
    assert_eq!(payload.sensitive, Json::Bool(true));
    assert_eq!(payload.visibility, text("public"));
    assert_eq!(payload.in_reply_to_id, Json::Null);
    assert_eq!(payload.spoiler_text, Json::Null);
    assert_eq!(payload.language, Json::Null);
    let sent = payload.to_json();
    assert_eq!(sent.get("poll"), Some(&Json::Null));
    assert_eq!(sent.get("status"), Some(&text("Hi\nthere")));
    assert_eq!(sent.get("media_ids"), Some(&Json::Array(vec![text("A"), text("B")])));
    assert_eq!(sent.get("sensitive"), Some(&Json::Bool(true)));
    assert_eq!(sent.get("visibility"), Some(&text("public")));
}

#[test]
fn patch_from_fetched_text() {
    let raw = "{\"content\": \"<p>Hi<br />there</p>\", \"sensitive\": true, \"visibility\": \"public\", \
               \"media_attachments\": [{\"id\":\"A\"}, {\"id\":\"B\"}]}";
    let mut captions = CaptionMap::new();
    captions.insert("A".to_string(), "a cat".to_string());
    let payload = PatchPayload::build(raw, &captions).unwrap();
    assert_eq!(payload, PatchPayload::from_document(&two_attachments(), &captions));
}

#[test]
fn patch_replaces_an_old_description() {
    let doc = object(vec![(
        "media_attachments",
        Json::Array(vec![object(vec![
            ("id", text("7")),
            ("description", Json::Null),
            ("type", text("image")),
        ])]),
    )]);
    let mut captions = CaptionMap::new();
    captions.insert("7".to_string(), "a dog".to_string());
    let payload = PatchPayload::from_document(&doc, &captions);
    assert_eq!(
        payload.media_attributes,
        vec![object(vec![("id", text("7")), ("description", text("a dog")), ("type", text("image"))])]
    );
    assert_eq!(payload.status, "");
}

#[test]
fn patch_ignores_captions_for_unknown_attachments() {
    let mut captions = CaptionMap::new();
    captions.insert("Z".to_string(), "nobody".to_string());
    let payload = PatchPayload::from_document(&two_attachments(), &captions);
    assert_eq!(payload.media_ids, vec!["A".to_string(), "B".to_string()]);
    assert_eq!(
        payload.media_attributes,
        vec![object(vec![("id", text("A"))]), object(vec![("id", text("B"))])]
    );
}

#[test]
fn patch_carries_attachment_without_identifier() {
    let doc = object(vec![(
        "media_attachments",
        Json::Array(vec![Json::Number("3".to_string()), object(vec![("id", Json::Number("4".to_string()))])]),
    )]);
    let payload = PatchPayload::from_document(&doc, &CaptionMap::new());
    assert!(payload.media_ids.is_empty());
    assert_eq!(payload.media_attributes.len(), 2);
    assert_eq!(payload.media_attributes[0], Json::Number("3".to_string()));
}

#[test]
fn patch_refuses_what_is_no_object() {
    let captions = CaptionMap::new();
    assert_eq!(PatchPayload::build("", &captions), None);
    assert_eq!(PatchPayload::build("not json", &captions), None);
    assert_eq!(PatchPayload::build("[1, 2]", &captions), None);
    assert_eq!(PatchPayload::build("\"text\"", &captions), None);
    assert_eq!(PatchPayload::build("{\"a\": 1} trailing", &captions), None);
}

#[test]
fn patch_of_an_empty_object_is_neutral() {
    let payload = PatchPayload::build("{}", &CaptionMap::new()).unwrap();
    assert_eq!(payload.status, "");
    assert!(payload.media_ids.is_empty());
    assert!(payload.media_attributes.is_empty());
    assert_eq!(payload.in_reply_to_id, Json::Null);
}

#[test]
fn patch_strips_markup_from_the_body() {
    let doc = object(vec![("content", text("<p>One<br />two <a href=\"#\">three</a></p><br />"))]);
    let payload = PatchPayload::from_document(&doc, &CaptionMap::new());
    assert_eq!(payload.status, "One\ntwo three\n");
}

#[test]
fn patch_content_that_is_no_text_counts_as_empty() {
    let doc = object(vec![("content", Json::Bool(true)), ("media_attachments", text("none"))]);
    let payload = PatchPayload::from_document(&doc, &CaptionMap::new());
    assert_eq!(payload.status, "");
    assert!(payload.media_attributes.is_empty());
}
