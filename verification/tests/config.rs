use masto_vision::config::{Config, GeneralConfig, GptConfig, ManualRefreshConfig, MastodonConfig};
use masto_vision::patch::MastodonPatch;
use masto_vision::json::Json;
use masto_vision::reply::Reply;

fn config() -> Config {
    Config::new(
        MastodonConfig::new("https://m.example".to_string(), "cid".to_string(), "csecret".to_string(), "mtoken".to_string()),
        GptConfig::new("gkey".to_string(), "model-x".to_string()),
        GeneralConfig::new(300, "describe".to_string()),
        ManualRefreshConfig { enabled: true, interval: 60, statuses: 5, initial_delay: 3, initial_statuses: 40 },
    )
}

#[test]
fn getters_give_what_was_put_in() {
    let c = config();
    assert_eq!(c.get_model(), "model-x");
    assert_eq!(c.get_gpt_api_key(), "gkey");
    assert_eq!(c.get_mastodon_base_url(), "https://m.example");
    assert_eq!(c.get_mastodon_access_token(), "mtoken");
    assert_eq!(c.get_mastodon_client_id(), "cid");
    assert_eq!(c.get_mastodon_client_secret(), "csecret");
    assert_eq!(c.get_max_tokens(), 300);
    assert_eq!(c.get_trigger_word(), "describe");
    assert_eq!(
        c.get_manual_refresh_config(),
        ManualRefreshConfig { enabled: true, interval: 60, statuses: 5, initial_delay: 3, initial_statuses: 40 }
    );
}

#[test]
fn config_clone_keeps_every_setting() {
    let c = config().clone();
    assert_eq!(c.get_model(), "model-x");
    assert_eq!(c.get_mastodon_access_token(), "mtoken");
    assert_eq!(c.get_max_tokens(), 300);
    assert_eq!(c.get_manual_refresh_config().initial_statuses, 40);
}

#[test]
fn requests_are_addressed_and_signed() {
    let p = MastodonPatch::new(config());
    assert_eq!(p.status_url("42"), "https://m.example/api/v1/statuses/42");
    assert_eq!(p.media_url("A7"), "https://m.example/api/v1/media/A7");
    assert_eq!(p.authorization(), "Bearer mtoken");
}

#[test]
fn description_body_holds_the_description() {
    assert_eq!(
        MastodonPatch::description_body("a cat"),
        Json::Object(vec![("description".to_string(), Json::Text("a cat".to_string()))])
    );
}

#[test]
fn replies_are_read_by_their_status() {
    let ok = Reply::Answer { status: 200, body: "{}".to_string() };
    let no = Reply::Answer { status: 404, body: "gone".to_string() };
    assert_eq!(MastodonPatch::fetched_body(&ok), Some(&"{}".to_string()));
    assert_eq!(MastodonPatch::fetched_body(&no), None);
    assert_eq!(MastodonPatch::fetched_body(&Reply::Unreachable), None);
    assert_eq!(MastodonPatch::description_changed(&ok), Some(true));
    assert_eq!(MastodonPatch::description_changed(&no), Some(false));
    assert_eq!(MastodonPatch::description_changed(&Reply::Unreachable), None);
    assert!(ok.succeeded());
    assert!(!no.succeeded());
    assert!(Reply::Answer { status: 299, body: String::new() }.succeeded());
    assert!(!Reply::Answer { status: 300, body: String::new() }.succeeded());
    assert!(!Reply::Answer { status: 199, body: String::new() }.succeeded());
}

#[test]
fn payload_is_built_from_the_fetched_text() {
    let mut captions = masto_vision::captions::CaptionMap::new();
    captions.insert("A".to_string(), "a cat".to_string());
    let p = MastodonPatch::payload("{\"media_attachments\": [{\"id\": \"A\"}]}", &captions).unwrap();
    assert_eq!(p.media_ids, vec!["A".to_string()]);
    assert_eq!(MastodonPatch::payload("nope", &captions), None);
}
