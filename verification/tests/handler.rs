use masto_vision::captions::CaptionMap;
use masto_vision::handler::{Action, Event, Handler, MarkPolicy, Orchestration};
use masto_vision::json::Json;
use masto_vision::patch::PatchPayload;
use masto_vision::reply::Reply;
use masto_vision::retry::Retry;
use masto_vision::shared_data::SharedData;
use masto_vision::task::{CaptionTask, Outcome, TaskStep};
use masto_vision::update::{Attachment, CaptionJob, MediaKind, Update};
use masto_vision::vision::{CaptionError, Vision};

fn image(id: &str) -> Attachment {
    Attachment {
        id: id.to_string(),
        kind: MediaKind::Image,
        description: Some(String::new()),
        url: Some(format!("https://m.example/{}.png", id)),
    }
}

fn post(id: &str, attachments: Vec<Attachment>) -> Update {
    Update {
        id: id.to_string(),
        author_id: "me".to_string(),
        language: None,
        content: "<p>look</p>".to_string(),
        attachments,
    }
}

fn got(id: &str, caption: &str) -> Outcome {
    Outcome { attachment_id: id.to_string(), caption: Some(caption.to_string()) }
}

fn none(id: &str) -> Outcome {
    Outcome { attachment_id: id.to_string(), caption: None }
}

fn answer(status: u16, body: &str) -> Reply {
    Reply::Answer { status, body: body.to_string() }
}

const FETCHED: &str = "{\"id\": \"42\", \"content\": \"<p>look</p>\", \"visibility\": \"public\", \"media_attachments\": [{\"id\": \"A\"}, {\"id\": \"B\"}]}";

fn captioning(handler: &Handler, update: &Update) -> Orchestration {
    let (state, action) = handler.begin(update, "me", &SharedData::empty());
    assert!(matches!(action, Action::Caption(_)));
    state
}

fn run_to_written(handler: &Handler, outcomes: Vec<Outcome>) -> (Orchestration, Action) {
    let state = captioning(handler, &post("42", vec![image("A"), image("B")]));
    let (state, action) = handler.step(state, Event::Captions(outcomes));
    assert_eq!(action, Action::Fetch { post_id: "42".to_string(), delay_millis: 0 });
    let (state, action) = handler.step(state, Event::Fetched(answer(200, FETCHED)));
    assert!(matches!(action, Action::Write { .. }));
    handler.step(state, Event::Written(answer(200, "{}")))
}

#[test]
fn update_by_another_account_is_left_alone() {
    let h = Handler::default();
    let (state, action) = h.begin(&post("42", vec![image("A")]), "someone else", &SharedData::empty());
    assert_eq!((state, action), (Orchestration::NoOp, Action::Nothing));
}

#[test]
fn second_update_for_a_done_post_issues_no_call() {
    let h = Handler::default();
    let mut store = SharedData::empty();
    let update = post("42", vec![image("A")]);
    let (_, first) = h.begin(&update, "me", &store);
    assert!(matches!(first, Action::Caption(_)));
    store.mark_done("42".to_string());
    let (state, action) = h.begin(&update, "me", &store);
    assert_eq!((state, action), (Orchestration::NoOp, Action::Nothing));
    let (state, action) = h.begin(&update, "me", &store);
    assert_eq!(action, Action::Nothing);
    let (state, action) = h.step(state, Event::Captions(vec![got("A", "x")]));
    assert_eq!((state, action), (Orchestration::NoOp, Action::Nothing));
    let (state, action) = h.step(Orchestration::NoOp, Event::Fetched(answer(200, FETCHED)));
    assert_eq!((state, action), (Orchestration::NoOp, Action::Nothing));
    let (state, action) = h.step(Orchestration::NoOp, Event::Written(answer(200, "")));
    assert_eq!((state, action), (Orchestration::NoOp, Action::Nothing));
}

#[test]
fn post_without_wanting_attachments_is_a_no_op() {
    let h = Handler::default();
    let mut described = image("A");
    described.description = Some("a tree".to_string());
    let mut film = image("V");
    film.kind = MediaKind::Video;
    let mut lost = image("L");
    lost.url = None;
    for attachments in [vec![], vec![described], vec![film], vec![lost]] {
        let (state, action) = h.begin(&post("42", attachments), "me", &SharedData::empty());
        assert_eq!((state, action), (Orchestration::NoOp, Action::Nothing));
    }
}

#[test]
fn five_images_are_handed_out_at_once() {
    let h = Handler::default();
    let update = post("42", vec![image("A"), image("B"), image("C"), image("D"), image("E")]);
    let (state, action) = h.begin(&update, "me", &SharedData::empty());
    let job = |id: &str| CaptionJob {
        attachment_id: id.to_string(),
        url: format!("https://m.example/{}.png", id),
        lang_code: "en".to_string(),
        context: "<p>look</p>".to_string(),
    };
    assert_eq!(action, Action::Caption(vec![job("A"), job("B"), job("C"), job("D"), job("E")]));
    assert_eq!(
        state,
        Orchestration::Captioning {
            post_id: "42".to_string(),
            expected: vec!["A".to_string(), "B".to_string(), "C".to_string(), "D".to_string(), "E".to_string()],
            complete: true,
        }
    );
}

#[test]
fn no_caption_means_no_write_and_no_mark() {
    let h = Handler::default();
    let state = captioning(&h, &post("42", vec![image("A"), image("B")]));
    let (state, action) = h.step(state, Event::Captions(vec![none("A"), none("B")]));
    assert_eq!((state, action), (Orchestration::NoOp, Action::Nothing));
    let state = captioning(&h, &post("42", vec![image("A")]));
    let (state, action) = h.step(state, Event::Captions(vec![]));
    assert_eq!((state, action), (Orchestration::NoOp, Action::Nothing));
    let state = captioning(&h, &post("42", vec![image("A")]));
    let (state, action) = h.step(state, Event::Captions(vec![got("A", "  ")]));
    assert_eq!((state, action), (Orchestration::NoOp, Action::Nothing));
}

#[test]
fn captions_for_strangers_are_dropped() {
    let h = Handler::default();
    let state = captioning(&h, &post("42", vec![image("A")]));
    let (state, action) = h.step(state, Event::Captions(vec![got("Z", "stray")]));
    assert_eq!((state, action), (Orchestration::NoOp, Action::Nothing));
}

#[test]
fn full_success_marks_under_both_policies() {
    for policy in [MarkPolicy::AfterWrite, MarkPolicy::AfterFullResolution] {
        let h = Handler::new(policy);
        assert_eq!(h.mark_policy(), policy);
        let (state, action) = run_to_written(&h, vec![got("A", "a cat"), got("B", "a dog")]);
        assert_eq!(action, Action::MarkDone { post_id: "42".to_string() });
        assert_eq!(state, Orchestration::Done { post_id: "42".to_string(), marked: true, resolved: true });
    }
}

#[test]
fn partial_success_still_marks_after_write() {
    let h = Handler::new(MarkPolicy::AfterWrite);
    let (state, action) = run_to_written(&h, vec![got("A", "a cat"), none("B")]);
    assert_eq!(action, Action::MarkDone { post_id: "42".to_string() });
    assert_eq!(state, Orchestration::Done { post_id: "42".to_string(), marked: true, resolved: false });
}

#[test]
fn partial_success_does_not_mark_after_full_resolution() {
    let h = Handler::new(MarkPolicy::AfterFullResolution);
    let (state, action) = run_to_written(&h, vec![got("A", "a cat"), none("B")]);
    assert_eq!(action, Action::Nothing);
    assert_eq!(state, Orchestration::Done { post_id: "42".to_string(), marked: false, resolved: false });
}

#[test]
fn exhausted_captioning_keeps_the_post_unmarked() {
    let h = Handler::new(MarkPolicy::AfterFullResolution);
    let mut tired = CaptionTask::new("B".to_string());
    let mut last = tired.on_result(Err(CaptionError::Transport));
    while let TaskStep::RetryAfter { .. } = last {
        last = tired.on_result(Err(CaptionError::Transport));
    }
    let failed = match last {
        TaskStep::Finished(o) => o,
        TaskStep::RetryAfter { .. } => unreachable!(),
    };
    assert_eq!(tired.failures(), 10);
    let (state, action) = run_to_written(&h, vec![got("A", "a cat"), failed]);
    assert_eq!(action, Action::Nothing);
    assert_eq!(state, Orchestration::Done { post_id: "42".to_string(), marked: false, resolved: false });
}

#[test]
fn image_without_address_prevents_full_resolution() {
    let mut lost = image("L");
    lost.url = None;
    let update = post("42", vec![image("A"), lost]);
    let strict = Handler::new(MarkPolicy::AfterFullResolution);
    let (state, _) = strict.begin(&update, "me", &SharedData::empty());
    let (state, _) = strict.step(state, Event::Captions(vec![got("A", "a cat")]));
    let (state, _) = strict.step(state, Event::Fetched(answer(200, FETCHED)));
    let (state, action) = strict.step(state, Event::Written(answer(200, "")));
    assert_eq!(action, Action::Nothing);
    assert_eq!(state, Orchestration::Done { post_id: "42".to_string(), marked: false, resolved: false });
}

#[test]
fn write_carries_the_patched_post() {
    let h = Handler::default();
    let state = captioning(&h, &post("42", vec![image("A"), image("B")]));
    let (state, _) = h.step(state, Event::Captions(vec![got("A", "a cat"), none("B")]));
    let mut captions = CaptionMap::new();
    captions.insert("A".to_string(), "a cat".to_string());
    assert_eq!(
        state,
        Orchestration::Fetching {
            post_id: "42".to_string(),
            captions: captions.clone(),
            resolved: false,
            retry: Retry::new(),
        }
    );
    let (state, action) = h.step(state, Event::Fetched(answer(200, FETCHED)));
    let payload = PatchPayload::build(FETCHED, &captions).unwrap();
    assert_eq!(payload.status, "look");
    assert_eq!(payload.media_ids, vec!["A".to_string(), "B".to_string()]);
    assert_eq!(
        payload.media_attributes[0],
        Json::Object(vec![
            ("id".to_string(), Json::Text("A".to_string())),
            ("description".to_string(), Json::Text("a cat".to_string())),
        ])
    );
    assert_eq!(action, Action::Write { post_id: "42".to_string(), payload: payload.clone(), delay_millis: 0 });
    assert_eq!(
        state,
        Orchestration::Writing { post_id: "42".to_string(), payload, resolved: false, retry: Retry::new() }
    );
}

#[test]
fn failed_fetch_is_retried_ten_times_then_aborted() {
    let h = Handler::default();
    let state = captioning(&h, &post("42", vec![image("A")]));
    let (mut state, _) = h.step(state, Event::Captions(vec![got("A", "a cat")]));
    let replies = [
        Reply::Unreachable,
        answer(500, FETCHED),
        answer(200, "not json"),
        answer(200, "[]"),
        answer(404, ""),
        Reply::Unreachable,
        Reply::Unreachable,
        Reply::Unreachable,
        Reply::Unreachable,
    ];
    for reply in replies {
        let (s, action) = h.step(state, Event::Fetched(reply));
        assert_eq!(action, Action::Fetch { post_id: "42".to_string(), delay_millis: 2000 });
        state = s;
    }
    let (state, action) = h.step(state, Event::Fetched(Reply::Unreachable));
    assert_eq!((state, action), (Orchestration::Aborted, Action::Nothing));
    let (state, action) = h.step(Orchestration::Aborted, Event::Fetched(answer(200, FETCHED)));
    assert_eq!((state, action), (Orchestration::Aborted, Action::Nothing));
}

#[test]
fn failed_write_is_retried_ten_times_then_aborted() {
    let h = Handler::default();
    let state = captioning(&h, &post("42", vec![image("A")]));
    let (state, _) = h.step(state, Event::Captions(vec![got("A", "a cat")]));
    let (mut state, first) = h.step(state, Event::Fetched(answer(200, FETCHED)));
    let payload = match first {
        Action::Write { payload, delay_millis, .. } => {
            assert_eq!(delay_millis, 0);
            payload
        }
        other => panic!("{:?}", other),
    };
    let mut n = 0;
    while n < 9 {
        let (s, action) = h.step(state, Event::Written(answer(503, "busy")));
        assert_eq!(
            action,
            Action::Write { post_id: "42".to_string(), payload: payload.clone(), delay_millis: 2000 }
        );
        state = s;
        n += 1;
    }
    let (state, action) = h.step(state, Event::Written(Reply::Unreachable));
    assert_eq!((state, action), (Orchestration::Aborted, Action::Nothing));
}

#[test]
fn write_that_recovers_marks_the_post() {
    let h = Handler::default();
    let state = captioning(&h, &post("42", vec![image("A")]));
    let (state, _) = h.step(state, Event::Captions(vec![got("A", "a cat")]));
    let (state, _) = h.step(state, Event::Fetched(Reply::Unreachable));
    let (state, _) = h.step(state, Event::Fetched(answer(200, FETCHED)));
    let (state, _) = h.step(state, Event::Written(answer(500, "")));
    let (state, action) = h.step(state, Event::Written(answer(200, "")));
    assert_eq!(action, Action::MarkDone { post_id: "42".to_string() });
    let (state, action) = h.step(state, Event::Written(answer(200, "")));
    assert_eq!(action, Action::Nothing);
    assert_eq!(state, Orchestration::Done { post_id: "42".to_string(), marked: true, resolved: true });
}

#[test]
fn events_out_of_place_change_nothing() {
    let h = Handler::default();
    let state = captioning(&h, &post("42", vec![image("A")]));
    let (state, action) = h.step(state, Event::Written(answer(200, "")));
    assert_eq!(action, Action::Nothing);
    let (state, action) = h.step(state, Event::Fetched(answer(200, FETCHED)));
    assert_eq!(action, Action::Nothing);
    assert_eq!(
        state,
        Orchestration::Captioning { post_id: "42".to_string(), expected: vec!["A".to_string()], complete: true }
    );
    let (state, _) = h.step(state, Event::Captions(vec![got("A", "a cat")]));
    let (state, action) = h.step(state, Event::Written(answer(200, "")));
    assert_eq!(action, Action::Nothing);
    assert!(matches!(state, Orchestration::Fetching { .. }));
}

#[test]
fn end_to_end_scenario() {
    let handler = Handler::default();
    let mut store = SharedData::load(None).unwrap();
    let update = post("42", vec![image("A")]);
    let (state, action) = handler.begin(&update, "me", &store);
    let jobs = match action {
        Action::Caption(jobs) => jobs,
        other => panic!("{:?}", other),
    };
    assert_eq!(jobs.len(), 1);
    assert_eq!(jobs[0].attachment_id, "A");
    assert_eq!(jobs[0].url, "https://m.example/A.png");
    let mut task = CaptionTask::new(jobs[0].attachment_id.clone());
    let backend = answer(200, "{\"choices\": [{\"message\": {\"content\": \"a red bicycle\"}}]}");
    let outcome = match task.on_result(Vision().read_reply(&backend)) {
        TaskStep::Finished(o) => o,
        other => panic!("{:?}", other),
    };
    assert_eq!(outcome, got("A", "a red bicycle"));
    let (state, action) = handler.step(state, Event::Captions(vec![outcome]));
    assert_eq!(action, Action::Fetch { post_id: "42".to_string(), delay_millis: 0 });
    let minimal = "{\"id\": \"42\", \"media_attachments\": [{\"id\": \"A\"}]}";
    let (state, action) = handler.step(state, Event::Fetched(answer(200, minimal)));
    match &action {
        Action::Write { post_id, payload, delay_millis } => {
            assert_eq!(post_id, "42");
            assert_eq!(*delay_millis, 0);
            assert_eq!(payload.media_ids, vec!["A".to_string()]);
            assert_eq!(payload.media_attributes[0].get("description"), Some(&Json::Text("a red bicycle".to_string())));
        }
        other => panic!("{:?}", other),
    }
    let (state, action) = handler.step(state, Event::Written(answer(200, "{}")));
    assert_eq!(state, Orchestration::Done { post_id: "42".to_string(), marked: true, resolved: true });
    match action {
        Action::MarkDone { post_id } => {
            assert!(store.mark_done(post_id));
        }
        other => panic!("{:?}", other),
    }
    assert!(store.contains("42"));
    let persisted = serde_json::to_string(&store.snapshot()).unwrap();
    assert_eq!(persisted, "[\"42\"]");
    let reloaded = SharedData::load(Some(&persisted)).unwrap();
    assert!(reloaded.contains("42"));
    assert_eq!(handler.begin(&update, "me", &reloaded), (Orchestration::NoOp, Action::Nothing));
}

#[test]
fn fetched_takes_the_replacement_as_it_is_given() {
    let h = Handler::default();
    let mut captions = CaptionMap::new();
    captions.insert("A".to_string(), "a cat".to_string());
    let fetching = || Orchestration::Fetching {
        post_id: "42".to_string(),
        captions: captions.clone(),
        resolved: true,
        retry: Retry::new(),
    };
    let payload = PatchPayload {
        status: "text".to_string(),
        in_reply_to_id: Json::Null,
        media_ids: vec!["A".to_string()],
        media_attributes: vec![Json::Null],
        sensitive: Json::Bool(false),
        spoiler_text: Json::Text(String::new()),
        visibility: Json::Text("public".to_string()),
        language: Json::Text("en".to_string()),
    };
    let (state, action) = h.fetched(fetching(), Some(payload.clone()));
    assert_eq!(action, Action::Write { post_id: "42".to_string(), payload: payload.clone(), delay_millis: 0 });
    assert_eq!(
        state,
        Orchestration::Writing { post_id: "42".to_string(), payload: payload.clone(), resolved: true, retry: Retry::new() }
    );
    let (state, action) = h.fetched(fetching(), None);
    assert_eq!(action, Action::Fetch { post_id: "42".to_string(), delay_millis: 2000 });
    assert!(matches!(state, Orchestration::Fetching { .. }));
    let (state, action) = h.fetched(Orchestration::NoOp, Some(payload));
    assert_eq!((state, action), (Orchestration::NoOp, Action::Nothing));
}
