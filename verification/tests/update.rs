use masto_vision::update::{Attachment, CaptionJob, MediaKind, Plan, Update};

fn attachment(id: &str, kind: MediaKind, description: Option<&str>, url: Option<&str>) -> Attachment {
    Attachment {
        id: id.to_string(),
        kind,
        description: description.map(|d| d.to_string()),
        url: url.map(|u| u.to_string()),
    }
}

fn update(language: Option<&str>, attachments: Vec<Attachment>) -> Update {
    Update {
        id: "1".to_string(),
        author_id: "me".to_string(),
        language: language.map(|l| l.to_string()),
        content: "<p>body</p>".to_string(),
        attachments,
    }
}

#[test]
fn video_is_never_submitted() {
    assert_eq!(attachment("v", MediaKind::Video, None, Some("u")).plan(), Plan::Skip);
    assert_eq!(attachment("v", MediaKind::Video, Some(""), Some("u")).plan(), Plan::Skip);
    assert_eq!(attachment("v", MediaKind::Video, Some("a film"), Some("u")).plan(), Plan::Skip);
    assert_eq!(attachment("g", MediaKind::Gifv, None, Some("u")).plan(), Plan::Skip);
    assert_eq!(attachment("x", MediaKind::Unknown, None, Some("u")).plan(), Plan::Skip);
}

#[test]
fn described_image_is_never_submitted() {
    let a = attachment("i", MediaKind::Image, Some("a tree"), Some("u"));
    assert!(!a.qualifies());
    assert_eq!(a.plan(), Plan::Skip);
    let b = attachment("i", MediaKind::Image, Some(" "), Some("u"));
    assert_eq!(b.plan(), Plan::Skip);
}

#[test]
fn image_without_address_gets_no_caption_and_no_call() {
    let a = attachment("i", MediaKind::Image, None, None);
    assert!(a.qualifies());
    assert_eq!(a.plan(), Plan::Absent);
    assert!(update(None, vec![a]).jobs().is_empty());
}

#[test]
fn undescribed_image_is_submitted() {
    assert_eq!(
        attachment("i", MediaKind::Image, None, Some("https://x/i.png")).plan(),
        Plan::Submit { url: "https://x/i.png".to_string() }
    );
    assert_eq!(
        attachment("i", MediaKind::Image, Some(""), Some("https://x/i.png")).plan(),
        Plan::Submit { url: "https://x/i.png".to_string() }
    );
}

#[test]
fn jobs_follow_the_attachments_in_order() {
    let u = update(
        Some("de"),
        vec![
            attachment("a", MediaKind::Image, None, Some("ua")),
            attachment("b", MediaKind::Video, None, Some("ub")),
            attachment("c", MediaKind::Image, Some("done"), Some("uc")),
            attachment("d", MediaKind::Image, None, None),
            attachment("e", MediaKind::Image, Some(""), Some("ue")),
        ],
    );
    let job = |id: &str, url: &str| CaptionJob {
        attachment_id: id.to_string(),
        url: url.to_string(),
        lang_code: "de".to_string(),
        context: "<p>body</p>".to_string(),
    };
    assert_eq!(u.jobs(), vec![job("a", "ua"), job("e", "ue")]);
    assert!(!u.complete());
}

#[test]
fn language_falls_back_to_english() {
    assert_eq!(update(None, vec![]).lang_code(), "en");
    assert_eq!(update(Some("pl"), vec![]).lang_code(), "pl");
    let u = update(None, vec![attachment("a", MediaKind::Image, None, Some("ua"))]);
    assert_eq!(u.jobs()[0].lang_code, "en");
}

#[test]
fn complete_when_every_wanting_attachment_has_an_address() {
    assert!(update(None, vec![]).complete());
    assert!(update(
        None,
        vec![
            attachment("a", MediaKind::Image, None, Some("ua")),
            attachment("b", MediaKind::Video, None, None),
            attachment("c", MediaKind::Image, Some("x"), None),
        ]
    )
    .complete());
}

#[test]
fn job_clone_is_equal() {
    let j = CaptionJob {
        attachment_id: "a".to_string(),
        url: "u".to_string(),
        lang_code: "en".to_string(),
        context: "c".to_string(),
    };
    assert_eq!(j.clone(), j);
}
