//! The replacement of a post: what is sent back to the server when captions
//! have been made for some of its attachments.

use crate::captions::CaptionMap;
use crate::config::Config;
use crate::json::{decoded, Json, JsonView};
use crate::markup::{strip_tags, tags_stripped, MARKUP_LIMIT};
use crate::reply::Reply;
use crate::text::{replace_breaks, with_breaks_replaced};
use vstd::prelude::*;
use vstd::string::StringExecFns;

verus! {

/// The body text of a fetched post: its member `content` where that is a
/// text, the empty text otherwise.
pub open spec fn content_of(doc: JsonView) -> Seq<char> {
    match doc.text_field("content"@) {
        Some(s) => s,
        None => Seq::empty(),
    }
}

/// The member `key` of a fetched post as it stands, `null` where the post
/// has none.
pub open spec fn carried(doc: JsonView, key: Seq<char>) -> JsonView {
    match doc.field(key) {
        Some(v) => v,
        None => JsonView::Null,
    }
}

/// The attachments of a fetched post: the items of its member
/// `media_attachments` where that is an array, none otherwise.
pub open spec fn attachments_of(doc: JsonView) -> Seq<JsonView> {
    match doc.field("media_attachments"@) {
        Some(JsonView::Array(items)) => items,
        _ => Seq::empty(),
    }
}

/// The identifier of an attachment: its member `id` where that is a text.
pub open spec fn attachment_id(attachment: JsonView) -> Option<Seq<char>> {
    attachment.text_field("id"@)
}

/// The attachment as it is sent back: with its new caption as member
/// `description` where the map has one for it, unchanged otherwise.
pub open spec fn captioned(attachment: JsonView, captions: Map<Seq<char>, Seq<char>>) -> JsonView {
    match attachment_id(attachment) {
        Some(id) => if captions.contains_key(id) {
            attachment.with_field("description"@, JsonView::Text(captions[id]))
        } else {
            attachment
        },
        None => attachment,
    }
}

/// The identifiers of the attachments, in their order. An attachment
/// without one adds nothing.
pub open spec fn media_ids(attachments: Seq<JsonView>) -> Seq<Seq<char>>
    decreases attachments.len(),
{
    if attachments.len() == 0 {
        Seq::empty()
    } else {
        let front = media_ids(attachments.drop_last());
        match attachment_id(attachments.last()) {
            Some(id) => front.push(id),
            None => front,
        }
    }
}

/// The body text as it is sent back: line break markup turned into newline
/// characters, then all other markup taken out. An empty body stays empty.
pub open spec fn plain_status(content: Seq<char>) -> Seq<char> {
    if content.len() == 0 {
        Seq::empty()
    } else {
        tags_stripped(with_breaks_replaced(content))
    }
}

/// What a `PatchPayload` holds. The poll of a post is never sent back, so
/// it has no place here.
pub struct PatchPayloadView {
    pub status: Seq<char>,
    pub in_reply_to_id: JsonView,
    pub media_ids: Seq<Seq<char>>,
    pub media_attributes: Seq<JsonView>,
    pub sensitive: JsonView,
    pub spoiler_text: JsonView,
    pub visibility: JsonView,
    pub language: JsonView,
}

/// The replacement for the fetched post `doc`, given new captions.
pub open spec fn patched(doc: JsonView, captions: Map<Seq<char>, Seq<char>>) -> PatchPayloadView {
    PatchPayloadView {
        status: plain_status(content_of(doc)),
        in_reply_to_id: carried(doc, "in_reply_to_id"@),
        media_ids: media_ids(attachments_of(doc)),
        media_attributes: attachments_of(doc).map_values(|a: JsonView| captioned(a, captions)),
        sensitive: carried(doc, "sensitive"@),
        spoiler_text: carried(doc, "spoiler_text"@),
        visibility: carried(doc, "visibility"@),
        language: carried(doc, "language"@),
    }
}

/// The replacement as the JSON object that the server takes. The poll is
/// sent as `null`: a poll cannot be edited.
pub open spec fn payload_document(p: PatchPayloadView) -> JsonView {
    JsonView::Object(
        seq![
            ("status"@, JsonView::Text(p.status)),
            ("in_reply_to_id"@, p.in_reply_to_id),
            ("media_ids"@, JsonView::Array(p.media_ids.map_values(|id: Seq<char>| JsonView::Text(id)))),
            ("media_attributes"@, JsonView::Array(p.media_attributes)),
            ("sensitive"@, p.sensitive),
            ("spoiler_text"@, p.spoiler_text),
            ("visibility"@, p.visibility),
            ("poll"@, JsonView::Null),
            ("language"@, p.language),
        ],
    )
}

/// Whether a replacement can be made from a fetched text: it decodes to a
/// JSON object whose body text is within `MARKUP_LIMIT`.
pub open spec fn patchable(raw: Seq<char>) -> bool {
    &&& decoded(raw) is Some
    &&& decoded(raw)->0 is Object
    &&& content_of(decoded(raw)->0).len() <= MARKUP_LIMIT
}

/// The replacement of a post.
#[derive(Debug, PartialEq, Eq)]
pub struct PatchPayload {
    /// The body, as plain text.
    pub status: String,
    /// The post that this one answers, as fetched.
    pub in_reply_to_id: Json,
    /// The attachments that stay with the post.
    pub media_ids: Vec<String>,
    /// The attachments with their captions.
    pub media_attributes: Vec<Json>,
    /// Whether the media are hidden behind a warning, as fetched.
    pub sensitive: Json,
    /// The warning text, as fetched.
    pub spoiler_text: Json,
    /// Who may see the post, as fetched.
    pub visibility: Json,
    /// The language of the post, as fetched.
    pub language: Json,
}

impl View for PatchPayload {
    type V = PatchPayloadView;

    open spec fn view(&self) -> PatchPayloadView {
        PatchPayloadView {
            status: self.status@,
            in_reply_to_id: self.in_reply_to_id@,
            media_ids: Seq::new(self.media_ids.len() as nat, |i: int| self.media_ids[i]@),
            media_attributes: Seq::new(
                self.media_attributes.len() as nat,
                |i: int| self.media_attributes[i]@,
            ),
            sensitive: self.sensitive@,
            spoiler_text: self.spoiler_text@,
            visibility: self.visibility@,
            language: self.language@,
        }
    }
}

/// Taking line break markup out never makes a text longer.
pub proof fn lemma_breaks_replaced_len(s: Seq<char>)
    ensures
        with_breaks_replaced(s).len() <= s.len(),
    decreases s.len(),
{
    if s.len() > 0 {
        if crate::text::line_break().is_prefix_of(s) {
            lemma_breaks_replaced_len(s.skip(6));
        } else {
            lemma_breaks_replaced_len(s.skip(1));
        }
    }
}

/// A post without a body text, or with one that is no text, is sent back
/// with an empty body; and so with every member that it lacks: `null`
/// stands for it, and no attachment for a missing list of attachments.
pub proof fn law_missing_members_degrade(doc: JsonView, captions: Map<Seq<char>, Seq<char>>)
    ensures
        doc.text_field("content"@) is None ==> patched(doc, captions).status == Seq::<char>::empty(),
        doc.field("in_reply_to_id"@) is None ==> patched(doc, captions).in_reply_to_id
            == JsonView::Null,
        doc.field("sensitive"@) is None ==> patched(doc, captions).sensitive == JsonView::Null,
        doc.field("spoiler_text"@) is None ==> patched(doc, captions).spoiler_text
            == JsonView::Null,
        doc.field("visibility"@) is None ==> patched(doc, captions).visibility == JsonView::Null,
        doc.field("language"@) is None ==> patched(doc, captions).language == JsonView::Null,
        doc.field("media_attachments"@) is None ==> patched(doc, captions).media_ids.len() == 0
            && patched(doc, captions).media_attributes.len() == 0,
{
}

/// An attachment that is given a caption carries it as its description,
/// keeps its identifier, and keeps every other member as it was.
pub proof fn law_captioned_carries_caption(
    attachment: JsonView,
    captions: Map<Seq<char>, Seq<char>>,
    other: Seq<char>,
)
    requires
        attachment_id(attachment) is Some,
        captions.contains_key(attachment_id(attachment)->0),
    ensures
        captioned(attachment, captions).text_field("description"@) == Some(
            captions[attachment_id(attachment)->0],
        ),
        attachment_id(captioned(attachment, captions)) == attachment_id(attachment),
        other != "description"@ ==> captioned(attachment, captions).field(other)
            == attachment.field(other),
{
    reveal_strlit("description");
    reveal_strlit("id");
    assert("id"@.len() != "description"@.len());
    let id = attachment_id(attachment)->0;
    let members = attachment->Object_0;
    crate::json::lemma_updated_lookup(
        members,
        "description"@,
        JsonView::Text(captions[id]),
        "id"@,
    );
    crate::json::lemma_updated_lookup(members, "description"@, JsonView::Text(captions[id]), other);
}

/// An attachment without a caption of its own is sent back as it came.
pub proof fn law_uncaptioned_is_unchanged(attachment: JsonView, captions: Map<Seq<char>, Seq<char>>)
    requires
        attachment_id(attachment) is None || !captions.contains_key(attachment_id(attachment)->0),
    ensures
        captioned(attachment, captions) == attachment,
{
}

/// Every attachment of the post stays with it: the identifier of each is
/// among those sent back, whether or not it got a caption.
pub proof fn law_media_ids_keep_every_attachment(attachments: Seq<JsonView>, i: int)
    requires
        0 <= i < attachments.len(),
        attachment_id(attachments[i]) is Some,
    ensures
        media_ids(attachments).contains(attachment_id(attachments[i])->0),
    decreases attachments.len(),
{
    let front = media_ids(attachments.drop_last());
    let id = attachment_id(attachments[i])->0;
    if i == attachments.len() - 1 {
        assert(front.push(id)[front.len() as int] == id);
    } else {
        law_media_ids_keep_every_attachment(attachments.drop_last(), i);
        let k = choose|k: int| 0 <= k < front.len() && front[k] == id;
        assert(media_ids(attachments)[k] == id);
    }
}

/// A copy of the member `key`, `null` where the document has none.
fn carry(doc: &Json, key: &str) -> (r: Json)
    ensures
        r@ == carried(doc@, key@),
{
    match doc.get(key) {
        Some(v) => v.clone(),
        None => Json::Null,
    }
}

impl PatchPayload {
    /// The replacement for an already decoded post.
    pub fn from_document(doc: &Json, captions: &CaptionMap) -> (r: PatchPayload)
        requires
            content_of(doc@).len() <= MARKUP_LIMIT,
        ensures
            r@ == patched(doc@, captions@),
    {
        let status = match doc.text_field("content") {
            Some(content) => {
                if content.as_str().is_empty() {
                    String::new()
                } else {
                    let replaced = replace_breaks(content.as_str());
                    proof {
                        lemma_breaks_replaced_len(content@);
                    }
                    strip_tags(replaced.as_str())
                }
            },
            None => String::new(),
        };
        let mut ids: Vec<String> = Vec::new();
        let mut attributes: Vec<Json> = Vec::new();
        let ghost all = attachments_of(doc@);
        match doc.get("media_attachments") {
            Some(list) => match list.as_array() {
                Some(items) => {
                    let mut i: usize = 0;
                    assert(all.take(0) =~= Seq::<JsonView>::empty());
                    while i < items.len()
                        invariant
                            i <= items.len(),
                            all.len() == items.len(),
                            forall|k: int| 0 <= k < items.len() ==> all[k] == #[trigger] items[k]@,
                            attributes.len() == i,
                            forall|k: int|
                                0 <= k < i ==> (#[trigger] attributes[k])@ == captioned(
                                    all[k],
                                    captions@,
                                ),
                            Seq::new(ids.len() as nat, |k: int| ids[k]@) == media_ids(
                                all.take(i as int),
                            ),
                        decreases items.len() - i,
                    {
                        let item = &items[i];
                        let ghost before = Seq::new(ids.len() as nat, |k: int| ids[k]@);
                        assert(all.take(i + 1).drop_last() =~= all.take(i as int));
                        assert(all.take(i + 1).last() == all[i as int]);
                        match item.text_field("id") {
                            Some(id) => {
                                ids.push(id.clone());
                                assert(Seq::new(ids.len() as nat, |k: int| ids[k]@) =~= before.push(
                                    id@,
                                ));
                                match captions.get(id.as_str()) {
                                    Some(caption) => {
                                        attributes.push(
                                            item.clone().with_field(
                                                "description".to_owned(),
                                                Json::Text(caption.clone()),
                                            ),
                                        );
                                    },
                                    None => {
                                        attributes.push(item.clone());
                                    },
                                }
                            },
                            None => {
                                assert(Seq::new(ids.len() as nat, |k: int| ids[k]@) =~= before);
                                attributes.push(item.clone());
                            },
                        }
                        i = i + 1;
                    }
                    assert(all.take(all.len() as int) =~= all);
                },
                None => {},
            },
            None => {},
        }
        let r = PatchPayload {
            status,
            in_reply_to_id: carry(doc, "in_reply_to_id"),
            media_ids: ids,
            media_attributes: attributes,
            sensitive: carry(doc, "sensitive"),
            spoiler_text: carry(doc, "spoiler_text"),
            visibility: carry(doc, "visibility"),
            language: carry(doc, "language"),
        };
        proof {
            assert(r@.media_attributes =~= patched(doc@, captions@).media_attributes);
            assert(r@.media_ids =~= patched(doc@, captions@).media_ids);
        }
        r
    }

    /// The replacement as the JSON object that the server takes.
    pub fn to_json(&self) -> (r: Json)
        ensures
            r@ == payload_document(self@),
    {
        let mut ids: Vec<Json> = Vec::new();
        let mut i: usize = 0;
        while i < self.media_ids.len()
            invariant
                i <= self.media_ids.len(),
                ids.len() == i,
                forall|k: int| 0 <= k < i ==> (#[trigger] ids[k])@ == JsonView::Text(self.media_ids[k]@),
            decreases self.media_ids.len() - i,
        {
            ids.push(Json::Text(self.media_ids[i].clone()));
            i = i + 1;
        }
        let mut attributes: Vec<Json> = Vec::new();
        let mut j: usize = 0;
        while j < self.media_attributes.len()
            invariant
                j <= self.media_attributes.len(),
                attributes.len() == j,
                forall|k: int| 0 <= k < j ==> (#[trigger] attributes[k])@ == self.media_attributes[k]@,
            decreases self.media_attributes.len() - j,
        {
            attributes.push(self.media_attributes[j].clone());
            j = j + 1;
        }
        let ids_json = Json::Array(ids);
        let attributes_json = Json::Array(attributes);
        proof {
            assert(ids_json@->Array_0 =~= self@.media_ids.map_values(
                |id: Seq<char>| JsonView::Text(id),
            ));
            assert(attributes_json@->Array_0 =~= self@.media_attributes);
        }
        let mut members: Vec<(String, Json)> = Vec::new();
        members.push(("status".to_owned(), Json::Text(self.status.clone())));
        members.push(("in_reply_to_id".to_owned(), self.in_reply_to_id.clone()));
        members.push(("media_ids".to_owned(), ids_json));
        members.push(("media_attributes".to_owned(), attributes_json));
        members.push(("sensitive".to_owned(), self.sensitive.clone()));
        members.push(("spoiler_text".to_owned(), self.spoiler_text.clone()));
        members.push(("visibility".to_owned(), self.visibility.clone()));
        members.push(("poll".to_owned(), Json::Null));
        members.push(("language".to_owned(), self.language.clone()));
        proof {
            assert(members[0].1@ == JsonView::Text(self@.status));
            assert(members[7].1@ == JsonView::Null);
        }
        let r = Json::Object(members);
        proof {
            let want = payload_document(self@)->Object_0;
            assert(r@->Object_0.len() == 9);
            assert(forall|k: int| 0 <= k < 9 ==> r@->Object_0[k] == (members[k].0@, members[k].1@));
            assert(r@->Object_0[0] == want[0]);
            assert(r@->Object_0[1] == want[1]);
            assert(r@->Object_0[2] == want[2]);
            assert(r@->Object_0[3] == want[3]);
            assert(r@->Object_0[4] == want[4]);
            assert(r@->Object_0[5] == want[5]);
            assert(r@->Object_0[6] == want[6]);
            assert(r@->Object_0[7] == want[7]);
            assert(r@->Object_0[8] == want[8]);
            assert(r@->Object_0 =~= want);
        }
        r
    }

    /// The replacement for a post as it was fetched, given new captions.
    /// `None` where the fetched text is no JSON object, or its body text is
    /// longer than `MARKUP_LIMIT`.
    pub fn build(raw: &str, captions: &CaptionMap) -> (r: Option<PatchPayload>)
        ensures
            r is Some <==> patchable(raw@),
            r matches Some(p) ==> p@ == patched(decoded(raw@)->0, captions@),
    {
        match Json::parse(raw) {
            Some(doc) => {
                if !doc.is_object() {
                    return None;
                }
                let fits = match doc.text_field("content") {
                    Some(content) => content.as_str().unicode_len() <= MARKUP_LIMIT,
                    None => true,
                };
                if fits {
                    Some(PatchPayload::from_document(&doc, captions))
                } else {
                    None
                }
            },
            None => None,
        }
    }
}

impl Clone for PatchPayload {
    fn clone(&self) -> (r: PatchPayload)
        ensures
            r@ == self@,
    {
        let mut ids: Vec<String> = Vec::new();
        let mut i: usize = 0;
        while i < self.media_ids.len()
            invariant
                i <= self.media_ids.len(),
                ids.len() == i,
                forall|k: int| 0 <= k < i ==> (#[trigger] ids[k])@ == self.media_ids[k]@,
            decreases self.media_ids.len() - i,
        {
            ids.push(self.media_ids[i].clone());
            i = i + 1;
        }
        let mut attributes: Vec<Json> = Vec::new();
        let mut j: usize = 0;
        while j < self.media_attributes.len()
            invariant
                j <= self.media_attributes.len(),
                attributes.len() == j,
                forall|k: int| 0 <= k < j ==> (#[trigger] attributes[k])@ == self.media_attributes[k]@,
            decreases self.media_attributes.len() - j,
        {
            attributes.push(self.media_attributes[j].clone());
            j = j + 1;
        }
        let r = PatchPayload {
            status: self.status.clone(),
            in_reply_to_id: self.in_reply_to_id.clone(),
            media_ids: ids,
            media_attributes: attributes,
            sensitive: self.sensitive.clone(),
            spoiler_text: self.spoiler_text.clone(),
            visibility: self.visibility.clone(),
            language: self.language.clone(),
        };
        proof {
            assert(r@.media_ids =~= self@.media_ids);
            assert(r@.media_attributes =~= self@.media_attributes);
        }
        r
    }
}

/// The paths and headers of the requests that read and rewrite posts, for
/// one account.
#[derive(Debug)]
pub struct MastodonPatch {
    config: Config,
}

impl MastodonPatch {
    /// The settings these requests are made with.
    pub closed spec fn config(&self) -> Config {
        self.config
    }

    /// The address of the post `message_id` on a server.
    pub open spec fn status_address(base: Seq<char>, message_id: Seq<char>) -> Seq<char> {
        base + "/api/v1/statuses/"@ + message_id
    }

    /// The address of the attachment `image_id` on a server.
    pub open spec fn media_address(base: Seq<char>, image_id: Seq<char>) -> Seq<char> {
        base + "/api/v1/media/"@ + image_id
    }

    /// The value of the header that carries an access token.
    pub open spec fn bearer(token: Seq<char>) -> Seq<char> {
        "Bearer "@ + token
    }

    /// The body of a request that gives one attachment a description.
    pub open spec fn description_document(description: Seq<char>) -> JsonView {
        JsonView::Object(seq![("description"@, JsonView::Text(description))])
    }

    /// The requests for the account that `config` names.
    pub fn new(config: Config) -> (r: MastodonPatch)
        ensures
            r.config() == config,
    {
        Self { config }
    }

    /// Where the post `message_id` is read and rewritten.
    pub fn status_url(&self, message_id: &str) -> (r: String)
        ensures
            r@ == Self::status_address(self.config()@.mastodon_base_url, message_id@),
    {
        let mut url = self.config.get_mastodon_base_url();
        url.append("/api/v1/statuses/");
        url.append(message_id);
        url
    }

    /// Where the attachment `image_id` is rewritten.
    pub fn media_url(&self, image_id: &str) -> (r: String)
        ensures
            r@ == Self::media_address(self.config()@.mastodon_base_url, image_id@),
    {
        let mut url = self.config.get_mastodon_base_url();
        url.append("/api/v1/media/");
        url.append(image_id);
        url
    }

    /// The value of the `Authorization` header of every request.
    pub fn authorization(&self) -> (r: String)
        ensures
            r@ == Self::bearer(self.config()@.mastodon_access_token),
    {
        let token = self.config.get_mastodon_access_token();
        let mut header = "Bearer ".to_owned();
        header.append(token.as_str());
        header
    }

    /// The body of the request that gives one attachment a description.
    pub fn description_body(image_description: &str) -> (r: Json)
        ensures
            r@ == Self::description_document(image_description@),
    {
        let mut members: Vec<(String, Json)> = Vec::new();
        members.push(("description".to_owned(), Json::Text(image_description.to_owned())));
        proof {
            assert(members[0].1@ == JsonView::Text(image_description@));
        }
        let r = Json::Object(members);
        proof {
            assert(r@->Object_0[0] == (members[0].0@, members[0].1@));
            assert(r@->Object_0 =~= Self::description_document(image_description@)->Object_0);
        }
        r
    }

    /// Whether the request that gives one attachment a description took
    /// effect, as far as the server says. `None` where the server was not
    /// reached.
    pub fn description_changed(reply: &Reply) -> (r: Option<bool>)
        ensures
            r == match reply@ {
                crate::reply::ReplyView::Unreachable => None::<bool>,
                crate::reply::ReplyView::Answer { status, body } => Some(
                    crate::reply::is_success(status),
                ),
            },
    {
        match reply {
            Reply::Unreachable => None,
            Reply::Answer { status, body } => Some(crate::reply::success(*status)),
        }
    }

    /// The fetched post, where the server gave it.
    pub fn fetched_body(reply: &Reply) -> (r: Option<&String>)
        ensures
            match r {
                Some(b) => reply@.success_body() == Some(b@),
                None => reply@.success_body() is None,
            },
    {
        reply.success_body()
    }

    /// The replacement for a post as it was fetched, given new captions.
    pub fn payload(raw: &str, captions: &CaptionMap) -> (r: Option<PatchPayload>)
        ensures
            r is Some <==> patchable(raw@),
            r matches Some(p) ==> p@ == patched(decoded(raw@)->0, captions@),
    {
        PatchPayload::build(raw, captions)
    }
}

} // verus!
