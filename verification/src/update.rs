//! A post that may need captions, and the work it asks for.

use vstd::prelude::*;

verus! {

/// The language that a post without a declared one is taken to be in.
pub const DEFAULT_LANGUAGE: &'static str = "en";

/// What kind of media an attachment is.
#[derive(Clone, Copy, Debug, PartialEq, Eq, Structural)]
pub enum MediaKind {
    Image,
    Video,
    Gifv,
    Unknown,
}

/// One media item of a post.
#[derive(Debug, PartialEq, Eq)]
pub struct Attachment {
    /// Names the attachment within its post.
    pub id: String,
    pub kind: MediaKind,
    /// The description it has already, if any.
    pub description: Option<String>,
    /// Where the media can be fetched from, if that is known.
    pub url: Option<String>,
}

/// What an `Attachment` holds.
pub struct AttachmentView {
    pub id: Seq<char>,
    pub kind: MediaKind,
    pub description: Option<Seq<char>>,
    pub url: Option<Seq<char>>,
}

impl View for Attachment {
    type V = AttachmentView;

    open spec fn view(&self) -> AttachmentView {
        AttachmentView {
            id: self.id@,
            kind: self.kind,
            description: match self.description {
                Some(d) => Some(d@),
                None => None,
            },
            url: match self.url {
                Some(u) => Some(u@),
                None => None,
            },
        }
    }
}

impl AttachmentView {
    /// The attachment wants a caption: it is an image and has no
    /// description, or an empty one.
    pub open spec fn qualifies(self) -> bool {
        self.kind == MediaKind::Image && (self.description is None || self.description->0.len()
            == 0)
    }

    /// A caption is asked for: the attachment wants one and says where the
    /// image is.
    pub open spec fn submitted(self) -> bool {
        self.qualifies() && self.url is Some
    }
}

/// The news that a post was written or edited.
#[derive(Debug, PartialEq, Eq)]
pub struct Update {
    /// Names the post.
    pub id: String,
    /// Names the account that wrote it.
    pub author_id: String,
    /// The language it declares, if any.
    pub language: Option<String>,
    /// Its body, as the server renders it.
    pub content: String,
    pub attachments: Vec<Attachment>,
}

/// What an `Update` holds.
pub struct UpdateView {
    pub id: Seq<char>,
    pub author_id: Seq<char>,
    pub language: Option<Seq<char>>,
    pub content: Seq<char>,
    pub attachments: Seq<AttachmentView>,
}

impl View for Update {
    type V = UpdateView;

    open spec fn view(&self) -> UpdateView {
        UpdateView {
            id: self.id@,
            author_id: self.author_id@,
            language: match self.language {
                Some(l) => Some(l@),
                None => None,
            },
            content: self.content@,
            attachments: Seq::new(self.attachments.len() as nat, |i: int| self.attachments[i]@),
        }
    }
}

impl UpdateView {
    /// The language that captions for this post are written in.
    pub open spec fn lang_code(self) -> Seq<char> {
        match self.language {
            Some(l) => l,
            None => DEFAULT_LANGUAGE@,
        }
    }

    /// The captions that this post asks for.
    pub open spec fn jobs(self) -> Seq<CaptionJobView> {
        jobs_for(self.attachments, self.lang_code(), self.content)
    }

    /// Every attachment that wants a caption says where its image is.
    pub open spec fn complete(self) -> bool {
        all_reachable(self.attachments)
    }
}

/// One caption to make.
#[derive(Debug, PartialEq, Eq)]
pub struct CaptionJob {
    /// The attachment that the caption is for.
    pub attachment_id: String,
    /// Where its image is.
    pub url: String,
    /// The language to write the caption in.
    pub lang_code: String,
    /// The body of the post, to caption by.
    pub context: String,
}

/// What a `CaptionJob` holds.
pub struct CaptionJobView {
    pub attachment_id: Seq<char>,
    pub url: Seq<char>,
    pub lang_code: Seq<char>,
    pub context: Seq<char>,
}

impl View for CaptionJob {
    type V = CaptionJobView;

    open spec fn view(&self) -> CaptionJobView {
        CaptionJobView {
            attachment_id: self.attachment_id@,
            url: self.url@,
            lang_code: self.lang_code@,
            context: self.context@,
        }
    }
}

/// The job that an attachment asks for.
pub open spec fn job_for(
    attachment: AttachmentView,
    lang_code: Seq<char>,
    context: Seq<char>,
) -> CaptionJobView
    recommends
        attachment.submitted(),
{
    CaptionJobView {
        attachment_id: attachment.id,
        url: attachment.url->0,
        lang_code: lang_code,
        context: context,
    }
}

/// The jobs that a list of attachments asks for: one for each attachment for
/// which a caption is asked, in their order.
pub open spec fn jobs_for(
    attachments: Seq<AttachmentView>,
    lang_code: Seq<char>,
    context: Seq<char>,
) -> Seq<CaptionJobView>
    decreases attachments.len(),
{
    if attachments.len() == 0 {
        Seq::empty()
    } else {
        let front = jobs_for(attachments.drop_last(), lang_code, context);
        if attachments.last().submitted() {
            front.push(job_for(attachments.last(), lang_code, context))
        } else {
            front
        }
    }
}

/// Every attachment that wants a caption says where its image is.
pub open spec fn all_reachable(attachments: Seq<AttachmentView>) -> bool {
    forall|i: int|
        0 <= i < attachments.len() && (#[trigger] attachments[i]).qualifies()
            ==> attachments[i].url is Some
}

/// What to do about one attachment.
#[derive(Debug, PartialEq, Eq)]
pub enum Plan {
    /// It wants no caption.
    Skip,
    /// It wants a caption, but there is no image to look at: it gets none,
    /// and nothing is asked of the captioning service.
    Absent,
    /// Ask for a caption of the image at `url`.
    Submit { url: String },
}

/// What a `Plan` holds.
pub enum PlanView {
    Skip,
    Absent,
    Submit { url: Seq<char> },
}

impl View for Plan {
    type V = PlanView;

    open spec fn view(&self) -> PlanView {
        match self {
            Plan::Skip => PlanView::Skip,
            Plan::Absent => PlanView::Absent,
            Plan::Submit { url } => PlanView::Submit { url: url@ },
        }
    }
}

impl AttachmentView {
    /// What to do about the attachment.
    pub open spec fn plan(self) -> PlanView {
        if !self.qualifies() {
            PlanView::Skip
        } else if self.url is None {
            PlanView::Absent
        } else {
            PlanView::Submit { url: self.url->0 }
        }
    }
}

impl Attachment {
    /// Whether the attachment wants a caption.
    pub fn qualifies(&self) -> (r: bool)
        ensures
            r == self@.qualifies(),
    {
        match self.kind {
            MediaKind::Image => match &self.description {
                None => true,
                Some(d) => d.as_str().is_empty(),
            },
            _ => false,
        }
    }

    /// What to do about the attachment.
    pub fn plan(&self) -> (r: Plan)
        ensures
            r@ == self@.plan(),
    {
        if !self.qualifies() {
            Plan::Skip
        } else {
            match &self.url {
                None => Plan::Absent,
                Some(url) => Plan::Submit { url: url.clone() },
            }
        }
    }
}

impl Update {
    /// The language that captions for this post are written in.
    pub fn lang_code(&self) -> (r: String)
        ensures
            r@ == self@.lang_code(),
    {
        match &self.language {
            Some(l) => l.clone(),
            None => DEFAULT_LANGUAGE.to_owned(),
        }
    }

    /// The captions that this post asks for.
    pub fn jobs(&self) -> (r: Vec<CaptionJob>)
        ensures
            Seq::new(r.len() as nat, |i: int| r[i]@) == self@.jobs(),
    {
        let lang = self.lang_code();
        let ghost all = self@.attachments;
        let mut out: Vec<CaptionJob> = Vec::new();
        let mut i: usize = 0;
        assert(all.take(0) =~= Seq::<AttachmentView>::empty());
        while i < self.attachments.len()
            invariant
                i <= self.attachments.len(),
                all == self@.attachments,
                lang@ == self@.lang_code(),
                Seq::new(out.len() as nat, |k: int| out[k]@) == jobs_for(
                    all.take(i as int),
                    lang@,
                    self.content@,
                ),
            decreases self.attachments.len() - i,
        {
            let ghost before = Seq::new(out.len() as nat, |k: int| out[k]@);
            assert(all.take(i + 1).drop_last() =~= all.take(i as int));
            assert(all.take(i + 1).last() == self.attachments[i as int]@);
            match self.attachments[i].plan() {
                Plan::Submit { url } => {
                    let job = CaptionJob {
                        attachment_id: self.attachments[i].id.clone(),
                        url,
                        lang_code: lang.clone(),
                        context: self.content.clone(),
                    };
                    out.push(job);
                    assert(Seq::new(out.len() as nat, |k: int| out[k]@) =~= before.push(
                        job_for(self.attachments[i as int]@, lang@, self.content@),
                    ));
                },
                _ => {
                    assert(Seq::new(out.len() as nat, |k: int| out[k]@) =~= before);
                },
            }
            i = i + 1;
        }
        assert(all.take(all.len() as int) =~= all);
        out
    }

    /// Whether every attachment that wants a caption says where its image
    /// is.
    pub fn complete(&self) -> (r: bool)
        ensures
            r == self@.complete(),
    {
        let mut i: usize = 0;
        while i < self.attachments.len()
            invariant
                i <= self.attachments.len(),
                forall|k: int|
                    0 <= k < i && (#[trigger] self@.attachments[k]).qualifies()
                        ==> self@.attachments[k].url is Some,
            decreases self.attachments.len() - i,
        {
            if self.attachments[i].qualifies() && self.attachments[i].url.is_none() {
                assert(self@.attachments[i as int].qualifies());
                return false;
            }
            i = i + 1;
        }
        true
    }
}

impl Clone for CaptionJob {
    fn clone(&self) -> (r: CaptionJob)
        ensures
            r@ == self@,
    {
        CaptionJob {
            attachment_id: self.attachment_id.clone(),
            url: self.url.clone(),
            lang_code: self.lang_code.clone(),
            context: self.context.clone(),
        }
    }
}

/// Every job stands for an attachment for which a caption is asked: an
/// image, without a description of its own, whose address is known. So an
/// attachment of another kind, one that has a description, and one without
/// an address give no job.
pub proof fn law_jobs_only_for_submitted(
    attachments: Seq<AttachmentView>,
    lang_code: Seq<char>,
    context: Seq<char>,
    j: int,
) -> (i: int)
    requires
        0 <= j < jobs_for(attachments, lang_code, context).len(),
    ensures
        0 <= i < attachments.len(),
        attachments[i].submitted(),
        attachments[i].kind == MediaKind::Image,
        attachments[i].description is None || attachments[i].description->0.len() == 0,
        attachments[i].url is Some,
        jobs_for(attachments, lang_code, context)[j] == job_for(attachments[i], lang_code, context),
    decreases attachments.len(),
{
    let front = jobs_for(attachments.drop_last(), lang_code, context);
    if attachments.last().submitted() && j == front.len() {
        attachments.len() - 1
    } else {
        law_jobs_only_for_submitted(attachments.drop_last(), lang_code, context, j)
    }
}

/// Every attachment for which a caption is asked gets a job, and jobs stand
/// in the order of their attachments.
pub proof fn law_every_submitted_gets_a_job(
    attachments: Seq<AttachmentView>,
    lang_code: Seq<char>,
    context: Seq<char>,
    i: int,
) -> (j: int)
    requires
        0 <= i < attachments.len(),
        attachments[i].submitted(),
    ensures
        0 <= j < jobs_for(attachments, lang_code, context).len(),
        jobs_for(attachments, lang_code, context)[j] == job_for(attachments[i], lang_code, context),
    decreases attachments.len(),
{
    let front = jobs_for(attachments.drop_last(), lang_code, context);
    if i == attachments.len() - 1 {
        front.len() as int
    } else {
        law_every_submitted_gets_a_job(attachments.drop_last(), lang_code, context, i)
    }
}

} // verus!
