//! The handling of one update from the news of it to the rewritten post:
//! a machine that takes what happened and says what to do next.

use crate::captions::CaptionMap;
use crate::patch::{patchable, patched, PatchPayload, PatchPayloadView};
use crate::json::decoded;
use crate::reply::{Reply, ReplyView};
use crate::retry::{Retry, Verdict};
use crate::shared_data::SharedData;
use crate::task::{absent, Outcome, OutcomeView};
use crate::text::{blank, is_blank};
use crate::update::{job_for, law_every_submitted_gets_a_job, CaptionJob, CaptionJobView, Update, UpdateView};
use vstd::prelude::*;

verus! {

/// When a rewritten post is recorded as done with.
#[derive(Clone, Copy, Debug, PartialEq, Eq, Structural)]
pub enum MarkPolicy {
    /// As soon as a rewrite of the post went through, whether or not every
    /// attachment that wanted a caption got one. A post is never rewritten
    /// twice.
    AfterWrite,
    /// Only when the rewrite gave a caption to every attachment that wanted
    /// one. A post with an attachment left over is taken up again.
    AfterFullResolution,
}

impl MarkPolicy {
    /// Whether a rewrite that went through is recorded.
    pub open spec fn marks(self, resolved: bool) -> bool {
        self == MarkPolicy::AfterWrite || resolved
    }
}

/// Where the handling of one update stands.
#[derive(Debug, PartialEq, Eq)]
pub enum Orchestration {
    /// The captions are being made.
    Captioning { post_id: String, expected: Vec<String>, complete: bool },
    /// The post is being fetched.
    Fetching { post_id: String, captions: CaptionMap, resolved: bool, retry: Retry },
    /// The rewritten post is being sent.
    Writing { post_id: String, payload: PatchPayload, resolved: bool, retry: Retry },
    /// The rewrite went through. `resolved` says whether every attachment
    /// that wanted a caption got one, `marked` whether the post was to be
    /// recorded.
    Done { post_id: String, marked: bool, resolved: bool },
    /// There was nothing to do.
    NoOp,
    /// Fetching or sending was given up.
    Aborted,
}

/// What an `Orchestration` holds.
pub enum OrchestrationView {
    Captioning { post_id: Seq<char>, expected: Seq<Seq<char>>, complete: bool },
    Fetching { post_id: Seq<char>, captions: Map<Seq<char>, Seq<char>>, resolved: bool, retry: Retry },
    Writing { post_id: Seq<char>, payload: PatchPayloadView, resolved: bool, retry: Retry },
    Done { post_id: Seq<char>, marked: bool, resolved: bool },
    NoOp,
    Aborted,
}

impl View for Orchestration {
    type V = OrchestrationView;

    open spec fn view(&self) -> OrchestrationView {
        match self {
            Orchestration::Captioning { post_id, expected, complete } => {
                OrchestrationView::Captioning {
                    post_id: post_id@,
                    expected: Seq::new(expected.len() as nat, |i: int| expected[i]@),
                    complete: *complete,
                }
            },
            Orchestration::Fetching { post_id, captions, resolved, retry } => {
                OrchestrationView::Fetching {
                    post_id: post_id@,
                    captions: captions@,
                    resolved: *resolved,
                    retry: *retry,
                }
            },
            Orchestration::Writing { post_id, payload, resolved, retry } => {
                OrchestrationView::Writing {
                    post_id: post_id@,
                    payload: payload@,
                    resolved: *resolved,
                    retry: *retry,
                }
            },
            Orchestration::Done { post_id, marked, resolved } => OrchestrationView::Done {
                post_id: post_id@,
                marked: *marked,
                resolved: *resolved,
            },
            Orchestration::NoOp => OrchestrationView::NoOp,
            Orchestration::Aborted => OrchestrationView::Aborted,
        }
    }
}

impl OrchestrationView {
    /// Nothing more happens from here.
    pub open spec fn terminal(self) -> bool {
        self is Done || self is NoOp || self is Aborted
    }
}

/// What happened.
#[derive(Debug, PartialEq, Eq)]
pub enum Event {
    /// All captioning tasks are over, with these outcomes.
    Captions(Vec<Outcome>),
    /// The request for the post came back.
    Fetched(Reply),
    /// The request that sends the rewritten post came back.
    Written(Reply),
}

/// What an `Event` holds.
pub enum EventView {
    Captions(Seq<OutcomeView>),
    Fetched(ReplyView),
    Written(ReplyView),
}

impl View for Event {
    type V = EventView;

    open spec fn view(&self) -> EventView {
        match self {
            Event::Captions(outcomes) => EventView::Captions(
                Seq::new(outcomes.len() as nat, |i: int| outcomes[i]@),
            ),
            Event::Fetched(reply) => EventView::Fetched(reply@),
            Event::Written(reply) => EventView::Written(reply@),
        }
    }
}

/// What to do next.
#[derive(Debug, PartialEq, Eq)]
pub enum Action {
    /// Start all these captioning tasks at once, wait for all of them, and
    /// come back with their outcomes.
    Caption(Vec<CaptionJob>),
    /// Wait `delay_millis`, fetch the post, and come back with the reply.
    Fetch { post_id: String, delay_millis: u64 },
    /// Wait `delay_millis`, send the rewritten post, and come back with the
    /// reply.
    Write { post_id: String, payload: PatchPayload, delay_millis: u64 },
    /// Record the post as done with, and store the record.
    MarkDone { post_id: String },
    /// Nothing.
    Nothing,
}

/// What an `Action` holds.
pub enum ActionView {
    Caption(Seq<CaptionJobView>),
    Fetch { post_id: Seq<char>, delay_millis: u64 },
    Write { post_id: Seq<char>, payload: PatchPayloadView, delay_millis: u64 },
    MarkDone { post_id: Seq<char> },
    Nothing,
}

impl View for Action {
    type V = ActionView;

    open spec fn view(&self) -> ActionView {
        match self {
            Action::Caption(jobs) => ActionView::Caption(
                Seq::new(jobs.len() as nat, |i: int| jobs[i]@),
            ),
            Action::Fetch { post_id, delay_millis } => ActionView::Fetch {
                post_id: post_id@,
                delay_millis: *delay_millis,
            },
            Action::Write { post_id, payload, delay_millis } => ActionView::Write {
                post_id: post_id@,
                payload: payload@,
                delay_millis: *delay_millis,
            },
            Action::MarkDone { post_id } => ActionView::MarkDone { post_id: post_id@ },
            Action::Nothing => ActionView::Nothing,
        }
    }
}

impl ActionView {
    /// The action asks for a request to a remote service.
    pub open spec fn calls_out(self) -> bool {
        self is Caption || self is Fetch || self is Write
    }
}

/// The caption that the outcomes hold for an attachment: that of the first
/// outcome that names it, unless it is missing or blank.
pub open spec fn caption_for(outcomes: Seq<OutcomeView>, id: Seq<char>) -> Option<Seq<char>>
    decreases outcomes.len(),
{
    if outcomes.len() == 0 {
        None
    } else if outcomes[0].attachment_id == id {
        match outcomes[0].caption {
            Some(c) => if is_blank(c) {
                None
            } else {
                Some(c)
            },
            None => None,
        }
    } else {
        caption_for(outcomes.skip(1), id)
    }
}

/// The captions that came for the attachments that were asked about.
pub open spec fn gathered(expected: Seq<Seq<char>>, outcomes: Seq<OutcomeView>) -> Map<
    Seq<char>,
    Seq<char>,
>
    decreases expected.len(),
{
    if expected.len() == 0 {
        Map::empty()
    } else {
        let front = gathered(expected.drop_last(), outcomes);
        match caption_for(outcomes, expected.last()) {
            Some(c) => front.insert(expected.last(), c),
            None => front,
        }
    }
}

/// A caption came for every attachment that was asked about.
pub open spec fn all_captioned(expected: Seq<Seq<char>>, outcomes: Seq<OutcomeView>) -> bool {
    forall|i: int| 0 <= i < expected.len() ==> caption_for(outcomes, #[trigger] expected[i]) is Some
}

/// The identifiers of the attachments that the jobs are for.
pub open spec fn job_ids(jobs: Seq<CaptionJobView>) -> Seq<Seq<char>> {
    Seq::new(jobs.len(), |i: int| jobs[i].attachment_id)
}

/// How the handling of an update begins. An update by another account, one
/// for a post that is done with, and one that asks for no caption end at
/// once, with nothing to do. Any other starts all its captioning tasks.
pub open spec fn begun(update: UpdateView, owner: Seq<char>, done: Set<Seq<char>>) -> (
    OrchestrationView,
    ActionView,
) {
    if update.author_id != owner || done.contains(update.id) || update.jobs().len() == 0 {
        (OrchestrationView::NoOp, ActionView::Nothing)
    } else {
        (
            OrchestrationView::Captioning {
                post_id: update.id,
                expected: job_ids(update.jobs()),
                complete: update.complete(),
            },
            ActionView::Caption(update.jobs()),
        )
    }
}

/// What follows a failed request: one more after a pause while the budget
/// lasts, giving up when it is spent.
pub open spec fn after_failed_fetch(
    post_id: Seq<char>,
    captions: Map<Seq<char>, Seq<char>>,
    resolved: bool,
    retry: Retry,
) -> (OrchestrationView, ActionView) {
    let counted = retry.after_failure();
    match counted.verdict() {
        Verdict::Again { delay_millis } => (
            OrchestrationView::Fetching { post_id, captions, resolved, retry: counted },
            ActionView::Fetch { post_id, delay_millis },
        ),
        Verdict::GiveUp => (OrchestrationView::Aborted, ActionView::Nothing),
    }
}

/// What follows a failed attempt to send the rewritten post.
pub open spec fn after_failed_write(
    post_id: Seq<char>,
    payload: PatchPayloadView,
    resolved: bool,
    retry: Retry,
) -> (OrchestrationView, ActionView) {
    let counted = retry.after_failure();
    match counted.verdict() {
        Verdict::Again { delay_millis } => (
            OrchestrationView::Writing { post_id, payload, resolved, retry: counted },
            ActionView::Write { post_id, payload, delay_millis },
        ),
        Verdict::GiveUp => (OrchestrationView::Aborted, ActionView::Nothing),
    }
}

/// The replacement that a reply to the request for the post gives, if it
/// gives one: the server has to report success, and its answer has to be a
/// post that a replacement can be made from.
pub open spec fn made_from(reply: ReplyView, captions: Map<Seq<char>, Seq<char>>) -> Option<
    PatchPayloadView,
> {
    match reply.success_body() {
        Some(raw) => if patchable(raw) {
            Some(patched(decoded(raw)->0, captions))
        } else {
            None
        },
        None => None,
    }
}

/// What follows an attempt to fetch the post, given the replacement that
/// came of it, if any. With a replacement the handling goes on to send it.
/// Without one the attempt has failed. Where the post is not being fetched,
/// nothing changes.
pub open spec fn after_fetch(state: OrchestrationView, made: Option<PatchPayloadView>) -> (
    OrchestrationView,
    ActionView,
) {
    match state {
        OrchestrationView::Fetching { post_id, captions, resolved, retry } => match made {
            Some(payload) => (
                OrchestrationView::Writing {
                    post_id,
                    payload,
                    resolved,
                    retry: Retry::fresh(),
                },
                ActionView::Write { post_id, payload, delay_millis: 0 },
            ),
            None => after_failed_fetch(post_id, captions, resolved, retry),
        },
        _ => (state, ActionView::Nothing),
    }
}

/// One step of the handling: where it stands after `event`, and what to do.
///
/// - The outcomes of the captioning tasks give the captions to write. With
///   none, the handling ends and the post is not recorded. Otherwise the
///   post is fetched.
/// - A fetched post that a replacement can be made from is rewritten and
///   sent. Any other reply counts as a failed attempt to fetch.
/// - A rewrite that went through ends the handling; the post is recorded as
///   the policy says. Any other reply counts as a failed attempt to send.
/// - An event that does not belong to where the handling stands changes
///   nothing and asks for nothing.
pub open spec fn next(policy: MarkPolicy, state: OrchestrationView, event: EventView) -> (
    OrchestrationView,
    ActionView,
) {
    match (state, event) {
        (
            OrchestrationView::Captioning { post_id, expected, complete },
            EventView::Captions(outcomes),
        ) => {
            let captions = gathered(expected, outcomes);
            if captions == Map::<Seq<char>, Seq<char>>::empty() {
                (OrchestrationView::NoOp, ActionView::Nothing)
            } else {
                (
                    OrchestrationView::Fetching {
                        post_id,
                        captions,
                        resolved: complete && all_captioned(expected, outcomes),
                        retry: Retry::fresh(),
                    },
                    ActionView::Fetch { post_id, delay_millis: 0 },
                )
            }
        },
        (
            OrchestrationView::Fetching { post_id, captions, resolved, retry },
            EventView::Fetched(reply),
        ) => after_fetch(state, made_from(reply, captions)),
        (
            OrchestrationView::Writing { post_id, payload, resolved, retry },
            EventView::Written(reply),
        ) => {
            if reply.succeeded() {
                if policy.marks(resolved) {
                    (
                        OrchestrationView::Done { post_id, marked: true, resolved },
                        ActionView::MarkDone { post_id },
                    )
                } else {
                    (
                        OrchestrationView::Done { post_id, marked: false, resolved },
                        ActionView::Nothing,
                    )
                }
            } else {
                after_failed_write(post_id, payload, resolved, retry)
            }
        },
        _ => (state, ActionView::Nothing),
    }
}

/// The actions that a run of events brings about, one for each event.
pub open spec fn trace(policy: MarkPolicy, state: OrchestrationView, events: Seq<EventView>) -> Seq<
    ActionView,
>
    decreases events.len(),
{
    if events.len() == 0 {
        Seq::empty()
    } else {
        let (after, action) = next(policy, state, events[0]);
        seq![action] + trace(policy, after, events.skip(1))
    }
}

/// How often the actions ask to record a post.
pub open spec fn marks_in(actions: Seq<ActionView>) -> nat
    decreases actions.len(),
{
    if actions.len() == 0 {
        0
    } else {
        marks_in(actions.skip(1)) + if actions[0] is MarkDone {
            1nat
        } else {
            0nat
        }
    }
}

/// The handler of updates.
#[derive(Clone, Copy, Debug, PartialEq, Eq, Structural)]
pub struct Handler {
    policy: MarkPolicy,
}

/// The caption that the outcomes hold for an attachment.
fn find_caption<'a>(outcomes: &'a Vec<Outcome>, id: &str) -> (r: Option<&'a String>)
    ensures
        match r {
            Some(c) => caption_for(Seq::new(outcomes.len() as nat, |i: int| outcomes[i]@), id@)
                == Some(c@),
            None => caption_for(Seq::new(outcomes.len() as nat, |i: int| outcomes[i]@), id@)
                is None,
        },
{
    let ghost all = Seq::new(outcomes.len() as nat, |i: int| outcomes[i]@);
    let mut i: usize = 0;
    assert(all.skip(0) =~= all);
    while i < outcomes.len()
        invariant
            i <= outcomes.len(),
            all == Seq::new(outcomes.len() as nat, |i: int| outcomes[i]@),
            caption_for(all, id@) == caption_for(all.skip(i as int), id@),
        decreases outcomes.len() - i,
    {
        let ghost rest = all.skip(i as int);
        assert(rest[0] == outcomes[i as int]@);
        assert(rest.skip(1) =~= all.skip(i + 1));
        if outcomes[i].attachment_id.as_str().eq(id) {
            return match &outcomes[i].caption {
                Some(c) => if blank(c.as_str()) {
                    None
                } else {
                    Some(c)
                },
                None => None,
            };
        }
        i = i + 1;
    }
    None
}

/// The captions that came for the attachments that were asked about, and
/// whether one came for each of them.
fn gather(expected: &Vec<String>, outcomes: &Vec<Outcome>) -> (r: (CaptionMap, bool))
    ensures
        r.0@ == gathered(
            Seq::new(expected.len() as nat, |i: int| expected[i]@),
            Seq::new(outcomes.len() as nat, |i: int| outcomes[i]@),
        ),
        r.1 == all_captioned(
            Seq::new(expected.len() as nat, |i: int| expected[i]@),
            Seq::new(outcomes.len() as nat, |i: int| outcomes[i]@),
        ),
{
    let ghost ids = Seq::new(expected.len() as nat, |i: int| expected[i]@);
    let ghost got = Seq::new(outcomes.len() as nat, |i: int| outcomes[i]@);
    let mut captions = CaptionMap::new();
    let mut all = true;
    let mut i: usize = 0;
    assert(ids.take(0) =~= Seq::<Seq<char>>::empty());
    while i < expected.len()
        invariant
            i <= expected.len(),
            ids == Seq::new(expected.len() as nat, |i: int| expected[i]@),
            got == Seq::new(outcomes.len() as nat, |i: int| outcomes[i]@),
            captions@ == gathered(ids.take(i as int), got),
            all == (forall|k: int| 0 <= k < i ==> caption_for(got, #[trigger] ids[k]) is Some),
        decreases expected.len() - i,
    {
        assert(ids.take(i + 1).drop_last() =~= ids.take(i as int));
        assert(ids.take(i + 1).last() == expected[i as int]@);
        match find_caption(outcomes, expected[i].as_str()) {
            Some(c) => {
                captions.insert(expected[i].clone(), c.clone());
            },
            None => {
                assert(caption_for(got, ids[i as int]) is None);
                all = false;
            },
        }
        i = i + 1;
    }
    assert(ids.take(ids.len() as int) =~= ids);
    (captions, all)
}

/// The identifiers of the attachments that the jobs are for.
fn ids_of(jobs: &Vec<CaptionJob>) -> (r: Vec<String>)
    ensures
        Seq::new(r.len() as nat, |i: int| r[i]@) == job_ids(
            Seq::new(jobs.len() as nat, |i: int| jobs[i]@),
        ),
{
    let mut out: Vec<String> = Vec::new();
    let mut i: usize = 0;
    while i < jobs.len()
        invariant
            i <= jobs.len(),
            out.len() == i,
            forall|k: int| 0 <= k < i ==> (#[trigger] out[k])@ == jobs[k].attachment_id@,
        decreases jobs.len() - i,
    {
        out.push(jobs[i].attachment_id.clone());
        i = i + 1;
    }
    assert(Seq::new(out.len() as nat, |i: int| out[i]@) =~= job_ids(
        Seq::new(jobs.len() as nat, |i: int| jobs[i]@),
    ));
    out
}

impl Default for Handler {
    /// The handler that records a post as soon as a rewrite went through.
    fn default() -> (r: Handler)
        ensures
            r.policy() == MarkPolicy::AfterWrite,
    {
        Handler { policy: MarkPolicy::AfterWrite }
    }
}

impl Handler {
    /// When this handler records a post.
    pub closed spec fn policy(&self) -> MarkPolicy {
        self.policy
    }

    /// The handler that records posts as `policy` says.
    pub fn new(policy: MarkPolicy) -> (r: Handler)
        ensures
            r.policy() == policy,
    {
        Handler { policy }
    }

    /// When this handler records a post.
    pub fn mark_policy(&self) -> (r: MarkPolicy)
        ensures
            r == self.policy(),
    {
        self.policy
    }

    /// Takes up an update for the account `owner`, given the record of the
    /// posts that are done with.
    pub fn begin(&self, update: &Update, owner: &str, store: &SharedData) -> (r: (
        Orchestration,
        Action,
    ))
        ensures
            (r.0@, r.1@) == begun(update@, owner@, store@),
    {
        if !update.author_id.as_str().eq(owner) {
            return (Orchestration::NoOp, Action::Nothing);
        }
        if store.contains(update.id.as_str()) {
            return (Orchestration::NoOp, Action::Nothing);
        }
        let jobs = update.jobs();
        if jobs.len() == 0 {
            return (Orchestration::NoOp, Action::Nothing);
        }
        let expected = ids_of(&jobs);
        let complete = update.complete();
        (
            Orchestration::Captioning { post_id: update.id.clone(), expected, complete },
            Action::Caption(jobs),
        )
    }

    /// Takes what came of an attempt to fetch the post: the replacement
    /// made from it, or nothing.
    pub fn fetched(&self, state: Orchestration, made: Option<PatchPayload>) -> (r: (
        Orchestration,
        Action,
    ))
        ensures
            (r.0@, r.1@) == after_fetch(
                state@,
                match made {
                    Some(p) => Some(p@),
                    None => None,
                },
            ),
    {
        match state {
            Orchestration::Fetching { post_id, captions, resolved, retry } => match made {
                Some(payload) => {
                    let target = post_id.clone();
                    let copy = payload.clone();
                    (
                        Orchestration::Writing { post_id, payload, resolved, retry: Retry::new() },
                        Action::Write { post_id: target, payload: copy, delay_millis: 0 },
                    )
                },
                None => {
                    let mut retry = retry;
                    match retry.on_failure() {
                        Verdict::Again { delay_millis } => {
                            let target = post_id.clone();
                            (
                                Orchestration::Fetching { post_id, captions, resolved, retry },
                                Action::Fetch { post_id: target, delay_millis },
                            )
                        },
                        Verdict::GiveUp => (Orchestration::Aborted, Action::Nothing),
                    }
                },
            },
            other => (other, Action::Nothing),
        }
    }

    /// Takes what happened and says where the handling stands now and what
    /// to do next.
    pub fn step(&self, state: Orchestration, event: Event) -> (r: (Orchestration, Action))
        ensures
            (r.0@, r.1@) == next(self.policy(), state@, event@),
    {
        match state {
            Orchestration::Captioning { post_id, expected, complete } => match event {
                Event::Captions(outcomes) => {
                    let (captions, all) = gather(&expected, &outcomes);
                    if captions.is_empty() {
                        (Orchestration::NoOp, Action::Nothing)
                    } else {
                        let target = post_id.clone();
                        (
                            Orchestration::Fetching {
                                post_id,
                                captions,
                                resolved: complete && all,
                                retry: Retry::new(),
                            },
                            Action::Fetch { post_id: target, delay_millis: 0 },
                        )
                    }
                },
                _ => (Orchestration::Captioning { post_id, expected, complete }, Action::Nothing),
            },
            Orchestration::Fetching { post_id, captions, resolved, retry } => match event {
                Event::Fetched(reply) => {
                    let made = match reply.success_body() {
                        Some(raw) => PatchPayload::build(raw.as_str(), &captions),
                        None => None,
                    };
                    self.fetched(Orchestration::Fetching { post_id, captions, resolved, retry }, made)
                },
                _ => (
                    Orchestration::Fetching { post_id, captions, resolved, retry },
                    Action::Nothing,
                ),
            },
            Orchestration::Writing { post_id, payload, resolved, retry } => match event {
                Event::Written(reply) => {
                    if reply.succeeded() {
                        let marked = match self.policy {
                            MarkPolicy::AfterWrite => true,
                            MarkPolicy::AfterFullResolution => resolved,
                        };
                        if marked {
                            let target = post_id.clone();
                            (
                                Orchestration::Done { post_id, marked: true, resolved },
                                Action::MarkDone { post_id: target },
                            )
                        } else {
                            (Orchestration::Done { post_id, marked: false, resolved }, Action::Nothing)
                        }
                    } else {
                        let mut retry = retry;
                        match retry.on_failure() {
                            Verdict::Again { delay_millis } => {
                                let target = post_id.clone();
                                let copy = payload.clone();
                                (
                                    Orchestration::Writing { post_id, payload, resolved, retry },
                                    Action::Write { post_id: target, payload: copy, delay_millis },
                                )
                            },
                            Verdict::GiveUp => (Orchestration::Aborted, Action::Nothing),
                        }
                    }
                },
                _ => (
                    Orchestration::Writing { post_id, payload, resolved, retry },
                    Action::Nothing,
                ),
            },
            other => (other, Action::Nothing),
        }
    }
}

/// The actions of a run: one for each event, the first of them the action
/// of the first step.
pub proof fn lemma_trace_unfold(policy: MarkPolicy, state: OrchestrationView, events: Seq<EventView>)
    requires
        events.len() > 0,
    ensures
        trace(policy, state, events).len() == events.len(),
        trace(policy, state, events)[0] == next(policy, state, events[0]).1,
        trace(policy, state, events).skip(1) == trace(
            policy,
            next(policy, state, events[0]).0,
            events.skip(1),
        ),
        marks_in(trace(policy, state, events)) == marks_in(
            trace(policy, next(policy, state, events[0]).0, events.skip(1)),
        ) + if next(policy, state, events[0]).1 is MarkDone {
            1nat
        } else {
            0nat
        },
    decreases events.len(),
{
    let (after, action) = next(policy, state, events[0]);
    let rest = trace(policy, after, events.skip(1));
    if events.len() > 1 {
        lemma_trace_unfold(policy, after, events.skip(1));
    }
    assert(trace(policy, state, events) == seq![action] + rest);
    assert((seq![action] + rest).skip(1) =~= rest);
}

/// Once the handling of an update is over, nothing more is asked for,
/// whatever is reported to it: no request goes out and no post is recorded.
pub proof fn law_terminal_absorbs(
    policy: MarkPolicy,
    state: OrchestrationView,
    events: Seq<EventView>,
)
    requires
        state.terminal(),
    ensures
        trace(policy, state, events).len() == events.len(),
        forall|i: int|
            0 <= i < events.len() ==> (#[trigger] trace(policy, state, events)[i])
                == ActionView::Nothing,
        marks_in(trace(policy, state, events)) == 0,
    decreases events.len(),
{
    if events.len() > 0 {
        lemma_trace_unfold(policy, state, events);
        law_terminal_absorbs(policy, state, events.skip(1));
        let all = trace(policy, state, events);
        assert forall|i: int| 0 <= i < events.len() implies (#[trigger] all[i])
            == ActionView::Nothing by {
            if i > 0 {
                assert(all[i] == all.skip(1)[i - 1]);
            }
        }
    }
}

/// An update for a post that is done with is left alone: its handling ends
/// where it begins, and neither then nor later, whatever is reported to it,
/// is a request made or the post recorded again. So is an update that
/// comes after its post was recorded.
pub proof fn law_done_posts_are_left_alone(
    policy: MarkPolicy,
    update: UpdateView,
    owner: Seq<char>,
    done: Set<Seq<char>>,
    events: Seq<EventView>,
)
    ensures
        done.contains(update.id) ==> begun(update, owner, done) == (
            OrchestrationView::NoOp,
            ActionView::Nothing,
        ),
        begun(update, owner, done.insert(update.id)) == (
            OrchestrationView::NoOp,
            ActionView::Nothing,
        ),
        forall|i: int|
            0 <= i < events.len() ==> (#[trigger] trace(policy, OrchestrationView::NoOp, events)[i])
                == ActionView::Nothing,
        marks_in(trace(policy, OrchestrationView::NoOp, events)) == 0,
{
    law_terminal_absorbs(policy, OrchestrationView::NoOp, events);
}

/// In the handling of one update the post is recorded at most once,
/// however many events are reported and whatever they are.
pub proof fn law_at_most_one_mark(
    policy: MarkPolicy,
    state: OrchestrationView,
    events: Seq<EventView>,
)
    ensures
        marks_in(trace(policy, state, events)) <= 1,
    decreases events.len(),
{
    if events.len() > 0 {
        lemma_trace_unfold(policy, state, events);
        let (after, action) = next(policy, state, events[0]);
        if action is MarkDone {
            law_terminal_absorbs(policy, after, events.skip(1));
        } else {
            law_at_most_one_mark(policy, after, events.skip(1));
        }
    }
}

impl OrchestrationView {
    /// The handling cannot end with every attachment captioned: it is over,
    /// or it goes on knowing that some attachment that wanted a caption got
    /// none.
    pub open spec fn unresolved(self) -> bool {
        match self {
            OrchestrationView::Captioning { .. } => false,
            OrchestrationView::Fetching { resolved, .. } => !resolved,
            OrchestrationView::Writing { resolved, .. } => !resolved,
            OrchestrationView::Done { .. } => true,
            OrchestrationView::NoOp => true,
            OrchestrationView::Aborted => true,
        }
    }
}

/// Under the policy `AfterFullResolution`, a handling that knows of an
/// attachment without its caption never records the post.
pub proof fn lemma_unresolved_never_marks(state: OrchestrationView, events: Seq<EventView>)
    requires
        state.unresolved(),
    ensures
        marks_in(trace(MarkPolicy::AfterFullResolution, state, events)) == 0,
    decreases events.len(),
{
    if events.len() > 0 {
        lemma_trace_unfold(MarkPolicy::AfterFullResolution, state, events);
        let (after, action) = next(MarkPolicy::AfterFullResolution, state, events[0]);
        lemma_unresolved_never_marks(after, events.skip(1));
    }
}

/// Under the policy `AfterFullResolution` a post is not recorded as long as
/// one of its attachments that wanted a caption is without one: be it that
/// its address was unknown, or that its captioning gave nothing. That holds
/// even if other attachments got their captions and the rewrite with them
/// went through.
pub proof fn law_no_premature_mark(
    post_id: Seq<char>,
    expected: Seq<Seq<char>>,
    complete: bool,
    outcomes: Seq<OutcomeView>,
    events: Seq<EventView>,
)
    requires
        !complete || !all_captioned(expected, outcomes),
    ensures
        marks_in(
            trace(
                MarkPolicy::AfterFullResolution,
                OrchestrationView::Captioning { post_id, expected, complete },
                seq![EventView::Captions(outcomes)] + events,
            ),
        ) == 0,
{
    let policy = MarkPolicy::AfterFullResolution;
    let state = OrchestrationView::Captioning { post_id, expected, complete };
    let all = seq![EventView::Captions(outcomes)] + events;
    lemma_trace_unfold(policy, state, all);
    assert(all.skip(1) =~= events);
    let (after, action) = next(policy, state, all[0]);
    lemma_unresolved_never_marks(after, events);
}

/// Under either policy a post is recorded only by the step that learns that
/// its rewrite went through, and that step names the post that the handling
/// is about.
pub proof fn law_mark_follows_write(policy: MarkPolicy, state: OrchestrationView, event: EventView)
    requires
        next(policy, state, event).1 is MarkDone,
    ensures
        state is Writing,
        event is Written,
        event->Written_0.succeeded(),
        policy.marks(state->Writing_resolved),
        next(policy, state, event).1->MarkDone_post_id == state->Writing_post_id,
        next(policy, state, event).0 == (OrchestrationView::Done {
            post_id: state->Writing_post_id,
            marked: true,
            resolved: state->Writing_resolved,
        }),
{
}

/// The handling ends without a record of the post where no caption came:
/// such a post gets another chance with its next update.
pub proof fn law_no_caption_no_mark(
    policy: MarkPolicy,
    post_id: Seq<char>,
    expected: Seq<Seq<char>>,
    complete: bool,
    outcomes: Seq<OutcomeView>,
)
    requires
        forall|i: int| 0 <= i < expected.len() ==> caption_for(outcomes, #[trigger] expected[i]) is None,
    ensures
        next(
            policy,
            OrchestrationView::Captioning { post_id, expected, complete },
            EventView::Captions(outcomes),
        ) == (OrchestrationView::NoOp, ActionView::Nothing),
{
    lemma_gathered_empty(expected, outcomes);
}

/// Without a caption for any of the attachments nothing is gathered.
proof fn lemma_gathered_empty(expected: Seq<Seq<char>>, outcomes: Seq<OutcomeView>)
    requires
        forall|i: int| 0 <= i < expected.len() ==> caption_for(outcomes, #[trigger] expected[i]) is None,
    ensures
        gathered(expected, outcomes) == Map::<Seq<char>, Seq<char>>::empty(),
    decreases expected.len(),
{
    if expected.len() > 0 {
        assert forall|i: int| 0 <= i < expected.drop_last().len() implies caption_for(
            outcomes,
            #[trigger] expected.drop_last()[i],
        ) is None by {
            assert(expected.drop_last()[i] == expected[i]);
        }
        lemma_gathered_empty(expected.drop_last(), outcomes);
        assert(caption_for(outcomes, expected[expected.len() - 1]) is None);
    }
}

impl OrchestrationView {
    /// The post that the handling is about, as long as it is about one.
    pub open spec fn post(self) -> Option<Seq<char>> {
        match self {
            OrchestrationView::Captioning { post_id, .. } => Some(post_id),
            OrchestrationView::Fetching { post_id, .. } => Some(post_id),
            OrchestrationView::Writing { post_id, .. } => Some(post_id),
            OrchestrationView::Done { post_id, .. } => Some(post_id),
            OrchestrationView::NoOp => None,
            OrchestrationView::Aborted => None,
        }
    }
}

/// Whenever a handling asks to record a post, it is the post that the
/// handling is about.
pub proof fn law_marks_name_the_post(
    policy: MarkPolicy,
    state: OrchestrationView,
    events: Seq<EventView>,
    i: int,
)
    requires
        0 <= i < events.len(),
        trace(policy, state, events)[i] is MarkDone,
    ensures
        state.post() == Some(trace(policy, state, events)[i]->MarkDone_post_id),
    decreases events.len(),
{
    lemma_trace_unfold(policy, state, events);
    let (after, action) = next(policy, state, events[0]);
    let all = trace(policy, state, events);
    if i > 0 {
        assert(all[i] == all.skip(1)[i - 1]);
        lemma_trace_unfold(policy, after, events.skip(1));
        law_marks_name_the_post(policy, after, events.skip(1), i - 1);
    }
}

/// One update and what is reported to its handling.
pub struct Round {
    pub update: UpdateView,
    pub events: Seq<EventView>,
}

/// How often the handling of one update asks to record its post.
pub open spec fn marks_of(
    policy: MarkPolicy,
    owner: Seq<char>,
    done: Set<Seq<char>>,
    round: Round,
) -> nat {
    marks_in(trace(policy, begun(round.update, owner, done).0, round.events))
}

/// The record after the handling of one update: with its post where the
/// handling asked to record it, as it was otherwise.
pub open spec fn done_after(
    policy: MarkPolicy,
    owner: Seq<char>,
    done: Set<Seq<char>>,
    round: Round,
) -> Set<Seq<char>> {
    if marks_of(policy, owner, done, round) > 0 {
        done.insert(round.update.id)
    } else {
        done
    }
}

/// How often the handlings of a run of updates, one after the other, each
/// with the record that the ones before it left, ask to record a post.
pub open spec fn marks_over(
    policy: MarkPolicy,
    owner: Seq<char>,
    done: Set<Seq<char>>,
    rounds: Seq<Round>,
) -> nat
    decreases rounds.len(),
{
    if rounds.len() == 0 {
        0
    } else {
        marks_of(policy, owner, done, rounds[0]) + marks_over(
            policy,
            owner,
            done_after(policy, owner, done, rounds[0]),
            rounds.skip(1),
        )
    }
}

/// However many updates come for one post, and whatever is reported to
/// their handlings, the post is recorded at most once; and never again once
/// it is on record.
pub proof fn law_marked_once_for_all(
    policy: MarkPolicy,
    owner: Seq<char>,
    done: Set<Seq<char>>,
    rounds: Seq<Round>,
    id: Seq<char>,
)
    requires
        forall|i: int| 0 <= i < rounds.len() ==> (#[trigger] rounds[i]).update.id == id,
    ensures
        marks_over(policy, owner, done, rounds) <= 1,
        done.contains(id) ==> marks_over(policy, owner, done, rounds) == 0,
    decreases rounds.len(),
{
    if rounds.len() > 0 {
        let first = rounds[0];
        let rest = rounds.skip(1);
        assert(first.update.id == id);
        assert forall|i: int| 0 <= i < rest.len() implies (#[trigger] rest[i]).update.id == id by {
            assert(rest[i] == rounds[i + 1]);
        }
        law_at_most_one_mark(policy, begun(first.update, owner, done).0, first.events);
        if done.contains(id) {
            law_done_posts_are_left_alone(policy, first.update, owner, done, first.events);
        }
        law_marked_once_for_all(policy, owner, done_after(policy, owner, done, first), rest, id);
    }
}

/// An attachment whose captioning ended without a caption keeps the post
/// from counting as resolved: where the first outcome that names an
/// attachment that was asked about holds no caption, not every attachment
/// is captioned.
pub proof fn law_absent_outcome_blocks_resolution(
    expected: Seq<Seq<char>>,
    outcomes: Seq<OutcomeView>,
    i: int,
    k: int,
)
    requires
        0 <= i < expected.len(),
        0 <= k < outcomes.len(),
        outcomes[k] == absent(expected[i]),
        forall|j: int| 0 <= j < k ==> (#[trigger] outcomes[j]).attachment_id != expected[i],
    ensures
        caption_for(outcomes, expected[i]) is None,
        !all_captioned(expected, outcomes),
    decreases k,
{
    if k > 0 {
        let rest = outcomes.skip(1);
        assert(outcomes[0].attachment_id != expected[i]);
        assert(rest[k - 1] == outcomes[k]);
        assert forall|j: int| 0 <= j < k - 1 implies (#[trigger] rest[j]).attachment_id
            != expected[i] by {
            assert(rest[j] == outcomes[j + 1]);
        }
        law_absent_outcome_blocks_resolution(expected, rest, i, k - 1);
    }
}

/// The captioning of a post is handed out whole: the one action that begins
/// the handling of an update carries a job for every attachment for which a
/// caption is asked, so that all of them can run side by side.
pub proof fn law_all_jobs_at_once(
    update: UpdateView,
    owner: Seq<char>,
    done: Set<Seq<char>>,
    i: int,
) -> (j: int)
    requires
        update.author_id == owner,
        !done.contains(update.id),
        0 <= i < update.attachments.len(),
        update.attachments[i].submitted(),
    ensures
        begun(update, owner, done).1 is Caption,
        0 <= j < begun(update, owner, done).1->Caption_0.len(),
        begun(update, owner, done).1->Caption_0[j] == job_for(
            update.attachments[i],
            update.lang_code(),
            update.content,
        ),
{
    law_every_submitted_gets_a_job(update.attachments, update.lang_code(), update.content, i)
}

} // verus!
