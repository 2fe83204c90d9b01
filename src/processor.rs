use vstd::prelude::*;

use crate::hub::StreamPost;
use crate::identity::{
    aliases_or_empty, collect_aliases, contains_text, identities_of, identities_to_resolve,
};
use crate::matcher::matching_ids;
use crate::message::JetstreamMessage;
use crate::models::{texts, CreatePost, CreateUser, Post, Topic};
use crate::text::same_text;

verus! {

/// Where the handling of one matched event stands.
pub enum Stage {
    Resolving,
    Beginning,
    StoringUsers,
    StoringPost,
    LinkingTopics,
    LinkingMentions,
    Committing,
    Finished,
}

/// What the outside world reports back after an action.
pub enum Outcome {
    /// Per identifier, in the order asked: its aliases, or `None` if the lookup failed.
    Resolved(Vec<Option<Vec<String>>>),
    Begun,
    /// The identifier and row id of each author row written.
    UsersStored(Vec<(String, i64)>),
    PostStored(Post),
    Linked,
    Committed,
    Failed,
}

/// The next thing to do for this event.
pub enum Action {
    /// Look up the aliases of these identifiers.
    Resolve(Vec<String>),
    /// Open a storage transaction.
    Begin,
    /// Write (or overwrite) these author rows.
    StoreUsers(Vec<CreateUser>),
    /// Write the post row.
    StorePost(CreatePost),
    /// Link the post to these topics.
    LinkTopics(i64, Vec<i64>),
    /// Link the post to these mentioned authors.
    LinkMentions(i64, Vec<i64>),
    Commit,
    /// Abort the transaction: nothing of this event is kept.
    Rollback,
    /// Hand this frame to the broadcast hub.
    Publish(StreamPost),
    /// Nothing more to do.
    Done,
}

/// Stages in which a storage transaction is open.
pub open spec fn in_transaction(s: Stage) -> bool {
    s is StoringUsers || s is StoringPost || s is LinkingTopics || s is LinkingMentions
        || s is Committing
}

/// The row id written for `did`, if any.
pub open spec fn author_row(rows: Seq<(String, i64)>, did: Seq<char>) -> Option<i64>
    decreases rows.len(),
{
    if rows.len() == 0 {
        None
    } else if rows[0].0@ == did {
        Some(rows[0].1)
    } else {
        author_row(rows.drop_first(), did)
    }
}

/// The row ids of the rows whose identifier is mentioned, in row order.
pub open spec fn mention_ids(rows: Seq<(String, i64)>, mentions: Seq<Seq<char>>) -> Seq<i64>
    decreases rows.len(),
{
    if rows.len() == 0 {
        Seq::empty()
    } else {
        let rest = mention_ids(rows.drop_last(), mentions);
        if mentions.contains(rows.last().0@) {
            rest.push(rows.last().1)
        } else {
            rest
        }
    }
}

/// One author row per resolved identifier, with its fresh aliases.
pub open spec fn users_for(users: Seq<CreateUser>, akas: Seq<(String, Vec<String>)>) -> bool {
    &&& users.len() == akas.len()
    &&& forall|i: int|
        0 <= i < users.len() ==> (#[trigger] users[i]).did@ == akas[i].0@ && texts(users[i].aka@)
            == texts(akas[i].1@)
}

/// The post row carries the event's fields and its author's row id.
pub open spec fn post_row_for(p: CreatePost, m: JetstreamMessage, author_id: i64) -> bool {
    &&& p.cid@ == m.cid@
    &&& p.rkey@ == m.rkey@
    &&& p.created_at@ == m.created_at@
    &&& p.text@ == m.text@
    &&& texts(p.langs@) == texts(m.langs@)
    &&& texts(p.urls@) == texts(m.urls@)
    &&& texts(p.tags@) == texts(m.tags@)
    &&& p.author_id == author_id
}

/// The handling of one event that matched at least one topic.
pub struct MessageJob {
    pub message: JetstreamMessage,
    pub topic_ids: Vec<i64>,
    pub identities: Vec<String>,
    pub akas: Vec<(String, Vec<String>)>,
    pub users: Vec<(String, i64)>,
    pub post: Option<Post>,
    pub stage: Stage,
}

/// The event is dropped: a transaction in progress is rolled back.
pub open spec fn abandoned(before: MessageJob, after: MessageJob, action: Action) -> bool {
    &&& after.stage is Finished
    &&& if in_transaction(before.stage) {
        action is Rollback
    } else {
        action is Done
    }
}

/// How one outcome moves the handling on. Any outcome other than the one
/// the pending action asked for, a failure included, drops the event.
pub open spec fn transition(
    before: MessageJob,
    outcome: Outcome,
    after: MessageJob,
    action: Action,
) -> bool {
    match (before.stage, outcome) {
        (Stage::Resolving, Outcome::Resolved(outs)) => if outs@.len() == before.identities@.len() {
            &&& after.stage is Beginning
            &&& action is Begin
            &&& after.akas@.len() == before.identities@.len()
            &&& forall|i: int|
                0 <= i < after.akas@.len() ==> (#[trigger] after.akas@[i]).0@
                    == before.identities@[i]@ && texts(after.akas@[i].1@) == aliases_or_empty(
                    outs@[i],
                )
        } else {
            abandoned(before, after, action)
        },
        (Stage::Beginning, Outcome::Begun) => {
            &&& after.stage is StoringUsers
            &&& after.akas == before.akas
            &&& action matches Action::StoreUsers(us) && users_for(us@, before.akas@)
        },
        (Stage::StoringUsers, Outcome::UsersStored(rows)) => match author_row(
            rows@,
            before.message.did@,
        ) {
            Some(id) => {
                &&& after.stage is StoringPost
                &&& after.akas == before.akas
                &&& after.users == rows
                &&& action matches Action::StorePost(p) && post_row_for(p, before.message, id)
            },
            None => abandoned(before, after, action),
        },
        (Stage::StoringPost, Outcome::PostStored(post)) => {
            &&& after.stage is LinkingTopics
            &&& after.post == Some(post)
            &&& after.akas == before.akas
            &&& after.users == before.users
            &&& action matches Action::LinkTopics(pid, ids) && pid == post.id && ids@
                == before.topic_ids@
        },
        (Stage::LinkingTopics, Outcome::Linked) => {
            let m = mention_ids(before.users@, texts(before.message.mentions@));
            &&& after.post == before.post
            &&& after.akas == before.akas
            &&& after.users == before.users
            &&& if m.len() > 0 {
                &&& after.stage is LinkingMentions
                &&& action matches Action::LinkMentions(pid, ids) && pid == before.post->0.id
                    && ids@ == m
            } else {
                after.stage is Committing && action is Commit
            }
        },
        (Stage::LinkingMentions, Outcome::Linked) => {
            &&& after.stage is Committing
            &&& action is Commit
            &&& after.post == before.post
            &&& after.akas == before.akas
        },
        (Stage::Committing, Outcome::Committed) => {
            &&& after.stage is Finished
            &&& action matches Action::Publish(f) && f.post == before.post->0 && f.topic_ids@
                == before.topic_ids@ && f.akas == before.akas && f.did@ == before.message.did@
        },
        _ => abandoned(before, after, action),
    }
}

/// One step of `advance`: the transition, with the event, its identifiers
/// and its matched topics kept.
pub open spec fn advanced(before: MessageJob, outcome: Outcome, after: MessageJob, action: Action) -> bool {
    &&& transition(before, outcome, after, action)
    &&& after.message == before.message
    &&& after.identities == before.identities
    &&& after.topic_ids@ == before.topic_ids@
    &&& after.wf()
}

fn copy_ids(v: &Vec<i64>) -> (r: Vec<i64>)
    ensures
        r@ == v@,
{
    let mut r: Vec<i64> = Vec::new();
    let mut i: usize = 0;
    while i < v.len()
        invariant
            i <= v@.len(),
            r@ == v@.subrange(0, i as int),
        decreases v@.len() - i,
    {
        r.push(v[i]);
        i = i + 1;
    }
    r
}

fn find_author(rows: &Vec<(String, i64)>, did: &str) -> (r: Option<i64>)
    ensures
        r == author_row(rows@, did@),
{
    let mut i: usize = 0;
    assert(rows@.subrange(0, rows@.len() as int) =~= rows@);
    while i < rows.len()
        invariant
            i <= rows@.len(),
            author_row(rows@, did@) == author_row(rows@.subrange(i as int, rows@.len() as int), did@),
        decreases rows@.len() - i,
    {
        let ghost rest = rows@.subrange(i as int, rows@.len() as int);
        assert(rest.drop_first() =~= rows@.subrange(i + 1, rows@.len() as int));
        assert(rest[0] == rows@[i as int]);
        if same_text(rows[i].0.as_str(), did) {
            return Some(rows[i].1);
        }
        i = i + 1;
    }
    None
}

fn find_mentions(rows: &Vec<(String, i64)>, mentions: &Vec<String>) -> (r: Vec<i64>)
    ensures
        r@ == mention_ids(rows@, texts(mentions@)),
{
    let mut r: Vec<i64> = Vec::new();
    let mut i: usize = 0;
    while i < rows.len()
        invariant
            i <= rows@.len(),
            r@ == mention_ids(rows@.subrange(0, i as int), texts(mentions@)),
        decreases rows@.len() - i,
    {
        let ghost prefix = rows@.subrange(0, i + 1);
        assert(prefix.drop_last() =~= rows@.subrange(0, i as int));
        if contains_text(mentions, rows[i].0.as_str()) {
            r.push(rows[i].1);
        }
        i = i + 1;
    }
    assert(rows@.subrange(0, rows@.len() as int) =~= rows@);
    r
}

fn user_rows(akas: &Vec<(String, Vec<String>)>) -> (r: Vec<CreateUser>)
    ensures
        users_for(r@, akas@),
{
    let mut r: Vec<CreateUser> = Vec::new();
    let mut i: usize = 0;
    while i < akas.len()
        invariant
            i <= akas@.len(),
            r@.len() == i,
            forall|k: int|
                0 <= k < i ==> (#[trigger] r@[k]).did@ == akas@[k].0@ && texts(r@[k].aka@) == texts(
                    akas@[k].1@,
                ),
        decreases akas@.len() - i,
    {
        let aka = akas[i].1.clone();
        assert(texts(aka@) =~= texts(akas@[i as int].1@));
        r.push(CreateUser { did: akas[i].0.clone(), aka });
        i = i + 1;
    }
    r
}

fn post_row(m: &JetstreamMessage, author_id: i64) -> (r: CreatePost)
    ensures
        post_row_for(r, *m, author_id),
{
    let langs = m.langs.clone();
    let urls = m.urls.clone();
    let tags = m.tags.clone();
    assert(texts(langs@) =~= texts(m.langs@));
    assert(texts(urls@) =~= texts(m.urls@));
    assert(texts(tags@) =~= texts(m.tags@));
    CreatePost {
        cid: m.cid.clone(),
        rkey: m.rkey.clone(),
        created_at: m.created_at.clone(),
        text: m.text.clone(),
        langs,
        urls,
        tags,
        author_id,
    }
}

impl MessageJob {
    /// The stored post is known from the moment it is written.
    pub open spec fn wf(&self) -> bool {
        (self.stage is LinkingTopics || self.stage is LinkingMentions || self.stage is Committing)
            ==> self.post is Some
    }

    /// Matches an event against a topic snapshot. With no matching topic the
    /// event is dropped and nothing is stored; otherwise handling starts by
    /// resolving the author and every mentioned identifier.
    pub fn start(message: JetstreamMessage, topics: &[Topic]) -> (r: Option<(MessageJob, Action)>)
        ensures
            r is None <==> matching_ids(message.text_lower@, topics@).len() == 0,
            r matches Some((job, action)) ==> {
                &&& job.wf()
                &&& job.stage is Resolving
                &&& job.message == message
                &&& job.topic_ids@ == matching_ids(message.text_lower@, topics@)
                &&& texts(job.identities@) == identities_of(message.did@, texts(message.mentions@))
                &&& action matches Action::Resolve(ids) && texts(ids@) == texts(job.identities@)
            },
    {
        let topic_ids = message.matches_any_interest(topics);
        if topic_ids.len() == 0 {
            return None;
        }
        let identities = identities_to_resolve(&message.did, &message.mentions);
        let ask = identities.clone();
        assert(texts(ask@) =~= texts(identities@));
        let job = MessageJob {
            message,
            topic_ids,
            identities,
            akas: Vec::new(),
            users: Vec::new(),
            post: None,
            stage: Stage::Resolving,
        };
        Some((job, Action::Resolve(ask)))
    }

    fn abandon(&mut self) -> (r: Action)
        ensures
            abandoned(*old(self), *final(self), r),
            final(self).message == old(self).message,
            final(self).identities == old(self).identities,
            final(self).topic_ids == old(self).topic_ids,
            final(self).post == old(self).post,
    {
        let open = match self.stage {
            Stage::StoringUsers | Stage::StoringPost | Stage::LinkingTopics
            | Stage::LinkingMentions | Stage::Committing => true,
            _ => false,
        };
        self.stage = Stage::Finished;
        if open {
            Action::Rollback
        } else {
            Action::Done
        }
    }

    /// Takes in what the last action produced and says what to do next.
    pub fn advance(&mut self, outcome: Outcome) -> (r: Action)
        requires
            old(self).wf(),
        ensures
            advanced(*old(self), outcome, *final(self), r),
    {
        match self.stage {
            Stage::Resolving => match outcome {
                Outcome::Resolved(outs) => {
                    if outs.len() != self.identities.len() {
                        return self.abandon();
                    }
                    let ids = self.identities.clone();
                    assert(texts(ids@) =~= texts(self.identities@));
                    self.akas = collect_aliases(ids, outs);
                    self.stage = Stage::Beginning;
                    Action::Begin
                },
                _ => self.abandon(),
            },
            Stage::Beginning => match outcome {
                Outcome::Begun => {
                    self.stage = Stage::StoringUsers;
                    Action::StoreUsers(user_rows(&self.akas))
                },
                _ => self.abandon(),
            },
            Stage::StoringUsers => match outcome {
                Outcome::UsersStored(rows) => match find_author(&rows, self.message.did.as_str()) {
                    Some(id) => {
                        let row = post_row(&self.message, id);
                        self.users = rows;
                        self.stage = Stage::StoringPost;
                        Action::StorePost(row)
                    },
                    None => self.abandon(),
                },
                _ => self.abandon(),
            },
            Stage::StoringPost => match outcome {
                Outcome::PostStored(post) => {
                    let pid = post.id;
                    self.post = Some(post);
                    self.stage = Stage::LinkingTopics;
                    Action::LinkTopics(pid, copy_ids(&self.topic_ids))
                },
                _ => self.abandon(),
            },
            Stage::LinkingTopics => match outcome {
                Outcome::Linked => {
                    let m = find_mentions(&self.users, &self.message.mentions);
                    let pid = match &self.post {
                        Some(p) => p.id,
                        None => 0,
                    };
                    if m.len() > 0 {
                        self.stage = Stage::LinkingMentions;
                        Action::LinkMentions(pid, m)
                    } else {
                        self.stage = Stage::Committing;
                        Action::Commit
                    }
                },
                _ => self.abandon(),
            },
            Stage::LinkingMentions => match outcome {
                Outcome::Linked => {
                    self.stage = Stage::Committing;
                    Action::Commit
                },
                _ => self.abandon(),
            },
            Stage::Committing => match outcome {
                Outcome::Committed => match self.post.take() {
                    Some(post) => {
                        let mut akas: Vec<(String, Vec<String>)> = Vec::new();
                        std::mem::swap(&mut akas, &mut self.akas);
                        let frame = StreamPost {
                            post,
                            topic_ids: copy_ids(&self.topic_ids),
                            akas,
                            did: self.message.did.clone(),
                        };
                        self.stage = Stage::Finished;
                        Action::Publish(frame)
                    },
                    None => self.abandon(),
                },
                _ => self.abandon(),
            },
            Stage::Finished => Action::Done,
        }
    }
}

/// A failure while the transaction is open rolls it back and ends the
/// handling: the event leaves no post, link or author row behind, and
/// nothing is published.
pub proof fn lemma_failure_rolls_back(before: MessageJob, after: MessageJob, action: Action)
    requires
        in_transaction(before.stage),
        transition(before, Outcome::Failed, after, action),
    ensures
        action is Rollback,
        after.stage is Finished,
{
}

/// Once handling is finished, every further step does nothing.
pub proof fn lemma_finished_stays(before: MessageJob, outcome: Outcome, after: MessageJob, action: Action)
    requires
        before.stage is Finished,
        transition(before, outcome, after, action),
    ensures
        action is Done,
        after.stage is Finished,
{
}

proof fn lemma_nobody_mentioned(rows: Seq<(String, i64)>)
    ensures
        mention_ids(rows, Seq::empty()).len() == 0,
    decreases rows.len(),
{
    if rows.len() > 0 {
        lemma_nobody_mentioned(rows.drop_last());
    }
}

/// A run in which the lookups and every storage step succeed, for an event
/// that mentions nobody: the post row carries the event and its author's
/// row id, it is linked to exactly the matched topics, the transaction is
/// committed, and exactly one frame is published, holding the stored post
/// and those topics. After that every step does nothing.
pub proof fn lemma_successful_run(
    j0: MessageJob,
    j1: MessageJob,
    j2: MessageJob,
    j3: MessageJob,
    j4: MessageJob,
    j5: MessageJob,
    j6: MessageJob,
    outs: Vec<Option<Vec<String>>>,
    rows: Vec<(String, i64)>,
    post: Post,
    a1: Action,
    a2: Action,
    a3: Action,
    a4: Action,
    a5: Action,
    a6: Action,
)
    requires
        j0.stage is Resolving,
        j0.message.mentions@.len() == 0,
        outs@.len() == j0.identities@.len(),
        author_row(rows@, j0.message.did@) is Some,
        advanced(j0, Outcome::Resolved(outs), j1, a1),
        advanced(j1, Outcome::Begun, j2, a2),
        advanced(j2, Outcome::UsersStored(rows), j3, a3),
        advanced(j3, Outcome::PostStored(post), j4, a4),
        advanced(j4, Outcome::Linked, j5, a5),
        advanced(j5, Outcome::Committed, j6, a6),
    ensures
        a1 is Begin,
        a3 matches Action::StorePost(p) && post_row_for(
            p,
            j0.message,
            author_row(rows@, j0.message.did@)->0,
        ),
        a4 matches Action::LinkTopics(pid, ids) && pid == post.id && ids@ == j0.topic_ids@,
        a5 is Commit,
        a6 matches Action::Publish(f) && f.post == post && f.topic_ids@ == j0.topic_ids@,
        j6.stage is Finished,
{
    assert(texts(j4.message.mentions@) =~= Seq::empty());
    lemma_nobody_mentioned(j4.users@);
}

} // verus!
