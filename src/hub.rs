use vstd::prelude::*;

use crate::models::{texts, Post, PostWithAuthor};
use crate::text::same_text;

verus! {

/// One stored, matched post as handed to live subscribers.
pub struct StreamPost {
    pub post: Post,
    pub topic_ids: Vec<i64>,
    pub akas: Vec<(String, Vec<String>)>,
    pub did: String,
}

/// The aliases paired with `did`, or none when it is not there.
pub open spec fn aliases_for(akas: Seq<(String, Vec<String>)>, did: Seq<char>) -> Seq<Seq<char>>
    decreases akas.len(),
{
    if akas.len() == 0 {
        Seq::empty()
    } else if akas[0].0@ == did {
        texts(akas[0].1@)
    } else {
        aliases_for(akas.drop_first(), did)
    }
}

impl PostWithAuthor {
    /// The post of a frame, with its author and the author's aliases.
    pub fn from_stream(frame: StreamPost) -> (r: PostWithAuthor)
        ensures
            r.post == frame.post,
            r.did@ == frame.did@,
            texts(r.aka@) == aliases_for(frame.akas@, frame.did@),
    {
        let mut aka: Vec<String> = Vec::new();
        let mut i: usize = 0;
        let mut found = false;
        assert(frame.akas@.subrange(0, frame.akas@.len() as int) =~= frame.akas@);
        while i < frame.akas.len()
            invariant
                i <= frame.akas@.len(),
                !found ==> aliases_for(frame.akas@, frame.did@) == aliases_for(
                    frame.akas@.subrange(i as int, frame.akas@.len() as int),
                    frame.did@,
                ),
                found ==> texts(aka@) == aliases_for(frame.akas@, frame.did@),
                !found ==> aka@.len() == 0,
            decreases frame.akas@.len() - i,
        {
            let ghost rest = frame.akas@.subrange(i as int, frame.akas@.len() as int);
            assert(rest.drop_first() =~= frame.akas@.subrange(i + 1, frame.akas@.len() as int));
            assert(rest[0] == frame.akas@[i as int]);
            if !found && same_text(frame.akas[i].0.as_str(), frame.did.as_str()) {
                aka = frame.akas[i].1.clone();
                found = true;
            }
            i = i + 1;
        }
        proof {
            if !found {
                assert(frame.akas@.subrange(i as int, frame.akas@.len() as int).len() == 0);
                assert(texts(aka@) =~= Seq::empty());
            }
        }
        PostWithAuthor { post: frame.post, aka, did: frame.did }
    }
}

/// Whether a subscriber that follows `topic_id` keeps this frame.
pub fn frame_for_topic(frame: &StreamPost, topic_id: i64) -> (r: bool)
    ensures
        r == frame.topic_ids@.contains(topic_id),
{
    let mut i: usize = 0;
    while i < frame.topic_ids.len()
        invariant
            i <= frame.topic_ids@.len(),
            forall|k: int| 0 <= k < i ==> frame.topic_ids@[k] != topic_id,
        decreases frame.topic_ids@.len() - i,
    {
        if frame.topic_ids[i] == topic_id {
            return true;
        }
        i = i + 1;
    }
    false
}

/// The slot's value and how many frames were published into it.
pub struct HubView {
    pub latest: Option<StreamPost>,
    pub version: nat,
}

/// The slot after one more frame is published.
pub open spec fn published(h: HubView, frame: StreamPost) -> HubView {
    HubView { latest: Some(frame), version: h.version + 1 }
}

/// What a subscriber that last saw version `seen` reads next: the latest
/// frame if anything was published since, else nothing.
pub open spec fn next_read(h: HubView, seen: nat) -> Option<StreamPost> {
    if seen != h.version {
        h.latest
    } else {
        None
    }
}

/// A single-slot, latest-value publish point: a new frame replaces the one
/// before it, whether or not anyone read it.
pub struct BroadcastHub {
    latest: Option<StreamPost>,
    version: u64,
}

/// Where a subscriber stands: the version it last saw.
pub struct Cursor {
    seen: u64,
}

impl View for BroadcastHub {
    type V = HubView;

    closed spec fn view(&self) -> HubView {
        HubView { latest: self.latest, version: self.version as nat }
    }
}

impl View for Cursor {
    type V = nat;

    closed spec fn view(&self) -> nat {
        self.seen as nat
    }
}

impl BroadcastHub {
    /// The slot is empty exactly while nothing has been published.
    #[verifier::type_invariant]
    spec fn empty_until_published(self) -> bool {
        (self.version == 0) == (self.latest is None)
    }

    pub fn new() -> (r: Self)
        ensures
            r@.latest is None,
            r@.version == 0,
    {
        BroadcastHub { latest: None, version: 0 }
    }

    /// The slot is empty exactly while nothing has been published.
    pub fn is_empty(&self) -> (r: bool)
        ensures
            r == (self@.version == 0),
            r == (self@.latest is None),
    {
        proof {
            use_type_invariant(self);
        }
        self.version == 0
    }

    /// Whether another frame can still be numbered.
    pub fn can_publish(&self) -> (r: bool)
        ensures
            r == (self@.version < u64::MAX),
    {
        self.version < u64::MAX
    }

    /// Replaces the slot's frame.
    pub fn publish(&mut self, frame: StreamPost)
        requires
            old(self)@.version < u64::MAX,
        ensures
            final(self)@ == published(old(self)@, frame),
    {
        let version = self.version + 1;
        *self = BroadcastHub { latest: Some(frame), version };
    }

    /// Publishes the frame made of a stored post, its topics and aliases.
    pub fn send_message(
        &mut self,
        post: Post,
        topic_ids: Vec<i64>,
        akas: Vec<(String, Vec<String>)>,
        did: String,
    )
        requires
            old(self)@.version < u64::MAX,
        ensures
            final(self)@ == published(old(self)@, StreamPost { post, topic_ids, akas, did }),
    {
        self.publish(StreamPost { post, topic_ids, akas, did });
    }

    /// A cursor that has seen nothing yet: its first read gives the frame
    /// now in the slot, if any was ever published.
    pub fn get_post_stream(&self) -> (c: Cursor)
        ensures
            c@ == 0,
    {
        Cursor { seen: 0 }
    }

    /// The frame now in the slot.
    pub fn current(&self) -> (r: Option<&StreamPost>)
        ensures
            match r {
                Some(f) => self@.latest == Some(*f),
                None => self@.latest is None,
            },
            self@.version == 0 <==> self@.latest is None,
    {
        proof {
            use_type_invariant(self);
        }
        match &self.latest {
            Some(f) => Some(f),
            None => None,
        }
    }

    /// The latest frame if one was published since the cursor last looked.
    pub fn changed(&self, cursor: &mut Cursor) -> (r: Option<&StreamPost>)
        ensures
            match r {
                Some(f) => next_read(self@, old(cursor)@) == Some(*f),
                None => next_read(self@, old(cursor)@) is None,
            },
            final(cursor)@ == self@.version,
            self@.version == 0 <==> self@.latest is None,
    {
        proof {
            use_type_invariant(self);
        }
        let fresh = cursor.seen != self.version;
        cursor.seen = self.version;
        if fresh {
            match &self.latest {
                Some(f) => Some(f),
                None => None,
            }
        } else {
            None
        }
    }
}

/// Two frames published before a subscriber reads: its next read gives the
/// second one, never the first.
pub proof fn lemma_latest_wins(h: HubView, seen: nat, first: StreamPost, second: StreamPost)
    requires
        seen <= h.version,
    ensures
        next_read(published(h, first), seen) == Some(first),
        next_read(published(published(h, first), second), seen) == Some(second),
{
}

/// A subscriber that starts after frames were published reads the latest
/// of them first.
pub proof fn lemma_late_subscriber_reads_latest(h: HubView, frame: StreamPost)
    ensures
        next_read(published(h, frame), 0) == Some(frame),
{
}

} // verus!
