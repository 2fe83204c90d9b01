use vstd::prelude::*;

verus! {

/// The characters of each string.
pub open spec fn texts(v: Seq<String>) -> Seq<Seq<char>> {
    v.map_values(|s: String| s@)
}

/// A stored keyword filter. Times are microseconds since the Unix epoch.
#[derive(Clone)]
pub struct Topic {
    pub id: i64,
    pub created_at: i64,
    pub enabled: bool,
    pub slug: String,
    pub subject: String,
    pub description: String,
    pub keywords: Vec<String>,
    pub last_analysis: Option<String>,
    pub last_analysis_at: Option<i64>,
}

/// A topic together with the number of posts linked to it.
pub struct TopicWithPostCount {
    pub id: i64,
    pub created_at: i64,
    pub enabled: bool,
    pub slug: String,
    pub subject: String,
    pub description: String,
    pub keywords: Vec<String>,
    pub last_analysis: Option<String>,
    pub last_analysis_at: Option<i64>,
    pub post_count: i64,
}

/// What a new topic is made from.
pub struct CreateTopic {
    pub subject: String,
    pub description: String,
    pub keywords: Vec<String>,
}

/// The fields of a topic that an edit may replace.
pub struct UpdateTopic {
    pub keywords: Option<Vec<String>>,
    pub description: Option<String>,
    pub enabled: Option<bool>,
}

/// A stored post.
pub struct Post {
    pub id: i64,
    pub cid: String,
    pub rkey: String,
    pub created_at: String,
    pub text: String,
    pub langs: Vec<String>,
    pub urls: Vec<String>,
    pub tags: Vec<String>,
    pub author_id: i64,
}

/// The row written for a new post.
pub struct CreatePost {
    pub cid: String,
    pub rkey: String,
    pub created_at: String,
    pub text: String,
    pub langs: Vec<String>,
    pub urls: Vec<String>,
    pub tags: Vec<String>,
    pub author_id: i64,
}

/// A post with its author's identifier and aliases.
pub struct PostWithAuthor {
    pub post: Post,
    pub aka: Vec<String>,
    pub did: String,
}

/// A stored author.
pub struct User {
    pub id: i64,
    pub created_at: i64,
    pub did: String,
    pub aka: Vec<String>,
    pub aka_retrieved_at: i64,
    pub last_analysis: Option<String>,
    pub last_analysis_at: Option<i64>,
}

/// The row written, or overwritten, for an author.
pub struct CreateUser {
    pub did: String,
    pub aka: Vec<String>,
}

} // verus!
