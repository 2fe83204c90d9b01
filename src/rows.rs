use vstd::prelude::*;

use crate::json::{json_of_bytes, parse_json_bytes, Json};
use crate::message::{read_strings, strings_in};
use crate::models::{texts, Post, PostWithAuthor, Topic, TopicWithPostCount, User};

verus! {

/// The strings of a column that holds a JSON list of strings.
pub open spec fn string_list_of(bytes: Seq<u8>) -> Option<Seq<Seq<char>>> {
    match json_of_bytes(bytes) {
        Some(Json::Array(items)) => strings_in(items@),
        _ => None,
    }
}

/// Decodes a column that holds a JSON list of strings.
pub fn decode_string_list(bytes: &[u8]) -> (r: Option<Vec<String>>)
    ensures
        match r {
            Some(v) => string_list_of(bytes@) == Some(texts(v@)),
            None => string_list_of(bytes@) is None,
        },
{
    match parse_json_bytes(bytes) {
        Some(Json::Array(items)) => read_strings(&items),
        _ => None,
    }
}

/// A topic row as stored. Times are microseconds since the Unix epoch.
pub struct DbTopic {
    pub id: i64,
    pub created_at: i64,
    pub enabled: bool,
    pub slug: String,
    pub subject: String,
    pub description: String,
    pub keywords: Vec<u8>,
    pub last_analysis: Option<String>,
    pub last_analysis_at: Option<i64>,
}

/// A topic row with its post count.
pub struct DbTopicWithPostCount {
    pub id: i64,
    pub created_at: i64,
    pub enabled: bool,
    pub slug: String,
    pub subject: String,
    pub description: String,
    pub keywords: Vec<u8>,
    pub last_analysis: Option<String>,
    pub last_analysis_at: Option<i64>,
    pub post_count: i64,
}

/// A post row as stored.
pub struct DbPost {
    pub id: i64,
    pub cid: String,
    pub rkey: String,
    pub created_at: String,
    pub text: String,
    pub langs: Vec<u8>,
    pub urls: Vec<u8>,
    pub tags: Vec<u8>,
    pub author_id: i64,
}

/// A post row joined with its author's identifier and aliases.
pub struct DbPostWithAuthor {
    pub id: i64,
    pub cid: String,
    pub rkey: String,
    pub created_at: String,
    pub text: String,
    pub langs: Vec<u8>,
    pub urls: Vec<u8>,
    pub tags: Vec<u8>,
    pub author_id: i64,
    pub aka: Vec<u8>,
    pub did: String,
}

/// An author row as stored.
pub struct DbUser {
    pub id: i64,
    pub created_at: i64,
    pub did: String,
    pub aka: Vec<u8>,
    pub aka_retrieved_at: i64,
    pub last_analysis: Option<String>,
    pub last_analysis_at: Option<i64>,
}

/// The row's columns decode and the post keeps every other field.
pub open spec fn post_from_row(p: Post, row: DbPost) -> bool {
    &&& p.id == row.id && p.cid == row.cid && p.rkey == row.rkey
    &&& p.created_at == row.created_at && p.text == row.text && p.author_id == row.author_id
    &&& string_list_of(row.langs@) == Some(texts(p.langs@))
    &&& string_list_of(row.urls@) == Some(texts(p.urls@))
    &&& string_list_of(row.tags@) == Some(texts(p.tags@))
}

/// Whether the post row's three list columns all decode.
pub open spec fn post_row_decodes(langs: Seq<u8>, urls: Seq<u8>, tags: Seq<u8>) -> bool {
    string_list_of(langs) is Some && string_list_of(urls) is Some && string_list_of(tags) is Some
}

impl Topic {
    /// The topic of a row; `None` when its keyword column is not a JSON list
    /// of strings.
    pub fn from_db(row: DbTopic) -> (r: Option<Topic>)
        ensures
            r is Some <==> string_list_of(row.keywords@) is Some,
            r matches Some(t) ==> {
                &&& t.id == row.id && t.created_at == row.created_at && t.enabled == row.enabled
                &&& t.slug == row.slug && t.subject == row.subject
                &&& t.description == row.description && t.last_analysis == row.last_analysis
                &&& t.last_analysis_at == row.last_analysis_at
                &&& string_list_of(row.keywords@) == Some(texts(t.keywords@))
            },
    {
        let keywords = match decode_string_list(row.keywords.as_slice()) {
            Some(k) => k,
            None => return None,
        };
        Some(
            Topic {
                id: row.id,
                created_at: row.created_at,
                enabled: row.enabled,
                slug: row.slug,
                subject: row.subject,
                description: row.description,
                keywords,
                last_analysis: row.last_analysis,
                last_analysis_at: row.last_analysis_at,
            },
        )
    }
}

impl TopicWithPostCount {
    /// The counted topic of a row; `None` when its keyword column does not decode.
    pub fn from_db(row: DbTopicWithPostCount) -> (r: Option<TopicWithPostCount>)
        ensures
            r is Some <==> string_list_of(row.keywords@) is Some,
            r matches Some(t) ==> {
                &&& t.id == row.id && t.created_at == row.created_at && t.enabled == row.enabled
                &&& t.slug == row.slug && t.subject == row.subject
                &&& t.description == row.description && t.last_analysis == row.last_analysis
                &&& t.last_analysis_at == row.last_analysis_at && t.post_count == row.post_count
                &&& string_list_of(row.keywords@) == Some(texts(t.keywords@))
            },
    {
        let keywords = match decode_string_list(row.keywords.as_slice()) {
            Some(k) => k,
            None => return None,
        };
        Some(
            TopicWithPostCount {
                id: row.id,
                created_at: row.created_at,
                enabled: row.enabled,
                slug: row.slug,
                subject: row.subject,
                description: row.description,
                keywords,
                last_analysis: row.last_analysis,
                last_analysis_at: row.last_analysis_at,
                post_count: row.post_count,
            },
        )
    }
}

impl Post {
    /// The post of a row; `None` when a list column does not decode.
    pub fn from_db(row: DbPost) -> (r: Option<Post>)
        ensures
            r is Some <==> post_row_decodes(row.langs@, row.urls@, row.tags@),
            r matches Some(p) ==> post_from_row(p, row),
    {
        let langs = match decode_string_list(row.langs.as_slice()) {
            Some(v) => v,
            None => return None,
        };
        let urls = match decode_string_list(row.urls.as_slice()) {
            Some(v) => v,
            None => return None,
        };
        let tags = match decode_string_list(row.tags.as_slice()) {
            Some(v) => v,
            None => return None,
        };
        Some(
            Post {
                id: row.id,
                cid: row.cid,
                rkey: row.rkey,
                created_at: row.created_at,
                text: row.text,
                langs,
                urls,
                tags,
                author_id: row.author_id,
            },
        )
    }
}

impl PostWithAuthor {
    /// The post and author of a joined row; `None` when a list column does
    /// not decode.
    pub fn from_db(row: DbPostWithAuthor) -> (r: Option<PostWithAuthor>)
        ensures
            r is Some <==> post_row_decodes(row.langs@, row.urls@, row.tags@) && string_list_of(
                row.aka@,
            ) is Some,
            r matches Some(p) ==> {
                &&& p.post.id == row.id && p.post.cid == row.cid && p.post.rkey == row.rkey
                &&& p.post.created_at == row.created_at && p.post.text == row.text
                &&& p.post.author_id == row.author_id && p.did == row.did
                &&& string_list_of(row.langs@) == Some(texts(p.post.langs@))
                &&& string_list_of(row.urls@) == Some(texts(p.post.urls@))
                &&& string_list_of(row.tags@) == Some(texts(p.post.tags@))
                &&& string_list_of(row.aka@) == Some(texts(p.aka@))
            },
    {
        let aka = match decode_string_list(row.aka.as_slice()) {
            Some(v) => v,
            None => return None,
        };
        let post = match Post::from_db(
            DbPost {
                id: row.id,
                cid: row.cid,
                rkey: row.rkey,
                created_at: row.created_at,
                text: row.text,
                langs: row.langs,
                urls: row.urls,
                tags: row.tags,
                author_id: row.author_id,
            },
        ) {
            Some(p) => p,
            None => return None,
        };
        Some(PostWithAuthor { post, aka, did: row.did })
    }
}

impl User {
    /// The author of a row; `None` when its alias column does not decode.
    pub fn from_db(row: DbUser) -> (r: Option<User>)
        ensures
            r is Some <==> string_list_of(row.aka@) is Some,
            r matches Some(u) ==> {
                &&& u.id == row.id && u.created_at == row.created_at && u.did == row.did
                &&& u.aka_retrieved_at == row.aka_retrieved_at
                &&& u.last_analysis == row.last_analysis
                &&& u.last_analysis_at == row.last_analysis_at
                &&& string_list_of(row.aka@) == Some(texts(u.aka@))
            },
    {
        let aka = match decode_string_list(row.aka.as_slice()) {
            Some(v) => v,
            None => return None,
        };
        Some(
            User {
                id: row.id,
                created_at: row.created_at,
                did: row.did,
                aka,
                aka_retrieved_at: row.aka_retrieved_at,
                last_analysis: row.last_analysis,
                last_analysis_at: row.last_analysis_at,
            },
        )
    }
}

} // verus!
