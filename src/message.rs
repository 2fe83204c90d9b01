use vstd::prelude::*;

use crate::json::{field, get_field, get_str, json_of_text, parse_json, str_field, text_of, Json};
use crate::models::texts;
use crate::text::{lower_of, same_text, to_lower};

verus! {

/// One rich-text annotation of a post.
pub enum Feature {
    Link(String),
    Tag(String),
    Hashtag(String),
    Mention(String),
}

/// What a feature holds, as characters.
pub enum FeatureModel {
    Link(Seq<char>),
    Tag(Seq<char>),
    Hashtag(Seq<char>),
    Mention(Seq<char>),
}

impl View for Feature {
    type V = FeatureModel;

    open spec fn view(&self) -> FeatureModel {
        match self {
            Feature::Link(s) => FeatureModel::Link(s@),
            Feature::Tag(s) => FeatureModel::Tag(s@),
            Feature::Hashtag(s) => FeatureModel::Hashtag(s@),
            Feature::Mention(s) => FeatureModel::Mention(s@),
        }
    }
}

/// What each feature holds.
pub open spec fn feature_views(v: Seq<Feature>) -> Seq<FeatureModel> {
    v.map_values(|f: Feature| f@)
}

/// The feature that an annotation object describes, told apart by its `$type`.
pub open spec fn feature_of(j: Json) -> Option<FeatureModel> {
    let t = str_field(j, "$type"@);
    if t == Some("app.bsky.richtext.facet#link"@) {
        match str_field(j, "uri"@) {
            Some(u) => Some(FeatureModel::Link(u)),
            None => None,
        }
    } else if t == Some("app.bsky.richtext.facet#tag"@) {
        match str_field(j, "tag"@) {
            Some(u) => Some(FeatureModel::Tag(u)),
            None => None,
        }
    } else if t == Some("app.bsky.richtext.facet#hashtag"@) {
        match str_field(j, "tag"@) {
            Some(u) => Some(FeatureModel::Hashtag(u)),
            None => None,
        }
    } else if t == Some("app.bsky.richtext.facet#mention"@) {
        match str_field(j, "did"@) {
            Some(u) => Some(FeatureModel::Mention(u)),
            None => None,
        }
    } else {
        None
    }
}

/// The features of one facet; it must hold a `features` list of valid features.
pub open spec fn facet_features(facet: Json) -> Option<Seq<FeatureModel>> {
    match field(facet, "features"@) {
        Some(Json::Array(items)) => if forall|k: int|
            0 <= k < items@.len() ==> (#[trigger] feature_of(items@[k])) is Some {
            Some(Seq::new(items@.len(), |k: int| feature_of(items@[k])->0))
        } else {
            None
        },
        _ => None,
    }
}

/// The features of all facets, in order, assuming each facet is valid.
pub open spec fn joined_features(facets: Seq<Json>) -> Seq<FeatureModel>
    decreases facets.len(),
{
    if facets.len() == 0 {
        Seq::empty()
    } else {
        joined_features(facets.drop_last()) + facet_features(facets.last())->0
    }
}

/// The features of a list of facets, if every facet is valid.
pub open spec fn facets_features(facets: Seq<Json>) -> Option<Seq<FeatureModel>> {
    if forall|k: int| 0 <= k < facets.len() ==> (#[trigger] facet_features(facets[k])) is Some {
        Some(joined_features(facets))
    } else {
        None
    }
}

/// The features of a record: none when `facets` is absent.
pub open spec fn record_features(record: Json) -> Option<Seq<FeatureModel>> {
    match field(record, "facets"@) {
        None => Some(Seq::empty()),
        Some(Json::Array(items)) => facets_features(items@),
        Some(_) => None,
    }
}

/// The texts of a list whose items must all be strings.
pub open spec fn strings_in(items: Seq<Json>) -> Option<Seq<Seq<char>>> {
    if forall|k: int| 0 <= k < items.len() ==> (#[trigger] text_of(items[k])) is Some {
        Some(Seq::new(items.len(), |k: int| text_of(items[k])->0))
    } else {
        None
    }
}

/// The language tags of a record: none when `langs` is absent.
pub open spec fn record_langs(record: Json) -> Option<Seq<Seq<char>>> {
    match field(record, "langs"@) {
        None => Some(Seq::empty()),
        Some(Json::Array(items)) => strings_in(items@),
        Some(_) => None,
    }
}

/// The mentioned identifiers, in order.
pub open spec fn mentions_in(fs: Seq<FeatureModel>) -> Seq<Seq<char>>
    decreases fs.len(),
{
    if fs.len() == 0 {
        Seq::empty()
    } else {
        let rest = mentions_in(fs.drop_last());
        match fs.last() {
            FeatureModel::Mention(d) => rest.push(d),
            _ => rest,
        }
    }
}

/// The linked URLs, in order.
pub open spec fn urls_in(fs: Seq<FeatureModel>) -> Seq<Seq<char>>
    decreases fs.len(),
{
    if fs.len() == 0 {
        Seq::empty()
    } else {
        let rest = urls_in(fs.drop_last());
        match fs.last() {
            FeatureModel::Link(u) => rest.push(u),
            _ => rest,
        }
    }
}

/// The tags and hashtags, in order.
pub open spec fn tags_in(fs: Seq<FeatureModel>) -> Seq<Seq<char>>
    decreases fs.len(),
{
    if fs.len() == 0 {
        Seq::empty()
    } else {
        let rest = tags_in(fs.drop_last());
        match fs.last() {
            FeatureModel::Tag(t) => rest.push(t),
            FeatureModel::Hashtag(t) => rest.push(t),
            _ => rest,
        }
    }
}

/// A parsed post creation, as characters.
pub struct MessageView {
    pub langs: Seq<Seq<char>>,
    pub text: Seq<char>,
    pub text_lower: Seq<char>,
    pub created_at: Seq<char>,
    pub did: Seq<char>,
    pub cid: Seq<char>,
    pub rkey: Seq<char>,
    pub urls: Seq<Seq<char>>,
    pub tags: Seq<Seq<char>>,
    pub mentions: Seq<Seq<char>>,
}

/// The post that an event envelope creates: only a `commit` event whose
/// operation is `create`, with every required field present and well typed.
pub open spec fn message_of(j: Json) -> Option<MessageView> {
    if str_field(j, "kind"@) != Some("commit"@) {
        None
    } else {
        match (str_field(j, "did"@), field(j, "commit"@)) {
            (Some(did), Some(commit)) => if str_field(commit, "operation"@) != Some("create"@) {
                None
            } else {
                match (field(commit, "record"@), str_field(commit, "rkey"@), str_field(commit, "cid"@)) {
                    (Some(record), Some(rkey), Some(cid)) => match (
                        str_field(record, "text"@),
                        str_field(record, "createdAt"@),
                        record_langs(record),
                        record_features(record),
                    ) {
                        (Some(text), Some(created_at), Some(langs), Some(fs)) => Some(
                            MessageView {
                                langs,
                                text,
                                text_lower: lower_of(text),
                                created_at,
                                did,
                                cid,
                                rkey,
                                urls: urls_in(fs),
                                tags: tags_in(fs),
                                mentions: mentions_in(fs),
                            },
                        ),
                        _ => None,
                    },
                    _ => None,
                }
            },
            _ => None,
        }
    }
}

/// The post that a raw text frame creates, if any.
pub open spec fn message_of_text(text: Seq<char>) -> Option<MessageView> {
    match json_of_text(text) {
        Some(j) => message_of(j),
        None => None,
    }
}

/// A post creation read from the firehose.
pub struct JetstreamMessage {
    pub langs: Vec<String>,
    pub text: String,
    pub text_lower: String,
    pub created_at: String,
    pub did: String,
    pub cid: String,
    pub rkey: String,
    pub urls: Vec<String>,
    pub tags: Vec<String>,
    pub mentions: Vec<String>,
}

impl View for JetstreamMessage {
    type V = MessageView;

    open spec fn view(&self) -> MessageView {
        MessageView {
            langs: texts(self.langs@),
            text: self.text@,
            text_lower: self.text_lower@,
            created_at: self.created_at@,
            did: self.did@,
            cid: self.cid@,
            rkey: self.rkey@,
            urls: texts(self.urls@),
            tags: texts(self.tags@),
            mentions: texts(self.mentions@),
        }
    }
}

/// The view of an optional message.
pub open spec fn message_view(m: Option<JetstreamMessage>) -> Option<MessageView> {
    match m {
        Some(m) => Some(m@),
        None => None,
    }
}

fn read_feature(j: &Json) -> (r: Option<Feature>)
    ensures
        match r {
            Some(f) => feature_of(*j) == Some(f@),
            None => feature_of(*j) is None,
        },
{
    let t = match get_str(j, "$type") {
        Some(t) => t,
        None => return None,
    };
    if same_text(t.as_str(), "app.bsky.richtext.facet#link") {
        match get_str(j, "uri") {
            Some(u) => Some(Feature::Link(u.clone())),
            None => None,
        }
    } else if same_text(t.as_str(), "app.bsky.richtext.facet#tag") {
        match get_str(j, "tag") {
            Some(u) => Some(Feature::Tag(u.clone())),
            None => None,
        }
    } else if same_text(t.as_str(), "app.bsky.richtext.facet#hashtag") {
        match get_str(j, "tag") {
            Some(u) => Some(Feature::Hashtag(u.clone())),
            None => None,
        }
    } else if same_text(t.as_str(), "app.bsky.richtext.facet#mention") {
        match get_str(j, "did") {
            Some(u) => Some(Feature::Mention(u.clone())),
            None => None,
        }
    } else {
        None
    }
}

fn read_facet(facet: &Json, out: &mut Vec<Feature>) -> (ok: bool)
    ensures
        ok == (facet_features(*facet) is Some),
        ok ==> feature_views(final(out)@) == feature_views(old(out)@) + facet_features(*facet)->0,
{
    let items = match get_field(facet, "features") {
        Some(Json::Array(items)) => items,
        _ => return false,
    };
    let ghost start = out@;
    let mut i: usize = 0;
    while i < items.len()
        invariant
            i <= items@.len(),
            field(*facet, "features"@) == Some(Json::Array(*items)),
            forall|k: int| 0 <= k < i ==> (#[trigger] feature_of(items@[k])) is Some,
            feature_views(out@) == feature_views(start) + Seq::new(
                i as nat,
                |k: int| feature_of(items@[k])->0,
            ),
        decreases items@.len() - i,
    {
        let ghost before = out@;
        match read_feature(&items[i]) {
            Some(f) => {
                out.push(f);
                assert(feature_views(out@) =~= feature_views(before).push(f@));
                assert(feature_views(start) + Seq::new((i + 1) as nat, |k: int| feature_of(items@[k])->0)
                    =~= (feature_views(start) + Seq::new(i as nat, |k: int| feature_of(items@[k])->0)).push(f@));
            },
            None => {
                return false;
            },
        }
        i = i + 1;
    }
    assert(Seq::new(i as nat, |k: int| feature_of(items@[k])->0) =~= Seq::new(
        items@.len(),
        |k: int| feature_of(items@[k])->0,
    ));
    true
}

fn collect_features(record: &Json) -> (r: Option<Vec<Feature>>)
    ensures
        match r {
            Some(v) => record_features(*record) == Some(feature_views(v@)),
            None => record_features(*record) is None,
        },
{
    let facets = match get_field(record, "facets") {
        None => {
            let v: Vec<Feature> = Vec::new();
            assert(feature_views(v@) =~= Seq::empty());
            return Some(v);
        },
        Some(Json::Array(items)) => items,
        Some(_) => return None,
    };
    let mut out: Vec<Feature> = Vec::new();
    let mut i: usize = 0;
    assert(feature_views(out@) =~= joined_features(facets@.subrange(0, 0)));
    while i < facets.len()
        invariant
            i <= facets@.len(),
            record_features(*record) == facets_features(facets@),
            forall|k: int| 0 <= k < i ==> (#[trigger] facet_features(facets@[k])) is Some,
            feature_views(out@) == joined_features(facets@.subrange(0, i as int)),
        decreases facets@.len() - i,
    {
        if !read_facet(&facets[i], &mut out) {
            return None;
        }
        proof {
            let s = facets@.subrange(0, i + 1);
            assert(s.drop_last() =~= facets@.subrange(0, i as int));
            assert(s.last() == facets@[i as int]);
        }
        i = i + 1;
    }
    assert(facets@.subrange(0, facets@.len() as int) =~= facets@);
    Some(out)
}

pub(crate) fn read_strings(items: &Vec<Json>) -> (r: Option<Vec<String>>)
    ensures
        match r {
            Some(v) => strings_in(items@) == Some(texts(v@)),
            None => strings_in(items@) is None,
        },
{
    let mut out: Vec<String> = Vec::new();
    let mut i: usize = 0;
    while i < items.len()
        invariant
            i <= items@.len(),
            forall|k: int| 0 <= k < i ==> (#[trigger] text_of(items@[k])) is Some,
            texts(out@) == Seq::new(i as nat, |k: int| text_of(items@[k])->0),
        decreases items@.len() - i,
    {
        let ghost before = out@;
        match &items[i] {
            Json::Str(s) => {
                out.push(s.clone());
                assert(texts(out@) =~= texts(before).push(s@));
                assert(Seq::new((i + 1) as nat, |k: int| text_of(items@[k])->0) =~= Seq::new(
                    i as nat,
                    |k: int| text_of(items@[k])->0,
                ).push(s@));
            },
            _ => {
                assert(text_of(items@[i as int]) is None);
                return None;
            },
        }
        i = i + 1;
    }
    assert(Seq::new(i as nat, |k: int| text_of(items@[k])->0) =~= Seq::new(
        items@.len(),
        |k: int| text_of(items@[k])->0,
    ));
    Some(out)
}

fn read_langs(record: &Json) -> (r: Option<Vec<String>>)
    ensures
        match r {
            Some(v) => record_langs(*record) == Some(texts(v@)),
            None => record_langs(*record) is None,
        },
{
    match get_field(record, "langs") {
        None => {
            let v: Vec<String> = Vec::new();
            assert(texts(v@) =~= Seq::empty());
            Some(v)
        },
        Some(Json::Array(items)) => read_strings(items),
        Some(_) => None,
    }
}

/// Splits features into mentions, links and tags, each in order.
fn split_features(fs: &Vec<Feature>) -> (r: (Vec<String>, Vec<String>, Vec<String>))
    ensures
        texts(r.0@) == mentions_in(feature_views(fs@)),
        texts(r.1@) == urls_in(feature_views(fs@)),
        texts(r.2@) == tags_in(feature_views(fs@)),
{
    let mut mentions: Vec<String> = Vec::new();
    let mut urls: Vec<String> = Vec::new();
    let mut tags: Vec<String> = Vec::new();
    let mut i: usize = 0;
    assert(feature_views(fs@.subrange(0, 0)) =~= Seq::empty());
    assert(texts(mentions@) =~= Seq::empty());
    assert(texts(urls@) =~= Seq::empty());
    assert(texts(tags@) =~= Seq::empty());
    while i < fs.len()
        invariant
            i <= fs@.len(),
            texts(mentions@) == mentions_in(feature_views(fs@.subrange(0, i as int))),
            texts(urls@) == urls_in(feature_views(fs@.subrange(0, i as int))),
            texts(tags@) == tags_in(feature_views(fs@.subrange(0, i as int))),
        decreases fs@.len() - i,
    {
        let ghost prefix = feature_views(fs@.subrange(0, i + 1));
        assert(prefix.drop_last() =~= feature_views(fs@.subrange(0, i as int)));
        assert(prefix.last() == fs@[i as int]@);
        match &fs[i] {
            Feature::Mention(d) => {
                let ghost before = mentions@;
                mentions.push(d.clone());
                assert(texts(mentions@) =~= texts(before).push(d@));
            },
            Feature::Link(u) => {
                let ghost before = urls@;
                urls.push(u.clone());
                assert(texts(urls@) =~= texts(before).push(u@));
            },
            Feature::Tag(t) => {
                let ghost before = tags@;
                tags.push(t.clone());
                assert(texts(tags@) =~= texts(before).push(t@));
            },
            Feature::Hashtag(t) => {
                let ghost before = tags@;
                tags.push(t.clone());
                assert(texts(tags@) =~= texts(before).push(t@));
            },
        }
        i = i + 1;
    }
    assert(fs@.subrange(0, fs@.len() as int) =~= fs@);
    (mentions, urls, tags)
}

impl JetstreamMessage {
    /// Parses one raw text frame. Anything that is not JSON, not a `commit`
    /// event, not a `create` operation, or lacks a required field gives `None`.
    pub fn new(message: String) -> (r: Option<Self>)
        ensures
            message_view(r) == message_of_text(message@),
            json_of_text(message@) is None ==> r is None,
    {
        match parse_json(message.as_str()) {
            Some(j) => Self::from_json(&j),
            None => None,
        }
    }

    /// Reads the post creation that a decoded envelope describes.
    pub fn from_json(j: &Json) -> (r: Option<Self>)
        ensures
            message_view(r) == message_of(*j),
    {
        let kind = match get_str(j, "kind") {
            Some(k) => k,
            None => return None,
        };
        if !same_text(kind.as_str(), "commit") {
            return None;
        }
        let did = match get_str(j, "did") {
            Some(d) => d,
            None => return None,
        };
        let commit = match get_field(j, "commit") {
            Some(c) => c,
            None => return None,
        };
        let operation = match get_str(commit, "operation") {
            Some(o) => o,
            None => return None,
        };
        if !same_text(operation.as_str(), "create") {
            return None;
        }
        let record = match get_field(commit, "record") {
            Some(r) => r,
            None => return None,
        };
        let rkey = match get_str(commit, "rkey") {
            Some(k) => k,
            None => return None,
        };
        let cid = match get_str(commit, "cid") {
            Some(c) => c,
            None => return None,
        };
        let text = match get_str(record, "text") {
            Some(t) => t,
            None => return None,
        };
        let created_at = match get_str(record, "createdAt") {
            Some(c) => c,
            None => return None,
        };
        let langs = match read_langs(record) {
            Some(l) => l,
            None => return None,
        };
        let features = match collect_features(record) {
            Some(f) => f,
            None => return None,
        };
        let (mentions, urls, tags) = split_features(&features);
        Some(
            JetstreamMessage {
                langs,
                text: text.clone(),
                text_lower: to_lower(text.as_str()),
                created_at: created_at.clone(),
                did: did.clone(),
                cid: cid.clone(),
                rkey: rkey.clone(),
                urls,
                tags,
                mentions,
            },
        )
    }
}

} // verus!
