use vstd::prelude::*;

use crate::message::JetstreamMessage;
use crate::models::Topic;
use crate::text::{chars_of, is_white_space, lower_of, to_lower, white_space};

verus! {

/// `text[a..b]` is a whole token: a maximal run of characters that are not
/// white space.
pub open spec fn is_token(text: Seq<char>, a: int, b: int) -> bool {
    &&& 0 <= a < b <= text.len()
    &&& forall|k: int| a <= k < b ==> !white_space(#[trigger] text[k])
    &&& (a == 0 || white_space(text[a - 1]))
    &&& (b == text.len() || white_space(text[b]))
}

/// `word` equals some whole token of `text`.
pub open spec fn has_token(text: Seq<char>, word: Seq<char>) -> bool {
    exists|a: int, b: int| #[trigger] is_token(text, a, b) && text.subrange(a, b) == word
}

/// A keyword matches a lowercased text when its lowercase form is one of
/// the text's tokens.
pub open spec fn keyword_matches(text_lower: Seq<char>, keyword: Seq<char>) -> bool {
    has_token(text_lower, lower_of(keyword))
}

/// Some keyword of the list matches the lowercased text.
pub open spec fn topic_matches(text_lower: Seq<char>, keywords: Seq<String>) -> bool {
    exists|k: int| 0 <= k < keywords.len() && keyword_matches(text_lower, #[trigger] keywords[k]@)
}

/// The ids of the topics that match, in the order of the list.
pub open spec fn matching_ids(text_lower: Seq<char>, topics: Seq<Topic>) -> Seq<i64>
    decreases topics.len(),
{
    if topics.len() == 0 {
        Seq::empty()
    } else {
        let rest = matching_ids(text_lower, topics.drop_last());
        if topic_matches(text_lower, topics.last().keywords@) {
            rest.push(topics.last().id)
        } else {
            rest
        }
    }
}

/// Whether `text[start..end]` equals `word`.
fn span_equals(text: &[char], start: usize, end: usize, word: &[char]) -> (r: bool)
    requires
        start <= end <= text@.len(),
    ensures
        r == (text@.subrange(start as int, end as int) == word@),
{
    if end - start != word.len() {
        return false;
    }
    let mut k: usize = 0;
    while k < word.len()
        invariant
            end - start == word@.len(),
            start <= end <= text@.len(),
            k <= word@.len(),
            forall|m: int| 0 <= m < k ==> text@[start + m] == word@[m],
        decreases word@.len() - k,
    {
        if text[start + k] != word[k] {
            assert(text@.subrange(start as int, end as int)[k as int] != word@[k as int]);
            return false;
        }
        k = k + 1;
    }
    assert(text@.subrange(start as int, end as int) =~= word@);
    true
}

/// Whether `word` equals a whole white-space-delimited token of `text`.
/// Punctuation is part of a token: `rust!` is not the token `rust`.
pub fn contains_token(text: &[char], word: &[char]) -> (r: bool)
    ensures
        r == has_token(text@, word@),
{
    let n = text.len();
    let mut i: usize = 0;
    while i < n
        invariant
            n == text@.len(),
            i <= n,
            i == 0 || i == n || white_space(text@[i - 1]),
            forall|a: int, b: int| #[trigger]
                is_token(text@, a, b) && a < i ==> text@.subrange(a, b) != word@,
        decreases n - i,
    {
        if is_white_space(text[i]) {
            i = i + 1;
        } else {
            let start = i;
            let mut e = i + 1;
            while e < n && !is_white_space(text[e])
                invariant
                    n == text@.len(),
                    start < e <= n,
                    !white_space(text@[start as int]),
                    forall|k: int| start <= k < e ==> !white_space(#[trigger] text@[k]),
                decreases n - e,
            {
                e = e + 1;
            }
            assert(is_token(text@, start as int, e as int));
            if span_equals(text, start, e, word) {
                return true;
            }
            let next = if e < n {
                e + 1
            } else {
                e
            };
            assert forall|a: int, b: int| #[trigger]
                is_token(text@, a, b) && a < next implies text@.subrange(a, b) != word@ by {
                if a >= start {
                    if a > start && a < e {
                        assert(!white_space(text@[a - 1]));
                    }
                    if a == start {
                        if b < e {
                            assert(!white_space(text@[b]));
                        }
                        if b > e {
                            assert(!white_space(text@[e as int]));
                        }
                    }
                }
            }
            i = next;
        }
    }
    false
}

impl JetstreamMessage {
    /// The ids of the topics whose keywords match this post, in list order.
    pub fn matches_any_interest(&self, interests: &[Topic]) -> (r: Vec<i64>)
        ensures
            r@ == matching_ids(self.text_lower@, interests@),
    {
        let text = chars_of(self.text_lower.as_str());
        let mut ids: Vec<i64> = Vec::new();
        let mut i: usize = 0;
        while i < interests.len()
            invariant
                i <= interests@.len(),
                text@ == self.text_lower@,
                ids@ == matching_ids(self.text_lower@, interests@.subrange(0, i as int)),
            decreases interests@.len() - i,
        {
            let ghost prefix = interests@.subrange(0, i + 1);
            assert(prefix.drop_last() =~= interests@.subrange(0, i as int));
            if keywords_match(text.as_slice(), &interests[i].keywords) {
                ids.push(interests[i].id);
            }
            i = i + 1;
        }
        assert(interests@.subrange(0, interests@.len() as int) =~= interests@);
        ids
    }

    /// Whether some keyword of the topic matches this post.
    pub fn matches_interest(&self, interest: &Topic) -> (r: bool)
        ensures
            r == topic_matches(self.text_lower@, interest.keywords@),
    {
        let text = chars_of(self.text_lower.as_str());
        keywords_match(text.as_slice(), &interest.keywords)
    }
}

fn keywords_match(text_lower: &[char], keywords: &Vec<String>) -> (r: bool)
    ensures
        r == topic_matches(text_lower@, keywords@),
{
    let mut k: usize = 0;
    while k < keywords.len()
        invariant
            k <= keywords@.len(),
            forall|m: int| 0 <= m < k ==> !keyword_matches(text_lower@, #[trigger] keywords@[m]@),
        decreases keywords@.len() - k,
    {
        let lowered = to_lower(keywords[k].as_str());
        let word = chars_of(lowered.as_str());
        if contains_token(text_lower, word.as_slice()) {
            assert(keyword_matches(text_lower@, keywords@[k as int]@));
            return true;
        }
        k = k + 1;
    }
    false
}

/// No keyword of any topic matches the lowercased text.
pub open spec fn no_keyword_matches(text_lower: Seq<char>, topics: Seq<Topic>) -> bool {
    forall|i: int, k: int|
        0 <= i < topics.len() && 0 <= k < topics[i].keywords@.len() ==> !keyword_matches(
            text_lower,
            #[trigger] topics[i].keywords@[k]@,
        )
}

/// No topic matches exactly when no keyword of any topic, lowercased,
/// equals a whole white-space-delimited token of the lowercased text.
pub proof fn lemma_no_match_iff_no_token(text_lower: Seq<char>, topics: Seq<Topic>)
    ensures
        matching_ids(text_lower, topics).len() == 0 <==> no_keyword_matches(text_lower, topics),
    decreases topics.len(),
{
    if topics.len() > 0 {
        let init = topics.drop_last();
        let last = topics.last();
        lemma_no_match_iff_no_token(text_lower, init);
        if topic_matches(text_lower, last.keywords@) {
            let k = choose|k: int|
                0 <= k < last.keywords@.len() && keyword_matches(
                    text_lower,
                    #[trigger] last.keywords@[k]@,
                );
            assert(topics[topics.len() - 1].keywords@[k]@ == last.keywords@[k]@);
        } else {
            if no_keyword_matches(text_lower, init) {
                assert forall|i: int, k: int|
                    0 <= i < topics.len() && 0 <= k < topics[i].keywords@.len() implies !keyword_matches(
                    text_lower,
                    #[trigger] topics[i].keywords@[k]@,
                ) by {
                    if i < topics.len() - 1 {
                        assert(topics[i] == init[i]);
                    } else {
                        assert(topics[i] == last);
                        assert(!keyword_matches(text_lower, last.keywords@[k]@));
                    }
                }
            }
            if no_keyword_matches(text_lower, topics) {
                assert forall|i: int, k: int|
                    0 <= i < init.len() && 0 <= k < init[i].keywords@.len() implies !keyword_matches(
                    text_lower,
                    #[trigger] init[i].keywords@[k]@,
                ) by {
                    assert(init[i] == topics[i]);
                }
            }
        }
    }
}

/// Punctuation stays part of a token: `rust` is a token of `i love rust`
/// but not of `i love rust!`.
pub proof fn lemma_punctuation_is_kept()
    ensures
        has_token("i love rust"@, "rust"@),
        !has_token("i love rust!"@, "rust"@),
{
    reveal_strlit("i love rust");
    reveal_strlit("i love rust!");
    reveal_strlit("rust");
    let t = "i love rust"@;
    let u = "i love rust!"@;
    let w = "rust"@;
    assert(t.subrange(7, 11) =~= w);
    assert(is_token(t, 7, 11));
    assert forall|a: int, b: int| #[trigger] is_token(u, a, b) implies u.subrange(a, b) != w by {
        if u.subrange(a, b) == w {
            assert(u.subrange(a, b)[0] == u[a]);
            assert(u[a] == 'r');
            assert(a == 7);
            assert(b == 11);
            assert(u[11] == '!');
        }
    }
}

} // verus!
