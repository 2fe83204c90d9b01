use vstd::prelude::*;
use vstd::string::StringExecFns;

use crate::config::Gemini;
use crate::models::texts;
use crate::text::{chars_of, string_of, trim_white, trimmed};

verus! {

/// Settings of the text-generation service. An empty base URL means the
/// service is off and every request is answered with nothing.
pub struct GeminiClient {
    pub base_url: String,
    pub api_key: String,
    pub user_agent: String,
    pub timeout_seconds: u64,
}

/// The pieces of `s` between commas; there is always at least one.
pub open spec fn comma_pieces(s: Seq<char>) -> Seq<Seq<char>>
    decreases s.len(),
{
    if s.len() == 0 {
        seq![Seq::empty()]
    } else {
        let p = comma_pieces(s.drop_last());
        if s.last() == ',' {
            p.push(Seq::empty())
        } else {
            p.update(p.len() - 1, p.last().push(s.last()))
        }
    }
}

/// The keywords of a comma-separated answer, each with the white space at
/// its ends removed.
pub open spec fn keywords_of(answer: Seq<char>) -> Seq<Seq<char>> {
    comma_pieces(answer).map_values(|p: Seq<char>| trimmed(p))
}

impl GeminiClient {
    /// On only when the settings enable it and an API key is present.
    pub fn new(config: &Gemini, api_key: &str) -> (r: Self)
        ensures
            r.base_url@ == (if config.enabled && api_key@.len() > 0 {
                config.base_url@
            } else {
                Seq::empty()
            }),
            r.api_key@ == api_key@,
            r.user_agent@ == config.user_agent@,
            r.timeout_seconds == config.timeout_seconds,
    {
        let on = config.enabled && api_key.unicode_len() > 0;
        GeminiClient {
            base_url: if on {
                config.base_url.clone()
            } else {
                String::new()
            },
            api_key: api_key.to_owned(),
            user_agent: config.user_agent.clone(),
            timeout_seconds: config.timeout_seconds,
        }
    }

    pub fn is_enabled(&self) -> (r: bool)
        ensures
            r == (self.base_url@.len() > 0),
    {
        self.base_url.unicode_len() > 0
    }

    /// The request asking for keywords on a subject.
    pub fn keywords_prompt(subject: &str, description: &str) -> (r: String)
        ensures
            r@ == "Generate 10-20 relevant keywords for the following subject and description. Return only the keywords separated by commas, no other text.\n\nSubject: "@
                + subject@ + "\nDescription: "@ + description@,
    {
        let mut p = String::from_str(
            "Generate 10-20 relevant keywords for the following subject and description. Return only the keywords separated by commas, no other text.\n\nSubject: ",
        );
        p.append(subject);
        p.append("\nDescription: ");
        p.append(description);
        p
    }

    /// Splits the service's answer at commas and trims each keyword.
    pub fn keywords_from_response(answer: &str) -> (r: Vec<String>)
        ensures
            texts(r@) == keywords_of(answer@),
    {
        let cs = chars_of(answer);
        let mut pieces: Vec<Vec<char>> = Vec::new();
        let mut current: Vec<char> = Vec::new();
        let mut i: usize = 0;
        proof {
            assert(cs@.subrange(0, 0) =~= Seq::<char>::empty());
        }
        while i < cs.len()
            invariant
                cs@ == answer@,
                i <= cs@.len(),
                comma_pieces(cs@.subrange(0, i as int)) == pieces@.map_values(|v: Vec<char>| v@).push(
                    current@,
                ),
            decreases cs@.len() - i,
        {
            let ghost prefix = cs@.subrange(0, i + 1);
            assert(prefix.drop_last() =~= cs@.subrange(0, i as int));
            let ghost before = pieces@.map_values(|v: Vec<char>| v@);
            if cs[i] == ',' {
                let done = current;
                current = Vec::new();
                pieces.push(done);
                assert(pieces@.map_values(|v: Vec<char>| v@) =~= before.push(done@));
                assert(current@ =~= Seq::<char>::empty());
            } else {
                let ghost old_cur = current@;
                current.push(cs[i]);
                assert(before.push(old_cur).update(before.len() as int, old_cur.push(cs@[i as int]))
                    =~= before.push(current@));
            }
            i = i + 1;
        }
        assert(cs@.subrange(0, cs@.len() as int) =~= cs@);
        pieces.push(current);
        let ghost all = pieces@.map_values(|v: Vec<char>| v@);
        assert(all == comma_pieces(answer@)) by {
            assert(all =~= comma_pieces(cs@.subrange(0, cs@.len() as int)));
        }
        let mut r: Vec<String> = Vec::new();
        let mut k: usize = 0;
        while k < pieces.len()
            invariant
                k <= pieces@.len(),
                all == pieces@.map_values(|v: Vec<char>| v@),
                texts(r@) == all.subrange(0, k as int).map_values(|p: Seq<char>| trimmed(p)),
            decreases pieces@.len() - k,
        {
            let t = trim_white(pieces[k].as_slice());
            let s = string_of(t.as_slice());
            let ghost before = texts(r@);
            r.push(s);
            assert(texts(r@) =~= before.push(trimmed(all[k as int])));
            assert(all.subrange(0, k + 1).map_values(|p: Seq<char>| trimmed(p)) =~= all.subrange(
                0,
                k as int,
            ).map_values(|p: Seq<char>| trimmed(p)).push(trimmed(all[k as int])));
            k = k + 1;
        }
        assert(all.subrange(0, pieces@.len() as int) =~= all);
        r
    }

    /// The request asking for a summary of posts, separated by blank lines.
    pub fn analysis_prompt(posts: &Vec<String>) -> (r: String)
        ensures
            r@ == "Analyze these posts and provide a summary including:\n- Overall sentiment and tone\n- Key topics and themes\n- Major points being discussed\n- Any notable patterns or trends\n- Brief summary of the discussion\n\nPosts to analyze:\n"@
                + joined(texts(posts@)),
    {
        let mut p = String::from_str(
            "Analyze these posts and provide a summary including:\n- Overall sentiment and tone\n- Key topics and themes\n- Major points being discussed\n- Any notable patterns or trends\n- Brief summary of the discussion\n\nPosts to analyze:\n",
        );
        let ghost head = p@;
        let mut i: usize = 0;
        while i < posts.len()
            invariant
                i <= posts@.len(),
                p@ == head + joined(texts(posts@.subrange(0, i as int))),
            decreases posts@.len() - i,
        {
            let ghost prefix = texts(posts@.subrange(0, i + 1));
            assert(prefix.drop_last() =~= texts(posts@.subrange(0, i as int)));
            assert(prefix.last() == posts@[i as int]@);
            if i > 0 {
                p.append("\n\n");
            }
            p.append(posts[i].as_str());
            proof {
                if i == 0 {
                    assert(texts(posts@.subrange(0, 0)) =~= Seq::empty());
                }
            }
            assert(p@ =~= head + joined(prefix));
            i = i + 1;
        }
        assert(posts@.subrange(0, posts@.len() as int) =~= posts@);
        p
    }
}

/// The items separated by blank lines.
pub open spec fn joined(items: Seq<Seq<char>>) -> Seq<char>
    decreases items.len(),
{
    if items.len() == 0 {
        Seq::empty()
    } else if items.len() == 1 {
        items[0]
    } else {
        joined(items.drop_last()) + "\n\n"@ + items.last()
    }
}

} // verus!
