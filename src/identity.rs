use vstd::prelude::*;
use vstd::string::StringExecFns;

use crate::config::DidResolver;
use crate::models::texts;
use crate::text::same_text;

verus! {

/// The directory address that lookups use: empty when resolution is off.
pub open spec fn base_url_of(enabled: bool, base_url: Seq<char>) -> Seq<char> {
    if enabled {
        base_url
    } else {
        Seq::empty()
    }
}

/// The directory address for the given settings; empty turns lookups off.
pub fn resolver_base_url(config: &DidResolver) -> (r: String)
    ensures
        r@ == base_url_of(config.enabled, config.base_url@),
{
    if config.enabled {
        config.base_url.clone()
    } else {
        String::new()
    }
}

/// The address to look an identifier up at, or `None` when lookups are off
/// and the identifier resolves to no aliases without any request.
pub fn lookup_url(base_url: &str, did: &str) -> (r: Option<String>)
    ensures
        base_url@.len() == 0 ==> r is None,
        base_url@.len() > 0 ==> (r matches Some(u) && u@ == base_url@ + did@),
{
    if base_url.unicode_len() == 0 {
        None
    } else {
        let mut url = base_url.to_owned();
        url.append(did);
        Some(url)
    }
}

/// `s` with later repeats of an item left out.
pub open spec fn distinct(s: Seq<Seq<char>>) -> Seq<Seq<char>>
    decreases s.len(),
{
    if s.len() == 0 {
        Seq::empty()
    } else {
        let rest = distinct(s.drop_last());
        if rest.contains(s.last()) {
            rest
        } else {
            rest.push(s.last())
        }
    }
}

/// The identifiers an event needs resolved: its author, then each mention
/// not seen before.
pub open spec fn identities_of(author: Seq<char>, mentions: Seq<Seq<char>>) -> Seq<Seq<char>> {
    distinct(seq![author] + mentions)
}

/// Whether `s` holds an equal string.
pub(crate) fn contains_text(s: &Vec<String>, t: &str) -> (r: bool)
    ensures
        r == texts(s@).contains(t@),
{
    let mut i: usize = 0;
    while i < s.len()
        invariant
            i <= s@.len(),
            forall|k: int| 0 <= k < i ==> s@[k]@ != t@,
        decreases s@.len() - i,
    {
        if same_text(s[i].as_str(), t) {
            assert(texts(s@)[i as int] == t@);
            return true;
        }
        i = i + 1;
    }
    false
}

/// The author and the mentioned identifiers, each once, author first.
pub fn identities_to_resolve(author: &String, mentions: &Vec<String>) -> (r: Vec<String>)
    ensures
        texts(r@) == identities_of(author@, texts(mentions@)),
{
    let ghost all = seq![author@] + texts(mentions@);
    let mut r: Vec<String> = Vec::new();
    r.push(author.clone());
    proof {
        assert(all.subrange(0, 1).drop_last() =~= Seq::empty());
        assert(texts(r@) =~= seq![author@]);
        assert(distinct(Seq::<Seq<char>>::empty()) =~= Seq::empty());
        assert(distinct(all.subrange(0, 1)) =~= seq![author@]);
    }
    let mut i: usize = 0;
    while i < mentions.len()
        invariant
            i <= mentions@.len(),
            all == seq![author@] + texts(mentions@),
            texts(r@) == distinct(all.subrange(0, i + 1)),
        decreases mentions@.len() - i,
    {
        let ghost prefix = all.subrange(0, i + 2);
        assert(prefix.drop_last() =~= all.subrange(0, i + 1));
        assert(prefix.last() == mentions@[i as int]@);
        if !contains_text(&r, mentions[i].as_str()) {
            let ghost before = r@;
            r.push(mentions[i].clone());
            assert(texts(r@) =~= texts(before).push(mentions@[i as int]@));
        }
        i = i + 1;
    }
    assert(all.subrange(0, mentions@.len() + 1 as int) =~= all);
    r
}

/// What a lookup produced: the aliases, or nothing when it failed.
pub open spec fn aliases_or_empty(outcome: Option<Vec<String>>) -> Seq<Seq<char>> {
    match outcome {
        Some(v) => texts(v@),
        None => Seq::empty(),
    }
}

/// Pairs each identifier with the aliases its lookup found. A failed lookup
/// gives that identifier no aliases and leaves the others as they are.
pub fn collect_aliases(dids: Vec<String>, outcomes: Vec<Option<Vec<String>>>) -> (r: Vec<
    (String, Vec<String>),
>)
    requires
        dids@.len() == outcomes@.len(),
    ensures
        r@.len() == dids@.len(),
        forall|i: int|
            0 <= i < r@.len() ==> (#[trigger] r@[i]).0@ == dids@[i]@ && texts(r@[i].1@)
                == aliases_or_empty(outcomes@[i]),
{
    let mut r: Vec<(String, Vec<String>)> = Vec::new();
    let mut dids = dids;
    let mut outcomes = outcomes;
    let ghost d0 = dids@;
    let ghost o0 = outcomes@;
    let n = dids.len();
    let mut i: usize = 0;
    while i < n
        invariant
            n == d0.len() == o0.len(),
            i <= n,
            dids@ == d0,
            outcomes@ == o0,
            r@.len() == i,
            forall|k: int|
                0 <= k < i ==> (#[trigger] r@[k]).0@ == d0[k]@ && texts(r@[k].1@)
                    == aliases_or_empty(o0[k]),
        decreases n - i,
    {
        let did = dids[i].clone();
        let aka = match &outcomes[i] {
            Some(v) => v.clone(),
            None => Vec::new(),
        };
        proof {
            if o0[i as int] is None {
                assert(texts(aka@) =~= Seq::empty());
            }
        }
        r.push((did, aka));
        i = i + 1;
    }
    r
}

} // verus!
