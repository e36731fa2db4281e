use crate::error::HttpieError;
use crate::pair::{parse_kv_pair, split_pair, KvPair};
use crate::target::{parse_url, url_valid};
use vstd::prelude::*;

verus! {

/// What one invocation asks of the server.
#[derive(Debug)]
pub enum Request {
    Get { url: String },
    Post { url: String, body: Vec<KvPair> },
}

/// The (key, value) views of a list of pairs.
pub open spec fn pairs_view(ps: Seq<KvPair>) -> Seq<(Seq<char>, Seq<char>)> {
    ps.map_values(|p: KvPair| p@)
}

/// Every token splits into a pair.
pub open spec fn all_split(ts: Seq<Seq<char>>) -> bool {
    forall|i: int| 0 <= i < ts.len() ==> split_pair(#[trigger] ts[i]) is Some
}

/// The token at `k` is the first one that does not split.
pub open spec fn first_malformed(ts: Seq<Seq<char>>, k: int) -> bool {
    &&& 0 <= k < ts.len()
    &&& split_pair(ts[k]) is None
    &&& all_split(ts.take(k))
}

/// The views of a list of strings.
pub open spec fn strings_view(ts: Seq<String>) -> Seq<Seq<char>> {
    ts.map_values(|t: String| t@)
}

/// Builds a GET request after checking its URL.
pub fn build_get(url: &str) -> (r: Result<Request, HttpieError>)
    ensures
        url_valid(url@) ==> (r matches Ok(Request::Get { url: u }) && u@ == url@),
        !url_valid(url@) ==> (r matches Err(HttpieError::InvalidUrl(t)) && t@ == url@),
{
    let u = parse_url(url)?;
    Ok(Request::Get { url: u })
}

/// Builds a POST request after checking its URL and then each body token in
/// turn; the first failure is returned.
pub fn build_post(url: &str, tokens: &Vec<String>) -> (r: Result<Request, HttpieError>)
    ensures
        !url_valid(url@) ==> (r matches Err(HttpieError::InvalidUrl(t)) && t@ == url@),
        url_valid(url@) && all_split(strings_view(tokens@)) ==> (r matches Ok(
            Request::Post { url: u, body: b },
        ) && u@ == url@ && b@.len() == tokens@.len() && forall|i: int|
            0 <= i < tokens@.len() ==> split_pair(tokens@[i]@) == Some(#[trigger] b@[i]@)),
        url_valid(url@) && !all_split(strings_view(tokens@)) ==> (r matches Err(
            HttpieError::MalformedPair(t),
        ) && exists|k: int|
            first_malformed(strings_view(tokens@), k) && t@ == #[trigger] tokens@[k]@),
{
    let u = match parse_url(url) {
        Ok(u) => u,
        Err(e) => {
            return Err(e);
        },
    };
    let ghost ts = strings_view(tokens@);
    let mut body: Vec<KvPair> = Vec::new();
    let mut i: usize = 0;
    while i < tokens.len()
        invariant
            url_valid(url@),
            u@ == url@,
            ts == strings_view(tokens@),
            i <= tokens@.len(),
            body@.len() == i,
            all_split(ts.take(i as int)),
            forall|j: int| 0 <= j < i ==> split_pair(tokens@[j]@) == Some(#[trigger] body@[j]@),
        decreases tokens@.len() - i,
    {
        match parse_kv_pair(tokens[i].as_str()) {
            Ok(p) => {
                body.push(p);
                proof {
                    assert forall|j: int| 0 <= j < i + 1 implies split_pair(
                        #[trigger] ts.take(i + 1)[j],
                    ) is Some by {
                        if j < i {
                            assert(ts.take(i as int)[j] == ts.take(i + 1)[j]);
                        }
                    }
                }
                i = i + 1;
            },
            Err(e) => {
                proof {
                    assert(first_malformed(ts, i as int));
                    assert(!all_split(ts));
                }
                return Err(e);
            },
        }
    }
    proof {
        assert(ts.take(i as int) =~= ts);
    }
    Ok(Request::Post { url: u, body })
}

/// The JSON object that a list of pairs stands for: each pair sets its key,
/// and a later pair overwrites an earlier one with the same key.
pub open spec fn body_map(ps: Seq<(Seq<char>, Seq<char>)>) -> Map<Seq<char>, Seq<char>>
    decreases ps.len(),
{
    if ps.len() == 0 {
        Map::empty()
    } else {
        body_map(ps.drop_last()).insert(ps.last().0, ps.last().1)
    }
}

/// No key occurs twice.
pub open spec fn keys_unique(ps: Seq<(Seq<char>, Seq<char>)>) -> bool {
    forall|i: int, j: int| 0 <= i < j < ps.len() ==> ps[i].0 != ps[j].0
}

/// `ps`, with unique keys, lists exactly the members of `m`.
pub open spec fn lists_map(ps: Seq<(Seq<char>, Seq<char>)>, m: Map<Seq<char>, Seq<char>>) -> bool {
    &&& keys_unique(ps)
    &&& forall|i: int| 0 <= i < ps.len() ==> m.contains_key(#[trigger] ps[i].0) && m[ps[i].0] == ps[i].1
    &&& forall|k: Seq<char>| m.contains_key(k) ==> exists|i: int| 0 <= i < ps.len() && #[trigger] ps[i].0 == k
}

/// The members of the JSON body for `pairs`: one per distinct key, in the
/// order in which keys first appear, each with the value of the last pair
/// that names it.
pub fn body_members(pairs: &Vec<KvPair>) -> (r: Vec<KvPair>)
    ensures
        lists_map(pairs_view(r@), body_map(pairs_view(pairs@))),
{
    let mut r: Vec<KvPair> = Vec::new();
    let mut i: usize = 0;
    while i < pairs.len()
        invariant
            i <= pairs@.len(),
            lists_map(pairs_view(r@), body_map(pairs_view(pairs@.take(i as int)))),
        decreases pairs@.len() - i,
    {
        let ghost before = pairs_view(r@);
        let ghost m = body_map(pairs_view(pairs@.take(i as int)));
        let p = &pairs[i];
        proof {
            let ps = pairs_view(pairs@.take(i + 1));
            assert(ps.drop_last() =~= pairs_view(pairs@.take(i as int)));
            assert(ps.last() == p@);
        }
        let ghost m2 = m.insert(p@.0, p@.1);
        assert(body_map(pairs_view(pairs@.take(i + 1))) == m2);
        let mut j: usize = 0;
        while j < r.len() && r[j].key != p.key
            invariant
                j <= r@.len(),
                forall|k: int| 0 <= k < j ==> r@[k].key@ != p.key@,
                before == pairs_view(r@),
                lists_map(before, m),
            decreases r@.len() - j,
        {
            j = j + 1;
        }
        if j < r.len() {
            r.set(j, p.clone());
            proof {
                let after = pairs_view(r@);
                assert(after =~= before.update(j as int, p@));
                assert(before[j as int].0 == p@.0);
                assert(keys_unique(after));
                assert forall|t: int| 0 <= t < after.len() implies m2.contains_key(
                    #[trigger] after[t].0,
                ) && m2[after[t].0] == after[t].1 by {
                    if t != j {
                        assert(after[t] == before[t]);
                    }
                }
                assert forall|k: Seq<char>| m2.contains_key(k) implies exists|t: int|
                    0 <= t < after.len() && #[trigger] after[t].0 == k by {
                    if k != p@.0 {
                        let t = choose|t: int| 0 <= t < before.len() && #[trigger] before[t].0 == k;
                        assert(after[t].0 == k);
                    } else {
                        assert(after[j as int].0 == k);
                    }
                }
            }
        } else {
            r.push(p.clone());
            proof {
                let after = pairs_view(r@);
                assert(after =~= before.push(p@));
                assert forall|t: int| 0 <= t < before.len() implies before[t].0 != p@.0 by {
                    assert(before[t].0 == r@[t].key@);
                }
                assert(keys_unique(after));
                assert forall|t: int| 0 <= t < after.len() implies m2.contains_key(
                    #[trigger] after[t].0,
                ) && m2[after[t].0] == after[t].1 by {
                    if t < before.len() {
                        assert(after[t] == before[t]);
                    }
                }
                assert forall|k: Seq<char>| m2.contains_key(k) implies exists|t: int|
                    0 <= t < after.len() && #[trigger] after[t].0 == k by {
                    if k != p@.0 {
                        let t = choose|t: int| 0 <= t < before.len() && #[trigger] before[t].0 == k;
                        assert(after[t].0 == k);
                    } else {
                        assert(after[before.len() as int].0 == k);
                    }
                }
            }
        }
        i = i + 1;
    }
    proof {
        assert(pairs@.take(i as int) =~= pairs@);
    }
    r
}

/// In the body object, a key holds the value of the last pair that names it.
pub proof fn law_last_write_wins(ps: Seq<(Seq<char>, Seq<char>)>, i: int)
    requires
        0 <= i < ps.len(),
        forall|j: int| i < j < ps.len() ==> ps[j].0 != ps[i].0,
    ensures
        body_map(ps).contains_key(ps[i].0),
        body_map(ps)[ps[i].0] == ps[i].1,
    decreases ps.len(),
{
    if i < ps.len() - 1 {
        law_last_write_wins(ps.drop_last(), i);
    }
}

/// The body object has a member for each key named by some pair, and no other.
pub proof fn law_body_keys(ps: Seq<(Seq<char>, Seq<char>)>, k: Seq<char>)
    ensures
        body_map(ps).contains_key(k) <==> exists|i: int| 0 <= i < ps.len() && #[trigger] ps[i].0 == k,
    decreases ps.len(),
{
    if ps.len() > 0 {
        let init = ps.drop_last();
        law_body_keys(init, k);
        if exists|i: int| 0 <= i < init.len() && #[trigger] init[i].0 == k {
            let i = choose|i: int| 0 <= i < init.len() && #[trigger] init[i].0 == k;
            assert(ps[i].0 == k);
        }
        if exists|i: int| 0 <= i < ps.len() && #[trigger] ps[i].0 == k {
            let i = choose|i: int| 0 <= i < ps.len() && #[trigger] ps[i].0 == k;
            if i < ps.len() - 1 {
                assert(init[i].0 == k);
            }
        }
    }
}

/// The compact JSON text of a flat object of string members.
pub uninterp spec fn json_object_text(m: Map<Seq<char>, Seq<char>>) -> Seq<char>;

/// Relies on `serde_json`: collecting (key, string value) entries into a
/// `serde_json::Map` (a map ordered by key, so the text depends on the set
/// of members alone) and writing `Value::Object` of it through `Display`.
#[verifier::external_body]
fn object_text(members: &Vec<KvPair>) -> (r: String)
    requires
        keys_unique(pairs_view(members@)),
    ensures
        r@ == json_object_text(body_map(pairs_view(members@))),
{
    let m: serde_json::Map<String, serde_json::Value> = members
        .iter()
        .map(|p| (p.key.clone(), serde_json::Value::String(p.value.clone())))
        .collect();
    serde_json::Value::Object(m).to_string()
}

/// A list with unique keys that lists the members of `m` sets exactly `m`.
pub proof fn lemma_listed_map(ps: Seq<(Seq<char>, Seq<char>)>, m: Map<Seq<char>, Seq<char>>)
    requires
        lists_map(ps, m),
    ensures
        body_map(ps) == m,
    decreases ps.len(),
{
    if ps.len() == 0 {
        assert(m.dom() =~= Set::empty());
        assert(m =~= Map::empty());
    } else {
        let init = ps.drop_last();
        let k = ps.last().0;
        let rest = m.remove(k);
        assert forall|q: Seq<char>| rest.contains_key(q) implies exists|i: int|
            0 <= i < init.len() && #[trigger] init[i].0 == q by {
            let i = choose|i: int| 0 <= i < ps.len() && #[trigger] ps[i].0 == q;
            assert(i != ps.len() - 1);
            assert(init[i].0 == q);
        }
        assert forall|i: int| 0 <= i < init.len() implies rest.contains_key(#[trigger] init[i].0)
            && rest[init[i].0] == init[i].1 by {
            assert(init[i] == ps[i]);
            assert(ps[i].0 != ps[ps.len() - 1].0);
        }
        lemma_listed_map(init, rest);
        assert(m.contains_key(ps[ps.len() - 1].0));
        assert(body_map(ps) =~= m);
    }
}

/// The JSON text sent as the body of a POST: one string member per distinct
/// key, a later pair overwriting an earlier one with the same key.
pub fn json_body(pairs: &Vec<KvPair>) -> (r: String)
    ensures
        r@ == json_object_text(body_map(pairs_view(pairs@))),
{
    let members = body_members(pairs);
    proof {
        lemma_listed_map(pairs_view(members@), body_map(pairs_view(pairs@)));
    }
    object_text(&members)
}

impl Request {
    /// The target URL.
    pub fn url(&self) -> (r: &str)
        ensures
            match self {
                Request::Get { url } => r@ == url@,
                Request::Post { url, .. } => r@ == url@,
            },
    {
        match self {
            Request::Get { url } => url.as_str(),
            Request::Post { url, .. } => url.as_str(),
        }
    }

    /// The JSON text to send as the body: none for a GET, the object of the
    /// body pairs for a POST.
    pub fn payload(&self) -> (r: Option<String>)
        ensures
            self is Get ==> r is None,
            self matches Request::Post { body, .. } ==> (r matches Some(t) && t@
                == json_object_text(body_map(pairs_view(body@)))),
    {
        match self {
            Request::Get { .. } => None,
            Request::Post { body, .. } => Some(json_body(body)),
        }
    }
}

} // verus!
