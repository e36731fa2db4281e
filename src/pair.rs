use crate::error::HttpieError;
use vstd::prelude::*;

verus! {

/// One body field given on the command line as `key=value`.
#[derive(Debug)]
pub struct KvPair {
    pub key: String,
    pub value: String,
}

impl View for KvPair {
    type V = (Seq<char>, Seq<char>);

    open spec fn view(&self) -> (Seq<char>, Seq<char>) {
        (self.key@, self.value@)
    }
}

impl Clone for KvPair {
    fn clone(&self) -> (r: KvPair)
        ensures
            r@ == self@,
    {
        KvPair { key: self.key.clone(), value: self.value.clone() }
    }
}

/// The index of the first `=` at or after `from`, or the length of `s` when
/// there is none.
pub open spec fn find_eq(s: Seq<char>, from: int) -> int
    decreases s.len() - from,
{
    if from < 0 || from >= s.len() {
        s.len() as int
    } else if s[from] == '=' {
        from
    } else {
        find_eq(s, from + 1)
    }
}

/// What a token splits into: the text before the first `=`, and the text
/// between it and the next `=` (or the end). Nothing when there is no `=`.
pub open spec fn split_pair(s: Seq<char>) -> Option<(Seq<char>, Seq<char>)> {
    let i: int = find_eq(s, 0);
    if i >= s.len() {
        None
    } else {
        Some((s.subrange(0, i), s.subrange(i + 1, find_eq(s, i + 1))))
    }
}

/// `find_eq` stops at `j` when `j` is the end or an `=`, and nothing in
/// between is an `=`.
pub proof fn lemma_find_eq_at(s: Seq<char>, from: int, j: int)
    requires
        0 <= from <= j <= s.len(),
        j == s.len() || s[j] == '=',
        forall|k: int| from <= k < j ==> s[k] != '=',
    ensures
        find_eq(s, from) == j,
    decreases j - from,
{
    if from < j {
        lemma_find_eq_at(s, from + 1, j);
    }
}

/// `find_eq` lands inside the sequence (or on its end) and on an `=`.
pub proof fn lemma_find_eq_bounds(s: Seq<char>, from: int)
    requires
        0 <= from <= s.len(),
    ensures
        from <= find_eq(s, from) <= s.len(),
        find_eq(s, from) < s.len() ==> s[find_eq(s, from)] == '=',
    decreases s.len() - from,
{
    if from < s.len() && s[from] != '=' {
        lemma_find_eq_bounds(s, from + 1);
    }
}

/// The first `=` at or after `from`, computed on the characters of `s`.
fn find_eq_exec(s: &str, from: usize) -> (r: usize)
    requires
        from <= s@.len(),
    ensures
        r as int == find_eq(s@, from as int),
{
    let n: usize = s.unicode_len();
    let mut i: usize = from;
    while i < n && s.get_char(i) != '='
        invariant
            n == s@.len(),
            from <= i <= n,
            find_eq(s@, from as int) == find_eq(s@, i as int),
        decreases n - i,
    {
        i = i + 1;
    }
    i
}

/// Parses one `key=value` token. The key is the text before the first `=`,
/// the value the text between it and the next `=` or the end; what follows
/// a second `=` is dropped. A token without `=` is refused.
pub fn parse_kv_pair(s: &str) -> (r: Result<KvPair, HttpieError>)
    ensures
        match split_pair(s@) {
            Some(kv) => r matches Ok(p) && p@ == kv,
            None => r matches Err(HttpieError::MalformedPair(t)) && t@ == s@,
        },
{
    let n: usize = s.unicode_len();
    let i: usize = find_eq_exec(s, 0);
    if i >= n {
        return Err(HttpieError::MalformedPair(s.to_owned()));
    }
    proof {
        lemma_find_eq_bounds(s@, (i + 1) as int);
    }
    let j: usize = find_eq_exec(s, i + 1);
    let key = s.substring_char(0, i).to_owned();
    let value = s.substring_char(i + 1, j).to_owned();
    Ok(KvPair { key, value })
}

impl std::str::FromStr for KvPair {
    type Err = HttpieError;

    fn from_str(s: &str) -> Result<KvPair, HttpieError> {
        parse_kv_pair(s)
    }
}

/// A token with exactly one `=` parses into the text left of it and the
/// text right of it.
pub proof fn law_single_separator(s: Seq<char>, i: int)
    requires
        0 <= i < s.len(),
        s[i] == '=',
        forall|k: int| 0 <= k < s.len() && k != i ==> s[k] != '=',
    ensures
        split_pair(s) == Some((s.subrange(0, i), s.subrange(i + 1, s.len() as int))),
{
    lemma_find_eq_at(s, 0, i);
    lemma_find_eq_at(s, i + 1, s.len() as int);
}

/// A token without `=` does not parse.
pub proof fn law_no_separator(s: Seq<char>)
    requires
        forall|k: int| 0 <= k < s.len() ==> s[k] != '=',
    ensures
        split_pair(s) is None,
{
    lemma_find_eq_at(s, 0, s.len() as int);
}

/// A token with two or more `=` parses; its value is only the text between
/// the first and the second `=`, and the rest is dropped.
pub proof fn law_extra_separators_dropped(s: Seq<char>, i: int, j: int)
    requires
        0 <= i < j < s.len(),
        s[i] == '=',
        s[j] == '=',
        forall|k: int| 0 <= k < j && k != i ==> s[k] != '=',
    ensures
        split_pair(s) == Some((s.subrange(0, i), s.subrange(i + 1, j))),
{
    lemma_find_eq_at(s, 0, i);
    lemma_find_eq_at(s, i + 1, j);
}

} // verus!
