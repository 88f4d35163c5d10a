//! The topic grammar of the exchange.
//!
//! A request topic is `<namespace>/<token>`: the correlation token is the
//! segment immediately after the first `/`, running to the next `/` or to
//! the end. A topic without any `/` carries no token and is malformed.

use vstd::prelude::*;
use vstd::string::StrSliceExecFns;

verus! {

/// The position of the first `/` in `t` at or after `from`, or `t.len()`
/// when there is none.
pub open spec fn find_slash(t: Seq<char>, from: int) -> int
    decreases t.len() - from,
{
    if from < 0 || from >= t.len() {
        t.len() as int
    } else if t[from] == '/' {
        from
    } else {
        find_slash(t, from + 1)
    }
}

/// A topic is well formed when it has a token segment, that is, at least
/// one `/`.
pub open spec fn well_formed_topic(t: Seq<char>) -> bool {
    find_slash(t, 0) < t.len()
}

/// The correlation token of a well-formed topic: the characters between the
/// first `/` and the next `/` or the end.
pub open spec fn token_of(t: Seq<char>) -> Seq<char>
    recommends
        well_formed_topic(t),
{
    t.subrange(find_slash(t, 0) + 1, find_slash(t, find_slash(t, 0) + 1))
}

proof fn lemma_find_slash_props(t: Seq<char>, from: int)
    requires
        0 <= from <= t.len(),
    ensures
        from <= find_slash(t, from) <= t.len(),
        find_slash(t, from) < t.len() ==> t[find_slash(t, from)] == '/',
        forall|j: int| from <= j < find_slash(t, from) ==> t[j] != '/',
    decreases t.len() - from,
{
    if from < t.len() && t[from] != '/' {
        lemma_find_slash_props(t, from + 1);
    }
}

proof fn lemma_find_slash_skip(t: Seq<char>, from: int, upto: int)
    requires
        0 <= from <= upto <= t.len(),
        forall|j: int| from <= j < upto ==> t[j] != '/',
    ensures
        find_slash(t, from) == find_slash(t, upto),
    decreases upto - from,
{
    if from < upto {
        lemma_find_slash_skip(t, from + 1, upto);
    }
}

/// Finds the first `/` in `t` at or after `from`, as `find_slash` names it.
fn scan_slash(t: &str, from: usize, n: usize) -> (r: usize)
    requires
        from <= n,
        n == t@.len(),
    ensures
        r == find_slash(t@, from as int),
{
    let mut i: usize = from;
    while i < n
        invariant
            from <= i <= n,
            n == t@.len(),
            forall|j: int| from <= j < i ==> t@[j] != '/',
        decreases n - i,
    {
        if t.get_char(i) == '/' {
            proof {
                lemma_find_slash_skip(t@, from as int, i as int);
            }
            return i;
        }
        i += 1;
    }
    proof {
        lemma_find_slash_skip(t@, from as int, n as int);
    }
    n
}

/// Extracts the correlation token of `topic`, or `None` when the topic is
/// malformed (it has no token segment). Never panics, whatever the text.
pub fn parse_token(topic: &str) -> (r: Option<String>)
    ensures
        match r {
            Some(tok) => well_formed_topic(topic@) && tok@ == token_of(topic@),
            None => !well_formed_topic(topic@),
        },
{
    let n = topic.unicode_len();
    proof {
        lemma_find_slash_props(topic@, 0);
    }
    let start = scan_slash(topic, 0, n);
    if start == n {
        return None;
    }
    proof {
        lemma_find_slash_props(topic@, start + 1);
    }
    let end = scan_slash(topic, start + 1, n);
    let tok = topic.substring_char(start + 1, end);
    Some(tok.to_owned())
}

} // verus!
