//! Response extraction: each rule maps a field name to a pattern whose first
//! capture group, applied to the response body, yields that field's value.
//! A pattern that fails to compile, does not match, or has no capture group
//! leaves its field absent — never a hard failure for the request.

use crate::campaign::ResponseExtraction;
use vstd::prelude::*;
use vstd::seq_lib::lemma_seq_contains_after_push;

verus! {

/// What the regex engine yields for a pattern applied to a text: the text of
/// the first capture group of the first match, or nothing when the pattern
/// does not compile, does not match, or has no first capture group. The
/// result depends on the pattern and the text alone.
pub uninterp spec fn capture_of(pattern: Seq<char>, text: Seq<char>) -> Option<Seq<char>>;

pub open spec fn opt_string_view(o: Option<String>) -> Option<Seq<char>> {
    match o {
        Some(s) => Some(s@),
        None => None,
    }
}

/// Relies on regex::Regex::new, Regex::captures, Captures::get and
/// Match::as_str: the first capture group of `pattern`'s first match in
/// `text`, with a non-compiling pattern, a miss, or a missing group all
/// folded to `None`.
#[verifier::external_body]
fn capture_first(pattern: &str, text: &str) -> (r: Option<String>)
    ensures
        opt_string_view(r) == capture_of(pattern@, text@),
{
    regex::Regex::new(pattern)
        .ok()
        .and_then(|re| re.captures(text))
        .and_then(|caps| caps.get(1))
        .map(|m| m.as_str().to_string())
}

pub open spec fn pair_view(p: (String, String)) -> (Seq<char>, Seq<char>) {
    (p.0@, p.1@)
}

pub open spec fn pairs_view(v: Seq<(String, String)>) -> Seq<(Seq<char>, Seq<char>)> {
    v.map_values(|p: (String, String)| pair_view(p))
}

/// The fields a ruleset extracts from a body, in rule order: one pair per
/// rule whose pattern captures, holding the field name and the captured
/// text. Rules are independent; a rule that yields nothing is absent.
pub open spec fn extracted_views(
    rules: Seq<(Seq<char>, Seq<char>)>,
    body: Seq<char>,
) -> Seq<(Seq<char>, Seq<char>)>
    decreases rules.len(),
{
    if rules.len() == 0 {
        Seq::empty()
    } else {
        let init = extracted_views(rules.drop_last(), body);
        let last = rules.last();
        match capture_of(last.1, body) {
            Some(v) => init.push((last.0, v)),
            None => init,
        }
    }
}

/// A list of view pairs is a mapping: no two pairs share a key.
pub open spec fn view_keys_unique(pairs: Seq<(Seq<char>, Seq<char>)>) -> bool {
    forall|i: int, j: int|
        #![trigger pairs[i], pairs[j]]
        0 <= i < j < pairs.len() ==> pairs[i].0 != pairs[j].0
}

/// Key uniqueness carries over the view: a list of string pairs is a
/// mapping exactly when its view is.
pub proof fn lemma_keys_unique_view(v: Seq<(String, String)>)
    ensures
        crate::campaign::keys_unique(v) <==> view_keys_unique(pairs_view(v)),
{
    let pv = pairs_view(v);
    assert(pv.len() == v.len());
    if crate::campaign::keys_unique(v) {
        assert forall|i: int, j: int|
            #![trigger pv[i], pv[j]]
            0 <= i < j < pv.len() implies pv[i].0 != pv[j].0 by {
            assert(pv[i] == pair_view(v[i]));
            assert(pv[j] == pair_view(v[j]));
            assert(v[i].0@ != v[j].0@);
        }
    }
    if view_keys_unique(pv) {
        assert forall|i: int, j: int|
            #![trigger v[i], v[j]]
            0 <= i < j < v.len() implies v[i].0@ != v[j].0@ by {
            assert(pv[i] == pair_view(v[i]));
            assert(pv[j] == pair_view(v[j]));
            assert(pv[i].0 != pv[j].0);
        }
    }
}

/// With unique rule names the extracted mapping's keys are unique too —
/// what a map-backed ruleset could never violate — because every extracted
/// key is one of the rule names, each contributed at most once.
pub proof fn lemma_extracted_keys_unique(rules: Seq<(Seq<char>, Seq<char>)>, body: Seq<char>)
    requires
        view_keys_unique(rules),
    ensures
        view_keys_unique(extracted_views(rules, body)),
        forall|i: int|
            0 <= i < extracted_views(rules, body).len() ==> exists|j: int|
                0 <= j < rules.len() && (#[trigger] extracted_views(rules, body)[i]).0
                    == rules[j].0,
    decreases rules.len(),
{
    if rules.len() > 0 {
        let init = rules.drop_last();
        let last = rules.last();
        assert forall|i: int, j: int|
            #![trigger init[i], init[j]]
            0 <= i < j < init.len() implies init[i].0 != init[j].0 by {
            assert(init[i] == rules[i]);
            assert(init[j] == rules[j]);
        }
        lemma_extracted_keys_unique(init, body);
        let e0 = extracted_views(init, body);
        assert forall|k: int| 0 <= k < init.len() implies (#[trigger] init[k]).0 != last.0 by {
            assert(init[k] == rules[k]);
            assert(rules[rules.len() - 1] == last);
            assert(rules[k].0 != rules[rules.len() - 1].0);
        }
        match capture_of(last.1, body) {
            Some(cv) => {
                let e1 = e0.push((last.0, cv));
                assert(extracted_views(rules, body) == e1);
                assert forall|i: int, j: int|
                    #![trigger e1[i], e1[j]]
                    0 <= i < j < e1.len() implies e1[i].0 != e1[j].0 by {
                    if j < e1.len() - 1 {
                        assert(e1[i] == e0[i]);
                        assert(e1[j] == e0[j]);
                    } else {
                        assert(e1[i] == e0[i]);
                        let m = choose|m: int| 0 <= m < init.len() && e0[i].0 == init[m].0;
                        assert(init[m].0 != last.0);
                        assert(e1[j] == (last.0, cv));
                    }
                }
                assert forall|i: int| 0 <= i < e1.len() implies exists|j: int|
                    0 <= j < rules.len() && (#[trigger] e1[i]).0 == rules[j].0 by {
                    if i < e1.len() - 1 {
                        assert(e1[i] == e0[i]);
                        let m = choose|m: int| 0 <= m < init.len() && e0[i].0 == init[m].0;
                        assert(init[m] == rules[m]);
                        assert(0 <= m < rules.len() && e1[i].0 == rules[m].0);
                    } else {
                        assert(e1[i] == (last.0, cv));
                        let w: int = rules.len() - 1;
                        assert(0 <= w < rules.len() && e1[i].0 == rules[w].0);
                    }
                }
            },
            None => {
                assert(extracted_views(rules, body) == e0);
                assert forall|i: int| 0 <= i < e0.len() implies exists|j: int|
                    0 <= j < rules.len() && (#[trigger] e0[i]).0 == rules[j].0 by {
                    let m = choose|m: int| 0 <= m < init.len() && e0[i].0 == init[m].0;
                    assert(init[m] == rules[m]);
                    assert(0 <= m < rules.len() && e0[i].0 == rules[m].0);
                }
            },
        }
    }
}

/// One rule yields one extracted pair: its field name, and the text its
/// pattern captures from the body.
pub open spec fn rule_yields(
    rule: (Seq<char>, Seq<char>),
    body: Seq<char>,
    k: Seq<char>,
    v: Seq<char>,
) -> bool {
    rule.0 == k && capture_of(rule.1, body) == Some(v)
}

/// Rules are independent and their order carries no meaning for what is
/// present: a field and value are extracted exactly when some rule yields
/// them.
pub proof fn lemma_extracted_membership(
    rules: Seq<(Seq<char>, Seq<char>)>,
    body: Seq<char>,
    k: Seq<char>,
    v: Seq<char>,
)
    ensures
        extracted_views(rules, body).contains((k, v)) <==> exists|j: int|
            0 <= j < rules.len() && rule_yields(#[trigger] rules[j], body, k, v),
    decreases rules.len(),
{
    if rules.len() > 0 {
        let init = rules.drop_last();
        let last = rules.last();
        lemma_extracted_membership(init, body, k, v);
        let found_in_init = exists|j: int|
            0 <= j < init.len() && rule_yields(#[trigger] init[j], body, k, v);
        if found_in_init {
            let j = choose|j: int| 0 <= j < init.len() && rule_yields(#[trigger] init[j], body, k, v);
            assert(rules[j] == init[j]);
        }
        match capture_of(last.1, body) {
            Some(cv) => {
                lemma_seq_contains_after_push(extracted_views(init, body), (last.0, cv), (k, v));
                if last.0 == k && cv == v {
                    assert(rule_yields(rules[rules.len() - 1], body, k, v));
                }
            },
            None => {},
        }
        if !found_in_init && extracted_views(rules, body).contains((k, v)) {
            assert(rule_yields(rules[rules.len() - 1], body, k, v));
        }
        if exists|j: int| 0 <= j < rules.len() && rule_yields(#[trigger] rules[j], body, k, v) {
            let j = choose|j: int|
                0 <= j < rules.len() && rule_yields(#[trigger] rules[j], body, k, v);
            if j < rules.len() - 1 {
                assert(init[j] == rules[j]);
            }
        }
    }
}

/// Applies every rule to the body independently, collecting the fields whose
/// patterns capture; a rule that fails contributes nothing. A ruleset with
/// unique names yields a mapping with unique names.
pub fn extract_fields(rules: &Vec<(String, String)>, body: &str) -> (r: Vec<(String, String)>)
    ensures
        pairs_view(r@) == extracted_views(pairs_view(rules@), body@),
        crate::campaign::keys_unique(rules@) ==> crate::campaign::keys_unique(r@),
{
    let mut out: Vec<(String, String)> = Vec::new();
    let n: usize = rules.len();
    assert(pairs_view(rules@.take(0)) =~= Seq::<(Seq<char>, Seq<char>)>::empty());
    assert(pairs_view(out@) =~= Seq::<(Seq<char>, Seq<char>)>::empty());
    for i in 0..n
        invariant
            n == rules@.len(),
            pairs_view(out@) == extracted_views(pairs_view(rules@.take(i as int)), body@),
    {
        let key: String = rules[i].0.clone();
        let cap: Option<String> = capture_first(rules[i].1.as_str(), body);
        proof {
            let rv1 = pairs_view(rules@.take(i + 1));
            assert(rv1.drop_last() =~= pairs_view(rules@.take(i as int)));
            assert(rv1.last() == pair_view(rules@[i as int]));
        }
        match cap {
            Some(value) => {
                let ghost out0 = out@;
                out.push((key, value));
                proof {
                    assert(pairs_view(out@) =~= pairs_view(out0).push(
                        (rules@[i as int].0@, capture_of(rules@[i as int].1@, body@)->Some_0),
                    ));
                }
            },
            None => {},
        }
    }
    proof {
        assert(rules@.take(n as int) =~= rules@);
        lemma_keys_unique_view(rules@);
        if view_keys_unique(pairs_view(rules@)) {
            lemma_extracted_keys_unique(pairs_view(rules@), body@);
        }
        lemma_keys_unique_view(out@);
    }
    out
}

/// Mirrors the dispatcher's use of a scenario's optional ruleset: no ruleset
/// yields no mapping at all; a ruleset yields its extracted fields, a
/// mapping again whenever the ruleset is one.
pub fn extract_from_response(response: &Option<ResponseExtraction>, body: &str) -> (r: Option<
    Vec<(String, String)>,
>)
    ensures
        match *response {
            None => r is None,
            Some(ex) => {
                &&& r is Some
                &&& pairs_view(r->Some_0@) == extracted_views(pairs_view(ex.extract@), body@)
                &&& ex.wf() ==> crate::campaign::keys_unique(r->Some_0@)
            },
        },
{
    match response {
        None => None,
        Some(ex) => Some(extract_fields(&ex.extract, body)),
    }
}

} // verus!
