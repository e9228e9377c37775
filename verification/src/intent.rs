//! Intent heuristics: which tool servers a request is likely to need.
use vstd::prelude::*;
use crate::models::Mcp;
use crate::text::{contains, has_substring, lowercase, same_text, texts, to_lowercase};

verus! {

/// `a` comes before `b` in the order of texts: character by character, by code
/// point, a proper prefix before its extensions.
pub open spec fn text_less(a: Seq<char>, b: Seq<char>) -> bool
    decreases a.len(),
{
    if b.len() == 0 {
        false
    } else if a.len() == 0 {
        true
    } else if (a[0] as u32) < (b[0] as u32) {
        true
    } else if (a[0] as u32) > (b[0] as u32) {
        false
    } else {
        text_less(a.drop_first(), b.drop_first())
    }
}

/// No text of the list comes before an earlier one.
pub open spec fn ascending(items: Seq<Seq<char>>) -> bool {
    forall|i: int, j: int| 0 <= i < j < items.len() ==> !text_less(items[j], items[i])
}

/// No text of the list equals its neighbour.
pub open spec fn no_repeats(items: Seq<Seq<char>>) -> bool {
    forall|i: int| 0 < i < items.len() ==> #[trigger] items[i] != items[i - 1]
}

/// Trusted: `slice::sort` on strings. The result holds the same strings as
/// before, each as often, in ascending order; strings compare by code point.
#[verifier::external_body]
fn sort_texts(items: &mut Vec<String>)
    ensures
        texts(final(items)@).to_multiset() == texts(old(items)@).to_multiset(),
        ascending(texts(final(items)@)),
{
    items.sort();
}

/// A request, in lower case, calls for a tool server: every built-in server and
/// every server of the system category; a calendar or Google server for a
/// request about a calendar; and for a request about Spotify, Git or files a
/// server that is named after the first two or is of a system category.
pub open spec fn is_needed(query: Seq<char>, mcp: Mcp) -> bool {
    let name = lowercase(mcp.name@);
    let category = lowercase(mcp.category@);
    ||| category == "system"@
    ||| mcp.is_builtin == 1
    ||| has_substring(query, "calendar"@) && (has_substring(name, "calendar"@) || has_substring(
        name,
        "google"@,
    ))
    ||| has_substring(query, "spotify"@) && has_substring(name, "spotify"@)
    ||| has_substring(query, "git"@) && has_substring(name, "git"@)
    ||| has_substring(query, "file"@) && has_substring(category, "system"@)
}

/// `id` is the id of a server among the first `n` that the request calls for.
pub open spec fn needed_before(query: Seq<char>, mcps: Seq<Mcp>, n: int, id: Seq<char>) -> bool {
    exists|m: int| 0 <= m < n && m < mcps.len() && is_needed(query, mcps[m]) && mcps[m].id@ == id
}

/// The intent heuristics. They hold no state.
#[derive(Clone, Copy, Debug)]
pub struct IntentService {}

fn needs(query: &str, mcp: &Mcp) -> (needed: bool)
    ensures
        needed == is_needed(query@, *mcp),
{
    let name = to_lowercase(mcp.name.as_str());
    let category = to_lowercase(mcp.category.as_str());
    if same_text(category.as_str(), "system") || mcp.is_builtin == 1 {
        return true;
    }
    if contains(query, "calendar") && (contains(name.as_str(), "calendar") || contains(
        name.as_str(),
        "google",
    )) {
        true
    } else if contains(query, "spotify") && contains(name.as_str(), "spotify") {
        true
    } else if contains(query, "git") && contains(name.as_str(), "git") {
        true
    } else if contains(query, "file") && contains(category.as_str(), "system") {
        true
    } else {
        false
    }
}

/// Drops every text that equals the one before it.
fn drop_repeats(items: Vec<String>) -> (kept: Vec<String>)
    ensures
        no_repeats(texts(kept@)),
        ascending(texts(items@)) ==> ascending(texts(kept@)),
        forall|id: Seq<char>| texts(kept@).contains(id) <==> texts(items@).contains(id),
{
    let mut kept: Vec<String> = Vec::new();
    let ghost mut origin: Seq<int> = Seq::empty();
    let mut i: usize = 0;
    while i < items.len()
        invariant
            i <= items.len(),
            origin.len() == kept.len(),
            forall|k: int| 0 <= k < kept.len() ==> 0 <= #[trigger] origin[k] < i && kept@[k]@
                == items@[origin[k]]@,
            forall|k: int, l: int| 0 <= k < l < kept.len() ==> origin[k] < origin[l],
            kept.len() > 0 ==> i > 0 && kept@[kept.len() - 1]@ == items@[i - 1]@,
            no_repeats(texts(kept@)),
            forall|m: int| 0 <= m < i ==> texts(kept@).contains(#[trigger] items@[m]@),
        decreases items.len() - i,
    {
        let ghost held = kept@;
        let repeat = kept.len() > 0 && same_text(
            kept[kept.len() - 1].as_str(),
            items[i].as_str(),
        );
        if !repeat {
            kept.push(items[i].clone());
            proof {
                origin = origin.push(i as int);
                assert(texts(kept@) =~= texts(held).push(items@[i as int]@));
                assert forall|m: int| 0 <= m < i + 1 implies texts(kept@).contains(
                    #[trigger] items@[m]@,
                ) by {
                    if m < i {
                        let k = choose|k: int|
                            0 <= k < texts(held).len() && texts(held)[k] == items@[m]@;
                        assert(texts(kept@)[k] == items@[m]@);
                    } else {
                        assert(texts(kept@)[held.len() as int] == items@[m]@);
                    }
                }
            }
        } else {
            proof {
                assert(texts(kept@)[kept.len() - 1] == items@[i as int]@);
            }
        }
        i = i + 1;
    }
    proof {
        assert forall|id: Seq<char>| texts(kept@).contains(id) implies texts(items@).contains(
            id,
        ) by {
            let k = choose|k: int| 0 <= k < texts(kept@).len() && texts(kept@)[k] == id;
            assert(texts(items@)[origin[k]] == id);
        }
        assert forall|id: Seq<char>| texts(items@).contains(id) implies texts(kept@).contains(
            id,
        ) by {
            let m = choose|m: int| 0 <= m < texts(items@).len() && texts(items@)[m] == id;
            assert(texts(kept@).contains(items@[m]@));
        }
        if ascending(texts(items@)) {
            assert forall|a: int, b: int| 0 <= a < b < texts(kept@).len() implies !text_less(
                texts(kept@)[b],
                texts(kept@)[a],
            ) by {
                assert(origin[a] < origin[b]);
                assert(texts(items@)[origin[a]] == texts(kept@)[a]);
                assert(texts(items@)[origin[b]] == texts(kept@)[b]);
            }
        }
    }
    kept
}

impl IntentService {
    /// The heuristics, ready for use.
    pub fn new() -> (service: Self) {
        IntentService {  }
    }

    /// The ids of the tool servers that a request is likely to need, in
    /// ascending order and each once.
    pub fn predict_needed_mcps(&self, query: &str, user_mcps: &[Mcp]) -> (chosen: Vec<String>)
        ensures
            ascending(texts(chosen@)),
            no_repeats(texts(chosen@)),
            forall|id: Seq<char>|
                texts(chosen@).contains(id) <==> needed_before(
                    lowercase(query@),
                    user_mcps@,
                    user_mcps@.len() as int,
                    id,
                ),
    {
        let lowered = to_lowercase(query);
        let ghost q = lowered@;
        let mut picked: Vec<String> = Vec::new();
        let mut i: usize = 0;
        while i < user_mcps.len()
            invariant
                i <= user_mcps.len(),
                q == lowered@,
                forall|id: Seq<char>|
                    texts(picked@).contains(id) <==> needed_before(q, user_mcps@, i as int, id),
            decreases user_mcps.len() - i,
        {
            let ghost held = picked@;
            let needed = needs(lowered.as_str(), &user_mcps[i]);
            if needed {
                picked.push(user_mcps[i].id.clone());
                assert(texts(picked@) =~= texts(held).push(user_mcps@[i as int].id@));
            }
            proof {
                assert forall|id: Seq<char>| texts(picked@).contains(id) implies needed_before(
                    q,
                    user_mcps@,
                    i + 1,
                    id,
                ) by {
                    let k = choose|k: int| 0 <= k < texts(picked@).len() && texts(picked@)[k] == id;
                    if k < held.len() {
                        assert(texts(held)[k] == id);
                        assert(texts(held).contains(id));
                        let m = choose|m: int|
                            0 <= m < i && m < user_mcps@.len() && is_needed(q, user_mcps@[m])
                                && user_mcps@[m].id@ == id;
                        assert(0 <= m < i + 1 && is_needed(q, user_mcps@[m]) && user_mcps@[m].id@
                            == id);
                    } else {
                        assert(is_needed(q, user_mcps@[i as int]) && user_mcps@[i as int].id@
                            == id);
                    }
                }
                assert forall|id: Seq<char>| needed_before(q, user_mcps@, i + 1, id) implies texts(
                    picked@,
                ).contains(id) by {
                    let m = choose|m: int|
                        0 <= m < i + 1 && m < user_mcps@.len() && is_needed(q, user_mcps@[m])
                            && user_mcps@[m].id@ == id;
                    if m < i {
                        assert(needed_before(q, user_mcps@, i as int, id));
                        assert(texts(held).contains(id));
                        let k = choose|k: int| 0 <= k < texts(held).len() && texts(held)[k] == id;
                        assert(texts(picked@)[k] == id);
                    } else {
                        assert(texts(picked@)[held.len() as int] == id);
                    }
                }
            }
            i = i + 1;
        }
        let ghost unsorted = texts(picked@);
        let ghost total = user_mcps@.len() as int;
        assert forall|id: Seq<char>| unsorted.contains(id) <==> needed_before(
            q,
            user_mcps@,
            total,
            id,
        ) by {}
        sort_texts(&mut picked);
        proof {
            unsorted.to_multiset_ensures();
            texts(picked@).to_multiset_ensures();
            assert forall|id: Seq<char>| texts(picked@).contains(id) <==> unsorted.contains(id) by {
                assert(texts(picked@).to_multiset().count(id) == unsorted.to_multiset().count(id));
            }
        }
        let ghost sorted = texts(picked@);
        let chosen = drop_repeats(picked);
        proof {
            assert forall|id: Seq<char>| texts(chosen@).contains(id) <==> needed_before(
                q,
                user_mcps@,
                total,
                id,
            ) by {
                assert(texts(chosen@).contains(id) <==> sorted.contains(id));
                assert(sorted.contains(id) <==> unsorted.contains(id));
                assert(unsorted.contains(id) <==> needed_before(q, user_mcps@, total, id));
            }
        }
        chosen
    }
}

} // verus!
