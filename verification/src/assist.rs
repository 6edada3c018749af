//! The search assistant's decision logic: slash-command completion,
//! word-prefix lookup directives with a spell-check fallback, and the
//! recent-search history. The storage and spell-check collaborators stay
//! outside; this module decides what to ask them and shapes what they
//! return.

use vstd::prelude::*;
use vstd::string::StrSliceExecFns;
use vstd::string::StringExecFns;

use crate::definitions::SqliteSearcher;
use crate::text::is_prefix;
use crate::text::lemma_filter_push;
use crate::text::lemma_lex_lt_connected;
use crate::text::lemma_lex_lt_transitive;
use crate::text::lex_lt;
use crate::text::starts_with;
use crate::text::str_eq;
use crate::text::str_lt;

verus! {

/// What the assistant answers for a given partial input: a finished
/// suggestion list, or a directive to look the prefix up in storage.
pub enum SuggestionPlan {
    Ready(Vec<String>),
    StoragePrefix(String),
}

/// Model form of a `SuggestionPlan`.
pub ghost enum SuggestionPlanView {
    Ready(Seq<Seq<char>>),
    StoragePrefix(Seq<char>),
}

impl View for SuggestionPlan {
    type V = SuggestionPlanView;

    open spec fn view(&self) -> SuggestionPlanView {
        match self {
            SuggestionPlan::Ready(v) => SuggestionPlanView::Ready(v.deep_view()),
            SuggestionPlan::StoragePrefix(s) => SuggestionPlanView::StoragePrefix(s@),
        }
    }
}

/// The assistant's decision rule: a slash input completes against the
/// known commands; an input longer than two characters is looked up in
/// storage; an empty input recalls the whole history, most recent first;
/// anything else filters the history by prefix.
pub open spec fn plan_spec(
    commands: Seq<Seq<char>>,
    history: Seq<Seq<char>>,
    input: Seq<char>,
) -> SuggestionPlanView {
    if input.len() > 0 && input[0] == '/' {
        SuggestionPlanView::Ready(commands.filter(|c: Seq<char>| is_prefix(input, c)))
    } else if input.len() > 2 {
        SuggestionPlanView::StoragePrefix(input)
    } else if input.len() == 0 {
        SuggestionPlanView::Ready(history)
    } else {
        SuggestionPlanView::Ready(history.filter(|w: Seq<char>| is_prefix(input, w)))
    }
}

/// Clone a list of strings, keeping its model.
fn clone_strings(v: &Vec<String>) -> (r: Vec<String>)
    ensures
        r.deep_view() == v.deep_view(),
{
    let mut r: Vec<String> = Vec::new();
    let mut i: usize = 0;
    while i < v.len()
        invariant
            i <= v@.len(),
            r.deep_view() == v.deep_view().take(i as int),
        decreases v@.len() - i,
    {
        let ghost pre = r.deep_view();
        r.push(v[i].clone());
        proof {
            assert(r.deep_view() =~= pre.push(v.deep_view()[i as int]));
            assert(v.deep_view().take(i + 1) =~= v.deep_view().take(i as int).push(
                v.deep_view()[i as int],
            ));
        }
        i += 1;
    }
    proof {
        assert(v.deep_view().take(v@.len() as int) =~= v.deep_view());
    }
    r
}

/// Keep the strings that the input is a prefix of.
fn filter_by_prefix(v: &Vec<String>, input: &str) -> (r: Vec<String>)
    ensures
        r.deep_view() == v.deep_view().filter(|w: Seq<char>| is_prefix(input@, w)),
{
    let ghost pred = |w: Seq<char>| is_prefix(input@, w);
    let mut r: Vec<String> = Vec::new();
    let mut i: usize = 0;
    proof {
        assert(v.deep_view().take(0) =~= Seq::<Seq<char>>::empty());
        assert(r.deep_view() =~= Seq::<Seq<char>>::empty());
        assert(Seq::<Seq<char>>::empty().filter(pred) =~= Seq::<Seq<char>>::empty());
    }
    while i < v.len()
        invariant
            i <= v@.len(),
            r.deep_view() == v.deep_view().take(i as int).filter(pred),
            pred == (|w: Seq<char>| is_prefix(input@, w)),
        decreases v@.len() - i,
    {
        let ghost pre = r.deep_view();
        let keep = starts_with(v[i].as_str(), input);
        if keep {
            r.push(v[i].clone());
            proof {
                assert(r.deep_view() =~= pre.push(v.deep_view()[i as int]));
            }
        }
        proof {
            assert(v.deep_view().take(i + 1) =~= v.deep_view().take(i as int).push(
                v.deep_view()[i as int],
            ));
            lemma_filter_push(v.deep_view().take(i as int), v.deep_view()[i as int], pred);
        }
        i += 1;
    }
    proof {
        assert(v.deep_view().take(v@.len() as int) =~= v.deep_view());
    }
    r
}

impl SqliteSearcher {
    /// A fresh assistant over a history list, most recent first, with no
    /// input typed and no commands registered.
    pub fn new(recent_searches: Vec<String>) -> (r: SqliteSearcher)
        ensures
            r.input@ == Seq::<char>::empty(),
            r.recent_searches.deep_view() == recent_searches.deep_view(),
            r.commands.deep_view() == Seq::<Seq<char>>::empty(),
    {
        let r = SqliteSearcher { input: String::new(), recent_searches, commands: Vec::new() };
        proof {
            assert(r.commands.deep_view() =~= Seq::<Seq<char>>::empty());
        }
        r
    }

    /// Decide what to suggest for a partial input, or direct the caller to
    /// a storage prefix lookup.
    pub fn get_suggestions(&self, input: &str) -> (r: SuggestionPlan)
        ensures
            r@ == plan_spec(self.commands.deep_view(), self.recent_searches.deep_view(), input@),
    {
        let n = input.unicode_len();
        if n > 0 && input.get_char(0) == '/' {
            SuggestionPlan::Ready(filter_by_prefix(&self.commands, input))
        } else if n > 2 {
            SuggestionPlan::StoragePrefix(input.to_owned())
        } else if n == 0 {
            SuggestionPlan::Ready(clone_strings(&self.recent_searches))
        } else {
            SuggestionPlan::Ready(filter_by_prefix(&self.recent_searches, input))
        }
    }

    /// Accept a completion: the raw input, not the accepted suggestion,
    /// becomes the newest history item; with nothing highlighted, nothing
    /// changes.
    pub fn get_completion(&mut self, input: &str, highlighted_suggestion: Option<String>) -> (r:
        Option<String>)
        ensures
            match highlighted_suggestion {
                Some(s) => r == Some(s) && final(self).recent_searches.deep_view() == seq![input@]
                    + old(self).recent_searches.deep_view() && final(self).input == old(self).input
                    && final(self).commands == old(self).commands,
                None => r is None && *final(self) == *old(self),
            },
    {
        match highlighted_suggestion {
            Some(suggestion) => {
                let ghost pre = self.recent_searches.deep_view();
                self.recent_searches.insert(0, input.to_owned());
                proof {
                    assert(self.recent_searches.deep_view() =~= seq![input@] + pre);
                }
                Some(suggestion)
            },
            None => None,
        }
    }
}

/// Every pair of the list is in strictly ascending lexicographic order;
/// in particular no string occurs twice.
pub open spec fn strict_sorted(s: Seq<Seq<char>>) -> bool {
    forall|i: int, j: int| 0 <= i < j < s.len() ==> lex_lt(s[i], s[j])
}

/// What becomes of a storage prefix lookup's hits: no hits means the
/// spell-check collaborator should be asked instead; otherwise the hits
/// are handed back sorted and with duplicates removed.
pub enum StorageHitsPlan {
    SpellCheckFallback,
    Suggestions(Vec<String>),
}

/// Shape the hits of a storage prefix lookup: empty falls back to the
/// spell checker; otherwise exactly the distinct hit words, in strictly
/// ascending lexicographic order.
pub fn suggestions_from_storage_hits(hits: &Vec<String>) -> (r: StorageHitsPlan)
    ensures
        hits@.len() == 0 <==> r is SpellCheckFallback,
        r matches StorageHitsPlan::Suggestions(v) ==> strict_sorted(v.deep_view()) && (forall|
            k: int,
        |
            0 <= k < v.deep_view().len() ==> hits.deep_view().contains(
                #[trigger] v.deep_view()[k],
            )) && (forall|k: int|
            0 <= k < hits.deep_view().len() ==> v.deep_view().contains(
                #[trigger] hits.deep_view()[k],
            )),
{
    if hits.len() == 0 {
        return StorageHitsPlan::SpellCheckFallback;
    }
    let mut out: Vec<String> = Vec::new();
    let mut i: usize = 0;
    while i < hits.len()
        invariant
            i <= hits@.len(),
            strict_sorted(out.deep_view()),
            forall|k: int|
                0 <= k < out.deep_view().len() ==> hits.deep_view().contains(
                    #[trigger] out.deep_view()[k],
                ),
            forall|k: int|
                0 <= k < i ==> out.deep_view().contains(#[trigger] hits.deep_view()[k]),
        decreases hits@.len() - i,
    {
        let x = hits[i].clone();
        proof {
            assert(x@ == hits.deep_view()[i as int]);
        }
        let mut j: usize = 0;
        while j < out.len() && str_lt(out[j].as_str(), x.as_str())
            invariant
                j <= out@.len(),
                x@ == hits.deep_view()[i as int],
                forall|k: int| 0 <= k < j ==> lex_lt(#[trigger] out.deep_view()[k], x@),
            decreases out@.len() - j,
        {
            j += 1;
        }
        let present = j < out.len() && str_eq(out[j].as_str(), x.as_str());
        if !present {
            let ghost pre = out.deep_view();
            proof {
                if j < pre.len() {
                    assert(!lex_lt(pre[j as int], x@));
                    if !lex_lt(x@, pre[j as int]) {
                        lemma_lex_lt_connected(x@, pre[j as int]);
                    }
                }
            }
            out.insert(j, x);
            proof {
                assert(out.deep_view() =~= pre.insert(j as int, hits.deep_view()[i as int]));
                pre.insert_ensures(j as int, hits.deep_view()[i as int]);
                let cur = out.deep_view();
                let xx = hits.deep_view()[i as int];
                assert forall|p: int, q: int| 0 <= p < q < cur.len() implies lex_lt(
                    cur[p],
                    cur[q],
                ) by {
                    if q < j {
                        assert(cur[p] == pre[p] && cur[q] == pre[q]);
                    } else if q == j {
                        assert(cur[q] == xx);
                        assert(cur[p] == pre[p]);
                        assert(lex_lt(pre[p], xx));
                    } else {
                        assert(cur[q] == pre[q - 1]);
                        if p > j {
                            assert(cur[p] == pre[p - 1]);
                        } else if p == j {
                            assert(cur[p] == xx);
                            if q - 1 > j {
                                assert(lex_lt(xx, pre[j as int]));
                                assert(lex_lt(pre[j as int], pre[q - 1]));
                                lemma_lex_lt_transitive(xx, pre[j as int], pre[q - 1]);
                            }
                        } else {
                            if q - 1 == p {
                                assert(lex_lt(pre[p], xx));
                                assert(lex_lt(xx, pre[q - 1])) by {
                                    assert(q - 1 == j || q - 1 > j);
                                }
                            } else {
                                assert(lex_lt(pre[p], pre[q - 1]));
                            }
                        }
                    }
                }
                assert forall|k: int| 0 <= k < cur.len() implies hits.deep_view().contains(
                    #[trigger] cur[k],
                ) by {
                    if k < j {
                        assert(cur[k] == pre[k]);
                    } else if k == j {
                        assert(cur[k] == xx);
                        assert(hits.deep_view()[i as int] == xx);
                    } else {
                        assert(cur[k] == pre[k - 1]);
                    }
                }
                assert forall|k: int| 0 <= k < i + 1 implies cur.contains(
                    #[trigger] hits.deep_view()[k],
                ) by {
                    if k < i {
                        let w = choose|w: int| 0 <= w < pre.len() && pre[w] == hits.deep_view()[k];
                        if w < j {
                            assert(cur[w] == hits.deep_view()[k]);
                        } else {
                            assert(cur[w + 1] == hits.deep_view()[k]);
                        }
                    } else {
                        assert(cur[j as int] == hits.deep_view()[k]);
                    }
                }
            }
        } else {
            proof {
                assert(out.deep_view()[j as int] == x@);
                assert forall|k: int| 0 <= k < i + 1 implies out.deep_view().contains(
                    #[trigger] hits.deep_view()[k],
                ) by {
                    if k == i {
                        assert(out.deep_view()[j as int] == hits.deep_view()[k]);
                    }
                }
            }
        }
        i += 1;
    }
    StorageHitsPlan::Suggestions(out)
}

} // verus!
