//! The query layer: exact-word lookup over storage rows, tag-dependent
//! relation lookup, and the id retry rule for a storage uniqueness
//! conflict. The rows themselves are handed in by the caller; ordering of
//! the input is preserved.

use vstd::prelude::*;

use crate::codec::UnrecognizedCode;
use crate::codec::convert_sqlite_to_text;
use crate::codec::decode_storage_view;
use crate::definitions::EntryView;
use crate::definitions::LecsiconEntry;
use crate::definitions::SqliteLecsiconEntry;
use crate::definitions::StorageView;
use crate::definitions::Tag;
use crate::ingest::entry_views;
use crate::text::lemma_filter_push;
use crate::text::str_eq;

verus! {

pub open spec fn storage_views(s: Seq<SqliteLecsiconEntry>) -> Seq<StorageView> {
    s.map_values(|e: SqliteLecsiconEntry| e@)
}

/// The tag-dependent matching rule for morphological relation: a verbal
/// non-finite query collects the whole finite paradigm of its wordform; a
/// finite verb additionally has to agree in mood, tense, number and
/// person; any other tag matches on lemma and tag alone.
pub open spec fn related_match(query: EntryView, row: EntryView) -> bool {
    if query.tag == Some(Tag::Verb) {
        if query.verb_form is Some {
            row.lemma == Some(query.word) && row.tag == Some(Tag::Verb)
        } else {
            row.lemma == Some(query.word) && row.tag == Some(Tag::Verb) && row.mood == query.mood
                && row.tense == query.tense && row.number == query.number && row.person
                == query.person
        }
    } else {
        row.lemma == Some(query.word) && row.tag == query.tag
    }
}

/// A row that belongs in a relation result: it matches the rule and it is
/// not the query entry itself.
pub open spec fn related_row(query: EntryView, row: EntryView) -> bool {
    related_match(query, row) && row != query
}

/// Decide the relation rule for one row.
pub fn matches_related(query: &LecsiconEntry, row: &LecsiconEntry) -> (r: bool)
    ensures
        r == related_match(query@, row@),
{
    let lemma_is_word = match &row.lemma {
        Some(l) => str_eq(l.as_str(), query.word.as_str()),
        None => false,
    };
    let q_verb = match query.tag {
        Some(Tag::Verb) => true,
        _ => false,
    };
    if q_verb {
        let row_verb = match row.tag {
            Some(Tag::Verb) => true,
            _ => false,
        };
        if query.verb_form.is_some() {
            lemma_is_word && row_verb
        } else {
            let mood_eq = match (row.mood, query.mood) {
                (Some(a), Some(b)) => a == b,
                (None, None) => true,
                _ => false,
            };
            let tense_eq = match (row.tense, query.tense) {
                (Some(a), Some(b)) => a == b,
                (None, None) => true,
                _ => false,
            };
            let number_eq = match (row.number, query.number) {
                (Some(a), Some(b)) => a == b,
                (None, None) => true,
                _ => false,
            };
            let person_eq = match (row.person, query.person) {
                (Some(a), Some(b)) => a == b,
                (None, None) => true,
                _ => false,
            };
            lemma_is_word && row_verb && mood_eq && tense_eq && number_eq && person_eq
        }
    } else {
        let tag_eq = match (row.tag, query.tag) {
            (Some(a), Some(b)) => a == b,
            (None, None) => true,
            _ => false,
        };
        lemma_is_word && tag_eq
    }
}

/// Relation lookup over candidate rows: exactly the rows that satisfy the
/// matching rule, in their input order, the query entry itself excluded;
/// an empty result is reported as `None`, never as an empty collection.
pub fn get_related_entries(entry: &LecsiconEntry, rows: Vec<LecsiconEntry>) -> (r: Option<
    Vec<LecsiconEntry>,
>)
    ensures
        ({
            let related = entry_views(rows@).filter(|row: EntryView| related_row(entry@, row));
            match r {
                Some(v) => entry_views(v@) == related && related.len() > 0,
                None => related.len() == 0,
            }
        }),
{
    let ghost orig = rows@;
    let ghost pred = |row: EntryView| related_row(entry@, row);
    let mut rows = rows;
    let mut out: Vec<LecsiconEntry> = Vec::new();
    proof {
        assert(orig.take(0) =~= Seq::<LecsiconEntry>::empty());
        assert(entry_views(orig.take(0)).filter(pred) =~= Seq::<EntryView>::empty());
        assert(entry_views(out@) =~= Seq::<EntryView>::empty());
    }
    while rows.len() > 0
        invariant
            rows@.len() <= orig.len(),
            forall|k: int|
                0 <= k < rows@.len() ==> #[trigger] rows@[k] == orig[orig.len() - rows@.len() + k],
            entry_views(out@) == entry_views(orig.take(orig.len() - rows@.len())).filter(pred),
            pred == (|row: EntryView| related_row(entry@, row)),
        decreases rows@.len(),
    {
        let ghost done = orig.len() - rows@.len();
        let row = rows.remove(0);
        proof {
            assert(row == orig[done]);
        }
        let ghost pre_out = out@;
        let keep = matches_related(entry, &row) && !(row == *entry);
        if keep {
            out.push(row);
        }
        proof {
            assert(entry_views(orig.take(done + 1)) =~= entry_views(orig.take(done)).push(
                orig[done]@,
            ));
            lemma_filter_push(entry_views(orig.take(done)), orig[done]@, pred);
            if keep {
                assert(entry_views(out@) =~= entry_views(pre_out).push(orig[done]@));
            }
        }
    }
    proof {
        assert(orig.take(orig.len() as int) =~= orig);
    }
    if out.len() == 0 {
        None
    } else {
        Some(out)
    }
}

/// Relation lookup under its public name.
pub fn related(entry: &LecsiconEntry, rows: Vec<LecsiconEntry>) -> (r: Option<Vec<LecsiconEntry>>)
    ensures
        ({
            let rel = entry_views(rows@).filter(|row: EntryView| related_row(entry@, row));
            match r {
                Some(v) => entry_views(v@) == rel && rel.len() > 0,
                None => rel.len() == 0,
            }
        }),
{
    get_related_entries(entry, rows)
}

/// Exact-word lookup over storage rows: the rows whose wordform equals the
/// query word, in their input order.
pub fn get_lecsicon_entries_by_word(word: &str, rows: Vec<SqliteLecsiconEntry>) -> (r: Vec<
    SqliteLecsiconEntry,
>)
    ensures
        storage_views(r@) == storage_views(rows@).filter(|s: StorageView| s.word == word@),
{
    let ghost orig = rows@;
    let ghost pred = |s: StorageView| s.word == word@;
    let mut rows = rows;
    let mut out: Vec<SqliteLecsiconEntry> = Vec::new();
    proof {
        assert(orig.take(0) =~= Seq::<SqliteLecsiconEntry>::empty());
        assert(storage_views(orig.take(0)).filter(pred) =~= Seq::<StorageView>::empty());
        assert(storage_views(out@) =~= Seq::<StorageView>::empty());
    }
    while rows.len() > 0
        invariant
            rows@.len() <= orig.len(),
            forall|k: int|
                0 <= k < rows@.len() ==> #[trigger] rows@[k] == orig[orig.len() - rows@.len() + k],
            storage_views(out@) == storage_views(orig.take(orig.len() - rows@.len())).filter(pred),
            pred == (|s: StorageView| s.word == word@),
        decreases rows@.len(),
    {
        let ghost done = orig.len() - rows@.len();
        let row = rows.remove(0);
        proof {
            assert(row == orig[done]);
        }
        let ghost pre_out = out@;
        let keep = str_eq(row.word.as_str(), word);
        if keep {
            out.push(row);
        }
        proof {
            assert(storage_views(orig.take(done + 1)) =~= storage_views(orig.take(done)).push(
                orig[done]@,
            ));
            lemma_filter_push(storage_views(orig.take(done)), orig[done]@, pred);
            if keep {
                assert(storage_views(out@) =~= storage_views(pre_out).push(orig[done]@));
            }
        }
    }
    proof {
        assert(orig.take(orig.len() as int) =~= orig);
    }
    out
}

/// Decoding of a sequence of storage rows: the first unrecognized code
/// aborts the read.
pub open spec fn decode_rows(s: Seq<StorageView>) -> Result<Seq<EntryView>, UnrecognizedCode>
    decreases s.len(),
{
    if s.len() == 0 {
        Ok(Seq::empty())
    } else {
        match decode_storage_view(s[0]) {
            Err(e) => Err(e),
            Ok(v) => match decode_rows(s.skip(1)) {
                Err(e) => Err(e),
                Ok(rest) => Ok(seq![v] + rest),
            },
        }
    }
}

/// Exact-word search: filter the storage rows by wordform, decode every
/// hit, and report no-match as `None`. A row that fails to decode aborts
/// the whole read with its first unrecognized code.
pub fn search(word: &str, rows: Vec<SqliteLecsiconEntry>) -> (r: Result<
    Option<Vec<LecsiconEntry>>,
    UnrecognizedCode,
>)
    ensures
        ({
            let hits = storage_views(rows@).filter(|s: StorageView| s.word == word@);
            match decode_rows(hits) {
                Err(e) => r == Err::<Option<Vec<LecsiconEntry>>, UnrecognizedCode>(e),
                Ok(vs) => match r {
                    Ok(Some(v)) => entry_views(v@) == vs && vs.len() > 0,
                    Ok(None) => vs.len() == 0,
                    Err(_) => false,
                },
            }
        }),
{
    let ghost origrows = rows@;
    let mut hits = get_lecsicon_entries_by_word(word, rows);
    let ghost hviews = storage_views(hits@);
    let mut out: Vec<LecsiconEntry> = Vec::new();
    let mut err: Option<UnrecognizedCode> = None;
    proof {
        assert(hviews.skip(0) =~= hviews);
        assert(entry_views(out@) =~= Seq::<EntryView>::empty());
        if decode_rows(hviews) is Ok {
            assert(entry_views(out@) + decode_rows(hviews)->Ok_0 =~= decode_rows(hviews)->Ok_0);
        }
    }
    while hits.len() > 0
        invariant
            hviews == storage_views(origrows).filter(|s: StorageView| s.word == word@),
            hits@.len() <= hviews.len(),
            forall|k: int|
                0 <= k < hits@.len() ==> #[trigger] hits@[k]@ == hviews[hviews.len() - hits@.len()
                    + k],
            match err {
                None => match decode_rows(hviews.skip(hviews.len() - hits@.len())) {
                    Ok(rest) => decode_rows(hviews) == Ok::<Seq<EntryView>, UnrecognizedCode>(
                        entry_views(out@) + rest,
                    ),
                    Err(e) => decode_rows(hviews) == Err::<Seq<EntryView>, UnrecognizedCode>(e),
                },
                Some(e) => decode_rows(hviews) == Err::<Seq<EntryView>, UnrecognizedCode>(e),
            },
        decreases hits@.len(),
    {
        let ghost done = hviews.len() - hits@.len();
        let row = hits.remove(0);
        proof {
            assert(row@ == hviews[done]);
            assert(hviews.skip(done)[0] == hviews[done]);
            assert(hviews.skip(done).skip(1) =~= hviews.skip(done + 1));
        }
        if err.is_none() {
            let ghost pre_out = out@;
            match convert_sqlite_to_text(row) {
                Err(e) => {
                    proof {
                        assert(!(decode_storage_view(hviews[done]) is Ok));
                        assert(decode_rows(hviews.skip(done)) == Err::<Seq<EntryView>,
                            UnrecognizedCode,
                        >(decode_storage_view(hviews[done])->Err_0));
                        assert(decode_rows(hviews) == Err::<Seq<EntryView>, UnrecognizedCode>(e));
                    }
                    err = Some(e);
                },
                Ok(v) => {
                    out.push(v);
                    proof {
                        assert(entry_views(out@) =~= entry_views(pre_out).push(
                            decode_storage_view(hviews[done])->Ok_0,
                        ));
                        if decode_rows(hviews.skip(done + 1)) is Ok {
                            let rest = decode_rows(hviews.skip(done + 1))->Ok_0;
                            assert(entry_views(pre_out) + (seq![
                                decode_storage_view(hviews[done])->Ok_0,
                            ] + rest) =~= entry_views(out@) + rest);
                        }
                    }
                },
            }
        }
    }
    if let Some(e) = err {
        return Err(e);
    }
    proof {
        assert(hviews.skip(hviews.len() as int) =~= Seq::<StorageView>::empty());
        if decode_rows(hviews) is Ok {
            assert(entry_views(out@) + Seq::<EntryView>::empty() =~= entry_views(out@));
        }
    }
    if out.len() == 0 {
        Ok(None)
    } else {
        Ok(Some(out))
    }
}

/// The id that the uniqueness-conflict retry uses: the attempted id,
/// raised past every id already stored for the wordform.
pub open spec fn retry_id(base: int, rows: Seq<StorageView>) -> int
    decreases rows.len(),
{
    if rows.len() == 0 {
        base
    } else {
        let rest = retry_id(base, rows.drop_last());
        if rows.last().id + 1 > rest {
            rows.last().id + 1
        } else {
            rest
        }
    }
}

/// The retry id exceeds every id among the rows.
pub proof fn lemma_retry_id_exceeds(base: int, rows: Seq<StorageView>)
    ensures
        retry_id(base, rows) >= base,
        forall|k: int| 0 <= k < rows.len() ==> retry_id(base, rows) > rows[k].id,
    decreases rows.len(),
{
    if rows.len() > 0 {
        lemma_retry_id_exceeds(base, rows.drop_last());
        assert forall|k: int| 0 <= k < rows.len() implies retry_id(base, rows) > rows[k].id by {
            if k < rows.len() - 1 {
                assert(rows.drop_last()[k] == rows[k]);
            }
        }
    }
}

/// Compute the retry id after a storage uniqueness violation, from the
/// rows already stored under the same wordform.
pub fn conflict_retry_id(base: i32, same_words: &Vec<SqliteLecsiconEntry>) -> (r: i32)
    requires
        forall|k: int| 0 <= k < same_words@.len() ==> #[trigger] same_words@[k].id < i32::MAX,
    ensures
        r == retry_id(base as int, storage_views(same_words@)),
        r >= base,
        forall|k: int| 0 <= k < same_words@.len() ==> r > #[trigger] same_words@[k].id,
{
    let ghost rviews = storage_views(same_words@);
    let mut cur: i32 = base;
    let mut i: usize = 0;
    proof {
        assert(rviews.take(0) =~= Seq::<StorageView>::empty());
    }
    while i < same_words.len()
        invariant
            i <= same_words@.len(),
            base <= cur,
            rviews == storage_views(same_words@),
            cur as int == retry_id(base as int, rviews.take(i as int)),
            forall|k: int| 0 <= k < same_words@.len() ==> #[trigger] same_words@[k].id < i32::MAX,
        decreases same_words@.len() - i,
    {
        if same_words[i].id >= cur {
            cur = same_words[i].id + 1;
        }
        proof {
            assert(rviews.take(i + 1).drop_last() =~= rviews.take(i as int));
            assert(rviews.take(i + 1).last() == rviews[i as int]);
        }
        i += 1;
    }
    proof {
        assert(rviews.take(same_words@.len() as int) =~= rviews);
        lemma_retry_id_exceeds(base as int, rviews);
        assert forall|k: int| 0 <= k < same_words@.len() implies cur as int
            > same_words@[k].id by {
            assert(rviews[k] == same_words@[k]@);
            assert(retry_id(base as int, rviews) > rviews[k].id);
        }
    }
    cur
}

/// The rows of a relation result: those admitted by the matching rule,
/// in their input order.
pub open spec fn related_rows(query: EntryView, rows: Seq<EntryView>) -> Seq<EntryView> {
    rows.filter(|row: EntryView| related_row(query, row))
}

/// A relation result never contains the query entry itself: every row
/// that the matching rule admits is also checked against the query.
pub proof fn lemma_related_excludes_query(query: EntryView, rows: Seq<EntryView>)
    ensures
        forall|k: int|
            0 <= k < related_rows(query, rows).len() ==> #[trigger] related_rows(query, rows)[k]
                != query,
{
    let pred = |row: EntryView| related_row(query, row);
    assert forall|k: int| 0 <= k < rows.filter(pred).len() implies #[trigger] rows.filter(pred)[k]
        != query by {
        rows.lemma_filter_pred(pred, k);
    }
}

/// On a finite verb query, every related row agrees with the query in
/// lemma, tag, mood, tense, number and person.
pub proof fn lemma_related_finite_verb_agreement(query: EntryView, rows: Seq<EntryView>)
    requires
        query.tag == Some(Tag::Verb),
        query.verb_form is None,
    ensures
        forall|k: int|
            0 <= k < related_rows(query, rows).len() ==> {
                let row = #[trigger] related_rows(query, rows)[k];
                row.lemma == Some(query.word) && row.tag == Some(Tag::Verb) && row.mood
                    == query.mood && row.tense == query.tense && row.number == query.number
                    && row.person == query.person && row != query
            },
{
    let pred = |row: EntryView| related_row(query, row);
    assert forall|k: int| 0 <= k < rows.filter(pred).len() implies {
        let row = #[trigger] rows.filter(pred)[k];
        row.lemma == Some(query.word) && row.tag == Some(Tag::Verb) && row.mood == query.mood
            && row.tense == query.tense && row.number == query.number && row.person
            == query.person && row != query
    } by {
        rows.lemma_filter_pred(pred, k);
    }
}

} // verus!
