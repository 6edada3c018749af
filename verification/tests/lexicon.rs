use lecsicon::assist::StorageHitsPlan;
use lecsicon::assist::SuggestionPlan;
use lecsicon::assist::suggestions_from_storage_hits;
use lecsicon::codec::UnrecognizedCode;
use lecsicon::codec::convert_csv_to_sqlite_format;
use lecsicon::codec::convert_sqlite_to_text;
use lecsicon::codec::convert_text_to_sqlite;
use lecsicon::definitions::Gender;
use lecsicon::definitions::LecsiconEntry;
use lecsicon::definitions::Mood;
use lecsicon::definitions::Number;
use lecsicon::definitions::Person;
use lecsicon::definitions::SqliteSearcher;
use lecsicon::definitions::Tag;
use lecsicon::definitions::Tense;
use lecsicon::definitions::VerbForm;
use lecsicon::ingest::IngestError;
use lecsicon::ingest::load_text_lecsicon;
use lecsicon::query::conflict_retry_id;
use lecsicon::query::get_related_entries;
use lecsicon::search;

fn mk(word: &str, lemma: Option<&str>, tag: Option<Tag>) -> LecsiconEntry {
    let mut e = LecsiconEntry::default();
    e.id = 101;
    e.word = word.to_string();
    e.lemma = lemma.map(|l| l.to_string());
    e.tag = tag;
    e
}

#[test]
fn ingest_single_verbnoun_row() {
    let data = load_text_lecsicon("redeg\trhedeg\tVERB\tVerbForm=Vnoun").unwrap();
    assert_eq!(data.len(), 1);
    assert_eq!(data[0].word, "redeg");
    assert_eq!(data[0].lemma, Some("rhedeg".to_string()));
    assert_eq!(data[0].tag, Some(Tag::Verb));
    assert_eq!(data[0].verb_form, Some(VerbForm::Verbnoun));
    assert_eq!(data[0].id, 101);
}

#[test]
fn ingest_combined_gender_pair() {
    let data = load_text_lecsicon("ll\tll\tNOUN\tGender=Fem,Masc").unwrap();
    assert_eq!(data.len(), 1);
    assert_eq!(data[0].gender, Some(Gender::FeminineMasculine));
}

#[test]
fn ingest_duplicate_wordform_ids() {
    let data = load_text_lecsicon("ci\tci\tNOUN\nci\tci\tNOUN").unwrap();
    assert_eq!(data.len(), 2);
    assert_eq!(data[0].id, 101);
    assert_eq!(data[1].id, 102);
}

#[test]
fn ingest_window_remembers_nineteen_intervening() {
    let mut text = String::from("ci\tci\tNOUN\n");
    for i in 0..19 {
        text.push_str(&format!("w{}\tw{}\tNOUN\n", i, i));
    }
    text.push_str("ci\tci\tNOUN\n");
    let data = load_text_lecsicon(&text).unwrap();
    assert_eq!(data.len(), 21);
    assert_eq!(data[0].id, 101);
    assert_eq!(data[20].id, 102);
}

#[test]
fn ingest_window_forgets_beyond_twenty() {
    let mut text = String::from("ci\tci\tNOUN\n");
    for i in 0..20 {
        text.push_str(&format!("w{}\tw{}\tNOUN\n", i, i));
    }
    text.push_str("ci\tci\tNOUN\n");
    let data = load_text_lecsicon(&text).unwrap();
    assert_eq!(data.len(), 22);
    assert_eq!(data[0].id, 101);
    assert_eq!(data[21].id, 101);
}

#[test]
fn ingest_rejects_unknown_tag() {
    let r = load_text_lecsicon("ci\tci\tXXX");
    assert!(matches!(r, Err(IngestError::UnrecognizedTag(t)) if t == "XXX"));
}

#[test]
fn ingest_rejects_unknown_feature_pair() {
    let r = load_text_lecsicon("ci\tci\tNOUN\tColour=Glas");
    assert!(matches!(r, Err(IngestError::UnrecognizedTagPair(t)) if t == "Colour=Glas"));
}

#[test]
fn ingest_aborts_on_missing_column() {
    let r = load_text_lecsicon("ci\tci");
    assert!(matches!(r, Err(IngestError::MissingColumn)));
}

#[test]
fn ingest_ignores_blank_feature_tokens() {
    let data = load_text_lecsicon("ci\tci\tNOUN\t \nhaul\thaul\tNOUN\t").unwrap();
    assert_eq!(data.len(), 2);
    assert_eq!(data[0].tag, Some(Tag::Noun));
    assert_eq!(data[0].gender, None);
    assert_eq!(data[1].tag, Some(Tag::Noun));
}

#[test]
fn ingest_skips_blank_lines_and_strips_carriage_returns() {
    let data = load_text_lecsicon("ci\tci\tNOUN\r\n\r\nhaul\thaul\tNOUN\r\n").unwrap();
    assert_eq!(data.len(), 2);
    assert_eq!(data[0].word, "ci");
    assert_eq!(data[1].word, "haul");
}

#[test]
fn ingest_feature_pairs_split_on_bar() {
    let data = load_text_lecsicon("cathod\tcath\tNOUN\tGender=Fem|Number=Plur").unwrap();
    assert_eq!(data[0].gender, Some(Gender::Feminine));
    assert_eq!(data[0].number, Some(Number::Plural));
}

#[test]
fn entry_storage_round_trip() {
    let mut e = mk("rhedais", Some("rhedeg"), Some(Tag::Verb));
    e.mood = Some(Mood::Indicative);
    e.tense = Some(Tense::Past);
    e.number = Some(Number::Singular);
    e.person = Some(Person::One);
    e.gender = Some(Gender::Masculine);
    let back = convert_sqlite_to_text(convert_text_to_sqlite(e.clone())).unwrap();
    assert_eq!(back, e);
}

#[test]
fn tag_from_storage_rejects_unknown_code() {
    assert_eq!(Tag::from_storage(11), Ok(Tag::Verb));
    assert_eq!(Tag::from_storage(99), Err(UnrecognizedCode { code: 99 }));
}

#[test]
fn person_storage_table_is_hand_assigned() {
    assert_eq!(Person::One.to_storage(), 0);
    assert_eq!(Person::Three.to_storage(), 1);
    assert_eq!(Person::Two.to_storage(), 2);
    assert_eq!(Person::Zero.to_storage(), 3);
    assert_eq!(Person::from_storage(1), Ok(Person::Three));
}

#[test]
fn decode_rejects_unknown_storage_degree() {
    let mut row = convert_text_to_sqlite(mk("ci", Some("ci"), Some(Tag::Noun)));
    row.degree = Some(99);
    let r = convert_sqlite_to_text(row);
    assert_eq!(r, Err(UnrecognizedCode { code: 99 }));
}

#[test]
fn search_absent_word_returns_none() {
    let rows = convert_csv_to_sqlite_format(vec![mk("ci", Some("ci"), Some(Tag::Noun))]);
    let r = search("nonexistent", rows).unwrap();
    assert!(r.is_none());
}

#[test]
fn search_present_word_returns_stored_rows() {
    let rows = convert_csv_to_sqlite_format(vec![
        mk("ci", Some("ci"), Some(Tag::Noun)),
        mk("haul", Some("haul"), Some(Tag::Noun)),
        mk("ci", Some("ci"), Some(Tag::Verb)),
    ]);
    let r = search("ci", rows).unwrap().unwrap();
    assert_eq!(r.len(), 2);
    assert_eq!(r[0].word, "ci");
    assert_eq!(r[0].tag, Some(Tag::Noun));
    assert_eq!(r[1].word, "ci");
    assert_eq!(r[1].tag, Some(Tag::Verb));
}

#[test]
fn related_excludes_query_itself() {
    let mut query = mk("rhedeg", Some("rhedeg"), Some(Tag::Verb));
    query.verb_form = Some(VerbForm::Verbnoun);
    let mut other = mk("rhedais", Some("rhedeg"), Some(Tag::Verb));
    other.tense = Some(Tense::Past);
    let rows = vec![query.clone(), other.clone()];
    let r = get_related_entries(&query, rows).unwrap();
    assert_eq!(r.len(), 1);
    assert_eq!(r[0], other);
}

#[test]
fn related_only_self_yields_none() {
    let mut query = mk("rhedeg", Some("rhedeg"), Some(Tag::Verb));
    query.verb_form = Some(VerbForm::Verbnoun);
    let rows = vec![query.clone()];
    assert!(get_related_entries(&query, rows).is_none());
}

#[test]
fn related_verbnoun_collects_finite_paradigm() {
    let mut query = mk("rhedeg", Some("rhedeg"), Some(Tag::Verb));
    query.verb_form = Some(VerbForm::Verbnoun);
    let mut past = mk("rhedais", Some("rhedeg"), Some(Tag::Verb));
    past.tense = Some(Tense::Past);
    let mut fut = mk("rhedaf", Some("rhedeg"), Some(Tag::Verb));
    fut.tense = Some(Tense::Future);
    let noun = mk("rhediad", Some("rhedeg"), Some(Tag::Noun));
    let rows = vec![past.clone(), fut.clone(), noun];
    let r = get_related_entries(&query, rows).unwrap();
    assert_eq!(r.len(), 2);
    assert_eq!(r[0], past);
    assert_eq!(r[1], fut);
}

#[test]
fn related_finite_verb_requires_agreement() {
    let mut query = mk("rhedais", Some("rhedeg"), Some(Tag::Verb));
    query.mood = Some(Mood::Indicative);
    query.tense = Some(Tense::Past);
    query.number = Some(Number::Singular);
    query.person = Some(Person::One);
    let mut agreeing = mk("rhedais", Some("rhedais"), Some(Tag::Verb));
    agreeing.lemma = Some("rhedais".to_string());
    agreeing.mood = Some(Mood::Indicative);
    agreeing.tense = Some(Tense::Past);
    agreeing.number = Some(Number::Singular);
    agreeing.person = Some(Person::One);
    let mut wrong_tense = agreeing.clone();
    wrong_tense.word = "arall".to_string();
    wrong_tense.tense = Some(Tense::Present);
    let mut wrong_tag = agreeing.clone();
    wrong_tag.word = "arall2".to_string();
    wrong_tag.tag = Some(Tag::Noun);
    let rows = vec![agreeing.clone(), wrong_tense, wrong_tag];
    let r = get_related_entries(&query, rows).unwrap();
    assert_eq!(r.len(), 1);
    assert_eq!(r[0], agreeing);
}

#[test]
fn related_nonverb_matches_lemma_and_tag() {
    let query = mk("cath", Some("cath"), Some(Tag::Noun));
    let mut plural = mk("cathod", Some("cath"), Some(Tag::Noun));
    plural.lemma = Some("cath".to_string());
    plural.number = Some(Number::Plural);
    let mut verb = mk("cathu", Some("cath"), Some(Tag::Verb));
    verb.lemma = Some("cath".to_string());
    let rows = vec![plural.clone(), verb];
    let r = get_related_entries(&query, rows).unwrap();
    assert_eq!(r.len(), 1);
    assert_eq!(r[0], plural);
}

#[test]
fn empty_input_recalls_history_most_recent_first() {
    let s = SqliteSearcher::new(vec!["diweddaraf".to_string(), "hynaf".to_string()]);
    match s.get_suggestions("") {
        SuggestionPlan::Ready(v) => {
            assert_eq!(v, vec!["diweddaraf".to_string(), "hynaf".to_string()]);
        }
        SuggestionPlan::StoragePrefix(_) => panic!("expected a ready list"),
    }
}

#[test]
fn command_prefix_completion() {
    let mut s = SqliteSearcher::new(vec![]);
    s.commands = vec!["/help".to_string(), "/quit".to_string()];
    match s.get_suggestions("/h") {
        SuggestionPlan::Ready(v) => assert_eq!(v, vec!["/help".to_string()]),
        SuggestionPlan::StoragePrefix(_) => panic!("expected a ready list"),
    }
}

#[test]
fn long_input_directs_to_storage_lookup() {
    let s = SqliteSearcher::new(vec![]);
    match s.get_suggestions("cath") {
        SuggestionPlan::StoragePrefix(p) => assert_eq!(p, "cath"),
        SuggestionPlan::Ready(_) => panic!("expected a storage directive"),
    }
}

#[test]
fn short_input_filters_history_by_prefix() {
    let s = SqliteSearcher::new(vec!["ci".to_string(), "cath".to_string(), "haul".to_string()]);
    match s.get_suggestions("c") {
        SuggestionPlan::Ready(v) => {
            assert_eq!(v, vec!["ci".to_string(), "cath".to_string()]);
        }
        SuggestionPlan::StoragePrefix(_) => panic!("expected a ready list"),
    }
}

#[test]
fn completion_appends_raw_input_to_history() {
    let mut s = SqliteSearcher::new(vec!["hen".to_string()]);
    let r = s.get_completion("cat", Some("cath".to_string()));
    assert_eq!(r, Some("cath".to_string()));
    assert_eq!(s.recent_searches, vec!["cat".to_string(), "hen".to_string()]);
}

#[test]
fn completion_without_highlight_changes_nothing() {
    let mut s = SqliteSearcher::new(vec!["hen".to_string()]);
    let r = s.get_completion("cat", None);
    assert!(r.is_none());
    assert_eq!(s.recent_searches, vec!["hen".to_string()]);
}

#[test]
fn storage_hits_empty_falls_back_to_spell_check() {
    let hits: Vec<String> = vec![];
    assert!(matches!(
        suggestions_from_storage_hits(&hits),
        StorageHitsPlan::SpellCheckFallback
    ));
}

#[test]
fn storage_hits_are_sorted_and_deduplicated() {
    let hits = vec![
        "ci".to_string(),
        "afon".to_string(),
        "ci".to_string(),
        "bara".to_string(),
    ];
    match suggestions_from_storage_hits(&hits) {
        StorageHitsPlan::Suggestions(v) => {
            assert_eq!(
                v,
                vec!["afon".to_string(), "bara".to_string(), "ci".to_string()]
            );
        }
        StorageHitsPlan::SpellCheckFallback => panic!("expected suggestions"),
    }
}

#[test]
fn conflict_retry_id_bumps_past_existing() {
    let rows = convert_csv_to_sqlite_format(vec![
        mk("ci", Some("ci"), Some(Tag::Noun)),
        mk("ci", Some("ci"), Some(Tag::Verb)),
    ]);
    let mut rows = rows;
    rows[1].id = 105;
    assert_eq!(conflict_retry_id(101, &rows), 106);
    let empty: Vec<lecsicon::definitions::SqliteLecsiconEntry> = vec![];
    assert_eq!(conflict_retry_id(101, &empty), 101);
}
