//! The tagged-entry data model: one closed enumeration per grammatical axis,
//! the domain record `LecsiconEntry`, its compact storage form
//! `SqliteLecsiconEntry`, and the ghost views that contracts speak of.

use vstd::prelude::*;

verus! {

/// Part-of-speech class of a wordform.
#[derive(Clone, Copy, Debug, PartialEq, Eq, Structural)]
pub enum Tag {
    Adjective,
    Adposition,
    Adverb,
    Conjugation,
    Determiner,
    Interjection,
    Noun,
    Number,
    Particle,
    Pronoun,
    ProperNoun,
    Verb,
}

#[derive(Clone, Copy, Debug, PartialEq, Eq, Structural)]
pub enum AdpositionType {
    Preposition,
}

#[derive(Clone, Copy, Debug, PartialEq, Eq, Structural)]
pub enum Definite {
    Definite,
}

#[derive(Clone, Copy, Debug, PartialEq, Eq, Structural)]
pub enum Degree {
    Comparative,
    Equative,
    Positive,
    Superlative,
}

#[derive(Clone, Copy, Debug, PartialEq, Eq, Structural)]
pub enum Gender {
    Feminine,
    FeminineMasculine,
    Masculine,
}

#[derive(Clone, Copy, Debug, PartialEq, Eq, Structural)]
pub enum Mood {
    Imperative,
    Indicative,
    Subjunctive,
}

#[derive(Clone, Copy, Debug, PartialEq, Eq, Structural)]
pub enum Mutation {
    Aspirate,
    HProthesis,
    Nasal,
    Soft,
}

#[derive(Clone, Copy, Debug, PartialEq, Eq, Structural)]
pub enum NameType {
    Geographical,
    Person,
}

#[derive(Clone, Copy, Debug, PartialEq, Eq, Structural)]
pub enum Number {
    Collective,
    Plural,
    Singular,
}

#[derive(Clone, Copy, Debug, PartialEq, Eq, Structural)]
pub enum NumberForm {
    Word,
}

#[derive(Clone, Copy, Debug, PartialEq, Eq, Structural)]
pub enum NumberType {
    Cardinal,
    Ordinal,
}

#[derive(Clone, Copy, Debug, PartialEq, Eq, Structural)]
pub enum Person {
    Zero,
    One,
    Two,
    Three,
}

#[derive(Clone, Copy, Debug, PartialEq, Eq, Structural)]
pub enum Polarity {
    Negative,
}

#[derive(Clone, Copy, Debug, PartialEq, Eq, Structural)]
pub enum Polite {
    Formal,
    Informal,
}

#[derive(Clone, Copy, Debug, PartialEq, Eq, Structural)]
pub enum Position {
    Prenom,
}

#[derive(Clone, Copy, Debug, PartialEq, Eq, Structural)]
pub enum Possessive {
    Yes,
}

#[derive(Clone, Copy, Debug, PartialEq, Eq, Structural)]
pub enum PronounType {
    Article,
    Demonstrative,
    Interrogative,
    Negative,
    Personal,
    Relative,
    Reflexive,
}

#[derive(Clone, Copy, Debug, PartialEq, Eq, Structural)]
pub enum Relative {
    Rel,
}

#[derive(Clone, Copy, Debug, PartialEq, Eq, Structural)]
pub enum Style {
    Archaic,
    Colloquial,
    Formal,
}

#[derive(Clone, Copy, Debug, PartialEq, Eq, Structural)]
pub enum Tense {
    Future,
    Imperfect,
    Past,
    Plusquamperfekt,
    Present,
}

#[derive(Clone, Copy, Debug, PartialEq, Eq, Structural)]
pub enum VerbForm {
    Verbnoun,
}

/// The domain record: a wordform with its lemma and grammatical features.
/// `id` is unique only among the rows sharing the same `word`; storage
/// identity is the pair `(word, id)`.
#[derive(Clone, Debug)]
pub struct LecsiconEntry {
    pub id: i32,
    pub word: String,
    pub lemma: Option<String>,
    pub tag: Option<Tag>,
    pub adposition_type: Option<AdpositionType>,
    pub definite: Option<Definite>,
    pub degree: Option<Degree>,
    pub gender: Option<Gender>,
    pub mood: Option<Mood>,
    pub mutation: Option<Mutation>,
    pub name_type: Option<NameType>,
    pub number: Option<Number>,
    pub number_form: Option<NumberForm>,
    pub number_type: Option<NumberType>,
    pub person: Option<Person>,
    pub polarity: Option<Polarity>,
    pub polite: Option<Polite>,
    pub position: Option<Position>,
    pub possessive: Option<Possessive>,
    pub pronoun_type: Option<PronounType>,
    pub relative: Option<Relative>,
    pub style: Option<Style>,
    pub tense: Option<Tense>,
    pub verb_form: Option<VerbForm>,
}

/// The storage form of an entry: every enumeration replaced by its compact
/// code, a small integer for multi-variant axes and a presence flag for
/// single-variant axes.
#[derive(Clone, Debug)]
pub struct SqliteLecsiconEntry {
    pub id: i32,
    pub word: String,
    pub lemma: Option<String>,
    pub tag: Option<i32>,
    pub adposition_type: Option<bool>,
    pub definite: Option<bool>,
    pub degree: Option<i32>,
    pub gender: Option<i32>,
    pub mood: Option<i32>,
    pub mutation: Option<i32>,
    pub name_type: Option<i32>,
    pub number: Option<i32>,
    pub number_form: Option<bool>,
    pub number_type: Option<i32>,
    pub person: Option<i32>,
    pub polarity: Option<bool>,
    pub polite: Option<i32>,
    pub position: Option<bool>,
    pub possessive: Option<bool>,
    pub pronoun_type: Option<i32>,
    pub relative: Option<bool>,
    pub style: Option<i32>,
    pub tense: Option<i32>,
    pub verb_form: Option<bool>,
}

/// The search assistant's state: the text typed so far, the recent-search
/// history with the most recent search first, and the known slash
/// commands.
#[derive(Clone)]
pub struct SqliteSearcher {
    pub input: String,
    pub recent_searches: Vec<String>,
    pub commands: Vec<String>,
}

/// Mathematical model of a `LecsiconEntry`: strings become character
/// sequences, everything else is carried as is.
#[verifier::ext_equal]
pub ghost struct EntryView {
    pub id: i32,
    pub word: Seq<char>,
    pub lemma: Option<Seq<char>>,
    pub tag: Option<Tag>,
    pub adposition_type: Option<AdpositionType>,
    pub definite: Option<Definite>,
    pub degree: Option<Degree>,
    pub gender: Option<Gender>,
    pub mood: Option<Mood>,
    pub mutation: Option<Mutation>,
    pub name_type: Option<NameType>,
    pub number: Option<Number>,
    pub number_form: Option<NumberForm>,
    pub number_type: Option<NumberType>,
    pub person: Option<Person>,
    pub polarity: Option<Polarity>,
    pub polite: Option<Polite>,
    pub position: Option<Position>,
    pub possessive: Option<Possessive>,
    pub pronoun_type: Option<PronounType>,
    pub relative: Option<Relative>,
    pub style: Option<Style>,
    pub tense: Option<Tense>,
    pub verb_form: Option<VerbForm>,
}

/// Mathematical model of a `SqliteLecsiconEntry`.
#[verifier::ext_equal]
pub ghost struct StorageView {
    pub id: i32,
    pub word: Seq<char>,
    pub lemma: Option<Seq<char>>,
    pub tag: Option<i32>,
    pub adposition_type: Option<bool>,
    pub definite: Option<bool>,
    pub degree: Option<i32>,
    pub gender: Option<i32>,
    pub mood: Option<i32>,
    pub mutation: Option<i32>,
    pub name_type: Option<i32>,
    pub number: Option<i32>,
    pub number_form: Option<bool>,
    pub number_type: Option<i32>,
    pub person: Option<i32>,
    pub polarity: Option<bool>,
    pub polite: Option<i32>,
    pub position: Option<bool>,
    pub possessive: Option<bool>,
    pub pronoun_type: Option<i32>,
    pub relative: Option<bool>,
    pub style: Option<i32>,
    pub tense: Option<i32>,
    pub verb_form: Option<bool>,
}

impl View for LecsiconEntry {
    type V = EntryView;

    open spec fn view(&self) -> EntryView {
        EntryView {
            id: self.id,
            word: self.word@,
            lemma: match self.lemma {
                Some(l) => Some(l@),
                None => None,
            },
            tag: self.tag,
            adposition_type: self.adposition_type,
            definite: self.definite,
            degree: self.degree,
            gender: self.gender,
            mood: self.mood,
            mutation: self.mutation,
            name_type: self.name_type,
            number: self.number,
            number_form: self.number_form,
            number_type: self.number_type,
            person: self.person,
            polarity: self.polarity,
            polite: self.polite,
            position: self.position,
            possessive: self.possessive,
            pronoun_type: self.pronoun_type,
            relative: self.relative,
            style: self.style,
            tense: self.tense,
            verb_form: self.verb_form,
        }
    }
}

impl View for SqliteLecsiconEntry {
    type V = StorageView;

    open spec fn view(&self) -> StorageView {
        StorageView {
            id: self.id,
            word: self.word@,
            lemma: match self.lemma {
                Some(l) => Some(l@),
                None => None,
            },
            tag: self.tag,
            adposition_type: self.adposition_type,
            definite: self.definite,
            degree: self.degree,
            gender: self.gender,
            mood: self.mood,
            mutation: self.mutation,
            name_type: self.name_type,
            number: self.number,
            number_form: self.number_form,
            number_type: self.number_type,
            person: self.person,
            polarity: self.polarity,
            polite: self.polite,
            position: self.position,
            possessive: self.possessive,
            pronoun_type: self.pronoun_type,
            relative: self.relative,
            style: self.style,
            tense: self.tense,
            verb_form: self.verb_form,
        }
    }
}

/// The id carried by the canonical sentinel record.
pub const SENTINEL_ID: i32 = -99;

/// The view of the sentinel record that seeds ingestion before its fields
/// are filled in: every feature absent, a placeholder word, and a
/// deliberately out-of-range id.
pub open spec fn sentinel_view() -> EntryView {
    EntryView {
        id: SENTINEL_ID,
        word: "ERROR"@,
        lemma: None,
        tag: None,
        adposition_type: None,
        definite: None,
        degree: None,
        gender: None,
        mood: None,
        mutation: None,
        name_type: None,
        number: None,
        number_form: None,
        number_type: None,
        person: None,
        polarity: None,
        polite: None,
        position: None,
        possessive: None,
        pronoun_type: None,
        relative: None,
        style: None,
        tense: None,
        verb_form: None,
    }
}

impl Default for LecsiconEntry {
    /// The canonical "empty/error" sentinel value used to seed a record
    /// before ingestion fills it in field by field.
    fn default() -> (r: LecsiconEntry)
        ensures
            r@ == sentinel_view(),
    {
        let r = LecsiconEntry {
            id: SENTINEL_ID,
            word: String::from_str("ERROR"),
            lemma: None,
            tag: None,
            adposition_type: None,
            definite: None,
            degree: None,
            gender: None,
            mood: None,
            mutation: None,
            name_type: None,
            number: None,
            number_form: None,
            number_type: None,
            person: None,
            polarity: None,
            polite: None,
            position: None,
            possessive: None,
            pronoun_type: None,
            relative: None,
            style: None,
            tense: None,
            verb_form: None,
        };
        proof {
            assert(r@ =~= sentinel_view());
        }
        r
    }
}

// One equality helper per optional axis keeps the entry equality proof
// local to each field.

fn eq_opt_tag(a: Option<Tag>, b: Option<Tag>) -> (r: bool)
    ensures
        r == (a == b),
{
    match (a, b) {
        (Some(x), Some(y)) => x == y,
        (None, None) => true,
        _ => false,
    }
}

fn eq_opt_adposition_type(a: Option<AdpositionType>, b: Option<AdpositionType>) -> (r: bool)
    ensures
        r == (a == b),
{
    match (a, b) {
        (Some(x), Some(y)) => x == y,
        (None, None) => true,
        _ => false,
    }
}

fn eq_opt_definite(a: Option<Definite>, b: Option<Definite>) -> (r: bool)
    ensures
        r == (a == b),
{
    match (a, b) {
        (Some(x), Some(y)) => x == y,
        (None, None) => true,
        _ => false,
    }
}

fn eq_opt_degree(a: Option<Degree>, b: Option<Degree>) -> (r: bool)
    ensures
        r == (a == b),
{
    match (a, b) {
        (Some(x), Some(y)) => x == y,
        (None, None) => true,
        _ => false,
    }
}

fn eq_opt_gender(a: Option<Gender>, b: Option<Gender>) -> (r: bool)
    ensures
        r == (a == b),
{
    match (a, b) {
        (Some(x), Some(y)) => x == y,
        (None, None) => true,
        _ => false,
    }
}

fn eq_opt_mood(a: Option<Mood>, b: Option<Mood>) -> (r: bool)
    ensures
        r == (a == b),
{
    match (a, b) {
        (Some(x), Some(y)) => x == y,
        (None, None) => true,
        _ => false,
    }
}

fn eq_opt_mutation(a: Option<Mutation>, b: Option<Mutation>) -> (r: bool)
    ensures
        r == (a == b),
{
    match (a, b) {
        (Some(x), Some(y)) => x == y,
        (None, None) => true,
        _ => false,
    }
}

fn eq_opt_name_type(a: Option<NameType>, b: Option<NameType>) -> (r: bool)
    ensures
        r == (a == b),
{
    match (a, b) {
        (Some(x), Some(y)) => x == y,
        (None, None) => true,
        _ => false,
    }
}

fn eq_opt_number(a: Option<Number>, b: Option<Number>) -> (r: bool)
    ensures
        r == (a == b),
{
    match (a, b) {
        (Some(x), Some(y)) => x == y,
        (None, None) => true,
        _ => false,
    }
}

fn eq_opt_number_form(a: Option<NumberForm>, b: Option<NumberForm>) -> (r: bool)
    ensures
        r == (a == b),
{
    match (a, b) {
        (Some(x), Some(y)) => x == y,
        (None, None) => true,
        _ => false,
    }
}

fn eq_opt_number_type(a: Option<NumberType>, b: Option<NumberType>) -> (r: bool)
    ensures
        r == (a == b),
{
    match (a, b) {
        (Some(x), Some(y)) => x == y,
        (None, None) => true,
        _ => false,
    }
}

fn eq_opt_person(a: Option<Person>, b: Option<Person>) -> (r: bool)
    ensures
        r == (a == b),
{
    match (a, b) {
        (Some(x), Some(y)) => x == y,
        (None, None) => true,
        _ => false,
    }
}

fn eq_opt_polarity(a: Option<Polarity>, b: Option<Polarity>) -> (r: bool)
    ensures
        r == (a == b),
{
    match (a, b) {
        (Some(x), Some(y)) => x == y,
        (None, None) => true,
        _ => false,
    }
}

fn eq_opt_polite(a: Option<Polite>, b: Option<Polite>) -> (r: bool)
    ensures
        r == (a == b),
{
    match (a, b) {
        (Some(x), Some(y)) => x == y,
        (None, None) => true,
        _ => false,
    }
}

fn eq_opt_position(a: Option<Position>, b: Option<Position>) -> (r: bool)
    ensures
        r == (a == b),
{
    match (a, b) {
        (Some(x), Some(y)) => x == y,
        (None, None) => true,
        _ => false,
    }
}

fn eq_opt_possessive(a: Option<Possessive>, b: Option<Possessive>) -> (r: bool)
    ensures
        r == (a == b),
{
    match (a, b) {
        (Some(x), Some(y)) => x == y,
        (None, None) => true,
        _ => false,
    }
}

fn eq_opt_pronoun_type(a: Option<PronounType>, b: Option<PronounType>) -> (r: bool)
    ensures
        r == (a == b),
{
    match (a, b) {
        (Some(x), Some(y)) => x == y,
        (None, None) => true,
        _ => false,
    }
}

fn eq_opt_relative(a: Option<Relative>, b: Option<Relative>) -> (r: bool)
    ensures
        r == (a == b),
{
    match (a, b) {
        (Some(x), Some(y)) => x == y,
        (None, None) => true,
        _ => false,
    }
}

fn eq_opt_style(a: Option<Style>, b: Option<Style>) -> (r: bool)
    ensures
        r == (a == b),
{
    match (a, b) {
        (Some(x), Some(y)) => x == y,
        (None, None) => true,
        _ => false,
    }
}

fn eq_opt_tense(a: Option<Tense>, b: Option<Tense>) -> (r: bool)
    ensures
        r == (a == b),
{
    match (a, b) {
        (Some(x), Some(y)) => x == y,
        (None, None) => true,
        _ => false,
    }
}

fn eq_opt_verb_form(a: Option<VerbForm>, b: Option<VerbForm>) -> (r: bool)
    ensures
        r == (a == b),
{
    match (a, b) {
        (Some(x), Some(y)) => x == y,
        (None, None) => true,
        _ => false,
    }
}

/// Semantic equality of entries: every field agrees. This is the notion
/// used to drop the query entry itself from a relation lookup.
impl PartialEq for LecsiconEntry {
    #[verifier::rlimit(100)]
    fn eq(&self, other: &LecsiconEntry) -> (r: bool) {
        let word_eq = crate::text::str_eq(self.word.as_str(), other.word.as_str());
        let lemma_eq = match (&self.lemma, &other.lemma) {
            (Some(a), Some(b)) => crate::text::str_eq(a.as_str(), b.as_str()),
            (None, None) => true,
            _ => false,
        };
        let r = self.id == other.id && word_eq && lemma_eq && eq_opt_tag(self.tag, other.tag) && eq_opt_adposition_type(self.adposition_type, other.adposition_type) && eq_opt_definite(self.definite, other.definite) && eq_opt_degree(self.degree, other.degree) && eq_opt_gender(self.gender, other.gender) && eq_opt_mood(self.mood, other.mood) && eq_opt_mutation(self.mutation, other.mutation) && eq_opt_name_type(self.name_type, other.name_type) && eq_opt_number(self.number, other.number) && eq_opt_number_form(self.number_form, other.number_form) && eq_opt_number_type(self.number_type, other.number_type) && eq_opt_person(self.person, other.person) && eq_opt_polarity(self.polarity, other.polarity) && eq_opt_polite(self.polite, other.polite) && eq_opt_position(self.position, other.position) && eq_opt_possessive(self.possessive, other.possessive) && eq_opt_pronoun_type(self.pronoun_type, other.pronoun_type) && eq_opt_relative(self.relative, other.relative) && eq_opt_style(self.style, other.style) && eq_opt_tense(self.tense, other.tense) && eq_opt_verb_form(self.verb_form, other.verb_form);
        proof {
            if r {
                assert(self@ =~= other@);
            }
        }
        r
    }
}

impl vstd::std_specs::cmp::PartialEqSpecImpl for LecsiconEntry {
    open spec fn obeys_eq_spec() -> bool {
        true
    }

    open spec fn eq_spec(&self, other: &LecsiconEntry) -> bool {
        self@ == other@
    }
}

} // verus!
