//! The ingestion pipeline: the symbolic tag vocabulary, parsing of
//! tab-delimited tagged records into entries, and id assignment with a
//! bounded window of recently accepted (word, id) pairs.

use vstd::prelude::*;
use vstd::string::StrSliceExecFns;

use crate::definitions::AdpositionType;
use crate::definitions::Definite;
use crate::definitions::Degree;
use crate::definitions::EntryView;
use crate::definitions::Gender;
use crate::definitions::LecsiconEntry;
use crate::definitions::Mood;
use crate::definitions::Mutation;
use crate::definitions::NameType;
use crate::definitions::Number;
use crate::definitions::NumberForm;
use crate::definitions::NumberType;
use crate::definitions::Person;
use crate::definitions::Polarity;
use crate::definitions::Polite;
use crate::definitions::Position;
use crate::definitions::Possessive;
use crate::definitions::PronounType;
use crate::definitions::Relative;
use crate::definitions::Style;
use crate::definitions::Tag;
use crate::definitions::Tense;
use crate::definitions::VerbForm;
use crate::codec::UnrecognizedCode;
use crate::definitions::sentinel_view;
use crate::text::blank;
use crate::text::is_blank;
use crate::text::split_on;
use crate::text::split_str;
use crate::text::str_eq;
use crate::text::strip_cr;
use crate::text::strip_trailing_cr;

verus! {

/// The symbolic part-of-speech vocabulary of the third record column.
pub open spec fn tag_code_of(s: Seq<char>) -> Option<Tag> {
    if s == "ADJ"@ {
        Some(Tag::Adjective)
    } else if s == "ADP"@ {
        Some(Tag::Adposition)
    } else if s == "ADV"@ {
        Some(Tag::Adverb)
    } else if s == "CONJ"@ {
        Some(Tag::Conjugation)
    } else if s == "DET"@ {
        Some(Tag::Determiner)
    } else if s == "INTJ"@ {
        Some(Tag::Interjection)
    } else if s == "NOUN"@ {
        Some(Tag::Noun)
    } else if s == "NUM"@ {
        Some(Tag::Number)
    } else if s == "PART"@ {
        Some(Tag::Particle)
    } else if s == "PRON"@ {
        Some(Tag::Pronoun)
    } else if s == "PROPN"@ {
        Some(Tag::ProperNoun)
    } else if s == "VERB"@ {
        Some(Tag::Verb)
    } else {
        None
    }
}

pub fn decode_tag(s: &str) -> (r: Option<Tag>)
    ensures
        r == tag_code_of(s@),
{
    if str_eq(s, "ADJ") {
        Some(Tag::Adjective)
    } else if str_eq(s, "ADP") {
        Some(Tag::Adposition)
    } else if str_eq(s, "ADV") {
        Some(Tag::Adverb)
    } else if str_eq(s, "CONJ") {
        Some(Tag::Conjugation)
    } else if str_eq(s, "DET") {
        Some(Tag::Determiner)
    } else if str_eq(s, "INTJ") {
        Some(Tag::Interjection)
    } else if str_eq(s, "NOUN") {
        Some(Tag::Noun)
    } else if str_eq(s, "NUM") {
        Some(Tag::Number)
    } else if str_eq(s, "PART") {
        Some(Tag::Particle)
    } else if str_eq(s, "PRON") {
        Some(Tag::Pronoun)
    } else if str_eq(s, "PROPN") {
        Some(Tag::ProperNoun)
    } else if str_eq(s, "VERB") {
        Some(Tag::Verb)
    } else {
        None
    }
}

// The `Feature=Value` vocabulary of the fourth column, one decoder per
// axis; the literal tables are disjoint across axes.

pub open spec fn adposition_pair_of(s: Seq<char>) -> Option<AdpositionType> {
    if s == "AdpType=Prep"@ {
        Some(AdpositionType::Preposition)
    } else {
        None
    }
}

pub fn adposition_pair(s: &str) -> (r: Option<AdpositionType>)
    ensures
        r == adposition_pair_of(s@),
{
    if str_eq(s, "AdpType=Prep") {
        Some(AdpositionType::Preposition)
    } else {
        None
    }
}

pub open spec fn definite_pair_of(s: Seq<char>) -> Option<Definite> {
    if s == "Definite=Def"@ {
        Some(Definite::Definite)
    } else {
        None
    }
}

pub fn definite_pair(s: &str) -> (r: Option<Definite>)
    ensures
        r == definite_pair_of(s@),
{
    if str_eq(s, "Definite=Def") {
        Some(Definite::Definite)
    } else {
        None
    }
}

pub open spec fn degree_pair_of(s: Seq<char>) -> Option<Degree> {
    if s == "Degree=Cmp"@ {
        Some(Degree::Comparative)
    } else if s == "Degree=Equ"@ {
        Some(Degree::Equative)
    } else if s == "Degree=Pos"@ {
        Some(Degree::Positive)
    } else if s == "Degree=Sup"@ {
        Some(Degree::Superlative)
    } else {
        None
    }
}

pub fn degree_pair(s: &str) -> (r: Option<Degree>)
    ensures
        r == degree_pair_of(s@),
{
    if str_eq(s, "Degree=Cmp") {
        Some(Degree::Comparative)
    } else if str_eq(s, "Degree=Equ") {
        Some(Degree::Equative)
    } else if str_eq(s, "Degree=Pos") {
        Some(Degree::Positive)
    } else if str_eq(s, "Degree=Sup") {
        Some(Degree::Superlative)
    } else {
        None
    }
}

pub open spec fn gender_pair_of(s: Seq<char>) -> Option<Gender> {
    if s == "Gender=Fem"@ {
        Some(Gender::Feminine)
    } else if s == "Gender=Fem,Masc"@ {
        Some(Gender::FeminineMasculine)
    } else if s == "Gender=Masc"@ {
        Some(Gender::Masculine)
    } else {
        None
    }
}

pub fn gender_pair(s: &str) -> (r: Option<Gender>)
    ensures
        r == gender_pair_of(s@),
{
    if str_eq(s, "Gender=Fem") {
        Some(Gender::Feminine)
    } else if str_eq(s, "Gender=Fem,Masc") {
        Some(Gender::FeminineMasculine)
    } else if str_eq(s, "Gender=Masc") {
        Some(Gender::Masculine)
    } else {
        None
    }
}

pub open spec fn mood_pair_of(s: Seq<char>) -> Option<Mood> {
    if s == "Mood=Imp"@ {
        Some(Mood::Imperative)
    } else if s == "Mood=Ind"@ {
        Some(Mood::Indicative)
    } else if s == "Mood=Sub"@ {
        Some(Mood::Subjunctive)
    } else {
        None
    }
}

pub fn mood_pair(s: &str) -> (r: Option<Mood>)
    ensures
        r == mood_pair_of(s@),
{
    if str_eq(s, "Mood=Imp") {
        Some(Mood::Imperative)
    } else if str_eq(s, "Mood=Ind") {
        Some(Mood::Indicative)
    } else if str_eq(s, "Mood=Sub") {
        Some(Mood::Subjunctive)
    } else {
        None
    }
}

pub open spec fn mutation_pair_of(s: Seq<char>) -> Option<Mutation> {
    if s == "Mutation=AM"@ {
        Some(Mutation::Aspirate)
    } else if s == "Mutation=HM"@ {
        Some(Mutation::HProthesis)
    } else if s == "Mutation=NM"@ {
        Some(Mutation::Nasal)
    } else if s == "Mutation=SM"@ {
        Some(Mutation::Soft)
    } else {
        None
    }
}

pub fn mutation_pair(s: &str) -> (r: Option<Mutation>)
    ensures
        r == mutation_pair_of(s@),
{
    if str_eq(s, "Mutation=AM") {
        Some(Mutation::Aspirate)
    } else if str_eq(s, "Mutation=HM") {
        Some(Mutation::HProthesis)
    } else if str_eq(s, "Mutation=NM") {
        Some(Mutation::Nasal)
    } else if str_eq(s, "Mutation=SM") {
        Some(Mutation::Soft)
    } else {
        None
    }
}

pub open spec fn name_type_pair_of(s: Seq<char>) -> Option<NameType> {
    if s == "NameType=Geo"@ {
        Some(NameType::Geographical)
    } else if s == "NameType=Prs"@ {
        Some(NameType::Person)
    } else {
        None
    }
}

pub fn name_type_pair(s: &str) -> (r: Option<NameType>)
    ensures
        r == name_type_pair_of(s@),
{
    if str_eq(s, "NameType=Geo") {
        Some(NameType::Geographical)
    } else if str_eq(s, "NameType=Prs") {
        Some(NameType::Person)
    } else {
        None
    }
}

pub open spec fn number_pair_of(s: Seq<char>) -> Option<Number> {
    if s == "Number=Coll"@ {
        Some(Number::Collective)
    } else if s == "Number=Plur"@ {
        Some(Number::Plural)
    } else if s == "Number=Sing"@ {
        Some(Number::Singular)
    } else {
        None
    }
}

pub fn number_pair(s: &str) -> (r: Option<Number>)
    ensures
        r == number_pair_of(s@),
{
    if str_eq(s, "Number=Coll") {
        Some(Number::Collective)
    } else if str_eq(s, "Number=Plur") {
        Some(Number::Plural)
    } else if str_eq(s, "Number=Sing") {
        Some(Number::Singular)
    } else {
        None
    }
}

pub open spec fn number_form_pair_of(s: Seq<char>) -> Option<NumberForm> {
    if s == "Numform=Word"@ {
        Some(NumberForm::Word)
    } else {
        None
    }
}

pub fn number_form_pair(s: &str) -> (r: Option<NumberForm>)
    ensures
        r == number_form_pair_of(s@),
{
    if str_eq(s, "Numform=Word") {
        Some(NumberForm::Word)
    } else {
        None
    }
}

pub open spec fn number_type_pair_of(s: Seq<char>) -> Option<NumberType> {
    if s == "Numtype=Card"@ {
        Some(NumberType::Cardinal)
    } else if s == "Numtype=Ord"@ {
        Some(NumberType::Ordinal)
    } else {
        None
    }
}

pub fn number_type_pair(s: &str) -> (r: Option<NumberType>)
    ensures
        r == number_type_pair_of(s@),
{
    if str_eq(s, "Numtype=Card") {
        Some(NumberType::Cardinal)
    } else if str_eq(s, "Numtype=Ord") {
        Some(NumberType::Ordinal)
    } else {
        None
    }
}

pub open spec fn person_pair_of(s: Seq<char>) -> Option<Person> {
    if s == "Person=0"@ {
        Some(Person::Zero)
    } else if s == "Person=1"@ {
        Some(Person::One)
    } else if s == "Person=2"@ {
        Some(Person::Two)
    } else if s == "Person=3"@ {
        Some(Person::Three)
    } else {
        None
    }
}

pub fn person_pair(s: &str) -> (r: Option<Person>)
    ensures
        r == person_pair_of(s@),
{
    if str_eq(s, "Person=0") {
        Some(Person::Zero)
    } else if str_eq(s, "Person=1") {
        Some(Person::One)
    } else if str_eq(s, "Person=2") {
        Some(Person::Two)
    } else if str_eq(s, "Person=3") {
        Some(Person::Three)
    } else {
        None
    }
}

pub open spec fn polarity_pair_of(s: Seq<char>) -> Option<Polarity> {
    if s == "Polarity=Neg"@ {
        Some(Polarity::Negative)
    } else {
        None
    }
}

pub fn polarity_pair(s: &str) -> (r: Option<Polarity>)
    ensures
        r == polarity_pair_of(s@),
{
    if str_eq(s, "Polarity=Neg") {
        Some(Polarity::Negative)
    } else {
        None
    }
}

pub open spec fn polite_pair_of(s: Seq<char>) -> Option<Polite> {
    if s == "Polite=Form"@ {
        Some(Polite::Formal)
    } else if s == "Polite=Inf"@ {
        Some(Polite::Informal)
    } else {
        None
    }
}

pub fn polite_pair(s: &str) -> (r: Option<Polite>)
    ensures
        r == polite_pair_of(s@),
{
    if str_eq(s, "Polite=Form") {
        Some(Polite::Formal)
    } else if str_eq(s, "Polite=Inf") {
        Some(Polite::Informal)
    } else {
        None
    }
}

pub open spec fn position_pair_of(s: Seq<char>) -> Option<Position> {
    if s == "Position=Prenom"@ {
        Some(Position::Prenom)
    } else {
        None
    }
}

pub fn position_pair(s: &str) -> (r: Option<Position>)
    ensures
        r == position_pair_of(s@),
{
    if str_eq(s, "Position=Prenom") {
        Some(Position::Prenom)
    } else {
        None
    }
}

pub open spec fn possessive_pair_of(s: Seq<char>) -> Option<Possessive> {
    if s == "Poss=Yes"@ {
        Some(Possessive::Yes)
    } else {
        None
    }
}

pub fn possessive_pair(s: &str) -> (r: Option<Possessive>)
    ensures
        r == possessive_pair_of(s@),
{
    if str_eq(s, "Poss=Yes") {
        Some(Possessive::Yes)
    } else {
        None
    }
}

pub open spec fn pronoun_type_pair_of(s: Seq<char>) -> Option<PronounType> {
    if s == "PronType=Art"@ {
        Some(PronounType::Article)
    } else if s == "PronType=Dem"@ {
        Some(PronounType::Demonstrative)
    } else if s == "PronType=Int"@ {
        Some(PronounType::Interrogative)
    } else if s == "PronType=Neg"@ {
        Some(PronounType::Negative)
    } else if s == "PronType=Prs"@ {
        Some(PronounType::Personal)
    } else if s == "PronType=Rel"@ {
        Some(PronounType::Relative)
    } else if s == "PronType=Tot"@ {
        Some(PronounType::Reflexive)
    } else {
        None
    }
}

pub fn pronoun_type_pair(s: &str) -> (r: Option<PronounType>)
    ensures
        r == pronoun_type_pair_of(s@),
{
    if str_eq(s, "PronType=Art") {
        Some(PronounType::Article)
    } else if str_eq(s, "PronType=Dem") {
        Some(PronounType::Demonstrative)
    } else if str_eq(s, "PronType=Int") {
        Some(PronounType::Interrogative)
    } else if str_eq(s, "PronType=Neg") {
        Some(PronounType::Negative)
    } else if str_eq(s, "PronType=Prs") {
        Some(PronounType::Personal)
    } else if str_eq(s, "PronType=Rel") {
        Some(PronounType::Relative)
    } else if str_eq(s, "PronType=Tot") {
        Some(PronounType::Reflexive)
    } else {
        None
    }
}

pub open spec fn relative_pair_of(s: Seq<char>) -> Option<Relative> {
    if s == "Relative=Rel"@ {
        Some(Relative::Rel)
    } else {
        None
    }
}

pub fn relative_pair(s: &str) -> (r: Option<Relative>)
    ensures
        r == relative_pair_of(s@),
{
    if str_eq(s, "Relative=Rel") {
        Some(Relative::Rel)
    } else {
        None
    }
}

pub open spec fn style_pair_of(s: Seq<char>) -> Option<Style> {
    if s == "Style=Arch"@ {
        Some(Style::Archaic)
    } else if s == "Style=Coll"@ {
        Some(Style::Colloquial)
    } else if s == "Style=Form"@ {
        Some(Style::Formal)
    } else {
        None
    }
}

pub fn style_pair(s: &str) -> (r: Option<Style>)
    ensures
        r == style_pair_of(s@),
{
    if str_eq(s, "Style=Arch") {
        Some(Style::Archaic)
    } else if str_eq(s, "Style=Coll") {
        Some(Style::Colloquial)
    } else if str_eq(s, "Style=Form") {
        Some(Style::Formal)
    } else {
        None
    }
}

pub open spec fn tense_pair_of(s: Seq<char>) -> Option<Tense> {
    if s == "Tense=Fut"@ {
        Some(Tense::Future)
    } else if s == "Tense=Imp"@ {
        Some(Tense::Imperfect)
    } else if s == "Tense=Past"@ {
        Some(Tense::Past)
    } else if s == "Tense=Pqp"@ {
        Some(Tense::Plusquamperfekt)
    } else if s == "Tense=Pres"@ {
        Some(Tense::Present)
    } else {
        None
    }
}

pub fn tense_pair(s: &str) -> (r: Option<Tense>)
    ensures
        r == tense_pair_of(s@),
{
    if str_eq(s, "Tense=Fut") {
        Some(Tense::Future)
    } else if str_eq(s, "Tense=Imp") {
        Some(Tense::Imperfect)
    } else if str_eq(s, "Tense=Past") {
        Some(Tense::Past)
    } else if str_eq(s, "Tense=Pqp") {
        Some(Tense::Plusquamperfekt)
    } else if str_eq(s, "Tense=Pres") {
        Some(Tense::Present)
    } else {
        None
    }
}

pub open spec fn verb_form_pair_of(s: Seq<char>) -> Option<VerbForm> {
    if s == "VerbForm=Vnoun"@ {
        Some(VerbForm::Verbnoun)
    } else {
        None
    }
}

pub fn verb_form_pair(s: &str) -> (r: Option<VerbForm>)
    ensures
        r == verb_form_pair_of(s@),
{
    if str_eq(s, "VerbForm=Vnoun") {
        Some(VerbForm::Verbnoun)
    } else {
        None
    }
}

/// The effect of one `Feature=Value` token on an entry: a blank token is
/// ignored, a recognized token sets its axis, anything else is
/// unrecognized and fatal.
pub open spec fn pair_effect(e: EntryView, p: Seq<char>) -> Option<EntryView> {
    if is_blank(p) {
        Some(e)
    } else if adposition_pair_of(p) is Some {
        Some(EntryView { adposition_type: adposition_pair_of(p), ..e })
    } else if definite_pair_of(p) is Some {
        Some(EntryView { definite: definite_pair_of(p), ..e })
    } else if degree_pair_of(p) is Some {
        Some(EntryView { degree: degree_pair_of(p), ..e })
    } else if gender_pair_of(p) is Some {
        Some(EntryView { gender: gender_pair_of(p), ..e })
    } else if mood_pair_of(p) is Some {
        Some(EntryView { mood: mood_pair_of(p), ..e })
    } else if mutation_pair_of(p) is Some {
        Some(EntryView { mutation: mutation_pair_of(p), ..e })
    } else if name_type_pair_of(p) is Some {
        Some(EntryView { name_type: name_type_pair_of(p), ..e })
    } else if number_pair_of(p) is Some {
        Some(EntryView { number: number_pair_of(p), ..e })
    } else if number_form_pair_of(p) is Some {
        Some(EntryView { number_form: number_form_pair_of(p), ..e })
    } else if number_type_pair_of(p) is Some {
        Some(EntryView { number_type: number_type_pair_of(p), ..e })
    } else if person_pair_of(p) is Some {
        Some(EntryView { person: person_pair_of(p), ..e })
    } else if polarity_pair_of(p) is Some {
        Some(EntryView { polarity: polarity_pair_of(p), ..e })
    } else if polite_pair_of(p) is Some {
        Some(EntryView { polite: polite_pair_of(p), ..e })
    } else if position_pair_of(p) is Some {
        Some(EntryView { position: position_pair_of(p), ..e })
    } else if possessive_pair_of(p) is Some {
        Some(EntryView { possessive: possessive_pair_of(p), ..e })
    } else if pronoun_type_pair_of(p) is Some {
        Some(EntryView { pronoun_type: pronoun_type_pair_of(p), ..e })
    } else if relative_pair_of(p) is Some {
        Some(EntryView { relative: relative_pair_of(p), ..e })
    } else if style_pair_of(p) is Some {
        Some(EntryView { style: style_pair_of(p), ..e })
    } else if tense_pair_of(p) is Some {
        Some(EntryView { tense: tense_pair_of(p), ..e })
    } else if verb_form_pair_of(p) is Some {
        Some(EntryView { verb_form: verb_form_pair_of(p), ..e })
    } else {
        None
    }
}

/// Apply one tag pair to an entry in place; the result says whether the
/// token was recognized (a blank token counts as recognized and is a
/// no-op). An unrecognized token leaves the entry unchanged.
#[verifier::rlimit(100)]
pub fn apply_tag_pair(entry: &mut LecsiconEntry, pair: &str) -> (r: bool)
    ensures
        match pair_effect(old(entry)@, pair@) {
            Some(v) => r && final(entry)@ == v,
            None => !r && final(entry)@ == old(entry)@,
        },
{
    if blank(pair) {
        return true;
    }
    if let Some(v) = adposition_pair(pair) {
        entry.adposition_type = Some(v);
        proof {
            assert(entry@ =~= EntryView { adposition_type: adposition_pair_of(pair@), ..old(entry)@ });
        }
        return true;
    }
    if let Some(v) = definite_pair(pair) {
        entry.definite = Some(v);
        proof {
            assert(entry@ =~= EntryView { definite: definite_pair_of(pair@), ..old(entry)@ });
        }
        return true;
    }
    if let Some(v) = degree_pair(pair) {
        entry.degree = Some(v);
        proof {
            assert(entry@ =~= EntryView { degree: degree_pair_of(pair@), ..old(entry)@ });
        }
        return true;
    }
    if let Some(v) = gender_pair(pair) {
        entry.gender = Some(v);
        proof {
            assert(entry@ =~= EntryView { gender: gender_pair_of(pair@), ..old(entry)@ });
        }
        return true;
    }
    if let Some(v) = mood_pair(pair) {
        entry.mood = Some(v);
        proof {
            assert(entry@ =~= EntryView { mood: mood_pair_of(pair@), ..old(entry)@ });
        }
        return true;
    }
    if let Some(v) = mutation_pair(pair) {
        entry.mutation = Some(v);
        proof {
            assert(entry@ =~= EntryView { mutation: mutation_pair_of(pair@), ..old(entry)@ });
        }
        return true;
    }
    if let Some(v) = name_type_pair(pair) {
        entry.name_type = Some(v);
        proof {
            assert(entry@ =~= EntryView { name_type: name_type_pair_of(pair@), ..old(entry)@ });
        }
        return true;
    }
    if let Some(v) = number_pair(pair) {
        entry.number = Some(v);
        proof {
            assert(entry@ =~= EntryView { number: number_pair_of(pair@), ..old(entry)@ });
        }
        return true;
    }
    if let Some(v) = number_form_pair(pair) {
        entry.number_form = Some(v);
        proof {
            assert(entry@ =~= EntryView { number_form: number_form_pair_of(pair@), ..old(entry)@ });
        }
        return true;
    }
    if let Some(v) = number_type_pair(pair) {
        entry.number_type = Some(v);
        proof {
            assert(entry@ =~= EntryView { number_type: number_type_pair_of(pair@), ..old(entry)@ });
        }
        return true;
    }
    if let Some(v) = person_pair(pair) {
        entry.person = Some(v);
        proof {
            assert(entry@ =~= EntryView { person: person_pair_of(pair@), ..old(entry)@ });
        }
        return true;
    }
    if let Some(v) = polarity_pair(pair) {
        entry.polarity = Some(v);
        proof {
            assert(entry@ =~= EntryView { polarity: polarity_pair_of(pair@), ..old(entry)@ });
        }
        return true;
    }
    if let Some(v) = polite_pair(pair) {
        entry.polite = Some(v);
        proof {
            assert(entry@ =~= EntryView { polite: polite_pair_of(pair@), ..old(entry)@ });
        }
        return true;
    }
    if let Some(v) = position_pair(pair) {
        entry.position = Some(v);
        proof {
            assert(entry@ =~= EntryView { position: position_pair_of(pair@), ..old(entry)@ });
        }
        return true;
    }
    if let Some(v) = possessive_pair(pair) {
        entry.possessive = Some(v);
        proof {
            assert(entry@ =~= EntryView { possessive: possessive_pair_of(pair@), ..old(entry)@ });
        }
        return true;
    }
    if let Some(v) = pronoun_type_pair(pair) {
        entry.pronoun_type = Some(v);
        proof {
            assert(entry@ =~= EntryView { pronoun_type: pronoun_type_pair_of(pair@), ..old(entry)@ });
        }
        return true;
    }
    if let Some(v) = relative_pair(pair) {
        entry.relative = Some(v);
        proof {
            assert(entry@ =~= EntryView { relative: relative_pair_of(pair@), ..old(entry)@ });
        }
        return true;
    }
    if let Some(v) = style_pair(pair) {
        entry.style = Some(v);
        proof {
            assert(entry@ =~= EntryView { style: style_pair_of(pair@), ..old(entry)@ });
        }
        return true;
    }
    if let Some(v) = tense_pair(pair) {
        entry.tense = Some(v);
        proof {
            assert(entry@ =~= EntryView { tense: tense_pair_of(pair@), ..old(entry)@ });
        }
        return true;
    }
    if let Some(v) = verb_form_pair(pair) {
        entry.verb_form = Some(v);
        proof {
            assert(entry@ =~= EntryView { verb_form: verb_form_pair_of(pair@), ..old(entry)@ });
        }
        return true;
    }
    false
}


/// Model form of a fatal ingestion failure.
pub ghost enum IngestFailure {
    MissingColumn,
    UnrecognizedTag(Seq<char>),
    UnrecognizedTagPair(Seq<char>),
}

/// A fatal ingestion failure: a record without its three mandatory
/// columns, or a present but unrecognized code, which indicates a corrupt
/// source file.
#[derive(Clone, Debug)]
pub enum IngestError {
    MissingColumn,
    UnrecognizedTag(String),
    UnrecognizedTagPair(String),
}

impl View for IngestError {
    type V = IngestFailure;

    open spec fn view(&self) -> IngestFailure {
        match self {
            IngestError::MissingColumn => IngestFailure::MissingColumn,
            IngestError::UnrecognizedTag(t) => IngestFailure::UnrecognizedTag(t@),
            IngestError::UnrecognizedTagPair(t) => IngestFailure::UnrecognizedTagPair(t@),
        }
    }
}

/// The effect of a whole `|`-separated feature column, token by token.
pub open spec fn pairs_effect(e: EntryView, ps: Seq<Seq<char>>) -> Result<
    EntryView,
    IngestFailure,
>
    decreases ps.len(),
{
    if ps.len() == 0 {
        Ok(e)
    } else {
        match pair_effect(e, ps[0]) {
            None => Err(IngestFailure::UnrecognizedTagPair(ps[0])),
            Some(e2) => pairs_effect(e2, ps.skip(1)),
        }
    }
}

/// The entry denoted by one record: three mandatory columns (wordform,
/// lemma, part-of-speech) and an optional fourth column of feature
/// tokens. The id is a placeholder until the window assigns it.
pub open spec fn record_spec(fields: Seq<Seq<char>>) -> Result<EntryView, IngestFailure> {
    if fields.len() < 3 {
        Err(IngestFailure::MissingColumn)
    } else {
        match tag_code_of(fields[2]) {
            None => Err(IngestFailure::UnrecognizedTag(fields[2])),
            Some(t) => {
                let base = EntryView {
                    id: 101,
                    word: fields[0],
                    lemma: Some(fields[1]),
                    tag: Some(t),
                    ..sentinel_view()
                };
                if fields.len() > 3 {
                    pairs_effect(base, split_on(fields[3], '|'))
                } else {
                    Ok(base)
                }
            },
        }
    }
}

/// Parse one record into an entry, with the placeholder id.
pub fn record_to_entry(fields: &Vec<String>) -> (r: Result<LecsiconEntry, IngestError>)
    ensures
        match record_spec(fields.deep_view()) {
            Ok(v) => r matches Ok(e) && e@ == v,
            Err(f) => r matches Err(er) && er@ == f,
        },
{
    if fields.len() < 3 {
        return Err(IngestError::MissingColumn);
    }
    let tag = match decode_tag(fields[2].as_str()) {
        Some(t) => t,
        None => {
            return Err(IngestError::UnrecognizedTag(fields[2].clone()));
        },
    };
    let mut entry = LecsiconEntry::default();
    entry.id = 101;
    entry.word = fields[0].clone();
    entry.lemma = Some(fields[1].clone());
    entry.tag = Some(tag);
    proof {
        assert(entry@ =~= EntryView {
            id: 101,
            word: fields.deep_view()[0],
            lemma: Some(fields.deep_view()[1]),
            tag: Some(tag),
            ..sentinel_view()
        });
    }
    if fields.len() > 3 {
        let pairs = split_str(fields[3].as_str(), '|');
        let ghost all = split_on(fields.deep_view()[3], '|');
        proof {
            assert(all.skip(0) =~= all);
        }
        let mut i: usize = 0;
        while i < pairs.len()
            invariant
                i <= pairs@.len(),
                pairs.deep_view() == all,
                fields@.len() > 3,
                record_spec(fields.deep_view()) == pairs_effect(entry@, all.skip(i as int)),
            decreases pairs@.len() - i,
        {
            proof {
                assert(all.skip(i as int)[0] == all[i as int]);
            }
            let ok = apply_tag_pair(&mut entry, pairs[i].as_str());
            if !ok {
                return Err(IngestError::UnrecognizedTagPair(pairs[i].clone()));
            }
            proof {
                assert(all.skip(i as int).skip(1) =~= all.skip(i + 1));
            }
            i += 1;
        }
        proof {
            assert(all.skip(pairs@.len() as int) =~= Seq::<Seq<char>>::empty());
        }
        Ok(entry)
    } else {
        Ok(entry)
    }
}

/// The id that the window rule assigns: the base id, raised past every id
/// already remembered for the same wordform.
pub open spec fn assigned_id(word: Seq<char>, base: int, window: Seq<(Seq<char>, int)>) -> int
    decreases window.len(),
{
    if window.len() == 0 {
        base
    } else {
        let rest = assigned_id(word, base, window.drop_last());
        let last = window.last();
        if last.0 == word && last.1 + 1 > rest {
            last.1 + 1
        } else {
            rest
        }
    }
}

/// The assigned id exceeds every remembered id of the same wordform.
pub proof fn lemma_assigned_id_exceeds(word: Seq<char>, base: int, window: Seq<(Seq<char>, int)>)
    ensures
        assigned_id(word, base, window) >= base,
        forall|k: int|
            0 <= k < window.len() && window[k].0 == word ==> assigned_id(word, base, window)
                > window[k].1,
    decreases window.len(),
{
    if window.len() > 0 {
        lemma_assigned_id_exceeds(word, base, window.drop_last());
        assert forall|k: int|
            0 <= k < window.len() && window[k].0 == word implies assigned_id(word, base, window)
            > window[k].1 by {
            if k < window.len() - 1 {
                assert(window.drop_last()[k] == window[k]);
            }
        }
    }
}

/// The assigned id never exceeds one past the largest remembered id.
pub proof fn lemma_assigned_id_bound(
    word: Seq<char>,
    base: int,
    bound: int,
    window: Seq<(Seq<char>, int)>,
)
    requires
        forall|k: int| 0 <= k < window.len() ==> window[k].1 <= bound,
        base <= bound + 1,
    ensures
        assigned_id(word, base, window) <= bound + 1,
    decreases window.len(),
{
    if window.len() > 0 {
        assert forall|k: int| 0 <= k < window.drop_last().len() implies window.drop_last()[k].1
            <= bound by {
            assert(window.drop_last()[k] == window[k]);
        }
        lemma_assigned_id_bound(word, base, bound, window.drop_last());
        assert(window.last().1 <= bound);
    }
}

/// The model of the exec window: strings as character sequences, ids as
/// unbounded integers.
pub open spec fn win_view(w: Seq<(String, i32)>) -> Seq<(Seq<char>, int)> {
    w.map_values(|p: (String, i32)| (p.0@, p.1 as int))
}

/// Compute the window-assigned id for a wordform.
pub fn assign_id(word: &str, base: i32, window: &Vec<(String, i32)>) -> (r: i32)
    requires
        base >= 0,
        forall|k: int| 0 <= k < window@.len() ==> window@[k].1 < i32::MAX,
    ensures
        r == assigned_id(word@, base as int, win_view(window@)),
{
    let mut cur: i32 = base;
    let mut i: usize = 0;
    proof {
        assert(win_view(window@).take(0) =~= Seq::<(Seq<char>, int)>::empty());
    }
    while i < window.len()
        invariant
            i <= window@.len(),
            base <= cur,
            cur as int == assigned_id(word@, base as int, win_view(window@).take(i as int)),
            forall|k: int| 0 <= k < window@.len() ==> window@[k].1 < i32::MAX,
        decreases window@.len() - i,
    {
        let matches_word = str_eq(window[i].0.as_str(), word);
        if matches_word && window[i].1 >= cur {
            cur = window[i].1 + 1;
        }
        proof {
            let gw = win_view(window@);
            assert(gw.take(i + 1).drop_last() =~= gw.take(i as int));
            assert(gw.take(i + 1).last() == gw[i as int]);
        }
        i += 1;
    }
    proof {
        assert(win_view(window@).take(window@.len() as int) =~= win_view(window@));
    }
    cur
}

/// The window after accepting a record: the new pair in front, at most 20
/// pairs kept.
pub open spec fn push_window(window: Seq<(Seq<char>, int)>, word: Seq<char>, id: int) -> Seq<
    (Seq<char>, int),
> {
    let w2 = seq![(word, id)] + window;
    if w2.len() > 20 {
        w2.take(20)
    } else {
        w2
    }
}

/// The whole pipeline over the input's lines: blank lines are skipped, a
/// bad record aborts, an accepted record gets its window-assigned id and
/// joins the window.
pub open spec fn ingest_lines(
    lines: Seq<Seq<char>>,
    entries: Seq<EntryView>,
    window: Seq<(Seq<char>, int)>,
) -> Result<Seq<EntryView>, IngestFailure>
    decreases lines.len(),
{
    if lines.len() == 0 {
        Ok(entries)
    } else {
        let l = strip_cr(lines[0]);
        if l.len() == 0 {
            ingest_lines(lines.skip(1), entries, window)
        } else {
            match record_spec(split_on(l, '\t')) {
                Err(f) => Err(f),
                Ok(e) => {
                    let id = assigned_id(e.word, 101, window);
                    ingest_lines(
                        lines.skip(1),
                        entries.push(EntryView { id: id as i32, ..e }),
                        push_window(window, e.word, id),
                    )
                },
            }
        }
    }
}

/// What ingesting a whole text yields.
pub open spec fn ingest_spec(text: Seq<char>) -> Result<Seq<EntryView>, IngestFailure> {
    ingest_lines(split_on(text, '\n'), Seq::empty(), Seq::empty())
}

pub open spec fn entry_views(s: Seq<LecsiconEntry>) -> Seq<EntryView> {
    s.map_values(|e: LecsiconEntry| e@)
}

/// The window mirrors the most recently accepted entries, newest first.
pub open spec fn window_matches(window: Seq<(String, i32)>, entries: Seq<LecsiconEntry>) -> bool {
    forall|m: int|
        0 <= m < window.len() ==> #[trigger] window[m].0@ == entries[entries.len() - 1 - m]@.word
            && window[m].1 == entries[entries.len() - 1 - m]@.id
}

/// Same-wordform rows at most 20 records apart carry strictly increasing
/// ids: the window rule's uniqueness guarantee, and its exact envelope.
pub open spec fn nearby_same_word_ids_increase(entries: Seq<LecsiconEntry>) -> bool {
    forall|j: int, k: int|
        0 <= j < k < entries.len() && k - j <= 20 && #[trigger] entries[j]@.word
            == #[trigger] entries[k]@.word ==> entries[k]@.id > entries[j]@.id
}

/// Ingest a whole tab-delimited text: parse every non-blank line, assign
/// window-bounded ids, and return the entries in input order. Besides
/// matching the pipeline model exactly, the result keeps same-wordform
/// rows that lie at most 20 records apart on strictly increasing ids.
#[verifier::rlimit(100)]
pub fn load_text_lecsicon(text: &str) -> (r: Result<Vec<LecsiconEntry>, IngestError>)
    requires
        text@.len() < 0x7fff_0000,
    ensures
        match ingest_spec(text@) {
            Ok(vs) => r matches Ok(v) && entry_views(v@) == vs,
            Err(f) => r matches Err(e) && e@ == f,
        },
        r matches Ok(v) ==> nearby_same_word_ids_increase(v@),
{
    let lines = split_str(text, '\n');
    proof {
        crate::text::lemma_split_on_count(text@, '\n');
    }
    let mut entries: Vec<LecsiconEntry> = Vec::new();
    let mut window: Vec<(String, i32)> = Vec::new();
    let ghost ls = lines.deep_view();
    let mut i: usize = 0;
    proof {
        assert(ls.skip(0) =~= ls);
        assert(entry_views(entries@) =~= Seq::<EntryView>::empty());
        assert(win_view(window@) =~= Seq::<(Seq<char>, int)>::empty());
    }
    while i < lines.len()
        invariant
            i <= ls.len(),
            lines.deep_view() == ls,
            lines@.len() == ls.len(),
            ls == split_on(text@, '\n'),
            ls.len() <= text@.len() + 1,
            text@.len() < 0x7fff_0000,
            ingest_spec(text@) == ingest_lines(
                ls.skip(i as int),
                entry_views(entries@),
                win_view(window@),
            ),
            entries@.len() <= i,
            forall|k: int|
                0 <= k < window@.len() ==> 0 <= #[trigger] window@[k].1 <= 101 + entries@.len(),
            entries@.len() < 20 ==> window@.len() == entries@.len(),
            entries@.len() >= 20 ==> window@.len() == 20,
            window_matches(window@, entries@),
            nearby_same_word_ids_increase(entries@),
        decreases ls.len() - i,
    {
        let line = strip_trailing_cr(lines[i].as_str());
        proof {
            assert(line@ == strip_cr(ls[i as int]));
            assert(ls.skip(i as int)[0] == ls[i as int]);
        }
        if !line.as_str().is_empty() {
            let fields = split_str(line.as_str(), '\t');
            match record_to_entry(&fields) {
                Err(e) => {
                    return Err(e);
                },
                Ok(entry) => {
                    let mut entry = entry;
                    let ghost base_view = entry@;
                    let ghost pre_entries = entries@;
                    let ghost pre_window = window@;
                    let ghost n0 = entries@.len() as int;
                    proof {
                        assert forall|k: int| 0 <= k < window@.len() implies window@[k].1
                            < i32::MAX by {
                            assert(window@[k].1 <= 101 + entries@.len());
                        }
                    }
                    let id = assign_id(entry.word.as_str(), 101, &window);
                    proof {
                        lemma_assigned_id_exceeds(entry.word@, 101, win_view(window@));
                        lemma_assigned_id_bound(
                            entry.word@,
                            101,
                            101 + entries@.len() as int,
                            win_view(window@),
                        );
                        assert forall|k: int| 0 <= k < pre_window.len() implies win_view(
                            pre_window,
                        )[k].1 <= 101 + n0 by {}
                    }
                    entry.id = id;
                    let word_copy = entry.word.clone();
                    let ghost eview = entry@;
                    let ghost pair_snap = (word_copy, id);
                    proof {
                        assert(pair_snap.0@ == eview.word);
                        assert(pair_snap.1 as int == eview.id as int);
                    }
                    entries.push(entry);
                    window.insert(0, (word_copy, id));
                    if window.len() > 20 {
                        window.truncate(20);
                    }
                    proof {
                        let gid = assigned_id(base_view.word, 101, win_view(pre_window));
                        assert(eview =~= EntryView { id: gid as i32, ..base_view });
                        assert(entries@ == pre_entries.push(entries@.last()));
                        assert(entries@.last()@ == eview);
                        assert(entry_views(entries@) =~= entry_views(pre_entries).push(eview));
                        let mid = pre_window.insert(0, pair_snap);
                        assert(window@ == (if mid.len() > 20 {
                            mid.take(20)
                        } else {
                            mid
                        }));
                        assert(mid =~= seq![pair_snap] + pre_window);
                        assert(win_view(mid) =~= seq![(base_view.word, gid)] + win_view(
                            pre_window,
                        ));
                        assert(win_view(window@) =~= push_window(
                            win_view(pre_window),
                            base_view.word,
                            gid,
                        ));
                        assert(ls.skip(i as int).skip(1) =~= ls.skip(i + 1));
                        assert(window_matches(window@, entries@)) by {
                            assert forall|m: int| 0 <= m < window@.len() implies #[trigger] window@[m].0@
                                == entries@[entries@.len() - 1 - m]@.word && window@[m].1
                                == entries@[entries@.len() - 1 - m]@.id by {
                                assert(window@[m] == mid[m]);
                                if m == 0 {
                                    assert(mid[0] == pair_snap);
                                    assert(entries@[entries@.len() - 1]@ == eview);
                                } else {
                                    assert(mid[m] == pre_window[m - 1]);
                                    assert(pre_window[m - 1].0@ == pre_entries[n0 - m]@.word);
                                    assert(pre_window[m - 1].1 == pre_entries[n0 - m]@.id);
                                    assert(entries@[entries@.len() - 1 - m] == pre_entries[n0 - m]);
                                }
                            }
                        }
                        // the new entry's id exceeds every remembered id of
                        // the same wordform, which covers every prior entry
                        // at distance at most 20
                        assert forall|j: int|
                            0 <= j < n0 && n0 - j <= 20 && pre_entries[j]@.word
                                == eview.word implies eview.id > pre_entries[j]@.id by {
                            let m = n0 - 1 - j;
                            assert(pre_window[m].0@ == pre_entries[j]@.word);
                            assert(pre_window[m].1 == pre_entries[j]@.id);
                            assert(win_view(pre_window)[m].0 == pre_window[m].0@);
                            assert(gid > win_view(pre_window)[m].1);
                        }
                        assert(nearby_same_word_ids_increase(entries@)) by {
                            assert forall|j: int, k: int|
                                0 <= j < k < entries@.len() && k - j <= 20
                                    && #[trigger] entries@[j]@.word
                                    == #[trigger] entries@[k]@.word implies entries@[k]@.id
                                > entries@[j]@.id by {
                                if k == entries@.len() - 1 {
                                    assert(entries@[k]@ == eview);
                                    assert(entries@[j] == pre_entries[j]);
                                    assert(eview.id > pre_entries[j]@.id);
                                } else {
                                    assert(entries@[j] == pre_entries[j]);
                                    assert(entries@[k] == pre_entries[k]);
                                }
                            }
                        }
                    }
                },
            }
        } else {
            proof {
                assert(ls.skip(i as int).skip(1) =~= ls.skip(i + 1));
            }
        }
        i += 1;
    }
    proof {
        assert(ls.skip(ls.len() as int) =~= Seq::<Seq<char>>::empty());
    }
    Ok(entries)
}

/// A recognized raw part-of-speech code, encoded to storage and decoded
/// back, yields the variant it named.
pub proof fn lemma_tag_decode_round_trip(s: Seq<char>)
    requires
        tag_code_of(s) is Some,
    ensures
        Tag::from_storage_spec(tag_code_of(s)->Some_0.storage_code()) == Ok::<
            Tag,
            UnrecognizedCode,
        >(tag_code_of(s)->Some_0),
{
    tag_code_of(s)->Some_0.lemma_round_trip();
}

} // verus!
