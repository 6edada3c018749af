//! The tag codec: for every grammatical axis, the hand-assigned storage
//! index table (`storage_code`), its inverse (`from_storage`), and proofs
//! that the two directions agree on every variant. Single-variant axes are
//! stored as a presence flag instead of an index.

use vstd::prelude::*;

use crate::definitions::AdpositionType;
use crate::definitions::Definite;
use crate::definitions::Degree;
use crate::definitions::EntryView;
use crate::definitions::Gender;
use crate::definitions::LecsiconEntry;
use crate::definitions::Mood;
use crate::definitions::Mutation;
use crate::definitions::NameType;
use crate::definitions::Number;
use crate::definitions::NumberForm;
use crate::definitions::NumberType;
use crate::definitions::Person;
use crate::definitions::Polarity;
use crate::definitions::Polite;
use crate::definitions::Position;
use crate::definitions::Possessive;
use crate::definitions::PronounType;
use crate::definitions::Relative;
use crate::definitions::SqliteLecsiconEntry;
use crate::definitions::StorageView;
use crate::definitions::Style;
use crate::definitions::Tag;
use crate::definitions::Tense;
use crate::definitions::VerbForm;

verus! {

/// A stored integer code that no variant of the axis carries: the row is
/// corrupt and decoding it is a fatal error.
#[derive(Clone, Copy, Debug, PartialEq, Eq, Structural)]
pub struct UnrecognizedCode {
    pub code: i32,
}

impl Tag {
    /// Storage index table for the part-of-speech axis.
    pub open spec fn storage_code(self) -> i32 {
        match self {
            Tag::Adjective => 0,
            Tag::Adposition => 1,
            Tag::Adverb => 2,
            Tag::Conjugation => 3,
            Tag::Determiner => 4,
            Tag::Interjection => 5,
            Tag::Noun => 6,
            Tag::Number => 7,
            Tag::Particle => 8,
            Tag::Pronoun => 9,
            Tag::ProperNoun => 10,
            Tag::Verb => 11,
        }
    }

    pub open spec fn from_storage_spec(code: i32) -> Result<Tag, UnrecognizedCode> {
        match code {
            0 => Ok(Tag::Adjective),
            1 => Ok(Tag::Adposition),
            2 => Ok(Tag::Adverb),
            3 => Ok(Tag::Conjugation),
            4 => Ok(Tag::Determiner),
            5 => Ok(Tag::Interjection),
            6 => Ok(Tag::Noun),
            7 => Ok(Tag::Number),
            8 => Ok(Tag::Particle),
            9 => Ok(Tag::Pronoun),
            10 => Ok(Tag::ProperNoun),
            11 => Ok(Tag::Verb),
            _ => Err(UnrecognizedCode { code }),
        }
    }

    pub fn to_storage(self) -> (r: i32)
        ensures
            r == self.storage_code(),
    {
        match self {
            Tag::Adjective => 0,
            Tag::Adposition => 1,
            Tag::Adverb => 2,
            Tag::Conjugation => 3,
            Tag::Determiner => 4,
            Tag::Interjection => 5,
            Tag::Noun => 6,
            Tag::Number => 7,
            Tag::Particle => 8,
            Tag::Pronoun => 9,
            Tag::ProperNoun => 10,
            Tag::Verb => 11,
        }
    }

    pub fn from_storage(code: i32) -> (r: Result<Tag, UnrecognizedCode>)
        ensures
            r == Self::from_storage_spec(code),
    {
        match code {
            0 => Ok(Tag::Adjective),
            1 => Ok(Tag::Adposition),
            2 => Ok(Tag::Adverb),
            3 => Ok(Tag::Conjugation),
            4 => Ok(Tag::Determiner),
            5 => Ok(Tag::Interjection),
            6 => Ok(Tag::Noun),
            7 => Ok(Tag::Number),
            8 => Ok(Tag::Particle),
            9 => Ok(Tag::Pronoun),
            10 => Ok(Tag::ProperNoun),
            11 => Ok(Tag::Verb),
            _ => Err(UnrecognizedCode { code }),
        }
    }

    /// The two directions of the index table agree on every variant.
    pub proof fn lemma_round_trip(self)
        ensures
            Self::from_storage_spec(self.storage_code()) == Ok::<Self, UnrecognizedCode>(self),
    {
    }
}

impl Degree {
    pub open spec fn storage_code(self) -> i32 {
        match self {
            Degree::Comparative => 0,
            Degree::Equative => 1,
            Degree::Positive => 2,
            Degree::Superlative => 3,
        }
    }

    pub open spec fn from_storage_spec(code: i32) -> Result<Degree, UnrecognizedCode> {
        match code {
            0 => Ok(Degree::Comparative),
            1 => Ok(Degree::Equative),
            2 => Ok(Degree::Positive),
            3 => Ok(Degree::Superlative),
            _ => Err(UnrecognizedCode { code }),
        }
    }

    pub fn to_storage(self) -> (r: i32)
        ensures
            r == self.storage_code(),
    {
        match self {
            Degree::Comparative => 0,
            Degree::Equative => 1,
            Degree::Positive => 2,
            Degree::Superlative => 3,
        }
    }

    pub fn from_storage(code: i32) -> (r: Result<Degree, UnrecognizedCode>)
        ensures
            r == Self::from_storage_spec(code),
    {
        match code {
            0 => Ok(Degree::Comparative),
            1 => Ok(Degree::Equative),
            2 => Ok(Degree::Positive),
            3 => Ok(Degree::Superlative),
            _ => Err(UnrecognizedCode { code }),
        }
    }

    pub proof fn lemma_round_trip(self)
        ensures
            Self::from_storage_spec(self.storage_code()) == Ok::<Self, UnrecognizedCode>(self),
    {
    }
}

impl Gender {
    pub open spec fn storage_code(self) -> i32 {
        match self {
            Gender::Feminine => 0,
            Gender::FeminineMasculine => 1,
            Gender::Masculine => 2,
        }
    }

    pub open spec fn from_storage_spec(code: i32) -> Result<Gender, UnrecognizedCode> {
        match code {
            0 => Ok(Gender::Feminine),
            1 => Ok(Gender::FeminineMasculine),
            2 => Ok(Gender::Masculine),
            _ => Err(UnrecognizedCode { code }),
        }
    }

    pub fn to_storage(self) -> (r: i32)
        ensures
            r == self.storage_code(),
    {
        match self {
            Gender::Feminine => 0,
            Gender::FeminineMasculine => 1,
            Gender::Masculine => 2,
        }
    }

    pub fn from_storage(code: i32) -> (r: Result<Gender, UnrecognizedCode>)
        ensures
            r == Self::from_storage_spec(code),
    {
        match code {
            0 => Ok(Gender::Feminine),
            1 => Ok(Gender::FeminineMasculine),
            2 => Ok(Gender::Masculine),
            _ => Err(UnrecognizedCode { code }),
        }
    }

    pub proof fn lemma_round_trip(self)
        ensures
            Self::from_storage_spec(self.storage_code()) == Ok::<Self, UnrecognizedCode>(self),
    {
    }
}

impl Mood {
    pub open spec fn storage_code(self) -> i32 {
        match self {
            Mood::Imperative => 0,
            Mood::Indicative => 1,
            Mood::Subjunctive => 2,
        }
    }

    pub open spec fn from_storage_spec(code: i32) -> Result<Mood, UnrecognizedCode> {
        match code {
            0 => Ok(Mood::Imperative),
            1 => Ok(Mood::Indicative),
            2 => Ok(Mood::Subjunctive),
            _ => Err(UnrecognizedCode { code }),
        }
    }

    pub fn to_storage(self) -> (r: i32)
        ensures
            r == self.storage_code(),
    {
        match self {
            Mood::Imperative => 0,
            Mood::Indicative => 1,
            Mood::Subjunctive => 2,
        }
    }

    pub fn from_storage(code: i32) -> (r: Result<Mood, UnrecognizedCode>)
        ensures
            r == Self::from_storage_spec(code),
    {
        match code {
            0 => Ok(Mood::Imperative),
            1 => Ok(Mood::Indicative),
            2 => Ok(Mood::Subjunctive),
            _ => Err(UnrecognizedCode { code }),
        }
    }

    pub proof fn lemma_round_trip(self)
        ensures
            Self::from_storage_spec(self.storage_code()) == Ok::<Self, UnrecognizedCode>(self),
    {
    }
}

impl Mutation {
    pub open spec fn storage_code(self) -> i32 {
        match self {
            Mutation::Aspirate => 0,
            Mutation::HProthesis => 1,
            Mutation::Nasal => 2,
            Mutation::Soft => 3,
        }
    }

    pub open spec fn from_storage_spec(code: i32) -> Result<Mutation, UnrecognizedCode> {
        match code {
            0 => Ok(Mutation::Aspirate),
            1 => Ok(Mutation::HProthesis),
            2 => Ok(Mutation::Nasal),
            3 => Ok(Mutation::Soft),
            _ => Err(UnrecognizedCode { code }),
        }
    }

    pub fn to_storage(self) -> (r: i32)
        ensures
            r == self.storage_code(),
    {
        match self {
            Mutation::Aspirate => 0,
            Mutation::HProthesis => 1,
            Mutation::Nasal => 2,
            Mutation::Soft => 3,
        }
    }

    pub fn from_storage(code: i32) -> (r: Result<Mutation, UnrecognizedCode>)
        ensures
            r == Self::from_storage_spec(code),
    {
        match code {
            0 => Ok(Mutation::Aspirate),
            1 => Ok(Mutation::HProthesis),
            2 => Ok(Mutation::Nasal),
            3 => Ok(Mutation::Soft),
            _ => Err(UnrecognizedCode { code }),
        }
    }

    pub proof fn lemma_round_trip(self)
        ensures
            Self::from_storage_spec(self.storage_code()) == Ok::<Self, UnrecognizedCode>(self),
    {
    }
}

impl NameType {
    pub open spec fn storage_code(self) -> i32 {
        match self {
            NameType::Geographical => 0,
            NameType::Person => 1,
        }
    }

    pub open spec fn from_storage_spec(code: i32) -> Result<NameType, UnrecognizedCode> {
        match code {
            0 => Ok(NameType::Geographical),
            1 => Ok(NameType::Person),
            _ => Err(UnrecognizedCode { code }),
        }
    }

    pub fn to_storage(self) -> (r: i32)
        ensures
            r == self.storage_code(),
    {
        match self {
            NameType::Geographical => 0,
            NameType::Person => 1,
        }
    }

    pub fn from_storage(code: i32) -> (r: Result<NameType, UnrecognizedCode>)
        ensures
            r == Self::from_storage_spec(code),
    {
        match code {
            0 => Ok(NameType::Geographical),
            1 => Ok(NameType::Person),
            _ => Err(UnrecognizedCode { code }),
        }
    }

    pub proof fn lemma_round_trip(self)
        ensures
            Self::from_storage_spec(self.storage_code()) == Ok::<Self, UnrecognizedCode>(self),
    {
    }
}

impl Number {
    pub open spec fn storage_code(self) -> i32 {
        match self {
            Number::Collective => 0,
            Number::Plural => 1,
            Number::Singular => 2,
        }
    }

    pub open spec fn from_storage_spec(code: i32) -> Result<Number, UnrecognizedCode> {
        match code {
            0 => Ok(Number::Collective),
            1 => Ok(Number::Plural),
            2 => Ok(Number::Singular),
            _ => Err(UnrecognizedCode { code }),
        }
    }

    pub fn to_storage(self) -> (r: i32)
        ensures
            r == self.storage_code(),
    {
        match self {
            Number::Collective => 0,
            Number::Plural => 1,
            Number::Singular => 2,
        }
    }

    pub fn from_storage(code: i32) -> (r: Result<Number, UnrecognizedCode>)
        ensures
            r == Self::from_storage_spec(code),
    {
        match code {
            0 => Ok(Number::Collective),
            1 => Ok(Number::Plural),
            2 => Ok(Number::Singular),
            _ => Err(UnrecognizedCode { code }),
        }
    }

    pub proof fn lemma_round_trip(self)
        ensures
            Self::from_storage_spec(self.storage_code()) == Ok::<Self, UnrecognizedCode>(self),
    {
    }
}

impl NumberType {
    pub open spec fn storage_code(self) -> i32 {
        match self {
            NumberType::Cardinal => 0,
            NumberType::Ordinal => 1,
        }
    }

    pub open spec fn from_storage_spec(code: i32) -> Result<NumberType, UnrecognizedCode> {
        match code {
            0 => Ok(NumberType::Cardinal),
            1 => Ok(NumberType::Ordinal),
            _ => Err(UnrecognizedCode { code }),
        }
    }

    pub fn to_storage(self) -> (r: i32)
        ensures
            r == self.storage_code(),
    {
        match self {
            NumberType::Cardinal => 0,
            NumberType::Ordinal => 1,
        }
    }

    pub fn from_storage(code: i32) -> (r: Result<NumberType, UnrecognizedCode>)
        ensures
            r == Self::from_storage_spec(code),
    {
        match code {
            0 => Ok(NumberType::Cardinal),
            1 => Ok(NumberType::Ordinal),
            _ => Err(UnrecognizedCode { code }),
        }
    }

    pub proof fn lemma_round_trip(self)
        ensures
            Self::from_storage_spec(self.storage_code()) == Ok::<Self, UnrecognizedCode>(self),
    {
    }
}

impl Person {
    /// The person table is hand-assigned and deliberately not in
    /// declaration order.
    pub open spec fn storage_code(self) -> i32 {
        match self {
            Person::One => 0,
            Person::Three => 1,
            Person::Two => 2,
            Person::Zero => 3,
        }
    }

    pub open spec fn from_storage_spec(code: i32) -> Result<Person, UnrecognizedCode> {
        match code {
            0 => Ok(Person::One),
            1 => Ok(Person::Three),
            2 => Ok(Person::Two),
            3 => Ok(Person::Zero),
            _ => Err(UnrecognizedCode { code }),
        }
    }

    pub fn to_storage(self) -> (r: i32)
        ensures
            r == self.storage_code(),
    {
        match self {
            Person::One => 0,
            Person::Three => 1,
            Person::Two => 2,
            Person::Zero => 3,
        }
    }

    pub fn from_storage(code: i32) -> (r: Result<Person, UnrecognizedCode>)
        ensures
            r == Self::from_storage_spec(code),
    {
        match code {
            0 => Ok(Person::One),
            1 => Ok(Person::Three),
            2 => Ok(Person::Two),
            3 => Ok(Person::Zero),
            _ => Err(UnrecognizedCode { code }),
        }
    }

    pub proof fn lemma_round_trip(self)
        ensures
            Self::from_storage_spec(self.storage_code()) == Ok::<Self, UnrecognizedCode>(self),
    {
    }
}

impl Polite {
    pub open spec fn storage_code(self) -> i32 {
        match self {
            Polite::Formal => 0,
            Polite::Informal => 1,
        }
    }

    pub open spec fn from_storage_spec(code: i32) -> Result<Polite, UnrecognizedCode> {
        match code {
            0 => Ok(Polite::Formal),
            1 => Ok(Polite::Informal),
            _ => Err(UnrecognizedCode { code }),
        }
    }

    pub fn to_storage(self) -> (r: i32)
        ensures
            r == self.storage_code(),
    {
        match self {
            Polite::Formal => 0,
            Polite::Informal => 1,
        }
    }

    pub fn from_storage(code: i32) -> (r: Result<Polite, UnrecognizedCode>)
        ensures
            r == Self::from_storage_spec(code),
    {
        match code {
            0 => Ok(Polite::Formal),
            1 => Ok(Polite::Informal),
            _ => Err(UnrecognizedCode { code }),
        }
    }

    pub proof fn lemma_round_trip(self)
        ensures
            Self::from_storage_spec(self.storage_code()) == Ok::<Self, UnrecognizedCode>(self),
    {
    }
}

impl PronounType {
    pub open spec fn storage_code(self) -> i32 {
        match self {
            PronounType::Article => 0,
            PronounType::Demonstrative => 1,
            PronounType::Interrogative => 2,
            PronounType::Negative => 3,
            PronounType::Personal => 4,
            PronounType::Reflexive => 5,
            PronounType::Relative => 6,
        }
    }

    pub open spec fn from_storage_spec(code: i32) -> Result<PronounType, UnrecognizedCode> {
        match code {
            0 => Ok(PronounType::Article),
            1 => Ok(PronounType::Demonstrative),
            2 => Ok(PronounType::Interrogative),
            3 => Ok(PronounType::Negative),
            4 => Ok(PronounType::Personal),
            5 => Ok(PronounType::Reflexive),
            6 => Ok(PronounType::Relative),
            _ => Err(UnrecognizedCode { code }),
        }
    }

    pub fn to_storage(self) -> (r: i32)
        ensures
            r == self.storage_code(),
    {
        match self {
            PronounType::Article => 0,
            PronounType::Demonstrative => 1,
            PronounType::Interrogative => 2,
            PronounType::Negative => 3,
            PronounType::Personal => 4,
            PronounType::Reflexive => 5,
            PronounType::Relative => 6,
        }
    }

    pub fn from_storage(code: i32) -> (r: Result<PronounType, UnrecognizedCode>)
        ensures
            r == Self::from_storage_spec(code),
    {
        match code {
            0 => Ok(PronounType::Article),
            1 => Ok(PronounType::Demonstrative),
            2 => Ok(PronounType::Interrogative),
            3 => Ok(PronounType::Negative),
            4 => Ok(PronounType::Personal),
            5 => Ok(PronounType::Reflexive),
            6 => Ok(PronounType::Relative),
            _ => Err(UnrecognizedCode { code }),
        }
    }

    pub proof fn lemma_round_trip(self)
        ensures
            Self::from_storage_spec(self.storage_code()) == Ok::<Self, UnrecognizedCode>(self),
    {
    }
}

impl Style {
    pub open spec fn storage_code(self) -> i32 {
        match self {
            Style::Archaic => 0,
            Style::Colloquial => 1,
            Style::Formal => 2,
        }
    }

    pub open spec fn from_storage_spec(code: i32) -> Result<Style, UnrecognizedCode> {
        match code {
            0 => Ok(Style::Archaic),
            1 => Ok(Style::Colloquial),
            2 => Ok(Style::Formal),
            _ => Err(UnrecognizedCode { code }),
        }
    }

    pub fn to_storage(self) -> (r: i32)
        ensures
            r == self.storage_code(),
    {
        match self {
            Style::Archaic => 0,
            Style::Colloquial => 1,
            Style::Formal => 2,
        }
    }

    pub fn from_storage(code: i32) -> (r: Result<Style, UnrecognizedCode>)
        ensures
            r == Self::from_storage_spec(code),
    {
        match code {
            0 => Ok(Style::Archaic),
            1 => Ok(Style::Colloquial),
            2 => Ok(Style::Formal),
            _ => Err(UnrecognizedCode { code }),
        }
    }

    pub proof fn lemma_round_trip(self)
        ensures
            Self::from_storage_spec(self.storage_code()) == Ok::<Self, UnrecognizedCode>(self),
    {
    }
}

impl Tense {
    pub open spec fn storage_code(self) -> i32 {
        match self {
            Tense::Future => 0,
            Tense::Imperfect => 1,
            Tense::Past => 2,
            Tense::Plusquamperfekt => 3,
            Tense::Present => 4,
        }
    }

    pub open spec fn from_storage_spec(code: i32) -> Result<Tense, UnrecognizedCode> {
        match code {
            0 => Ok(Tense::Future),
            1 => Ok(Tense::Imperfect),
            2 => Ok(Tense::Past),
            3 => Ok(Tense::Plusquamperfekt),
            4 => Ok(Tense::Present),
            _ => Err(UnrecognizedCode { code }),
        }
    }

    pub fn to_storage(self) -> (r: i32)
        ensures
            r == self.storage_code(),
    {
        match self {
            Tense::Future => 0,
            Tense::Imperfect => 1,
            Tense::Past => 2,
            Tense::Plusquamperfekt => 3,
            Tense::Present => 4,
        }
    }

    pub fn from_storage(code: i32) -> (r: Result<Tense, UnrecognizedCode>)
        ensures
            r == Self::from_storage_spec(code),
    {
        match code {
            0 => Ok(Tense::Future),
            1 => Ok(Tense::Imperfect),
            2 => Ok(Tense::Past),
            3 => Ok(Tense::Plusquamperfekt),
            4 => Ok(Tense::Present),
            _ => Err(UnrecognizedCode { code }),
        }
    }

    pub proof fn lemma_round_trip(self)
        ensures
            Self::from_storage_spec(self.storage_code()) == Ok::<Self, UnrecognizedCode>(self),
    {
    }
}

// Single-variant axes are stored as a presence flag: writing always stores
// `true`, and any present flag reads back as the axis's only variant.

impl AdpositionType {
    pub fn to_storage(self) -> (r: bool)
        ensures
            r == true,
    {
        true
    }

    pub fn from_storage(flag: bool) -> (r: AdpositionType)
        ensures
            r == AdpositionType::Preposition,
    {
        AdpositionType::Preposition
    }
}

impl Definite {
    pub fn to_storage(self) -> (r: bool)
        ensures
            r == true,
    {
        true
    }

    pub fn from_storage(flag: bool) -> (r: Definite)
        ensures
            r == Definite::Definite,
    {
        Definite::Definite
    }
}

impl NumberForm {
    pub fn to_storage(self) -> (r: bool)
        ensures
            r == true,
    {
        true
    }

    pub fn from_storage(flag: bool) -> (r: NumberForm)
        ensures
            r == NumberForm::Word,
    {
        NumberForm::Word
    }
}

impl Polarity {
    pub fn to_storage(self) -> (r: bool)
        ensures
            r == true,
    {
        true
    }

    pub fn from_storage(flag: bool) -> (r: Polarity)
        ensures
            r == Polarity::Negative,
    {
        Polarity::Negative
    }
}

impl Position {
    pub fn to_storage(self) -> (r: bool)
        ensures
            r == true,
    {
        true
    }

    pub fn from_storage(flag: bool) -> (r: Position)
        ensures
            r == Position::Prenom,
    {
        Position::Prenom
    }
}

impl Possessive {
    pub fn to_storage(self) -> (r: bool)
        ensures
            r == true,
    {
        true
    }

    pub fn from_storage(flag: bool) -> (r: Possessive)
        ensures
            r == Possessive::Yes,
    {
        Possessive::Yes
    }
}

impl Relative {
    pub fn to_storage(self) -> (r: bool)
        ensures
            r == true,
    {
        true
    }

    pub fn from_storage(flag: bool) -> (r: Relative)
        ensures
            r == Relative::Rel,
    {
        Relative::Rel
    }
}

impl VerbForm {
    pub fn to_storage(self) -> (r: bool)
        ensures
            r == true,
    {
        true
    }

    pub fn from_storage(flag: bool) -> (r: VerbForm)
        ensures
            r == VerbForm::Verbnoun,
    {
        VerbForm::Verbnoun
    }
}

/// The storage form of a whole entry: each multi-variant axis through its
/// index table, each single-variant axis as a presence flag, `word` and
/// `lemma` carried unchanged.
pub open spec fn storage_view_of(e: EntryView) -> StorageView {
    StorageView {
        id: e.id,
        word: e.word,
        lemma: e.lemma,
        tag: match e.tag {
            Some(v) => Some(v.storage_code()),
            None => None,
        },
        adposition_type: match e.adposition_type {
            Some(_) => Some(true),
            None => None,
        },
        definite: match e.definite {
            Some(_) => Some(true),
            None => None,
        },
        degree: match e.degree {
            Some(v) => Some(v.storage_code()),
            None => None,
        },
        gender: match e.gender {
            Some(v) => Some(v.storage_code()),
            None => None,
        },
        mood: match e.mood {
            Some(v) => Some(v.storage_code()),
            None => None,
        },
        mutation: match e.mutation {
            Some(v) => Some(v.storage_code()),
            None => None,
        },
        name_type: match e.name_type {
            Some(v) => Some(v.storage_code()),
            None => None,
        },
        number: match e.number {
            Some(v) => Some(v.storage_code()),
            None => None,
        },
        number_form: match e.number_form {
            Some(_) => Some(true),
            None => None,
        },
        number_type: match e.number_type {
            Some(v) => Some(v.storage_code()),
            None => None,
        },
        person: match e.person {
            Some(v) => Some(v.storage_code()),
            None => None,
        },
        polarity: match e.polarity {
            Some(_) => Some(true),
            None => None,
        },
        polite: match e.polite {
            Some(v) => Some(v.storage_code()),
            None => None,
        },
        position: match e.position {
            Some(_) => Some(true),
            None => None,
        },
        possessive: match e.possessive {
            Some(_) => Some(true),
            None => None,
        },
        pronoun_type: match e.pronoun_type {
            Some(v) => Some(v.storage_code()),
            None => None,
        },
        relative: match e.relative {
            Some(_) => Some(true),
            None => None,
        },
        style: match e.style {
            Some(v) => Some(v.storage_code()),
            None => None,
        },
        tense: match e.tense {
            Some(v) => Some(v.storage_code()),
            None => None,
        },
        verb_form: match e.verb_form {
            Some(_) => Some(true),
            None => None,
        },
    }
}

/// Decoding of one optional stored index: absence is normal, a present but
/// unrecognized index is fatal.
pub open spec fn decoded_tag_field(c: Option<i32>) -> Result<Option<Tag>, UnrecognizedCode> {
    match c {
        None => Ok(None),
        Some(code) => match Tag::from_storage_spec(code) {
            Ok(v) => Ok(Some(v)),
            Err(e) => Err(e),
        },
    }
}

pub open spec fn decoded_degree_field(c: Option<i32>) -> Result<
    Option<Degree>,
    UnrecognizedCode,
> {
    match c {
        None => Ok(None),
        Some(code) => match Degree::from_storage_spec(code) {
            Ok(v) => Ok(Some(v)),
            Err(e) => Err(e),
        },
    }
}

pub open spec fn decoded_gender_field(c: Option<i32>) -> Result<
    Option<Gender>,
    UnrecognizedCode,
> {
    match c {
        None => Ok(None),
        Some(code) => match Gender::from_storage_spec(code) {
            Ok(v) => Ok(Some(v)),
            Err(e) => Err(e),
        },
    }
}

pub open spec fn decoded_mood_field(c: Option<i32>) -> Result<Option<Mood>, UnrecognizedCode> {
    match c {
        None => Ok(None),
        Some(code) => match Mood::from_storage_spec(code) {
            Ok(v) => Ok(Some(v)),
            Err(e) => Err(e),
        },
    }
}

pub open spec fn decoded_mutation_field(c: Option<i32>) -> Result<
    Option<Mutation>,
    UnrecognizedCode,
> {
    match c {
        None => Ok(None),
        Some(code) => match Mutation::from_storage_spec(code) {
            Ok(v) => Ok(Some(v)),
            Err(e) => Err(e),
        },
    }
}

pub open spec fn decoded_name_type_field(c: Option<i32>) -> Result<
    Option<NameType>,
    UnrecognizedCode,
> {
    match c {
        None => Ok(None),
        Some(code) => match NameType::from_storage_spec(code) {
            Ok(v) => Ok(Some(v)),
            Err(e) => Err(e),
        },
    }
}

pub open spec fn decoded_number_field(c: Option<i32>) -> Result<
    Option<Number>,
    UnrecognizedCode,
> {
    match c {
        None => Ok(None),
        Some(code) => match Number::from_storage_spec(code) {
            Ok(v) => Ok(Some(v)),
            Err(e) => Err(e),
        },
    }
}

pub open spec fn decoded_number_type_field(c: Option<i32>) -> Result<
    Option<NumberType>,
    UnrecognizedCode,
> {
    match c {
        None => Ok(None),
        Some(code) => match NumberType::from_storage_spec(code) {
            Ok(v) => Ok(Some(v)),
            Err(e) => Err(e),
        },
    }
}

pub open spec fn decoded_person_field(c: Option<i32>) -> Result<
    Option<Person>,
    UnrecognizedCode,
> {
    match c {
        None => Ok(None),
        Some(code) => match Person::from_storage_spec(code) {
            Ok(v) => Ok(Some(v)),
            Err(e) => Err(e),
        },
    }
}

pub open spec fn decoded_polite_field(c: Option<i32>) -> Result<
    Option<Polite>,
    UnrecognizedCode,
> {
    match c {
        None => Ok(None),
        Some(code) => match Polite::from_storage_spec(code) {
            Ok(v) => Ok(Some(v)),
            Err(e) => Err(e),
        },
    }
}

pub open spec fn decoded_pronoun_type_field(c: Option<i32>) -> Result<
    Option<PronounType>,
    UnrecognizedCode,
> {
    match c {
        None => Ok(None),
        Some(code) => match PronounType::from_storage_spec(code) {
            Ok(v) => Ok(Some(v)),
            Err(e) => Err(e),
        },
    }
}

pub open spec fn decoded_style_field(c: Option<i32>) -> Result<Option<Style>, UnrecognizedCode> {
    match c {
        None => Ok(None),
        Some(code) => match Style::from_storage_spec(code) {
            Ok(v) => Ok(Some(v)),
            Err(e) => Err(e),
        },
    }
}

pub open spec fn decoded_tense_field(c: Option<i32>) -> Result<Option<Tense>, UnrecognizedCode> {
    match c {
        None => Ok(None),
        Some(code) => match Tense::from_storage_spec(code) {
            Ok(v) => Ok(Some(v)),
            Err(e) => Err(e),
        },
    }
}

/// Full decoding of a storage row back into the domain model. The axes are
/// examined in field order; the first unrecognized index is the reported
/// error.
pub open spec fn decode_storage_view(s: StorageView) -> Result<EntryView, UnrecognizedCode> {
    if decoded_tag_field(s.tag) is Err {
        Err(decoded_tag_field(s.tag)->Err_0)
    } else if decoded_degree_field(s.degree) is Err {
        Err(decoded_degree_field(s.degree)->Err_0)
    } else if decoded_gender_field(s.gender) is Err {
        Err(decoded_gender_field(s.gender)->Err_0)
    } else if decoded_mood_field(s.mood) is Err {
        Err(decoded_mood_field(s.mood)->Err_0)
    } else if decoded_mutation_field(s.mutation) is Err {
        Err(decoded_mutation_field(s.mutation)->Err_0)
    } else if decoded_name_type_field(s.name_type) is Err {
        Err(decoded_name_type_field(s.name_type)->Err_0)
    } else if decoded_number_field(s.number) is Err {
        Err(decoded_number_field(s.number)->Err_0)
    } else if decoded_number_type_field(s.number_type) is Err {
        Err(decoded_number_type_field(s.number_type)->Err_0)
    } else if decoded_person_field(s.person) is Err {
        Err(decoded_person_field(s.person)->Err_0)
    } else if decoded_polite_field(s.polite) is Err {
        Err(decoded_polite_field(s.polite)->Err_0)
    } else if decoded_pronoun_type_field(s.pronoun_type) is Err {
        Err(decoded_pronoun_type_field(s.pronoun_type)->Err_0)
    } else if decoded_style_field(s.style) is Err {
        Err(decoded_style_field(s.style)->Err_0)
    } else if decoded_tense_field(s.tense) is Err {
        Err(decoded_tense_field(s.tense)->Err_0)
    } else {
        Ok(
            EntryView {
                id: s.id,
                word: s.word,
                lemma: s.lemma,
                tag: decoded_tag_field(s.tag)->Ok_0,
                adposition_type: match s.adposition_type {
                    Some(_) => Some(AdpositionType::Preposition),
                    None => None,
                },
                definite: match s.definite {
                    Some(_) => Some(Definite::Definite),
                    None => None,
                },
                degree: decoded_degree_field(s.degree)->Ok_0,
                gender: decoded_gender_field(s.gender)->Ok_0,
                mood: decoded_mood_field(s.mood)->Ok_0,
                mutation: decoded_mutation_field(s.mutation)->Ok_0,
                name_type: decoded_name_type_field(s.name_type)->Ok_0,
                number: decoded_number_field(s.number)->Ok_0,
                number_form: match s.number_form {
                    Some(_) => Some(NumberForm::Word),
                    None => None,
                },
                number_type: decoded_number_type_field(s.number_type)->Ok_0,
                person: decoded_person_field(s.person)->Ok_0,
                polarity: match s.polarity {
                    Some(_) => Some(Polarity::Negative),
                    None => None,
                },
                polite: decoded_polite_field(s.polite)->Ok_0,
                position: match s.position {
                    Some(_) => Some(Position::Prenom),
                    None => None,
                },
                possessive: match s.possessive {
                    Some(_) => Some(Possessive::Yes),
                    None => None,
                },
                pronoun_type: decoded_pronoun_type_field(s.pronoun_type)->Ok_0,
                relative: match s.relative {
                    Some(_) => Some(Relative::Rel),
                    None => None,
                },
                style: decoded_style_field(s.style)->Ok_0,
                tense: decoded_tense_field(s.tense)->Ok_0,
                verb_form: match s.verb_form {
                    Some(_) => Some(VerbForm::Verbnoun),
                    None => None,
                },
            },
        )
    }
}

// One small encoder and decoder per axis field keeps each conversion's
// proof local to the axis it concerns.

fn enc_tag(v: Option<Tag>) -> (r: Option<i32>)
    ensures
        r == (match v {
            Some(x) => Some(x.storage_code()),
            None => None,
        }),
{
    match v {
        Some(x) => Some(x.to_storage()),
        None => None,
    }
}

fn dec_tag(c: Option<i32>) -> (r: Result<Option<Tag>, UnrecognizedCode>)
    ensures
        r == decoded_tag_field(c),
{
    match c {
        None => Ok(None),
        Some(code) => match Tag::from_storage(code) {
            Ok(v) => Ok(Some(v)),
            Err(e) => Err(e),
        },
    }
}

fn enc_degree(v: Option<Degree>) -> (r: Option<i32>)
    ensures
        r == (match v {
            Some(x) => Some(x.storage_code()),
            None => None,
        }),
{
    match v {
        Some(x) => Some(x.to_storage()),
        None => None,
    }
}

fn dec_degree(c: Option<i32>) -> (r: Result<Option<Degree>, UnrecognizedCode>)
    ensures
        r == decoded_degree_field(c),
{
    match c {
        None => Ok(None),
        Some(code) => match Degree::from_storage(code) {
            Ok(v) => Ok(Some(v)),
            Err(e) => Err(e),
        },
    }
}

fn enc_gender(v: Option<Gender>) -> (r: Option<i32>)
    ensures
        r == (match v {
            Some(x) => Some(x.storage_code()),
            None => None,
        }),
{
    match v {
        Some(x) => Some(x.to_storage()),
        None => None,
    }
}

fn dec_gender(c: Option<i32>) -> (r: Result<Option<Gender>, UnrecognizedCode>)
    ensures
        r == decoded_gender_field(c),
{
    match c {
        None => Ok(None),
        Some(code) => match Gender::from_storage(code) {
            Ok(v) => Ok(Some(v)),
            Err(e) => Err(e),
        },
    }
}

fn enc_mood(v: Option<Mood>) -> (r: Option<i32>)
    ensures
        r == (match v {
            Some(x) => Some(x.storage_code()),
            None => None,
        }),
{
    match v {
        Some(x) => Some(x.to_storage()),
        None => None,
    }
}

fn dec_mood(c: Option<i32>) -> (r: Result<Option<Mood>, UnrecognizedCode>)
    ensures
        r == decoded_mood_field(c),
{
    match c {
        None => Ok(None),
        Some(code) => match Mood::from_storage(code) {
            Ok(v) => Ok(Some(v)),
            Err(e) => Err(e),
        },
    }
}

fn enc_mutation(v: Option<Mutation>) -> (r: Option<i32>)
    ensures
        r == (match v {
            Some(x) => Some(x.storage_code()),
            None => None,
        }),
{
    match v {
        Some(x) => Some(x.to_storage()),
        None => None,
    }
}

fn dec_mutation(c: Option<i32>) -> (r: Result<Option<Mutation>, UnrecognizedCode>)
    ensures
        r == decoded_mutation_field(c),
{
    match c {
        None => Ok(None),
        Some(code) => match Mutation::from_storage(code) {
            Ok(v) => Ok(Some(v)),
            Err(e) => Err(e),
        },
    }
}

fn enc_name_type(v: Option<NameType>) -> (r: Option<i32>)
    ensures
        r == (match v {
            Some(x) => Some(x.storage_code()),
            None => None,
        }),
{
    match v {
        Some(x) => Some(x.to_storage()),
        None => None,
    }
}

fn dec_name_type(c: Option<i32>) -> (r: Result<Option<NameType>, UnrecognizedCode>)
    ensures
        r == decoded_name_type_field(c),
{
    match c {
        None => Ok(None),
        Some(code) => match NameType::from_storage(code) {
            Ok(v) => Ok(Some(v)),
            Err(e) => Err(e),
        },
    }
}

fn enc_number(v: Option<Number>) -> (r: Option<i32>)
    ensures
        r == (match v {
            Some(x) => Some(x.storage_code()),
            None => None,
        }),
{
    match v {
        Some(x) => Some(x.to_storage()),
        None => None,
    }
}

fn dec_number(c: Option<i32>) -> (r: Result<Option<Number>, UnrecognizedCode>)
    ensures
        r == decoded_number_field(c),
{
    match c {
        None => Ok(None),
        Some(code) => match Number::from_storage(code) {
            Ok(v) => Ok(Some(v)),
            Err(e) => Err(e),
        },
    }
}

fn enc_number_type(v: Option<NumberType>) -> (r: Option<i32>)
    ensures
        r == (match v {
            Some(x) => Some(x.storage_code()),
            None => None,
        }),
{
    match v {
        Some(x) => Some(x.to_storage()),
        None => None,
    }
}

fn dec_number_type(c: Option<i32>) -> (r: Result<Option<NumberType>, UnrecognizedCode>)
    ensures
        r == decoded_number_type_field(c),
{
    match c {
        None => Ok(None),
        Some(code) => match NumberType::from_storage(code) {
            Ok(v) => Ok(Some(v)),
            Err(e) => Err(e),
        },
    }
}

fn enc_person(v: Option<Person>) -> (r: Option<i32>)
    ensures
        r == (match v {
            Some(x) => Some(x.storage_code()),
            None => None,
        }),
{
    match v {
        Some(x) => Some(x.to_storage()),
        None => None,
    }
}

fn dec_person(c: Option<i32>) -> (r: Result<Option<Person>, UnrecognizedCode>)
    ensures
        r == decoded_person_field(c),
{
    match c {
        None => Ok(None),
        Some(code) => match Person::from_storage(code) {
            Ok(v) => Ok(Some(v)),
            Err(e) => Err(e),
        },
    }
}

fn enc_polite(v: Option<Polite>) -> (r: Option<i32>)
    ensures
        r == (match v {
            Some(x) => Some(x.storage_code()),
            None => None,
        }),
{
    match v {
        Some(x) => Some(x.to_storage()),
        None => None,
    }
}

fn dec_polite(c: Option<i32>) -> (r: Result<Option<Polite>, UnrecognizedCode>)
    ensures
        r == decoded_polite_field(c),
{
    match c {
        None => Ok(None),
        Some(code) => match Polite::from_storage(code) {
            Ok(v) => Ok(Some(v)),
            Err(e) => Err(e),
        },
    }
}

fn enc_pronoun_type(v: Option<PronounType>) -> (r: Option<i32>)
    ensures
        r == (match v {
            Some(x) => Some(x.storage_code()),
            None => None,
        }),
{
    match v {
        Some(x) => Some(x.to_storage()),
        None => None,
    }
}

fn dec_pronoun_type(c: Option<i32>) -> (r: Result<Option<PronounType>, UnrecognizedCode>)
    ensures
        r == decoded_pronoun_type_field(c),
{
    match c {
        None => Ok(None),
        Some(code) => match PronounType::from_storage(code) {
            Ok(v) => Ok(Some(v)),
            Err(e) => Err(e),
        },
    }
}

fn enc_style(v: Option<Style>) -> (r: Option<i32>)
    ensures
        r == (match v {
            Some(x) => Some(x.storage_code()),
            None => None,
        }),
{
    match v {
        Some(x) => Some(x.to_storage()),
        None => None,
    }
}

fn dec_style(c: Option<i32>) -> (r: Result<Option<Style>, UnrecognizedCode>)
    ensures
        r == decoded_style_field(c),
{
    match c {
        None => Ok(None),
        Some(code) => match Style::from_storage(code) {
            Ok(v) => Ok(Some(v)),
            Err(e) => Err(e),
        },
    }
}

fn enc_tense(v: Option<Tense>) -> (r: Option<i32>)
    ensures
        r == (match v {
            Some(x) => Some(x.storage_code()),
            None => None,
        }),
{
    match v {
        Some(x) => Some(x.to_storage()),
        None => None,
    }
}

fn dec_tense(c: Option<i32>) -> (r: Result<Option<Tense>, UnrecognizedCode>)
    ensures
        r == decoded_tense_field(c),
{
    match c {
        None => Ok(None),
        Some(code) => match Tense::from_storage(code) {
            Ok(v) => Ok(Some(v)),
            Err(e) => Err(e),
        },
    }
}

fn enc_adposition_type(v: Option<AdpositionType>) -> (r: Option<bool>)
    ensures
        r == (match v {
            Some(x) => Some(true),
            None => None,
        }),
{
    match v {
        Some(x) => Some(x.to_storage()),
        None => None,
    }
}

fn dec_adposition_type(c: Option<bool>) -> (r: Option<AdpositionType>)
    ensures
        r == (match c {
            Some(f) => Some(AdpositionType::Preposition),
            None => None,
        }),
{
    match c {
        Some(f) => Some(AdpositionType::from_storage(f)),
        None => None,
    }
}

fn enc_definite(v: Option<Definite>) -> (r: Option<bool>)
    ensures
        r == (match v {
            Some(x) => Some(true),
            None => None,
        }),
{
    match v {
        Some(x) => Some(x.to_storage()),
        None => None,
    }
}

fn dec_definite(c: Option<bool>) -> (r: Option<Definite>)
    ensures
        r == (match c {
            Some(f) => Some(Definite::Definite),
            None => None,
        }),
{
    match c {
        Some(f) => Some(Definite::from_storage(f)),
        None => None,
    }
}

fn enc_number_form(v: Option<NumberForm>) -> (r: Option<bool>)
    ensures
        r == (match v {
            Some(x) => Some(true),
            None => None,
        }),
{
    match v {
        Some(x) => Some(x.to_storage()),
        None => None,
    }
}

fn dec_number_form(c: Option<bool>) -> (r: Option<NumberForm>)
    ensures
        r == (match c {
            Some(f) => Some(NumberForm::Word),
            None => None,
        }),
{
    match c {
        Some(f) => Some(NumberForm::from_storage(f)),
        None => None,
    }
}

fn enc_polarity(v: Option<Polarity>) -> (r: Option<bool>)
    ensures
        r == (match v {
            Some(x) => Some(true),
            None => None,
        }),
{
    match v {
        Some(x) => Some(x.to_storage()),
        None => None,
    }
}

fn dec_polarity(c: Option<bool>) -> (r: Option<Polarity>)
    ensures
        r == (match c {
            Some(f) => Some(Polarity::Negative),
            None => None,
        }),
{
    match c {
        Some(f) => Some(Polarity::from_storage(f)),
        None => None,
    }
}

fn enc_position(v: Option<Position>) -> (r: Option<bool>)
    ensures
        r == (match v {
            Some(x) => Some(true),
            None => None,
        }),
{
    match v {
        Some(x) => Some(x.to_storage()),
        None => None,
    }
}

fn dec_position(c: Option<bool>) -> (r: Option<Position>)
    ensures
        r == (match c {
            Some(f) => Some(Position::Prenom),
            None => None,
        }),
{
    match c {
        Some(f) => Some(Position::from_storage(f)),
        None => None,
    }
}

fn enc_possessive(v: Option<Possessive>) -> (r: Option<bool>)
    ensures
        r == (match v {
            Some(x) => Some(true),
            None => None,
        }),
{
    match v {
        Some(x) => Some(x.to_storage()),
        None => None,
    }
}

fn dec_possessive(c: Option<bool>) -> (r: Option<Possessive>)
    ensures
        r == (match c {
            Some(f) => Some(Possessive::Yes),
            None => None,
        }),
{
    match c {
        Some(f) => Some(Possessive::from_storage(f)),
        None => None,
    }
}

fn enc_relative(v: Option<Relative>) -> (r: Option<bool>)
    ensures
        r == (match v {
            Some(x) => Some(true),
            None => None,
        }),
{
    match v {
        Some(x) => Some(x.to_storage()),
        None => None,
    }
}

fn dec_relative(c: Option<bool>) -> (r: Option<Relative>)
    ensures
        r == (match c {
            Some(f) => Some(Relative::Rel),
            None => None,
        }),
{
    match c {
        Some(f) => Some(Relative::from_storage(f)),
        None => None,
    }
}

fn enc_verb_form(v: Option<VerbForm>) -> (r: Option<bool>)
    ensures
        r == (match v {
            Some(x) => Some(true),
            None => None,
        }),
{
    match v {
        Some(x) => Some(x.to_storage()),
        None => None,
    }
}

fn dec_verb_form(c: Option<bool>) -> (r: Option<VerbForm>)
    ensures
        r == (match c {
            Some(f) => Some(VerbForm::Verbnoun),
            None => None,
        }),
{
    match c {
        Some(f) => Some(VerbForm::from_storage(f)),
        None => None,
    }
}

/// Encode a domain entry into its storage form.
pub fn convert_text_to_sqlite(text_entry: LecsiconEntry) -> (r: SqliteLecsiconEntry)
    ensures
        r@ == storage_view_of(text_entry@),
{
    let r = SqliteLecsiconEntry {
        id: text_entry.id,
        word: text_entry.word,
        lemma: text_entry.lemma,
        tag: enc_tag(text_entry.tag),
        adposition_type: enc_adposition_type(text_entry.adposition_type),
        definite: enc_definite(text_entry.definite),
        degree: enc_degree(text_entry.degree),
        gender: enc_gender(text_entry.gender),
        mood: enc_mood(text_entry.mood),
        mutation: enc_mutation(text_entry.mutation),
        name_type: enc_name_type(text_entry.name_type),
        number: enc_number(text_entry.number),
        number_form: enc_number_form(text_entry.number_form),
        number_type: enc_number_type(text_entry.number_type),
        person: enc_person(text_entry.person),
        polarity: enc_polarity(text_entry.polarity),
        polite: enc_polite(text_entry.polite),
        position: enc_position(text_entry.position),
        possessive: enc_possessive(text_entry.possessive),
        pronoun_type: enc_pronoun_type(text_entry.pronoun_type),
        relative: enc_relative(text_entry.relative),
        style: enc_style(text_entry.style),
        tense: enc_tense(text_entry.tense),
        verb_form: enc_verb_form(text_entry.verb_form),
    };
    proof {
        assert(r@ =~= storage_view_of(text_entry@));
    }
    r
}

/// Decode a storage row back into a domain entry; the first unrecognized
/// stored index aborts the read.
#[verifier::rlimit(100)]
pub fn convert_sqlite_to_text(sqlite_entry: SqliteLecsiconEntry) -> (r: Result<
    LecsiconEntry,
    UnrecognizedCode,
>)
    ensures
        decode_storage_view(sqlite_entry@) is Ok ==> (r matches Ok(e) && e@ == decode_storage_view(
            sqlite_entry@,
        )->Ok_0),
        decode_storage_view(sqlite_entry@) is Err ==> r == Err::<LecsiconEntry, UnrecognizedCode>(
            decode_storage_view(sqlite_entry@)->Err_0,
        ),
{
    let tag = match dec_tag(sqlite_entry.tag) {
        Ok(v) => v,
        Err(e) => {
            return Err(e);
        },
    };
    let degree = match dec_degree(sqlite_entry.degree) {
        Ok(v) => v,
        Err(e) => {
            return Err(e);
        },
    };
    let gender = match dec_gender(sqlite_entry.gender) {
        Ok(v) => v,
        Err(e) => {
            return Err(e);
        },
    };
    let mood = match dec_mood(sqlite_entry.mood) {
        Ok(v) => v,
        Err(e) => {
            return Err(e);
        },
    };
    let mutation = match dec_mutation(sqlite_entry.mutation) {
        Ok(v) => v,
        Err(e) => {
            return Err(e);
        },
    };
    let name_type = match dec_name_type(sqlite_entry.name_type) {
        Ok(v) => v,
        Err(e) => {
            return Err(e);
        },
    };
    let number = match dec_number(sqlite_entry.number) {
        Ok(v) => v,
        Err(e) => {
            return Err(e);
        },
    };
    let number_type = match dec_number_type(sqlite_entry.number_type) {
        Ok(v) => v,
        Err(e) => {
            return Err(e);
        },
    };
    let person = match dec_person(sqlite_entry.person) {
        Ok(v) => v,
        Err(e) => {
            return Err(e);
        },
    };
    let polite = match dec_polite(sqlite_entry.polite) {
        Ok(v) => v,
        Err(e) => {
            return Err(e);
        },
    };
    let pronoun_type = match dec_pronoun_type(sqlite_entry.pronoun_type) {
        Ok(v) => v,
        Err(e) => {
            return Err(e);
        },
    };
    let style = match dec_style(sqlite_entry.style) {
        Ok(v) => v,
        Err(e) => {
            return Err(e);
        },
    };
    let tense = match dec_tense(sqlite_entry.tense) {
        Ok(v) => v,
        Err(e) => {
            return Err(e);
        },
    };
    let r = LecsiconEntry {
        id: sqlite_entry.id,
        word: sqlite_entry.word,
        lemma: sqlite_entry.lemma,
        tag,
        adposition_type: dec_adposition_type(sqlite_entry.adposition_type),
        definite: dec_definite(sqlite_entry.definite),
        degree,
        gender,
        mood,
        mutation,
        name_type,
        number,
        number_form: dec_number_form(sqlite_entry.number_form),
        number_type,
        person,
        polarity: dec_polarity(sqlite_entry.polarity),
        polite,
        position: dec_position(sqlite_entry.position),
        possessive: dec_possessive(sqlite_entry.possessive),
        pronoun_type,
        relative: dec_relative(sqlite_entry.relative),
        style,
        tense,
        verb_form: dec_verb_form(sqlite_entry.verb_form),
    };
    proof {
        assert(decode_storage_view(sqlite_entry@) is Ok);
        assert(r@ =~= decode_storage_view(sqlite_entry@)->Ok_0);
    }
    Ok(r)
}

/// Encode a whole parsed lexicon for storage, keeping its order.
pub fn convert_csv_to_sqlite_format(data: Vec<LecsiconEntry>) -> (r: Vec<SqliteLecsiconEntry>)
    ensures
        r@.len() == data@.len(),
        forall|i: int| 0 <= i < data@.len() ==> #[trigger] r@[i]@ == storage_view_of(data@[i]@),
{
    let ghost orig = data@;
    let mut data = data;
    let mut out: Vec<SqliteLecsiconEntry> = Vec::new();
    while data.len() > 0
        invariant
            out@.len() + data@.len() == orig.len(),
            forall|k: int| 0 <= k < data@.len() ==> #[trigger] data@[k] == orig[out@.len() + k],
            forall|i: int| 0 <= i < out@.len() ==> #[trigger] out@[i]@ == storage_view_of(orig[i]@),
        decreases data@.len(),
    {
        let e = data.remove(0);
        out.push(convert_text_to_sqlite(e));
    }
    out
}

/// Encoding then decoding a whole entry restores it exactly, whatever its
/// fields hold: the two directions of every axis table agree.
#[verifier::rlimit(100)]
pub proof fn lemma_storage_round_trip(e: EntryView)
    ensures
        decode_storage_view(storage_view_of(e)) == Ok::<EntryView, UnrecognizedCode>(e),
{
    let s = storage_view_of(e);
    assert(decode_storage_view(s) is Ok);
    assert(decode_storage_view(s)->Ok_0 =~= e);
}

} // verus!

