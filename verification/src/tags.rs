//! Tags that describe what a project is about.

use vstd::prelude::*;

verus! {

/// A tag drawn from the fixed catalog.
#[derive(Debug, Clone, Copy, PartialEq, Eq, Structural)]
pub enum Tag {
    Aerospace,
    Business,
    ComputerScience,
    Economics,
    Education,
    Engineering,
    Geography,
    HealthMedicine,
    History,
    LanguageArts,
    LiberalArts,
    Mathematics,
    Politics,
    Psychology,
    Science,
}

impl Tag {
    /// Every value of the catalog, in declaration order.
    pub open spec fn all() -> Seq<Tag> {
        seq![
            Tag::Aerospace,
            Tag::Business,
            Tag::ComputerScience,
            Tag::Economics,
            Tag::Education,
            Tag::Engineering,
            Tag::Geography,
            Tag::HealthMedicine,
            Tag::History,
            Tag::LanguageArts,
            Tag::LiberalArts,
            Tag::Mathematics,
            Tag::Politics,
            Tag::Psychology,
            Tag::Science,
        ]
    }

    /// The name under which a value is persisted and shown.
    pub open spec fn label(self) -> Seq<char> {
        match self {
            Tag::Aerospace => "Aerospace"@,
            Tag::Business => "Business"@,
            Tag::ComputerScience => "ComputerScience"@,
            Tag::Economics => "Economics"@,
            Tag::Education => "Education"@,
            Tag::Engineering => "Engineering"@,
            Tag::Geography => "Geography"@,
            Tag::HealthMedicine => "HealthMedicine"@,
            Tag::History => "History"@,
            Tag::LanguageArts => "LanguageArts"@,
            Tag::LiberalArts => "LiberalArts"@,
            Tag::Mathematics => "Mathematics"@,
            Tag::Politics => "Politics"@,
            Tag::Psychology => "Psychology"@,
            Tag::Science => "Science"@,
        }
    }

    /// The whole catalog, for offering a choice.
    pub fn to_vec() -> (all: Vec<Tag>)
        ensures
            all@ == Tag::all(),
    {
        let all = vec![
            Tag::Aerospace,
            Tag::Business,
            Tag::ComputerScience,
            Tag::Economics,
            Tag::Education,
            Tag::Engineering,
            Tag::Geography,
            Tag::HealthMedicine,
            Tag::History,
            Tag::LanguageArts,
            Tag::LiberalArts,
            Tag::Mathematics,
            Tag::Politics,
            Tag::Psychology,
            Tag::Science,
        ];
        assert(all@ =~= Tag::all());
        all
    }

    /// Renders the value as its name.
    pub fn name(&self) -> (name: String)
        ensures
            name@ == self.label(),
    {
        match self {
            Tag::Aerospace => "Aerospace".to_owned(),
            Tag::Business => "Business".to_owned(),
            Tag::ComputerScience => "ComputerScience".to_owned(),
            Tag::Economics => "Economics".to_owned(),
            Tag::Education => "Education".to_owned(),
            Tag::Engineering => "Engineering".to_owned(),
            Tag::Geography => "Geography".to_owned(),
            Tag::HealthMedicine => "HealthMedicine".to_owned(),
            Tag::History => "History".to_owned(),
            Tag::LanguageArts => "LanguageArts".to_owned(),
            Tag::LiberalArts => "LiberalArts".to_owned(),
            Tag::Mathematics => "Mathematics".to_owned(),
            Tag::Politics => "Politics".to_owned(),
            Tag::Psychology => "Psychology".to_owned(),
            Tag::Science => "Science".to_owned(),
        }
    }
}

} // verus!
