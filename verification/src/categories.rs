//! The subject areas a project can be filed under.

use vstd::prelude::*;

verus! {

/// A subject area; a descriptor lists one or more of them.
#[derive(Debug, Clone, Copy, PartialEq, Eq, Structural)]
pub enum Category {
    Aerospace,
    Business,
    ComputerScience,
    Economics,
    Education,
    Engineering,
    Geography,
    HealthMedicine,
    History,
    LanguageArts,
    LiberalArts,
    Mathematics,
    Politics,
    Psychology,
    Science,
}

impl Category {
    /// Every value of the catalog, in declaration order.
    pub open spec fn all() -> Seq<Category> {
        seq![
            Category::Aerospace,
            Category::Business,
            Category::ComputerScience,
            Category::Economics,
            Category::Education,
            Category::Engineering,
            Category::Geography,
            Category::HealthMedicine,
            Category::History,
            Category::LanguageArts,
            Category::LiberalArts,
            Category::Mathematics,
            Category::Politics,
            Category::Psychology,
            Category::Science,
        ]
    }

    /// The name under which a value is persisted and shown.
    pub open spec fn label(self) -> Seq<char> {
        match self {
            Category::Aerospace => "Aerospace"@,
            Category::Business => "Business"@,
            Category::ComputerScience => "ComputerScience"@,
            Category::Economics => "Economics"@,
            Category::Education => "Education"@,
            Category::Engineering => "Engineering"@,
            Category::Geography => "Geography"@,
            Category::HealthMedicine => "HealthMedicine"@,
            Category::History => "History"@,
            Category::LanguageArts => "LanguageArts"@,
            Category::LiberalArts => "LiberalArts"@,
            Category::Mathematics => "Mathematics"@,
            Category::Politics => "Politics"@,
            Category::Psychology => "Psychology"@,
            Category::Science => "Science"@,
        }
    }

    /// The whole catalog, for offering a choice.
    pub fn to_vec() -> (all: Vec<Category>)
        ensures
            all@ == Category::all(),
    {
        let all = vec![
            Category::Aerospace,
            Category::Business,
            Category::ComputerScience,
            Category::Economics,
            Category::Education,
            Category::Engineering,
            Category::Geography,
            Category::HealthMedicine,
            Category::History,
            Category::LanguageArts,
            Category::LiberalArts,
            Category::Mathematics,
            Category::Politics,
            Category::Psychology,
            Category::Science,
        ];
        assert(all@ =~= Category::all());
        all
    }

    /// Renders the value as its name.
    pub fn name(&self) -> (name: String)
        ensures
            name@ == self.label(),
    {
        match self {
            Category::Aerospace => "Aerospace".to_owned(),
            Category::Business => "Business".to_owned(),
            Category::ComputerScience => "ComputerScience".to_owned(),
            Category::Economics => "Economics".to_owned(),
            Category::Education => "Education".to_owned(),
            Category::Engineering => "Engineering".to_owned(),
            Category::Geography => "Geography".to_owned(),
            Category::HealthMedicine => "HealthMedicine".to_owned(),
            Category::History => "History".to_owned(),
            Category::LanguageArts => "LanguageArts".to_owned(),
            Category::LiberalArts => "LiberalArts".to_owned(),
            Category::Mathematics => "Mathematics".to_owned(),
            Category::Politics => "Politics".to_owned(),
            Category::Psychology => "Psychology".to_owned(),
            Category::Science => "Science".to_owned(),
        }
    }
}

} // verus!
