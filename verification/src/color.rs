//! The named colors a project may choose as its accent.

use vstd::prelude::*;

verus! {

/// A named color, persisted in a descriptor as its hex string.
#[derive(Debug, Clone, Copy, PartialEq, Eq, Structural)]
pub enum Color {
    Black,
    White,
    Red,
    Green,
    Blue,
    Yellow,
    Cyan,
    Magenta,
    Gray,
    Silver,
    Maroon,
    Olive,
    Lime,
    Navy,
    Teal,
    Purple,
    Orange,
    Brown,
    Pink,
    Gold,
}

impl Color {
    /// The `#RRGGBB` form of each color.
    pub open spec fn hex(self) -> Seq<char> {
        match self {
            Color::Black => "#000000"@,
            Color::White => "#FFFFFF"@,
            Color::Red => "#FF0000"@,
            Color::Green => "#008000"@,
            Color::Blue => "#0000FF"@,
            Color::Yellow => "#FFFF00"@,
            Color::Cyan => "#00FFFF"@,
            Color::Magenta => "#FF00FF"@,
            Color::Gray => "#808080"@,
            Color::Silver => "#C0C0C0"@,
            Color::Maroon => "#800000"@,
            Color::Olive => "#808000"@,
            Color::Lime => "#00FF00"@,
            Color::Navy => "#000080"@,
            Color::Teal => "#008080"@,
            Color::Purple => "#800080"@,
            Color::Orange => "#FFA500"@,
            Color::Brown => "#A52A2A"@,
            Color::Pink => "#FFC0CB"@,
            Color::Gold => "#FFD700"@,
        }
    }

    /// Every color, in declaration order.
    pub open spec fn all() -> Seq<Color> {
        seq![
            Color::Black,
            Color::White,
            Color::Red,
            Color::Green,
            Color::Blue,
            Color::Yellow,
            Color::Cyan,
            Color::Magenta,
            Color::Gray,
            Color::Silver,
            Color::Maroon,
            Color::Olive,
            Color::Lime,
            Color::Navy,
            Color::Teal,
            Color::Purple,
            Color::Orange,
            Color::Brown,
            Color::Pink,
            Color::Gold,
        ]
    }

    /// Renders the color as its hex string.
    pub fn into_hex(&self) -> (hex: String)
        ensures
            hex@ == self.hex(),
    {
        match self {
            Color::Black => "#000000".to_owned(),
            Color::White => "#FFFFFF".to_owned(),
            Color::Red => "#FF0000".to_owned(),
            Color::Green => "#008000".to_owned(),
            Color::Blue => "#0000FF".to_owned(),
            Color::Yellow => "#FFFF00".to_owned(),
            Color::Cyan => "#00FFFF".to_owned(),
            Color::Magenta => "#FF00FF".to_owned(),
            Color::Gray => "#808080".to_owned(),
            Color::Silver => "#C0C0C0".to_owned(),
            Color::Maroon => "#800000".to_owned(),
            Color::Olive => "#808000".to_owned(),
            Color::Lime => "#00FF00".to_owned(),
            Color::Navy => "#000080".to_owned(),
            Color::Teal => "#008080".to_owned(),
            Color::Purple => "#800080".to_owned(),
            Color::Orange => "#FFA500".to_owned(),
            Color::Brown => "#A52A2A".to_owned(),
            Color::Pink => "#FFC0CB".to_owned(),
            Color::Gold => "#FFD700".to_owned(),
        }
    }

    /// The whole catalog, for offering a choice.
    pub fn to_vec() -> (all: Vec<Color>)
        ensures
            all@ == Color::all(),
    {
        let all = vec![
            Color::Black,
            Color::White,
            Color::Red,
            Color::Green,
            Color::Blue,
            Color::Yellow,
            Color::Cyan,
            Color::Magenta,
            Color::Gray,
            Color::Silver,
            Color::Maroon,
            Color::Olive,
            Color::Lime,
            Color::Navy,
            Color::Teal,
            Color::Purple,
            Color::Orange,
            Color::Brown,
            Color::Pink,
            Color::Gold,
        ];
        assert(all@ =~= Color::all());
        all
    }
}

} // verus!
