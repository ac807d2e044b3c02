//! The closed enumerations the compiler reports, each with the fixed text
//! it is written as.

use vstd::prelude::*;

verus! {

/// A capability marker of a struct type.
#[derive(Clone, Copy, Debug, PartialEq, Eq, Structural)]
pub enum Ability {
    Copy,
    Drop,
    Store,
    Key,
    /// A marker this library has no name for.
    Unknown,
}

impl Ability {
    /// The text an ability is written as.
    pub open spec fn tag(self) -> Seq<char> {
        match self {
            Ability::Copy => "Copy"@,
            Ability::Drop => "Drop"@,
            Ability::Store => "Store"@,
            Ability::Key => "Key"@,
            Ability::Unknown => "Unknown"@,
        }
    }

    pub fn name(self) -> (text: &'static str)
        ensures
            text@ == self.tag(),
    {
        match self {
            Ability::Copy => "Copy",
            Ability::Drop => "Drop",
            Ability::Store => "Store",
            Ability::Key => "Key",
            Ability::Unknown => "Unknown",
        }
    }

    /// The ability that `text` names; [`Ability::Unknown`] for any other text.
    pub open spec fn of_name(text: Seq<char>) -> Ability {
        if text == "Copy"@ {
            Ability::Copy
        } else if text == "Drop"@ {
            Ability::Drop
        } else if text == "Store"@ {
            Ability::Store
        } else if text == "Key"@ {
            Ability::Key
        } else {
            Ability::Unknown
        }
    }

    /// Reads an ability from the text the compiler reports it as.
    pub fn from_name(text: &str) -> (ability: Ability)
        ensures
            ability == Self::of_name(text@),
    {
        let given = text.to_string();
        if given == "Copy".to_string() {
            Ability::Copy
        } else if given == "Drop".to_string() {
            Ability::Drop
        } else if given == "Store".to_string() {
            Ability::Store
        } else if given == "Key".to_string() {
            Ability::Key
        } else {
            Ability::Unknown
        }
    }
}

/// Reading the text of an ability gives the ability back.
pub proof fn lemma_ability_names_round_trip(ability: Ability)
    ensures
        Ability::of_name(ability.tag()) == ability,
{
    reveal_strlit("Copy");
    reveal_strlit("Drop");
    reveal_strlit("Store");
    reveal_strlit("Key");
    reveal_strlit("Unknown");
    assert("Copy"@[0] == 'C');
    assert("Drop"@[0] == 'D');
    assert("Store"@[0] == 'S');
    assert("Key"@[0] == 'K');
    assert("Unknown"@[0] == 'U');
}

/// Who may call a function.
#[derive(Clone, Copy, Debug, PartialEq, Eq, Structural)]
pub enum Visibility {
    Private,
    Public,
    Friend,
    /// A visibility this library has no name for.
    Unknown,
}

impl Visibility {
    /// The text a visibility is written as.
    pub open spec fn tag(self) -> Seq<char> {
        match self {
            Visibility::Private => "Private"@,
            Visibility::Public => "Public"@,
            Visibility::Friend => "Friend"@,
            Visibility::Unknown => "Unknown"@,
        }
    }

    pub fn name(self) -> (text: &'static str)
        ensures
            text@ == self.tag(),
    {
        match self {
            Visibility::Private => "Private",
            Visibility::Public => "Public",
            Visibility::Friend => "Friend",
            Visibility::Unknown => "Unknown",
        }
    }
}

/// The calling convention of a function.
#[derive(Clone, Copy, Debug, PartialEq, Eq, Structural)]
pub enum FunctionKind {
    Regular,
    Inline,
    Entry,
    /// A kind this library has no name for.
    Unknown,
}

impl FunctionKind {
    /// The text a function kind is written as.
    pub open spec fn tag(self) -> Seq<char> {
        match self {
            FunctionKind::Regular => "Regular"@,
            FunctionKind::Inline => "Inline"@,
            FunctionKind::Entry => "Entry"@,
            FunctionKind::Unknown => "Unknown"@,
        }
    }

    pub fn name(self) -> (text: &'static str)
        ensures
            text@ == self.tag(),
    {
        match self {
            FunctionKind::Regular => "Regular",
            FunctionKind::Inline => "Inline",
            FunctionKind::Entry => "Entry",
            FunctionKind::Unknown => "Unknown",
        }
    }
}

} // verus!
