use vstd::prelude::*;

verus! {

/// A milestone of a run, in the order in which a run passes them.
#[derive(Debug, Clone, Copy, PartialEq, Eq, PartialOrd, Ord, Hash, Structural)]
pub enum Split {
    FirstStructure,
    SecondStructure,
    Blind,
    EyeSpy,
    EndEnter,
}

/// The kind of structure that a structure milestone was reached in.
#[derive(Debug, Clone, Copy, PartialEq, Eq, Hash, Structural)]
pub enum Structure {
    Bastion,
    Fortress,
}

/// The text that names a milestone, where there is one for the pairing.
pub open spec fn split_desc(split: Split, structure: Option<Structure>) -> Option<Seq<char>> {
    match split {
        Split::FirstStructure | Split::SecondStructure => match structure {
            Some(Structure::Bastion) => Some("Enter Bastion"@),
            Some(Structure::Fortress) => Some("Enter Fortress"@),
            None => None,
        },
        Split::Blind => Some("First Portal"@),
        Split::EyeSpy => Some("Enter Stronghold"@),
        Split::EndEnter => Some("Enter End"@),
    }
}

/// The icon of a milestone, where there is one for the pairing.
pub open spec fn split_emoji(split: Split, structure: Option<Structure>) -> Option<Seq<char>> {
    match split {
        Split::FirstStructure | Split::SecondStructure => match structure {
            Some(Structure::Bastion) => Some("\u{1F3F0}"@),
            Some(Structure::Fortress) => Some("\u{1F9F1}"@),
            None => None,
        },
        Split::Blind => Some("\u{1F300}"@),
        Split::EyeSpy => Some("\u{1F441}"@),
        Split::EndEnter => Some("\u{1F409}"@),
    }
}

impl Split {
    /// The text that names this milestone. The two structure milestones are
    /// named after the structure, and have no name without one.
    pub fn desc(&self, structure: &Option<Structure>) -> (r: Option<&'static str>)
        ensures
            r is Some == split_desc(*self, *structure) is Some,
            r is Some ==> r.unwrap()@ == split_desc(*self, *structure).unwrap(),
    {
        match self {
            Split::FirstStructure | Split::SecondStructure => match structure {
                Some(Structure::Bastion) => Some("Enter Bastion"),
                Some(Structure::Fortress) => Some("Enter Fortress"),
                None => None,
            },
            Split::Blind => Some("First Portal"),
            Split::EyeSpy => Some("Enter Stronghold"),
            Split::EndEnter => Some("Enter End"),
        }
    }

    /// The icon of this milestone. The two structure milestones show the
    /// structure, and have no icon without one.
    pub fn get_emoji(&self, structure: &Option<Structure>) -> (r: Option<&'static str>)
        ensures
            r is Some == split_emoji(*self, *structure) is Some,
            r is Some ==> r.unwrap()@ == split_emoji(*self, *structure).unwrap(),
    {
        match self {
            Split::FirstStructure | Split::SecondStructure => match structure {
                Some(Structure::Bastion) => Some("\u{1F3F0}"),
                Some(Structure::Fortress) => Some("\u{1F9F1}"),
                None => None,
            },
            Split::Blind => Some("\u{1F300}"),
            Split::EyeSpy => Some("\u{1F441}"),
            Split::EndEnter => Some("\u{1F409}"),
        }
    }
}

} // verus!
