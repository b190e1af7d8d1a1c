//! The closed set of genre classes and their ordinal positions.

use vstd::prelude::*;
use vstd::string::*;

verus! {

/// Number of genre classes; every distribution has this many components.
pub const CLASS_COUNT: usize = 5;

/// What a `CustomError` says when an index names no class.
pub const WRONG_MAJOR_CLASS: &'static str =
    "Classification unsuccesfull, wrong major class calculation";

/// A genre label. The ordinal position of a class is the index of its
/// probability in every distribution.
#[derive(Debug, Clone, Copy, PartialEq, Eq, Structural)]
pub enum Class {
    Rock,
    HipHop,
    Electronic,
    Pop,
    Classical,
}

/// Raised when the majority class cannot be named; holds the reason.
#[derive(Debug)]
pub struct CustomError(pub String);

impl Class {
    /// The class at ordinal position `i`; `Classical` stands for every
    /// position past the last.
    pub open spec fn at(i: int) -> Class {
        if i == 0 {
            Class::Rock
        } else if i == 1 {
            Class::HipHop
        } else if i == 2 {
            Class::Electronic
        } else if i == 3 {
            Class::Pop
        } else {
            Class::Classical
        }
    }

    /// Ordinal position of the class.
    pub open spec fn position(self) -> int {
        match self {
            Class::Rock => 0,
            Class::HipHop => 1,
            Class::Electronic => 2,
            Class::Pop => 3,
            Class::Classical => 4,
        }
    }

    /// Name of the genre as it is shown.
    pub open spec fn text(self) -> Seq<char> {
        match self {
            Class::Rock => "Rock"@,
            Class::HipHop => "Hip-Hop"@,
            Class::Electronic => "Electronic"@,
            Class::Pop => "Pop"@,
            Class::Classical => "Classical"@,
        }
    }

    /// All classes in ordinal order.
    pub fn all() -> (classes: [Class; 5])
        ensures
            forall|i: int| 0 <= i < 5 ==> classes[i] == Class::at(i),
    {
        [Class::Rock, Class::HipHop, Class::Electronic, Class::Pop, Class::Classical]
    }

    /// Ordinal position of the class, the index of its probability.
    pub fn ordinal(&self) -> (i: usize)
        ensures
            i == self.position(),
            i < CLASS_COUNT,
            Class::at(i as int) == *self,
    {
        match self {
            Class::Rock => 0,
            Class::HipHop => 1,
            Class::Electronic => 2,
            Class::Pop => 3,
            Class::Classical => 4,
        }
    }

    /// The class at ordinal position `index`; an index of 5 or more names no
    /// class.
    pub fn from_index(index: usize) -> (r: Result<Class, CustomError>)
        ensures
            index < 5 ==> r == Ok::<Class, CustomError>(Class::at(index as int)),
            index >= 5 ==> r is Err && r->Err_0.0@ == WRONG_MAJOR_CLASS@,
    {
        match index {
            0 => Ok(Class::Rock),
            1 => Ok(Class::HipHop),
            2 => Ok(Class::Electronic),
            3 => Ok(Class::Pop),
            4 => Ok(Class::Classical),
            _ => Err(CustomError(String::from_str(WRONG_MAJOR_CLASS))),
        }
    }

    /// Name of the genre as it is shown.
    pub fn to_string(&self) -> (s: String)
        ensures
            s@ == self.text(),
    {
        let text = match self {
            Class::Rock => "Rock",
            Class::HipHop => "Hip-Hop",
            Class::Electronic => "Electronic",
            Class::Pop => "Pop",
            Class::Classical => "Classical",
        };
        String::from_str(text)
    }
}

/// Ordinal position and class determine each other.
pub proof fn lemma_class_positions(class: Class, i: int)
    ensures
        0 <= class.position() < 5,
        Class::at(class.position()) == class,
        0 <= i < 5 ==> Class::at(i).position() == i,
{
}

} // verus!
