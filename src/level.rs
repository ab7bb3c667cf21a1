use vstd::prelude::*;

verus! {

/// How much source context an interpreter can consume, from least to most.
#[derive(PartialEq, Eq, Structural, Clone, Copy, Debug, PartialOrd, Ord)]
pub enum SupportLevel {
    /// Nothing can be run.
    Unsupported,
    /// The current line only.
    Line,
    /// The selected block.
    Bloc,
    /// The whole file.
    File,
    /// The fragment, plus the imports of the file it uses.
    Import,
    /// The user named the interpreter explicitly; outranks every automatic level.
    Selected,
}

/// Position of a level in the capability order.
pub open spec fn rank(l: SupportLevel) -> nat {
    match l {
        SupportLevel::Unsupported => 0,
        SupportLevel::Line => 1,
        SupportLevel::Bloc => 2,
        SupportLevel::File => 3,
        SupportLevel::Import => 4,
        SupportLevel::Selected => 5,
    }
}

/// `a` is strictly below `b` in the capability order.
pub open spec fn level_lt(a: SupportLevel, b: SupportLevel) -> bool {
    rank(a) < rank(b)
}

impl SupportLevel {
    /// Position of this level in the capability order.
    pub fn rank(&self) -> (r: u8)
        ensures
            r as nat == rank(*self),
    {
        match self {
            SupportLevel::Unsupported => 0,
            SupportLevel::Line => 1,
            SupportLevel::Bloc => 2,
            SupportLevel::File => 3,
            SupportLevel::Import => 4,
            SupportLevel::Selected => 5,
        }
    }

    /// Whether this level is strictly below `other`.
    pub fn lt(&self, other: &SupportLevel) -> (r: bool)
        ensures
            r == level_lt(*self, *other),
    {
        self.rank() < other.rank()
    }

    /// Whether this level is at least `other`.
    pub fn at_least(&self, other: &SupportLevel) -> (r: bool)
        ensures
            r == !level_lt(*self, *other),
    {
        self.rank() >= other.rank()
    }

    /// The level's name, as shown to the user.
    pub fn name(&self) -> (r: &'static str)
        ensures
            r@ == level_name(*self),
    {
        match self {
            SupportLevel::Unsupported => "Unsupported",
            SupportLevel::Line => "Line",
            SupportLevel::Bloc => "Bloc",
            SupportLevel::File => "File",
            SupportLevel::Import => "Import",
            SupportLevel::Selected => "Selected",
        }
    }
}

/// The name under which a level is shown.
pub open spec fn level_name(l: SupportLevel) -> Seq<char> {
    match l {
        SupportLevel::Unsupported => "Unsupported"@,
        SupportLevel::Line => "Line"@,
        SupportLevel::Bloc => "Bloc"@,
        SupportLevel::File => "File"@,
        SupportLevel::Import => "Import"@,
        SupportLevel::Selected => "Selected"@,
    }
}

/// The capability order is a strict total order: irreflexive, transitive,
/// and any two distinct levels are comparable; `Unsupported` is its least
/// element and `Selected` its greatest.
pub proof fn lemma_level_total_order(a: SupportLevel, b: SupportLevel, c: SupportLevel)
    ensures
        !level_lt(a, a),
        level_lt(a, b) && level_lt(b, c) ==> level_lt(a, c),
        level_lt(a, b) ==> !level_lt(b, a),
        a != b ==> (level_lt(a, b) || level_lt(b, a)),
        a != SupportLevel::Unsupported ==> level_lt(SupportLevel::Unsupported, a),
        a != SupportLevel::Selected ==> level_lt(a, SupportLevel::Selected),
{
}

} // verus!
