//! The ordered list of protocol revisions.

use vstd::prelude::*;

verus! {

/// A protocol upgrade. The variants are listed oldest first, and `<` on
/// them follows the list.
#[derive(Clone, Copy, Debug, PartialEq, Eq, PartialOrd, Ord, Structural)]
pub enum Revision {
    Frontier,
    Homestead,
    Tangerine,
    Spurious,
    Byzantium,
    Constantinople,
    Petersburg,
    Istanbul,
    Berlin,
    London,
    Shanghai,
}

impl Revision {
    /// The position of the revision in the upgrade history, from zero.
    pub open spec fn rank(self) -> nat {
        match self {
            Revision::Frontier => 0,
            Revision::Homestead => 1,
            Revision::Tangerine => 2,
            Revision::Spurious => 3,
            Revision::Byzantium => 4,
            Revision::Constantinople => 5,
            Revision::Petersburg => 6,
            Revision::Istanbul => 7,
            Revision::Berlin => 8,
            Revision::London => 9,
            Revision::Shanghai => 10,
        }
    }

    /// Whether `self` is `other` or a later revision.
    pub open spec fn since(self, other: Revision) -> bool {
        self.rank() >= other.rank()
    }

    /// The position of the revision in the upgrade history, from zero.
    pub fn index(self) -> (r: u8)
        ensures
            r == self.rank(),
    {
        match self {
            Revision::Frontier => 0,
            Revision::Homestead => 1,
            Revision::Tangerine => 2,
            Revision::Spurious => 3,
            Revision::Byzantium => 4,
            Revision::Constantinople => 5,
            Revision::Petersburg => 6,
            Revision::Istanbul => 7,
            Revision::Berlin => 8,
            Revision::London => 9,
            Revision::Shanghai => 10,
        }
    }

    /// Whether `self` is `other` or a later revision.
    pub fn at_least(self, other: Revision) -> (r: bool)
        ensures
            r == self.since(other),
    {
        self.index() >= other.index()
    }
}

/// The order of revisions is total: of two revisions each is at least the
/// other only if they are the same, and one of them is at least the other.
pub proof fn revision_order_is_total(a: Revision, b: Revision)
    ensures
        a.since(b) || b.since(a),
        a.since(b) && b.since(a) ==> a == b,
{
}

/// The order of revisions is transitive.
pub proof fn revision_order_is_transitive(a: Revision, b: Revision, c: Revision)
    requires
        a.since(b),
        b.since(c),
    ensures
        a.since(c),
{
}

} // verus!
