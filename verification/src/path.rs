//! Owned virtual paths: an absolute path kept as its list of components,
//! immutable once constructed, with root, append and join operations.
use vstd::prelude::*;

verus! {

/// A virtual path, held as the sequence of its components from the root.
/// A component is any non-empty string; the separator is part of the
/// structure, not of the text, so a path can never be malformed.
pub struct Path_type {
    Components: Vec<String>,
}

impl View for Path_type {
    type V = Seq<Seq<char>>;

    closed spec fn view(&self) -> Seq<Seq<char>> {
        self.Components.deep_view()
    }
}

proof fn Lemma_deep_view_push(Before: Vec<String>, After: Vec<String>, Element: String)
    requires
        After@ == Before@.push(Element),
    ensures
        After.deep_view() == Before.deep_view().push(Element@),
{
    assert forall|Position: int|
        0 <= Position < After.deep_view().len() implies After.deep_view()[Position]
            == Before.deep_view().push(Element@)[Position] by {
        if Position < Before@.len() {
            assert(Before.deep_view()[Position] == Before@[Position]@);
        }
    }
    assert(After.deep_view() =~= Before.deep_view().push(Element@));
}

impl Path_type {
    /// The root path, which has no components.
    pub fn Get_root() -> (Result: Self)
        ensures
            Result@ == Seq::<Seq<char>>::empty(),
    {
        let Path = Path_type { Components: Vec::new() };
        proof {
            assert(Path@ =~= Seq::<Seq<char>>::empty());
        }
        Path
    }

    /// How many components the path has.
    pub fn Get_length(&self) -> (Result: usize)
        ensures
            Result == self@.len(),
    {
        self.Components.len()
    }

    /// The path extended by one more component, or `None` if the component
    /// is empty.
    pub fn Append(self, Component: &str) -> (Result: Option<Self>)
        ensures
            Component@.len() == 0 ==> Result is None,
            Component@.len() > 0 ==> (Result matches Some(Appended) && Appended@ == self@.push(
                Component@,
            )),
    {
        if Component.is_empty() {
            None
        } else {
            let Ghost(Old_components) = Ghost(self.Components);
            let mut Components = self.Components;
            Components.push(Component.to_owned());
            let Appended = Path_type { Components };
            proof {
                Lemma_deep_view_push(Old_components, Appended.Components, Appended.Components@.last());
                assert(Appended@ =~= Old_components.deep_view().push(Component@));
            }
            Some(Appended)
        }
    }

    /// The concatenation of this path and another.
    pub fn Join(self, Other: &Path_type) -> (Result: Self)
        ensures
            Result@ == self@ + Other@,
    {
        let Ghost(Left) = Ghost(self@);
        let mut Components = self.Components;
        let mut Index: usize = 0;
        while Index < Other.Components.len()
            invariant
                Index <= Other.Components.len(),
                Components.deep_view() =~= Left + Other@.take(Index as int),
            decreases Other.Components.len() - Index,
        {
            let Ghost(Previous) = Ghost(Components);
            let Element = Other.Components[Index].clone();
            proof {
                assert(Element@ == Other@[Index as int]);
            }
            Components.push(Element);
            Index = Index + 1;
            proof {
                Lemma_deep_view_push(Previous, Components, Components@.last());
                assert(Components.deep_view() =~= Left + Other@.take(Index as int));
            }
        }
        let Joined = Path_type { Components };
        proof {
            assert(Other@.take(Other@.len() as int) =~= Other@);
            assert(Joined@ =~= Left + Other@);
        }
        Joined
    }

    /// Whether two paths are made of the same components.
    pub fn Equals(&self, Other: &Path_type) -> (Result: bool)
        ensures
            Result == (self@ == Other@),
    {
        if self.Components.len() != Other.Components.len() {
            proof {
                assert(self@.len() != Other@.len());
            }
            return false;
        }
        let mut Index: usize = 0;
        while Index < self.Components.len()
            invariant
                Index <= self.Components.len(),
                self.Components.len() == Other.Components.len(),
                forall|Position: int|
                    0 <= Position < Index ==> self@[Position] == Other@[Position],
            decreases self.Components.len() - Index,
        {
            if !(self.Components[Index] == Other.Components[Index]) {
                proof {
                    assert(self@[Index as int] != Other@[Index as int]);
                }
                return false;
            }
            Index = Index + 1;
        }
        proof {
            assert(self@ =~= Other@);
        }
        true
    }

    /// A copy of the path with the same components.
    pub fn Duplicate(&self) -> (Result: Self)
        ensures
            Result@ == self@,
    {
        let mut Components: Vec<String> = Vec::new();
        let mut Index: usize = 0;
        while Index < self.Components.len()
            invariant
                Index <= self.Components.len(),
                Components.deep_view() =~= self@.take(Index as int),
            decreases self.Components.len() - Index,
        {
            let Ghost(Previous) = Ghost(Components);
            let Element = self.Components[Index].clone();
            proof {
                assert(Element@ == self@[Index as int]);
            }
            Components.push(Element);
            Index = Index + 1;
            proof {
                Lemma_deep_view_push(Previous, Components, Components@.last());
                assert(Components.deep_view() =~= self@.take(Index as int));
            }
        }
        let Duplicated = Path_type { Components };
        proof {
            assert(self@.take(self@.len() as int) =~= self@);
            assert(Duplicated@ =~= self@);
        }
        Duplicated
    }

    /// The path without its last component; the root is its own parent.
    pub fn Get_parent(self) -> (Result: Self)
        ensures
            self@.len() == 0 ==> Result@ == self@,
            self@.len() > 0 ==> Result@ == self@.drop_last(),
    {
        let Ghost(Old_view) = Ghost(self@);
        let mut Components = self.Components;
        if Components.len() > 0 {
            Components.pop();
        }
        let Parent = Path_type { Components };
        proof {
            if Old_view.len() > 0 {
                assert(Parent@ =~= Old_view.drop_last());
            } else {
                assert(Parent@ =~= Old_view);
            }
        }
        Parent
    }

    /// The component at the given position.
    pub fn Get_component(&self, Index: usize) -> (Result: &String)
        requires
            Index < self@.len(),
        ensures
            Result@ == self@[Index as int],
    {
        &self.Components[Index]
    }
}

} // verus!
