//! Directories by their path components.
use vstd::prelude::*;

use crate::text::same_text;

verus! {

/// A directory, as the list of its path components.
#[derive(Debug)]
pub struct WorkspacePath {
    pub components: Vec<String>,
}

impl View for WorkspacePath {
    type V = Seq<Seq<char>>;

    open spec fn view(&self) -> Seq<Seq<char>> {
        self.components@.map_values(|c: String| c@)
    }
}

impl Clone for WorkspacePath {
    fn clone(&self) -> (copy: Self)
        ensures
            copy@ == self@,
    {
        let mut components: Vec<String> = Vec::new();
        let mut i: usize = 0;
        while i < self.components.len()
            invariant
                i <= self.components@.len(),
                components@ == self.components@.take(i as int),
            decreases self.components@.len() - i,
        {
            components.push(self.components[i].clone());
            proof {
                assert(self.components@.take(i + 1) =~= self.components@.take(i as int).push(
                    self.components@[i as int],
                ));
            }
            i += 1;
        }
        proof {
            assert(components@ =~= self.components@);
        }
        WorkspacePath { components }
    }
}

impl WorkspacePath {
    /// Whether two paths have the same components.
    pub fn same_as(&self, other: &WorkspacePath) -> (same: bool)
        ensures
            same == (self@ == other@),
    {
        if self.components.len() != other.components.len() {
            assert(self@.len() != other@.len());
            return false;
        }
        let mut i: usize = 0;
        while i < self.components.len()
            invariant
                self.components@.len() == other.components@.len(),
                i <= self.components@.len(),
                forall|j: int| 0 <= j < i ==> #[trigger] self@[j] == other@[j],
            decreases self.components@.len() - i,
        {
            assert(self@[i as int] == self.components@[i as int]@);
            assert(other@[i as int] == other.components@[i as int]@);
            if !same_text(self.components[i].as_str(), other.components[i].as_str()) {
                return false;
            }
            i += 1;
        }
        assert(self@ =~= other@);
        true
    }
}

/// Law: two directories are the same exactly where they have the same components, in the
/// same order.
pub proof fn law_directories_go_by_components(a: WorkspacePath, b: WorkspacePath)
    ensures
        a@ == b@ <==> (a.components@.len() == b.components@.len() && forall|i: int|
            0 <= i < a.components@.len() ==> (#[trigger] a.components@[i])@ == b.components@[i]@),
{
    if a@ == b@ {
        assert(a@.len() == b@.len());
        assert forall|i: int| 0 <= i < a.components@.len() implies (#[trigger] a.components@[i])@
            == b.components@[i]@ by {
            assert(a@[i] == b@[i]);
        }
    }
    if a.components@.len() == b.components@.len() && forall|i: int|
        0 <= i < a.components@.len() ==> (#[trigger] a.components@[i])@ == b.components@[i]@ {
        assert(a@ =~= b@);
    }
}

} // verus!
