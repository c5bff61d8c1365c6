//! The order book: the set of positions under automatic management, keyed
//! by position id. Keys are unique; insertion order is preserved so that
//! iteration is deterministic. The position manager is its single owner.

use vstd::prelude::*;
use crate::position::Position;

verus! {

/// No two positions share an id.
pub open spec fn ids_unique(s: Seq<Position>) -> bool {
    forall|i: int, j: int| 0 <= i < j < s.len() ==> s[i].id != s[j].id
}

/// No two positions share a mint: at most one position per mint under
/// management.
pub open spec fn mints_unique(s: Seq<Position>) -> bool {
    forall|i: int, j: int| 0 <= i < j < s.len()
        ==> s[i].mint_identifier@ != s[j].mint_identifier@
}

pub struct OrderBook {
    pub positions: Vec<Position>,
}

impl OrderBook {
    pub open spec fn wf(&self) -> bool {
        &&& ids_unique(self.positions@)
        &&& mints_unique(self.positions@)
    }

    pub open spec fn contents(&self) -> Seq<Position> {
        self.positions@
    }

    pub open spec fn contains_id(&self, id: u64) -> bool {
        exists|i: int| 0 <= i < self.positions@.len() && (#[trigger] self.positions@[i]).id == id
    }

    pub open spec fn contains_mint(&self, mint: Seq<char>) -> bool {
        exists|i: int|
            0 <= i < self.positions@.len() && (#[trigger] self.positions@[i]).mint_identifier@
                == mint
    }

    /// Whether some position under management has this mint.
    pub fn has_mint(&self, mint: &String) -> (r: bool)
        ensures
            r == self.contains_mint(mint@),
    {
        let n = self.positions.len();
        let mut i: usize = 0;
        while i < n
            invariant
                n == self.positions@.len(),
                i <= n,
                forall|j: int| 0 <= j < i
                    ==> (#[trigger] self.positions@[j]).mint_identifier@ != mint@,
            decreases n - i,
        {
            if self.positions[i].mint_identifier.eq(mint) {
                return true;
            }
            i += 1;
        }
        false
    }

    pub fn new() -> (r: OrderBook)
        ensures
            r.wf(),
            r.contents() == Seq::<Position>::empty(),
    {
        let r = OrderBook { positions: Vec::new() };
        proof {
            assert(r.contents() =~= Seq::<Position>::empty());
        }
        r
    }

    pub fn len(&self) -> (r: usize)
        ensures
            r == self.contents().len(),
    {
        self.positions.len()
    }

    /// The index of the position with `id`, if it is under management.
    pub fn index_of(&self, id: u64) -> (r: Option<usize>)
        ensures
            r matches Some(i) ==> i < self.contents().len() && self.contents()[i as int].id == id,
            r is None <==> !self.contains_id(id),
    {
        let n = self.positions.len();
        let mut i: usize = 0;
        while i < n
            invariant
                n == self.positions@.len(),
                i <= n,
                forall|j: int| 0 <= j < i ==> (#[trigger] self.positions@[j]).id != id,
            decreases n - i,
        {
            if self.positions[i].id == id {
                return Some(i);
            }
            i += 1;
        }
        None
    }

    /// Admit a new position; its id and its mint must both be fresh.
    pub fn push_new(&mut self, p: Position)
        requires
            old(self).wf(),
            !old(self).contains_id(p.id),
            !old(self).contains_mint(p.mint_identifier@),
        ensures
            final(self).wf(),
            final(self).contents() == old(self).contents().push(p),
    {
        proof {
            assert(forall|i: int| 0 <= i < self.positions@.len()
                ==> (#[trigger] self.positions@[i]).id != p.id);
            assert(forall|i: int| 0 <= i < self.positions@.len()
                ==> (#[trigger] self.positions@[i]).mint_identifier@ != p.mint_identifier@);
        }
        self.positions.push(p);
    }

    /// Remove the position at index `i` (confirmed sale, failed entry, or
    /// abandonment) and hand it to the caller — never a silent drop.
    pub fn remove_at(&mut self, i: usize) -> (r: Position)
        requires
            old(self).wf(),
            i < old(self).contents().len(),
        ensures
            final(self).wf(),
            r == old(self).contents()[i as int],
            final(self).contents() == old(self).contents().remove(i as int),
    {
        let r = self.positions.remove(i);
        proof {
            let pre = old(self).contents();
            let post = self.contents();
            assert(forall|a: int, b: int| 0 <= a < b < post.len()
                ==> post[a].id != post[b].id && post[a].mint_identifier@
                != post[b].mint_identifier@) by {
                assert(forall|a: int| 0 <= a < post.len() ==> #[trigger] post[a] == if a < i {
                    pre[a]
                } else {
                    pre[a + 1]
                });
            }
        }
        r
    }
}

} // verus!
