//! The captions that one post's attachments were given.

use vstd::prelude::*;

verus! {

/// What a list of entries amounts to when a later entry for an identifier
/// replaces an earlier one.
pub open spec fn map_of(entries: Seq<(Seq<char>, Seq<char>)>) -> Map<Seq<char>, Seq<char>>
    decreases entries.len(),
{
    if entries.len() == 0 {
        Map::empty()
    } else {
        map_of(entries.drop_last()).insert(entries.last().0, entries.last().1)
    }
}

/// For each attachment identifier the caption it was given.
#[derive(Debug, PartialEq, Eq)]
pub struct CaptionMap {
    entries: Vec<(String, String)>,
}

impl CaptionMap {
    /// The entries as they were made, oldest first.
    pub closed spec fn entries(&self) -> Seq<(Seq<char>, Seq<char>)> {
        Seq::new(self.entries.len() as nat, |i: int| (self.entries[i].0@, self.entries[i].1@))
    }
}

impl View for CaptionMap {
    type V = Map<Seq<char>, Seq<char>>;

    closed spec fn view(&self) -> Map<Seq<char>, Seq<char>> {
        map_of(self.entries())
    }
}

impl CaptionMap {
    /// A map without captions.
    pub fn new() -> (r: CaptionMap)
        ensures
            r@ == Map::<Seq<char>, Seq<char>>::empty(),
    {
        let r = CaptionMap { entries: Vec::new() };
        assert(r.entries().len() == 0);
        r
    }

    /// Gives the attachment `id` the caption `caption`, in place of the one
    /// it had, if any.
    pub fn insert(&mut self, id: String, caption: String)
        ensures
            final(self)@ == old(self)@.insert(id@, caption@),
    {
        let ghost before = self.entries();
        self.entries.push((id, caption));
        proof {
            let after = self.entries();
            assert(after.drop_last() =~= before);
            assert(after.last() == (id@, caption@));
        }
    }

    /// The caption of the attachment `id`, if it has one.
    pub fn get(&self, id: &str) -> (r: Option<&String>)
        ensures
            match r {
                Some(c) => self@.contains_key(id@) && self@[id@] == c@,
                None => !self@.contains_key(id@),
            },
    {
        let ghost all = self.entries();
        let mut i: usize = self.entries.len();
        assert(all.take(i as int) =~= all);
        while i > 0
            invariant
                i <= self.entries.len(),
                all == self.entries(),
                map_of(all).contains_key(id@) == map_of(all.take(i as int)).contains_key(id@),
                map_of(all).contains_key(id@) ==> map_of(all)[id@] == map_of(all.take(i as int))[id@],
            decreases i,
        {
            let ghost part = all.take(i as int);
            assert(part.drop_last() =~= all.take(i - 1));
            assert(part.last() == all[i - 1]);
            i = i - 1;
            if self.entries[i].0.as_str().eq(id) {
                return Some(&self.entries[i].1);
            }
        }
        assert(all.take(0).len() == 0);
        None
    }

    /// Whether no attachment has a caption.
    pub fn is_empty(&self) -> (r: bool)
        ensures
            r == (self@ == Map::<Seq<char>, Seq<char>>::empty()),
    {
        let r = self.entries.len() == 0;
        proof {
            let all = self.entries();
            if !r {
                assert(map_of(all).contains_key(all.last().0));
                assert(!Map::<Seq<char>, Seq<char>>::empty().contains_key(all.last().0));
            }
        }
        r
    }
}

impl Clone for CaptionMap {
    fn clone(&self) -> (r: CaptionMap)
        ensures
            r@ == self@,
    {
        let mut entries: Vec<(String, String)> = Vec::new();
        let mut i: usize = 0;
        while i < self.entries.len()
            invariant
                i <= self.entries.len(),
                entries.len() == i,
                forall|k: int|
                    0 <= k < i ==> entries[k].0@ == self.entries[k].0@ && entries[k].1@
                        == self.entries[k].1@,
            decreases self.entries.len() - i,
        {
            entries.push((self.entries[i].0.clone(), self.entries[i].1.clone()));
            i = i + 1;
        }
        let r = CaptionMap { entries };
        assert(r.entries() =~= self.entries());
        r
    }
}

} // verus!
