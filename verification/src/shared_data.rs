//! The record of the posts that are done with, and its stored form.

use crate::json::{decoded, Json, JsonView};
use vstd::prelude::*;

verus! {

/// Why a stored record could not be taken up.
#[derive(Clone, Copy, Debug, PartialEq, Eq, Structural)]
pub enum LoadError {
    /// The stored text is not a JSON array of texts.
    Corrupt,
}

/// The texts of a list of JSON values, where every one of them is a text.
pub open spec fn texts_of(items: Seq<JsonView>) -> Option<Seq<Seq<char>>> {
    if forall|i: int| 0 <= i < items.len() ==> (#[trigger] items[i]) is Text {
        Some(Seq::new(items.len(), |i: int| items[i]->Text_0))
    } else {
        None
    }
}

/// The identifiers that a document lists: it has to be an array of texts.
pub open spec fn listed_ids(doc: JsonView) -> Option<Seq<Seq<char>>> {
    match doc {
        JsonView::Array(items) => texts_of(items),
        _ => None,
    }
}

/// The identifiers that a stored text lists: it has to be a JSON array of
/// texts.
pub open spec fn stored_ids(text: Seq<char>) -> Option<Seq<Seq<char>>> {
    match decoded(text) {
        Some(doc) => listed_ids(doc),
        None => None,
    }
}

/// The identifiers that occur in a list.
pub open spec fn set_of(ids: Seq<Seq<char>>) -> Set<Seq<char>> {
    Set::new(|id: Seq<char>| ids.contains(id))
}

/// The identifiers of the posts that are done with. None occurs twice.
#[derive(Debug, PartialEq, Eq)]
pub struct SharedData {
    already_parsed: Vec<String>,
}

impl SharedData {
    /// The identifiers in the order in which they were recorded.
    pub closed spec fn ids(&self) -> Seq<Seq<char>> {
        Seq::new(self.already_parsed.len() as nat, |i: int| self.already_parsed[i]@)
    }

    /// No identifier is recorded twice.
    pub closed spec fn wf(&self) -> bool {
        self.ids().no_duplicates()
    }
}

impl View for SharedData {
    type V = Set<Seq<char>>;

    closed spec fn view(&self) -> Set<Seq<char>> {
        set_of(self.ids())
    }
}

impl SharedData {
    /// A record of nothing.
    pub fn empty() -> (r: SharedData)
        ensures
            r.wf(),
            r@ == Set::<Seq<char>>::empty(),
    {
        let r = SharedData { already_parsed: Vec::new() };
        assert(r.ids().len() == 0);
        assert(r@ =~= Set::<Seq<char>>::empty());
        r
    }

    /// Whether the post `post_id` is done with.
    pub fn contains(&self, post_id: &str) -> (r: bool)
        ensures
            r == self@.contains(post_id@),
    {
        let mut i: usize = 0;
        while i < self.already_parsed.len()
            invariant
                i <= self.already_parsed.len(),
                forall|k: int| 0 <= k < i ==> self.ids()[k] != post_id@,
            decreases self.already_parsed.len() - i,
        {
            if self.already_parsed[i].as_str().eq(post_id) {
                assert(self.ids()[i as int] == post_id@);
                return true;
            }
            i = i + 1;
        }
        false
    }

    /// Records that the post `post_id` is done with. Says whether that is
    /// new.
    pub fn mark_done(&mut self, post_id: String) -> (r: bool)
        requires
            old(self).wf(),
        ensures
            final(self).wf(),
            final(self)@ == old(self)@.insert(post_id@),
            r == !old(self)@.contains(post_id@),
    {
        if self.contains(post_id.as_str()) {
            assert(self@.insert(post_id@) =~= self@);
            return false;
        }
        let ghost before = self.ids();
        self.already_parsed.push(post_id);
        proof {
            let after = self.ids();
            assert(after =~= before.push(post_id@));
            assert(!before.contains(post_id@));
            assert(after.no_duplicates());
            assert forall|id: Seq<char>| after.contains(id) <==> (id == post_id@ || before.contains(
                id,
            )) by {
                if before.contains(id) {
                    let k = choose|k: int| 0 <= k < before.len() && before[k] == id;
                    assert(after[k] == id);
                }
                if id == post_id@ {
                    assert(after[after.len() - 1] == id);
                }
            }
            assert(set_of(after) =~= set_of(before).insert(post_id@));
        }
        true
    }

    /// The record that holds the identifiers given and no others.
    pub fn from_ids(ids: Vec<String>) -> (r: SharedData)
        ensures
            r.wf(),
            r@ == set_of(Seq::new(ids.len() as nat, |i: int| ids[i]@)),
    {
        let ghost all = Seq::new(ids.len() as nat, |i: int| ids[i]@);
        let mut r = SharedData::empty();
        let mut ids = ids;
        let ghost mut taken: Seq<Seq<char>> = Seq::empty();
        assert(set_of(all) =~= r@.union(set_of(all)));
        while ids.len() > 0
            invariant
                r.wf(),
                set_of(all) == r@.union(set_of(Seq::new(ids.len() as nat, |i: int| ids[i]@))),
            decreases ids.len(),
        {
            let ghost rest = Seq::new(ids.len() as nat, |i: int| ids[i]@);
            let id = ids.pop().unwrap();
            let ghost left = Seq::new(ids.len() as nat, |i: int| ids[i]@);
            let ghost held = r@;
            r.mark_done(id);
            proof {
                assert(rest =~= left.push(id@));
                assert forall|x: Seq<char>| rest.contains(x) <==> (x == id@ || left.contains(x)) by {
                    if left.contains(x) {
                        let k = choose|k: int| 0 <= k < left.len() && left[k] == x;
                        assert(rest[k] == x);
                    }
                    if x == id@ {
                        assert(rest[rest.len() - 1] == x);
                    }
                }
                assert(held.union(set_of(rest)) =~= held.insert(id@).union(set_of(left)));
            }
        }
        proof {
            let none = Seq::new(ids.len() as nat, |i: int| ids[i]@);
            assert(none.len() == 0);
            assert(set_of(none) =~= Set::<Seq<char>>::empty());
            assert(r@.union(Set::<Seq<char>>::empty()) =~= r@);
        }
        r
    }

    /// The record that a decoded store holds: it has to be an array of
    /// texts.
    #[verifier::loop_isolation(false)]
    pub fn from_document(doc: &Json) -> (r: Result<SharedData, LoadError>)
        ensures
            match listed_ids(doc@) {
                Some(ids) => r is Ok && r->Ok_0.wf() && r->Ok_0@ == set_of(ids),
                None => r == Err::<SharedData, LoadError>(LoadError::Corrupt),
            },
    {
        let items = match doc.as_array() {
            Some(items) => items,
            None => {
                return Err(LoadError::Corrupt);
            },
        };
        let ghost all = doc@->Array_0;
        let mut ids: Vec<String> = Vec::new();
        let mut i: usize = 0;
        while i < items.len()
            invariant
                i <= items.len(),
                all.len() == items.len(),
                forall|k: int| 0 <= k < items.len() ==> all[k] == #[trigger] items[k]@,
                ids.len() == i,
                forall|k: int| 0 <= k < i ==> (#[trigger] all[k]) is Text,
                forall|k: int| 0 <= k < i ==> all[k] == JsonView::Text(#[trigger] ids[k]@),
            decreases items.len() - i,
        {
            match items[i].as_text() {
                Some(id) => {
                    ids.push(id.clone());
                },
                None => {
                    assert(!(all[i as int] is Text));
                    return Err(LoadError::Corrupt);
                },
            }
            i = i + 1;
        }
        proof {
            assert(texts_of(all) is Some);
            assert(texts_of(all)->0 =~= Seq::new(ids.len() as nat, |k: int| ids[k]@));
        }
        Ok(SharedData::from_ids(ids))
    }

    /// Takes up the stored record. `None` stands for a store that does not
    /// exist yet, which is a record of nothing. A store that is not a JSON
    /// array of texts is refused.
    pub fn load(contents: Option<&str>) -> (r: Result<SharedData, LoadError>)
        ensures
            match contents {
                None => r is Ok && r->Ok_0.wf() && r->Ok_0@ == Set::<Seq<char>>::empty(),
                Some(text) => match stored_ids(text@) {
                    Some(ids) => r is Ok && r->Ok_0.wf() && r->Ok_0@ == set_of(ids),
                    None => r == Err::<SharedData, LoadError>(LoadError::Corrupt),
                },
            },
    {
        match contents {
            None => Ok(SharedData::empty()),
            Some(text) => match Json::parse(text) {
                Some(doc) => SharedData::from_document(&doc),
                None => Err(LoadError::Corrupt),
            },
        }
    }

    /// The identifiers of all posts that are done with, each once.
    pub fn snapshot(&self) -> (r: Vec<String>)
        requires
            self.wf(),
        ensures
            Seq::new(r.len() as nat, |i: int| r[i]@).no_duplicates(),
            set_of(Seq::new(r.len() as nat, |i: int| r[i]@)) == self@,
    {
        let mut out: Vec<String> = Vec::new();
        let mut i: usize = 0;
        while i < self.already_parsed.len()
            invariant
                i <= self.already_parsed.len(),
                out.len() == i,
                forall|k: int| 0 <= k < i ==> (#[trigger] out[k])@ == self.already_parsed[k]@,
            decreases self.already_parsed.len() - i,
        {
            out.push(self.already_parsed[i].clone());
            i = i + 1;
        }
        proof {
            assert(Seq::new(out.len() as nat, |k: int| out[k]@) =~= self.ids());
        }
        out
    }

    /// How many posts are done with.
    pub fn len(&self) -> (r: usize)
        requires
            self.wf(),
        ensures
            r == self@.len(),
            self@.finite(),
    {
        proof {
            lemma_set_of_len(self.ids());
        }
        self.already_parsed.len()
    }
}

/// A list without repetitions has as many items as the set of them.
pub proof fn lemma_set_of_len(ids: Seq<Seq<char>>)
    requires
        ids.no_duplicates(),
    ensures
        set_of(ids).finite(),
        set_of(ids).len() == ids.len(),
{
    assert(set_of(ids) =~= ids.to_set());
    ids.unique_seq_to_set();
}

} // verus!
