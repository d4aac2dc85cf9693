use vstd::prelude::*;

verus! {

/// Decoded sample buffers by the exact path string they were requested
/// under. An entry, once in, is never replaced or removed.
///
/// The entries are a list of pairs searched by string comparison: vstd's
/// hash map specification covers keys whose hashing it models, which does
/// not include `String`.
pub struct SampleCache<B> {
    entries: Vec<(String, B)>,
    contents: Ghost<Map<Seq<char>, B>>,
}

impl<B> View for SampleCache<B> {
    type V = Map<Seq<char>, B>;

    closed spec fn view(&self) -> Map<Seq<char>, B> {
        self.contents@
    }
}

impl<B> SampleCache<B> {
    /// Each key is stored once, every stored pair agrees with the map, and every key of the map is stored.
    pub closed spec fn wf(&self) -> bool {
        &&& self.contents@.dom().finite()
        &&& self.contents@.len() == self.entries@.len()
        &&& forall|i: int|
            0 <= i < self.entries@.len() ==> {
                &&& #[trigger] self.contents@.contains_key(self.entries@[i].0@)
                &&& self.contents@[self.entries@[i].0@] == self.entries@[i].1
            }
        &&& forall|k: Seq<char>|
            #[trigger] self.contents@.contains_key(k) ==> exists|i: int|
                0 <= i < self.entries@.len() && #[trigger] self.entries@[i].0@ == k
    }

    /// An empty cache.
    pub fn new() -> (r: Self)
        ensures
            r.wf(),
            r@ == Map::<Seq<char>, B>::empty(),
    {
        SampleCache { entries: Vec::new(), contents: Ghost(Map::empty()) }
    }

    /// Number of cached buffers.
    pub fn len(&self) -> (r: usize)
        requires
            self.wf(),
        ensures
            r == self@.len(),
    {
        self.entries.len()
    }

    /// The buffer cached under `key`, if any.
    pub fn get(&self, key: &String) -> (r: Option<&B>)
        requires
            self.wf(),
        ensures
            match r {
                Some(b) => self@.contains_key(key@) && *b == self@[key@],
                None => !self@.contains_key(key@),
            },
    {
        let mut i: usize = 0;
        while i < self.entries.len()
            invariant
                self.wf(),
                i <= self.entries@.len(),
                forall|j: int| 0 <= j < i ==> self.entries@[j].0@ != key@,
            decreases self.entries@.len() - i,
        {
            if self.entries[i].0 == *key {
                return Some(&self.entries[i].1);
            }
            i = i + 1;
        }
        None
    }

    /// Adds `b` under `key` unless `key` is already cached, in which case the
    /// cache is left as it was. Returns whether `b` was added.
    pub fn insert_if_absent(&mut self, key: String, b: B) -> (r: bool)
        requires
            old(self).wf(),
        ensures
            final(self).wf(),
            r == !old(self)@.contains_key(key@),
            r ==> final(self)@ == old(self)@.insert(key@, b),
            !r ==> final(self)@ == old(self)@,
    {
        if self.get(&key).is_some() {
            return false;
        }
        let ghost k = key@;
        self.contents = Ghost(self.contents@.insert(k, b));
        self.entries.push((key, b));
        proof {
            let n = self.entries@.len() - 1;
            assert(self.entries@[n as int].0@ == k);
            assert forall|q: Seq<char>| #[trigger] self.contents@.contains_key(q) implies exists|i: int|
                0 <= i < self.entries@.len() && #[trigger] self.entries@[i].0@ == q by {
                if q != k {
                    let i = choose|i: int|
                        0 <= i < old(self).entries@.len() && #[trigger] old(self).entries@[i].0@ == q;
                    assert(self.entries@[i] == old(self).entries@[i]);
                }
            }
        }
        true
    }
}

} // verus!
