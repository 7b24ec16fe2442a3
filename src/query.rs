use vstd::prelude::*;

verus! {

/// A query pair as plain text: key and value.
pub type PairView = (Seq<char>, Seq<char>);

/// No two pairs share a key.
pub open spec fn keys_unique(s: Seq<PairView>) -> bool {
    forall|i: int, j: int| 0 <= i < j < s.len() ==> #[trigger] s[i].0 != #[trigger] s[j].0
}

/// Whether some pair has the given key.
pub open spec fn has_key(s: Seq<PairView>, key: Seq<char>) -> bool {
    exists|i: int| 0 <= i < s.len() && #[trigger] s[i].0 == key
}

/// The query parameters of a request: a mapping from keys to values, kept in
/// the order in which keys were first inserted.
#[derive(Debug, Clone)]
pub struct QueryParams {
    pairs: Vec<(String, String)>,
}

impl View for QueryParams {
    type V = Seq<PairView>;

    closed spec fn view(&self) -> Seq<PairView> {
        self.pairs@.map_values(|p: (String, String)| (p.0@, p.1@))
    }
}

impl QueryParams {
    pub open spec fn wf(&self) -> bool {
        keys_unique(self@)
    }

    /// An empty mapping.
    pub fn new() -> (r: Self)
        ensures
            r.wf(),
            r@ == Seq::<PairView>::empty(),
    {
        let r = QueryParams { pairs: Vec::new() };
        assert(r@ =~= Seq::<PairView>::empty());
        r
    }

    /// The number of pairs.
    pub fn len(&self) -> (r: usize)
        ensures
            r == self@.len(),
    {
        self.pairs.len()
    }

    /// The pair at position `i`.
    pub fn pair(&self, i: usize) -> (r: (&String, &String))
        requires
            i < self@.len(),
        ensures
            r.0@ == self@[i as int].0,
            r.1@ == self@[i as int].1,
    {
        (&self.pairs[i].0, &self.pairs[i].1)
    }

    /// Where the key stands, if it does.
    fn position(&self, key: &String) -> (r: Option<usize>)
        ensures
            match r {
                Some(i) => i < self@.len() && self@[i as int].0 == key@,
                None => !has_key(self@, key@),
            },
    {
        let mut i: usize = 0;
        while i < self.pairs.len()
            invariant
                i <= self@.len(),
                self@.len() == self.pairs@.len(),
                forall|j: int| 0 <= j < i ==> #[trigger] self@[j].0 != key@,
            decreases self.pairs.len() - i,
        {
            if self.pairs[i].0 == *key {
                return Some(i);
            }
            i = i + 1;
        }
        None
    }

    /// The value stored under `key`.
    pub fn get(&self, key: &String) -> (r: Option<String>)
        requires
            self.wf(),
        ensures
            match r {
                Some(v) => exists|i: int|
                    0 <= i < self@.len() && #[trigger] self@[i] == (key@, v@),
                None => !has_key(self@, key@),
            },
    {
        match self.position(key) {
            Some(i) => Some(self.pairs[i].1.clone()),
            None => None,
        }
    }

    /// Sets `key` to `value`: a key already present keeps its place and takes
    /// the new value, a new key goes last.
    pub fn insert(&mut self, key: String, value: String)
        requires
            old(self).wf(),
        ensures
            final(self).wf(),
            has_key(old(self)@, key@) ==> final(self)@.len() == old(self)@.len() && forall|
                j: int,
            |
                0 <= j < old(self)@.len() ==> #[trigger] final(self)@[j] == if old(self)@[j].0
                    == key@ {
                    (key@, value@)
                } else {
                    old(self)@[j]
                },
            !has_key(old(self)@, key@) ==> final(self)@ == old(self)@.push((key@, value@)),
    {
        let ghost kv = (key@, value@);
        match self.position(&key) {
            Some(i) => {
                self.pairs.set(i, (key, value));
                assert forall|j: int| 0 <= j < old(self)@.len() implies #[trigger] self@[j]
                    == if old(self)@[j].0 == kv.0 {
                    kv
                } else {
                    old(self)@[j]
                } by {
                    if j != i {
                        assert(old(self)@[j].0 != kv.0);
                    }
                }
            },
            None => {
                self.pairs.push((key, value));
                assert(self@ =~= old(self)@.push(kv));
            },
        }
    }

    /// A copy of the mapping.
    pub fn copied(&self) -> (r: Self)
        ensures
            r@ == self@,
    {
        let mut out: Vec<(String, String)> = Vec::new();
        let mut i: usize = 0;
        while i < self.pairs.len()
            invariant
                i <= self.pairs@.len(),
                out@.len() == i,
                forall|j: int|
                    0 <= j < i ==> (#[trigger] out@[j]).0@ == self.pairs@[j].0@ && out@[j].1@
                        == self.pairs@[j].1@,
            decreases self.pairs.len() - i,
        {
            out.push((self.pairs[i].0.clone(), self.pairs[i].1.clone()));
            i = i + 1;
        }
        let r = QueryParams { pairs: out };
        assert(r@ =~= self@);
        r
    }
}

} // verus!
