use vstd::prelude::*;

verus! {

/// The per-channel volumes last reported for each output id, kept so that a
/// later volume change can be sent with the right number of channels.
///
/// The entries are pairs with unique keys rather than a std hash map: keyed
/// by `String`, the hash map's specification does not even show that a
/// lookup finds what was just inserted, while this table is proved to act
/// as the map `map()`.
pub struct TemplateCache {
    pub entries: Vec<(String, Vec<u32>)>,
}

/// The cache as a map from output id to channel volumes; later entries win.
pub open spec fn cache_map(s: Seq<(String, Vec<u32>)>) -> Map<Seq<char>, Seq<u32>>
    decreases s.len(),
{
    if s.len() == 0 {
        Map::empty()
    } else {
        cache_map(s.drop_last()).insert(s.last().0@, s.last().1@)
    }
}

/// No two entries share a key.
pub open spec fn keys_unique(s: Seq<(String, Vec<u32>)>) -> bool {
    forall|i: int, j: int| 0 <= i < s.len() && 0 <= j < s.len() && i != j ==> s[i].0@ != s[j].0@
}

proof fn lemma_absent_key(s: Seq<(String, Vec<u32>)>, k: Seq<char>)
    requires
        forall|j: int| 0 <= j < s.len() ==> s[j].0@ != k,
    ensures
        !cache_map(s).contains_key(k),
    decreases s.len(),
{
    if s.len() > 0 {
        lemma_absent_key(s.drop_last(), k);
    }
}

proof fn lemma_key_at(s: Seq<(String, Vec<u32>)>, i: int)
    requires
        keys_unique(s),
        0 <= i < s.len(),
    ensures
        cache_map(s).contains_key(s[i].0@),
        cache_map(s)[s[i].0@] == s[i].1@,
    decreases s.len(),
{
    if i < s.len() - 1 {
        lemma_key_at(s.drop_last(), i);
    }
}

proof fn lemma_replace_at(s: Seq<(String, Vec<u32>)>, i: int, e: (String, Vec<u32>))
    requires
        keys_unique(s),
        0 <= i < s.len(),
        e.0@ == s[i].0@,
    ensures
        cache_map(s.update(i, e)) == cache_map(s).insert(e.0@, e.1@),
    decreases s.len(),
{
    let t = s.update(i, e);
    if i == s.len() - 1 {
        assert(t.drop_last() =~= s.drop_last());
        assert forall|j: int| 0 <= j < s.len() - 1 implies s.drop_last()[j].0@ != e.0@ by {}
        lemma_absent_key(s.drop_last(), e.0@);
        assert(cache_map(t) =~= cache_map(s).insert(e.0@, e.1@));
    } else {
        assert(t.drop_last() =~= s.drop_last().update(i, e));
        lemma_replace_at(s.drop_last(), i, e);
        assert(s.last().0@ != e.0@);
        assert(cache_map(t) =~= cache_map(s).insert(e.0@, e.1@));
    }
}

impl TemplateCache {
    pub open spec fn wf(&self) -> bool {
        keys_unique(self.entries@)
    }

    pub open spec fn map(&self) -> Map<Seq<char>, Seq<u32>> {
        cache_map(self.entries@)
    }

    /// An empty cache.
    pub fn new() -> (r: TemplateCache)
        ensures
            r.wf(),
            r.map() == Map::<Seq<char>, Seq<u32>>::empty(),
    {
        TemplateCache { entries: Vec::new() }
    }

    fn position(&self, id: &String) -> (r: Option<usize>)
        ensures
            match r {
                Some(i) => i < self.entries@.len() && self.entries@[i as int].0@ == id@,
                None => forall|j: int| 0 <= j < self.entries@.len() ==> self.entries@[j].0@ != id@,
            },
    {
        let mut i: usize = 0;
        while i < self.entries.len()
            invariant
                i <= self.entries.len(),
                forall|j: int| 0 <= j < i ==> self.entries@[j].0@ != id@,
            decreases self.entries.len() - i,
        {
            if self.entries[i].0 == *id {
                return Some(i);
            }
            i = i + 1;
        }
        None
    }

    /// Records the channel volumes of `id`, replacing what was there.
    pub fn insert(&mut self, id: String, channels: Vec<u32>)
        requires
            old(self).wf(),
        ensures
            final(self).wf(),
            final(self).map() == old(self).map().insert(id@, channels@),
    {
        match self.position(&id) {
            Some(i) => {
                proof {
                    lemma_replace_at(self.entries@, i as int, (id, channels));
                }
                self.entries.set(i, (id, channels));
            },
            None => {
                let ghost before = self.entries@;
                self.entries.push((id, channels));
                assert(self.entries@.drop_last() =~= before);
            },
        }
    }

    /// The channel volumes recorded for `id`, if any.
    pub fn get(&self, id: &String) -> (r: Option<&Vec<u32>>)
        requires
            self.wf(),
        ensures
            match r {
                Some(v) => self.map().contains_key(id@) && v@ == self.map()[id@],
                None => !self.map().contains_key(id@),
            },
    {
        match self.position(id) {
            Some(i) => {
                proof {
                    lemma_key_at(self.entries@, i as int);
                }
                Some(&self.entries[i].1)
            },
            None => {
                proof {
                    lemma_absent_key(self.entries@, id@);
                }
                None
            },
        }
    }
}

} // verus!
