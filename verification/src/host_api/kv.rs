//! The key-value store of the host: text keys, byte values, in memory.

use vstd::prelude::*;
use vstd::slice::slice_to_vec;
use vstd::string::StringExecFns;
use crate::text::texts;

verus! {

/// The values of a list as sequences.
pub open spec fn values_view(v: Seq<Vec<u8>>) -> Seq<Seq<u8>> {
    v.map_values(|x: Vec<u8>| x@)
}

/// The key-value store.
pub struct KvAPI {
    keys: Vec<String>,
    values: Vec<Vec<u8>>,
}

impl KvAPI {
    /// The keys, in the order in which they were first set.
    pub closed spec fn key_list(&self) -> Seq<Seq<char>> {
        texts(self.keys@)
    }

    /// The values, each at the place of its key.
    pub closed spec fn value_list(&self) -> Seq<Seq<u8>> {
        values_view(self.values@)
    }

    /// Every key stands once and has its value.
    pub open spec fn wf(&self) -> bool {
        self.key_list().no_duplicates() && self.value_list().len() == self.key_list().len()
    }

    /// Whether the key is set.
    pub open spec fn has(&self, key: Seq<char>) -> bool {
        self.key_list().contains(key)
    }

    /// The value under the key, where it is set.
    pub open spec fn spec_get(&self, key: Seq<char>) -> Option<Seq<u8>> {
        if self.has(key) {
            Some(self.value_list()[self.key_list().index_of(key)])
        } else {
            None
        }
    }

    /// The number of keys.
    pub open spec fn size(&self) -> nat {
        self.key_list().len()
    }

    /// An empty store.
    pub fn new() -> (kv: KvAPI)
        ensures
            kv.wf(),
            kv.size() == 0,
    {
        KvAPI { keys: Vec::new(), values: Vec::new() }
    }

    /// The place of the key.
    fn find(&self, key: &str) -> (r: Option<usize>)
        requires
            self.wf(),
        ensures
            match r {
                Some(i) => i < self.size() && self.key_list()[i as int] == key@ && self.key_list().index_of(
                    key@,
                ) == i,
                None => !self.has(key@),
            },
    {
        let probe = String::from_str(key);
        let mut i: usize = 0;
        while i < self.keys.len()
            invariant
                i <= self.keys.len(),
                self.wf(),
                probe@ == key@,
                forall|j: int| 0 <= j < i ==> self.key_list()[j] != key@,
            decreases self.keys.len() - i,
        {
            if self.keys[i] == probe {
                proof {
                    let list = self.key_list();
                    assert(list[i as int] == self.keys@[i as int]@);
                    assert(list[i as int] == key@);
                    assert(list.contains(key@));
                    let at = list.index_of(key@);
                    assert(0 <= at < list.len() && list[at] == key@);
                    if at != i {
                        assert(list[at] != list[i as int]);
                    }
                }
                return Some(i);
            }
            i = i + 1;
        }
        None
    }

    /// Sets the value under the key.
    pub fn set(&mut self, key: &str, value: &[u8]) -> (r: Result<(), String>)
        requires
            old(self).wf(),
        ensures
            r is Ok,
            final(self).wf(),
            final(self).spec_get(key@) == Some(value@),
            forall|k: Seq<char>| k != key@ ==> final(self).spec_get(k) == old(self).spec_get(k),
            final(self).size() == if old(self).has(key@) {
                old(self).size()
            } else {
                old(self).size() + 1
            },
    {
        let copy = slice_to_vec(value);
        match self.find(key) {
            Some(i) => {
                self.values[i] = copy;
                proof {
                    assert(self.key_list() == old(self).key_list());
                    assert(self.value_list() =~= old(self).value_list().update(i as int, value@));
                    assert forall|k: Seq<char>| k != key@ implies self.spec_get(k) == old(self).spec_get(k) by {
                        if self.has(k) {
                            let at = self.key_list().index_of(k);
                            assert(at != i);
                        }
                    }
                }
            },
            None => {
                self.keys.push(String::from_str(key));
                self.values.push(copy);
                proof {
                    let keys0 = old(self).key_list();
                    let keys1 = self.key_list();
                    assert(keys1 =~= keys0.push(key@));
                    assert(self.value_list() =~= old(self).value_list().push(value@));
                    assert(keys1[keys0.len() as int] == key@);
                    assert(keys1.contains(key@));
                    assert forall|a: int, b: int|
                        0 <= a < keys1.len() && 0 <= b < keys1.len() && a != b implies keys1[a] != keys1[b] by {
                        if a < keys0.len() {
                            assert(keys0[a] == keys1[a]);
                            assert(keys0.contains(keys0[a]));
                        }
                        if b < keys0.len() {
                            assert(keys0[b] == keys1[b]);
                            assert(keys0.contains(keys0[b]));
                        }
                    }
                    assert(keys1.index_of(key@) == keys0.len());
                    assert forall|k: Seq<char>| k != key@ implies self.spec_get(k) == old(self).spec_get(k) by {
                        if keys0.contains(k) {
                            let at = keys0.index_of(k);
                            assert(keys1[at] == k);
                            assert(keys1.index_of(k) == at);
                        }
                        if keys1.contains(k) {
                            let at = keys1.index_of(k);
                            assert(at < keys0.len());
                            assert(keys0[at] == k);
                        }
                    }
                }
            },
        }
        Ok(())
    }

    /// The value under the key.
    pub fn get(&self, key: &str) -> (r: Option<Vec<u8>>)
        requires
            self.wf(),
        ensures
            match r {
                Some(v) => self.spec_get(key@) == Some(v@),
                None => self.spec_get(key@) is None,
            },
    {
        match self.find(key) {
            Some(i) => Some(slice_to_vec(self.values[i].as_slice())),
            None => None,
        }
    }

    /// Takes the key out; returns whether it was set.
    pub fn delete(&mut self, key: &str) -> (r: bool)
        requires
            old(self).wf(),
        ensures
            final(self).wf(),
            r == old(self).has(key@),
            !final(self).has(key@),
            forall|k: Seq<char>| k != key@ ==> final(self).spec_get(k) == old(self).spec_get(k),
            final(self).size() == if r {
                (old(self).size() - 1) as nat
            } else {
                old(self).size()
            },
    {
        match self.find(key) {
            Some(i) => {
                self.keys.remove(i);
                self.values.remove(i);
                proof {
                    let keys0 = old(self).key_list();
                    let keys1 = self.key_list();
                    let vals0 = old(self).value_list();
                    let vals1 = self.value_list();
                    assert(keys1 =~= keys0.remove(i as int));
                    assert(vals1 =~= vals0.remove(i as int));
                    assert forall|a: int, b: int|
                        0 <= a < keys1.len() && 0 <= b < keys1.len() && a != b implies keys1[a] != keys1[b] by {
                        let a0 = if a < i { a } else { a + 1 };
                        let b0 = if b < i { b } else { b + 1 };
                        assert(keys1[a] == keys0[a0]);
                        assert(keys1[b] == keys0[b0]);
                    }
                    assert forall|k: Seq<char>| k != key@ implies self.spec_get(k) == old(self).spec_get(k) by {
                        if keys0.contains(k) {
                            let at = keys0.index_of(k);
                            assert(at != i);
                            let to = if at < i { at } else { at - 1 };
                            assert(keys1[to] == k);
                            assert(keys1.index_of(k) == to);
                        }
                        if keys1.contains(k) {
                            let at = keys1.index_of(k);
                            let from = if at < i { at } else { at + 1 };
                            assert(keys0[from] == k);
                        }
                    }
                    if keys1.contains(key@) {
                        let at = keys1.index_of(key@);
                        let from = if at < i { at } else { at + 1 };
                        assert(keys0[from] == key@);
                    }
                }
                true
            },
            None => false,
        }
    }

    /// Whether the key is set.
    pub fn has_key(&self, key: &str) -> (r: bool)
        requires
            self.wf(),
        ensures
            r == self.has(key@),
    {
        self.find(key).is_some()
    }

    /// The keys, in the order in which they were first set.
    pub fn keys(&self) -> (r: Vec<String>)
        ensures
            texts(r@) == self.key_list(),
    {
        let mut out: Vec<String> = Vec::new();
        let mut i: usize = 0;
        while i < self.keys.len()
            invariant
                i <= self.keys.len(),
                texts(out@) == self.key_list().take(i as int),
            decreases self.keys.len() - i,
        {
            let ghost shown = texts(out@);
            out.push(self.keys[i].clone());
            proof {
                assert(texts(out@) =~= shown.push(self.keys@[i as int]@));
                assert(self.key_list().take(i + 1) =~= self.key_list().take(i as int).push(
                    self.key_list()[i as int],
                ));
            }
            i = i + 1;
        }
        assert(self.key_list().take(self.keys.len() as int) =~= self.key_list());
        out
    }

    /// Takes every key out.
    pub fn clear(&mut self)
        ensures
            final(self).wf(),
            final(self).size() == 0,
    {
        self.keys.clear();
        self.values.clear();
    }

    /// The number of keys.
    pub fn count(&self) -> (n: usize)
        ensures
            n == self.size(),
    {
        self.keys.len()
    }
}

} // verus!
