use vstd::prelude::*;

use crate::api::str_eq;

verus! {

/// A value stored under a name.
pub struct Named<T> {
    pub name: String,
    pub value: T,
}

/// No name occurs twice in `s`.
pub open spec fn unique_names<T>(s: Seq<Named<T>>) -> bool {
    forall|i: int, j: int|
        0 <= i < j < s.len() ==> (#[trigger] s[i]).name@ != (#[trigger] s[j]).name@
}

/// The value stored under `n` in `s`, if any.
pub open spec fn lookup<T>(s: Seq<Named<T>>, n: Seq<char>) -> Option<T> {
    if exists|i: int| 0 <= i < s.len() && (#[trigger] s[i]).name@ == n {
        Some(s[choose|i: int| 0 <= i < s.len() && (#[trigger] s[i]).name@ == n].value)
    } else {
        None
    }
}

pub proof fn lemma_lookup_at<T>(s: Seq<Named<T>>, i: int)
    requires
        unique_names(s),
        0 <= i < s.len(),
    ensures
        lookup(s, s[i].name@) == Some(s[i].value),
{
    let n = s[i].name@;
    assert(exists|k: int| 0 <= k < s.len() && (#[trigger] s[k]).name@ == n);
    let j = choose|k: int| 0 <= k < s.len() && (#[trigger] s[k]).name@ == n;
    if j < i {
        assert(s[j].name@ != s[i].name@);
    } else if i < j {
        assert(s[i].name@ != s[j].name@);
    }
}

/// Where `name` is stored in `entries`.
fn position<T>(entries: &Vec<Named<T>>, name: &str) -> (r: Option<usize>)
    ensures
        r matches Some(i) ==> i < entries@.len() && entries@[i as int].name@ == name@,
        r is None ==> forall|j: int|
            0 <= j < entries@.len() ==> (#[trigger] entries@[j]).name@ != name@,
{
    let mut i: usize = 0;
    while i < entries.len()
        invariant
            i <= entries@.len(),
            forall|j: int| 0 <= j < i ==> (#[trigger] entries@[j]).name@ != name@,
        decreases entries@.len() - i,
    {
        if str_eq(entries[i].name.as_str(), name) {
            return Some(i);
        }
        i = i + 1;
    }
    None
}

/// A table of values keyed by name, each name at most once.
pub struct NamedTable<T> {
    entries: Vec<Named<T>>,
}

impl<T> NamedTable<T> {
    #[verifier::type_invariant]
    spec fn inv(&self) -> bool {
        unique_names(self.entries@)
    }

    /// The value stored under `n`, if any.
    pub closed spec fn spec_get(&self, n: Seq<char>) -> Option<T> {
        lookup(self.entries@, n)
    }

    pub fn new() -> (r: Self)
        ensures
            forall|n: Seq<char>| (#[trigger] r.spec_get(n)) is None,
    {
        NamedTable { entries: Vec::new() }
    }

    /// The value stored under `name`.
    pub fn get(&self, name: &str) -> (r: Option<&T>)
        ensures
            r is None <==> self.spec_get(name@) is None,
            r matches Some(v) ==> self.spec_get(name@) == Some(*v),
    {
        proof {
            use_type_invariant(self);
        }
        match position(&self.entries, name) {
            Some(i) => {
                proof {
                    lemma_lookup_at(self.entries@, i as int);
                }
                Some(&self.entries[i].value)
            },
            None => None,
        }
    }

    /// Stores `value` under `name`, in place of what was there.
    pub fn insert(&mut self, name: String, value: T)
        ensures
            final(self).spec_get(name@) == Some(value),
            forall|n: Seq<char>|
                n != name@ ==> #[trigger] final(self).spec_get(n) == old(self).spec_get(n),
    {
        proof {
            use_type_invariant(&*self);
        }
        let ghost key = name@;
        let ghost v0 = value;
        let ghost s0 = self.entries@;
        let mut entries: Vec<Named<T>> = Vec::new();
        std::mem::swap(&mut entries, &mut self.entries);
        let pos = match position(&entries, name.as_str()) {
            Some(i) => {
                entries.set(i, Named { name, value });
                Some(i)
            },
            None => {
                entries.push(Named { name, value });
                None
            },
        };
        let ghost s1 = entries@;
        proof {
            let k: int = match pos {
                Some(i) => i as int,
                None => s0.len() as int,
            };
            assert(s1.len() == s0.len() || s1.len() == s0.len() + 1);
            assert(forall|j: int| 0 <= j < s1.len() && j != k ==> s1[j] == s0[j]);
            assert(s1[k].name@ == key && s1[k].value == v0);
            assert(forall|j: int| 0 <= j < s1.len() && j != k ==> (#[trigger] s1[j]).name@ != key);
            assert(unique_names(s1)) by {
                assert forall|i: int, j: int| 0 <= i < j < s1.len() implies (#[trigger] s1[i]).name@
                    != (#[trigger] s1[j]).name@ by {
                    if i != k && j != k {
                        assert(s0[i].name@ != s0[j].name@);
                    }
                }
            }
            lemma_lookup_at(s1, k);
            assert forall|n: Seq<char>| n != key implies #[trigger] lookup(s1, n) == lookup(s0, n) by {
                if exists|j: int| 0 <= j < s0.len() && (#[trigger] s0[j]).name@ == n {
                    let j = choose|j: int| 0 <= j < s0.len() && (#[trigger] s0[j]).name@ == n;
                    assert(j != k);
                    lemma_lookup_at(s0, j);
                    lemma_lookup_at(s1, j);
                } else {
                    assert forall|j: int| 0 <= j < s1.len() implies (#[trigger] s1[j]).name@ != n by {
                        if j != k {
                            assert(s1[j] == s0[j]);
                        }
                    }
                }
            }
        }
        self.entries = entries;
    }

    /// Takes out the value stored under `name`.
    pub fn remove(&mut self, name: &str) -> (r: Option<T>)
        ensures
            r == old(self).spec_get(name@),
            final(self).spec_get(name@) is None,
            forall|n: Seq<char>|
                n != name@ ==> #[trigger] final(self).spec_get(n) == old(self).spec_get(n),
    {
        proof {
            use_type_invariant(&*self);
        }
        let ghost key = name@;
        let ghost s0 = self.entries@;
        match position(&self.entries, name) {
            None => None,
            Some(i) => {
                proof {
                    lemma_lookup_at(s0, i as int);
                }
                let mut entries: Vec<Named<T>> = Vec::new();
                std::mem::swap(&mut entries, &mut self.entries);
                let e = entries.remove(i);
                let ghost s1 = entries@;
                proof {
                    let k = i as int;
                    assert(forall|j: int| 0 <= j < k ==> s1[j] == s0[j]);
                    assert(forall|j: int| k <= j < s1.len() ==> s1[j] == s0[j + 1]);
                    assert(unique_names(s1)) by {
                        assert forall|a: int, b: int| 0 <= a < b < s1.len() implies (#[trigger] s1[a]).name@
                            != (#[trigger] s1[b]).name@ by {
                            let a0 = if a < k { a } else { a + 1 };
                            let b0 = if b < k { b } else { b + 1 };
                            assert(s0[a0].name@ != s0[b0].name@);
                        }
                    }
                    assert forall|j: int| 0 <= j < s1.len() implies (#[trigger] s1[j]).name@ != key by {
                        let j0 = if j < k { j } else { j + 1 };
                        if j0 < k {
                            assert(s0[j0].name@ != s0[k].name@);
                        } else {
                            assert(s0[k].name@ != s0[j0].name@);
                        }
                    }
                    assert forall|n: Seq<char>| n != key implies #[trigger] lookup(s1, n) == lookup(s0, n) by {
                        if exists|j: int| 0 <= j < s0.len() && (#[trigger] s0[j]).name@ == n {
                            let j = choose|j: int| 0 <= j < s0.len() && (#[trigger] s0[j]).name@ == n;
                            assert(j != k);
                            let j1 = if j < k { j } else { j - 1 };
                            assert(s1[j1] == s0[j]);
                            lemma_lookup_at(s0, j);
                            lemma_lookup_at(s1, j1);
                        } else {
                            assert forall|j: int| 0 <= j < s1.len() implies (#[trigger] s1[j]).name@ != n by {
                                let j0 = if j < k { j } else { j + 1 };
                                assert(s1[j] == s0[j0]);
                            }
                        }
                    }
                }
                self.entries = entries;
                Some(e.value)
            },
        }
    }
}

} // verus!
