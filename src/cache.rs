use vstd::prelude::*;

use crate::api::ElasticsearchResponseEvent;
use crate::response::{CatAlias, CatIndex, ClusterHealth, Index};
use crate::table::NamedTable;

verus! {

/// Which rows of a listing to hide when it is shown.
#[derive(Debug, Clone, Copy, PartialEq, Eq, Structural)]
pub enum TableFilter {
    /// Hide the rows whose name starts with a dot (the backend's own).
    HideSystem,
}

/// Whether a row named `name` is shown under `filter`.
pub open spec fn shown(filter: Option<TableFilter>, name: Seq<char>) -> bool {
    match filter {
        Some(TableFilter::HideSystem) => !(name.len() > 0 && name[0] == '.'),
        None => true,
    }
}

impl TableFilter {
    /// Whether a row named `name` passes the filter.
    pub fn apply(&self, name: &str) -> (r: bool)
        ensures
            r == shown(Some(*self), name@),
    {
        match self {
            TableFilter::HideSystem => {
                let s = name.to_owned();
                let n = s.as_str();
                !(n.unicode_len() > 0 && n.get_char(0) == '.')
            },
        }
    }
}

/// `a` comes before or equals `b`, comparing characters in turn.
pub open spec fn chars_le(a: Seq<char>, b: Seq<char>) -> bool
    decreases a.len(),
{
    if a.len() == 0 {
        true
    } else if b.len() == 0 {
        false
    } else if a[0] != b[0] {
        a[0] < b[0]
    } else {
        chars_le(a.drop_first(), b.drop_first())
    }
}

/// The rows of `s` that `filter` lets through, in order.
pub open spec fn visible_indices(s: Seq<CatIndex>, filter: Option<TableFilter>) -> Seq<CatIndex>
    decreases s.len(),
{
    if s.len() == 0 {
        Seq::empty()
    } else {
        let rest = visible_indices(s.drop_last(), filter);
        if shown(filter, s.last().index@) {
            rest.push(s.last())
        } else {
            rest
        }
    }
}

/// The rows of `s` that `filter` lets through, in order.
pub open spec fn visible_aliases(s: Seq<CatAlias>, filter: Option<TableFilter>) -> Seq<CatAlias>
    decreases s.len(),
{
    if s.len() == 0 {
        Seq::empty()
    } else {
        let rest = visible_aliases(s.drop_last(), filter);
        if shown(filter, s.last().alias@) {
            rest.push(s.last())
        } else {
            rest
        }
    }
}

/// The index rows ascend by name.
pub open spec fn sorted_indices(s: Seq<CatIndex>) -> bool {
    forall|i: int, j: int|
        0 <= i < j < s.len() ==> chars_le((#[trigger] s[i]).index@, (#[trigger] s[j]).index@)
}

/// The alias rows ascend by name.
pub open spec fn sorted_aliases(s: Seq<CatAlias>) -> bool {
    forall|i: int, j: int|
        0 <= i < j < s.len() ==> chars_le((#[trigger] s[i]).alias@, (#[trigger] s[j]).alias@)
}

/// `post` holds the answer `res` (a listing as the same rows sorted by
/// name) and differs from `pre` in that entry alone.
pub open spec fn stores(pre: Data, post: Data, res: ElasticsearchResponseEvent) -> bool {
    match res {
        ElasticsearchResponseEvent::ClusterHealth { cluster_name, response } => post.spec_health(
            cluster_name@,
        ) == Some(response) && post.same_but_health(&pre, cluster_name@),
        ElasticsearchResponseEvent::Indices { cluster_name, response } => (post.spec_indices(
            cluster_name@,
        ) matches Some(v) && v@.to_multiset() == response@.to_multiset() && sorted_indices(v@))
            && post.same_but_indices(&pre, cluster_name@),
        ElasticsearchResponseEvent::Aliases { cluster_name, response } => (post.spec_aliases(
            cluster_name@,
        ) matches Some(v) && v@.to_multiset() == response@.to_multiset() && sorted_aliases(v@))
            && post.same_but_aliases(&pre, cluster_name@),
        ElasticsearchResponseEvent::Index { cluster_name, index, response } => post.spec_index(
            cluster_name@,
            index@,
        ) == Some(response) && post.same_but_index(&pre, cluster_name@, index@),
    }
}

/// `refs` refers to the rows of `rows`, in order.
pub open spec fn same_rows<T>(refs: Seq<&T>, rows: Seq<T>) -> bool {
    refs.len() == rows.len() && forall|i: int| 0 <= i < rows.len() ==> *refs[i] == rows[i]
}

/// Relies on `slice::sort_unstable_by` with `String`'s order on the index
/// names: the same rows, reordered so that the names ascend.
#[verifier::external_body]
fn sort_indices_by_name(v: &mut Vec<CatIndex>)
    ensures
        final(v)@.to_multiset() == old(v)@.to_multiset(),
        forall|i: int, j: int|
            0 <= i < j < final(v)@.len() ==> chars_le(
                (#[trigger] final(v)@[i]).index@,
                (#[trigger] final(v)@[j]).index@,
            ),
{
    v.sort_unstable_by(|a, b| a.index.cmp(&b.index));
}

/// Relies on `slice::sort_unstable_by` with `String`'s order on the alias
/// names: the same rows, reordered so that the names ascend.
#[verifier::external_body]
fn sort_aliases_by_name(v: &mut Vec<CatAlias>)
    ensures
        final(v)@.to_multiset() == old(v)@.to_multiset(),
        forall|i: int, j: int|
            0 <= i < j < final(v)@.len() ==> chars_le(
                (#[trigger] final(v)@[i]).alias@,
                (#[trigger] final(v)@[j]).alias@,
            ),
{
    v.sort_unstable_by(|a, b| a.alias.cmp(&b.alias));
}

/// The latest answer of each kind for each cluster. A new answer replaces
/// the one of the same kind and cluster; nothing else changes.
pub struct Data {
    health: NamedTable<ClusterHealth>,
    indices: NamedTable<Vec<CatIndex>>,
    aliases: NamedTable<Vec<CatAlias>>,
    index: NamedTable<NamedTable<Index>>,
}

impl Data {
    pub closed spec fn spec_health(&self, cluster: Seq<char>) -> Option<ClusterHealth> {
        self.health.spec_get(cluster)
    }

    pub closed spec fn spec_indices(&self, cluster: Seq<char>) -> Option<Vec<CatIndex>> {
        self.indices.spec_get(cluster)
    }

    pub closed spec fn spec_aliases(&self, cluster: Seq<char>) -> Option<Vec<CatAlias>> {
        self.aliases.spec_get(cluster)
    }

    pub closed spec fn spec_index(&self, cluster: Seq<char>, index: Seq<char>) -> Option<Index> {
        match self.index.spec_get(cluster) {
            Some(t) => t.spec_get(index),
            None => None,
        }
    }

    /// Nothing but the health entries differ, and of those only the one of
    /// `cluster`.
    pub open spec fn same_but_health(&self, other: &Data, cluster: Seq<char>) -> bool {
        &&& forall|c: Seq<char>| c != cluster ==> #[trigger] self.spec_health(c) == other.spec_health(c)
        &&& forall|c: Seq<char>| #[trigger] self.spec_indices(c) == other.spec_indices(c)
        &&& forall|c: Seq<char>| #[trigger] self.spec_aliases(c) == other.spec_aliases(c)
        &&& forall|c: Seq<char>, i: Seq<char>| #[trigger] self.spec_index(c, i) == other.spec_index(c, i)
    }

    pub open spec fn same_but_indices(&self, other: &Data, cluster: Seq<char>) -> bool {
        &&& forall|c: Seq<char>| #[trigger] self.spec_health(c) == other.spec_health(c)
        &&& forall|c: Seq<char>| c != cluster ==> #[trigger] self.spec_indices(c) == other.spec_indices(c)
        &&& forall|c: Seq<char>| #[trigger] self.spec_aliases(c) == other.spec_aliases(c)
        &&& forall|c: Seq<char>, i: Seq<char>| #[trigger] self.spec_index(c, i) == other.spec_index(c, i)
    }

    pub open spec fn same_but_aliases(&self, other: &Data, cluster: Seq<char>) -> bool {
        &&& forall|c: Seq<char>| #[trigger] self.spec_health(c) == other.spec_health(c)
        &&& forall|c: Seq<char>| #[trigger] self.spec_indices(c) == other.spec_indices(c)
        &&& forall|c: Seq<char>| c != cluster ==> #[trigger] self.spec_aliases(c) == other.spec_aliases(c)
        &&& forall|c: Seq<char>, i: Seq<char>| #[trigger] self.spec_index(c, i) == other.spec_index(c, i)
    }

    pub open spec fn same_but_index(&self, other: &Data, cluster: Seq<char>, index: Seq<char>) -> bool {
        &&& forall|c: Seq<char>| #[trigger] self.spec_health(c) == other.spec_health(c)
        &&& forall|c: Seq<char>| #[trigger] self.spec_indices(c) == other.spec_indices(c)
        &&& forall|c: Seq<char>| #[trigger] self.spec_aliases(c) == other.spec_aliases(c)
        &&& forall|c: Seq<char>, i: Seq<char>|
            !(c == cluster && i == index) ==> #[trigger] self.spec_index(c, i) == other.spec_index(c, i)
    }

    /// Everything is the same.
    pub open spec fn same(&self, other: &Data) -> bool {
        &&& forall|c: Seq<char>| #[trigger] self.spec_health(c) == other.spec_health(c)
        &&& forall|c: Seq<char>| #[trigger] self.spec_indices(c) == other.spec_indices(c)
        &&& forall|c: Seq<char>| #[trigger] self.spec_aliases(c) == other.spec_aliases(c)
        &&& forall|c: Seq<char>, i: Seq<char>| #[trigger] self.spec_index(c, i) == other.spec_index(c, i)
    }

    /// Nothing is cached.
    pub open spec fn is_empty(&self) -> bool {
        &&& forall|c: Seq<char>| (#[trigger] self.spec_health(c)) is None
        &&& forall|c: Seq<char>| (#[trigger] self.spec_indices(c)) is None
        &&& forall|c: Seq<char>| (#[trigger] self.spec_aliases(c)) is None
        &&& forall|c: Seq<char>, i: Seq<char>| (#[trigger] self.spec_index(c, i)) is None
    }

    pub fn new() -> (r: Data)
        ensures
            r.is_empty(),
    {
        Data {
            health: NamedTable::new(),
            indices: NamedTable::new(),
            aliases: NamedTable::new(),
            index: NamedTable::new(),
        }
    }

    pub fn update_cluster_health(&mut self, cluster_name: String, health: ClusterHealth)
        ensures
            final(self).spec_health(cluster_name@) == Some(health),
            final(self).same_but_health(old(self), cluster_name@),
    {
        self.health.insert(cluster_name, health);
    }

    pub fn get_cluster_health(&self, cluster_name: &str) -> (r: Option<&ClusterHealth>)
        ensures
            r is None <==> self.spec_health(cluster_name@) is None,
            r matches Some(h) ==> self.spec_health(cluster_name@) == Some(*h),
    {
        self.health.get(cluster_name)
    }

    /// Stores the index listing of a cluster, sorted by index name.
    pub fn update_indices(&mut self, cluster_name: String, indices: Vec<CatIndex>)
        ensures
            final(self).spec_indices(cluster_name@) matches Some(v) && v@.to_multiset()
                == indices@.to_multiset() && sorted_indices(v@),
            final(self).same_but_indices(old(self), cluster_name@),
    {
        let mut indices = indices;
        sort_indices_by_name(&mut indices);
        self.indices.insert(cluster_name, indices);
    }

    /// The index listing of a cluster, without the rows that `filter` hides.
    pub fn get_visible_indices(&self, cluster_name: &str, filter: Option<TableFilter>) -> (r:
        Option<Vec<&CatIndex>>)
        ensures
            r is None <==> self.spec_indices(cluster_name@) is None,
            r matches Some(v) ==> self.spec_indices(cluster_name@) matches Some(all)
                && same_rows(v@, visible_indices(all@, filter)),
    {
        match self.indices.get(cluster_name) {
            None => None,
            Some(all) => {
                let mut out: Vec<&CatIndex> = Vec::new();
                let mut i: usize = 0;
                while i < all.len()
                    invariant
                        i <= all@.len(),
                        same_rows(out@, visible_indices(all@.subrange(0, i as int), filter)),
                    decreases all@.len() - i,
                {
                    assert(all@.subrange(0, i + 1).drop_last() =~= all@.subrange(0, i as int));
                    let row = &all[i];
                    let keep = match filter {
                        Some(f) => f.apply(row.index.as_str()),
                        None => true,
                    };
                    if keep {
                        out.push(row);
                    }
                    i = i + 1;
                }
                assert(all@.subrange(0, all@.len() as int) =~= all@);
                Some(out)
            },
        }
    }

    /// Stores the alias listing of a cluster, sorted by alias name.
    pub fn update_aliases(&mut self, cluster_name: String, aliases: Vec<CatAlias>)
        ensures
            final(self).spec_aliases(cluster_name@) matches Some(v) && v@.to_multiset()
                == aliases@.to_multiset() && sorted_aliases(v@),
            final(self).same_but_aliases(old(self), cluster_name@),
    {
        let mut aliases = aliases;
        sort_aliases_by_name(&mut aliases);
        self.aliases.insert(cluster_name, aliases);
    }

    /// The alias listing of a cluster, without the rows that `filter` hides.
    pub fn get_visible_aliases(&self, cluster_name: &str, filter: Option<TableFilter>) -> (r:
        Option<Vec<&CatAlias>>)
        ensures
            r is None <==> self.spec_aliases(cluster_name@) is None,
            r matches Some(v) ==> self.spec_aliases(cluster_name@) matches Some(all)
                && same_rows(v@, visible_aliases(all@, filter)),
    {
        match self.aliases.get(cluster_name) {
            None => None,
            Some(all) => {
                let mut out: Vec<&CatAlias> = Vec::new();
                let mut i: usize = 0;
                while i < all.len()
                    invariant
                        i <= all@.len(),
                        same_rows(out@, visible_aliases(all@.subrange(0, i as int), filter)),
                    decreases all@.len() - i,
                {
                    assert(all@.subrange(0, i + 1).drop_last() =~= all@.subrange(0, i as int));
                    let row = &all[i];
                    let keep = match filter {
                        Some(f) => f.apply(row.alias.as_str()),
                        None => true,
                    };
                    if keep {
                        out.push(row);
                    }
                    i = i + 1;
                }
                assert(all@.subrange(0, all@.len() as int) =~= all@);
                Some(out)
            },
        }
    }

    pub fn update_index(&mut self, cluster_name: String, name: String, index: Index)
        ensures
            final(self).spec_index(cluster_name@, name@) == Some(index),
            final(self).same_but_index(old(self), cluster_name@, name@),
    {
        let mut inner = match self.index.remove(cluster_name.as_str()) {
            Some(t) => t,
            None => NamedTable::new(),
        };
        inner.insert(name, index);
        self.index.insert(cluster_name, inner);
    }

    pub fn get_index(&self, cluster_name: &str, index: &str) -> (r: Option<&Index>)
        ensures
            r is None <==> self.spec_index(cluster_name@, index@) is None,
            r matches Some(v) ==> self.spec_index(cluster_name@, index@) == Some(*v),
    {
        match self.index.get(cluster_name) {
            Some(t) => t.get(index),
            None => None,
        }
    }
}

} // verus!
