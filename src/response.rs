use std::collections::HashMap;

use vstd::prelude::*;

verus! {

#[verifier::external_type_specification]
#[verifier::external_body]
pub struct ExValue(serde_json::Value);

/// Health of one cluster.
#[derive(Clone)]
pub struct ClusterHealth {
    pub active_primary_shards: i64,
    pub active_shards: i64,
    /// Share of active shards, in the decimal text the cluster reported.
    pub active_shards_percent_as_number: String,
    pub cluster_name: String,
    pub delayed_unassigned_shards: i64,
    pub initializing_shards: i64,
    pub number_of_data_nodes: i64,
    pub number_of_in_flight_fetch: i64,
    pub number_of_nodes: i64,
    pub number_of_pending_tasks: i64,
    pub relocating_shards: i64,
    pub status: String,
    pub task_max_waiting_in_queue_millis: i64,
    pub timed_out: bool,
    pub unassigned_shards: i64,
}

/// One row of the index listing.
#[derive(Clone)]
pub struct CatIndex {
    pub docs_count: String,
    pub docs_deleted: String,
    pub health: String,
    pub index: String,
    pub pri: String,
    pub pri_store_size: String,
    pub rep: String,
    pub status: String,
    pub store_size: String,
    pub uuid: String,
}

/// One row of the alias listing.
#[derive(Clone)]
pub struct CatAlias {
    pub alias: String,
    pub filter: String,
    pub index: String,
    /// "true" / "false"
    pub is_write_index: String,
    pub routing_index: String,
    pub routing_search: String,
}

/// Detail of one index.
#[derive(Clone)]
pub struct Index {
    pub aliases: Option<HashMap<String, IndexAlias>>,
    pub mappings: Option<IndexMappings>,
    pub settings: Option<Settings>,
}

#[derive(Clone)]
pub struct IndexAlias {
    pub is_write_index: Option<bool>,
    pub filter: Option<Filter>,
}

#[derive(Clone)]
pub struct Filter {
    pub term: Option<serde_json::Value>,
}

#[derive(Clone)]
pub struct IndexMappings {
    pub dynamic: Option<String>,
    pub properties: HashMap<String, Property>,
}

#[derive(Clone)]
pub struct Property {
    pub kind: Option<String>,
    pub format: Option<String>,
    pub analyzer: Option<String>,
    pub search_analyzer: Option<String>,
    pub term_vector: Option<String>,
    pub fields: Option<serde_json::Value>,
}

#[derive(Clone)]
pub struct Settings {
    pub index: Option<IndexSettings>,
}

#[derive(Clone)]
pub struct IndexSettings {
    pub creation_date: String,
    pub number_of_shards: String,
    pub number_of_replicas: String,
    pub uuid: String,
    pub provided_name: String,
}

/// A copy of an optional string.
fn duplicate_opt_string(s: &Option<String>) -> (r: Option<String>)
    ensures
        r == *s,
{
    match s {
        Some(x) => Some(x.clone()),
        None => None,
    }
}

impl ClusterHealth {
    /// A copy of this health report.
    pub fn duplicate(&self) -> (r: ClusterHealth)
        ensures
            r == *self,
    {
        ClusterHealth {
            active_primary_shards: self.active_primary_shards,
            active_shards: self.active_shards,
            active_shards_percent_as_number: self.active_shards_percent_as_number.clone(),
            cluster_name: self.cluster_name.clone(),
            delayed_unassigned_shards: self.delayed_unassigned_shards,
            initializing_shards: self.initializing_shards,
            number_of_data_nodes: self.number_of_data_nodes,
            number_of_in_flight_fetch: self.number_of_in_flight_fetch,
            number_of_nodes: self.number_of_nodes,
            number_of_pending_tasks: self.number_of_pending_tasks,
            relocating_shards: self.relocating_shards,
            status: self.status.clone(),
            task_max_waiting_in_queue_millis: self.task_max_waiting_in_queue_millis,
            timed_out: self.timed_out,
            unassigned_shards: self.unassigned_shards,
        }
    }
}

impl CatIndex {
    /// A copy of this row.
    pub fn duplicate(&self) -> (r: CatIndex)
        ensures
            r == *self,
    {
        CatIndex {
            docs_count: self.docs_count.clone(),
            docs_deleted: self.docs_deleted.clone(),
            health: self.health.clone(),
            index: self.index.clone(),
            pri: self.pri.clone(),
            pri_store_size: self.pri_store_size.clone(),
            rep: self.rep.clone(),
            status: self.status.clone(),
            store_size: self.store_size.clone(),
            uuid: self.uuid.clone(),
        }
    }
}

impl CatAlias {
    /// A copy of this row.
    pub fn duplicate(&self) -> (r: CatAlias)
        ensures
            r == *self,
    {
        CatAlias {
            alias: self.alias.clone(),
            filter: self.filter.clone(),
            index: self.index.clone(),
            is_write_index: self.is_write_index.clone(),
            routing_index: self.routing_index.clone(),
            routing_search: self.routing_search.clone(),
        }
    }
}

/// A copy of an index listing.
pub fn duplicate_indices(v: &Vec<CatIndex>) -> (r: Vec<CatIndex>)
    ensures
        r@ == v@,
{
    let mut r: Vec<CatIndex> = Vec::new();
    let mut i: usize = 0;
    while i < v.len()
        invariant
            i <= v@.len(),
            r@ == v@.subrange(0, i as int),
        decreases v@.len() - i,
    {
        r.push(v[i].duplicate());
        i = i + 1;
        assert(r@ =~= v@.subrange(0, i as int));
    }
    assert(v@.subrange(0, v@.len() as int) =~= v@);
    r
}

/// A copy of an alias listing.
pub fn duplicate_aliases(v: &Vec<CatAlias>) -> (r: Vec<CatAlias>)
    ensures
        r@ == v@,
{
    let mut r: Vec<CatAlias> = Vec::new();
    let mut i: usize = 0;
    while i < v.len()
        invariant
            i <= v@.len(),
            r@ == v@.subrange(0, i as int),
        decreases v@.len() - i,
    {
        r.push(v[i].duplicate());
        i = i + 1;
        assert(r@ =~= v@.subrange(0, i as int));
    }
    assert(v@.subrange(0, v@.len() as int) =~= v@);
    r
}

impl IndexSettings {
    pub fn duplicate(&self) -> (r: IndexSettings)
        ensures
            r == *self,
    {
        IndexSettings {
            creation_date: self.creation_date.clone(),
            number_of_shards: self.number_of_shards.clone(),
            number_of_replicas: self.number_of_replicas.clone(),
            uuid: self.uuid.clone(),
            provided_name: self.provided_name.clone(),
        }
    }
}

impl Settings {
    pub fn duplicate(&self) -> (r: Settings)
        ensures
            r == *self,
    {
        Settings {
            index: match &self.index {
                Some(s) => Some(s.duplicate()),
                None => None,
            },
        }
    }
}

impl Index {
    /// Both hold the same aliases, mappings and settings; the tables of
    /// aliases and of properties hold the same entries.
    pub open spec fn same_content(&self, other: &Index) -> bool {
        &&& match (self.aliases, other.aliases) {
            (Some(a), Some(b)) => a@ == b@,
            (None, None) => true,
            _ => false,
        }
        &&& match (self.mappings, other.mappings) {
            (Some(a), Some(b)) => a.dynamic == b.dynamic && a.properties@ == b.properties@,
            (None, None) => true,
            _ => false,
        }
        &&& self.settings == other.settings
    }

    /// A copy of this index detail.
    pub fn duplicate(&self) -> (r: Index)
        ensures
            r.same_content(self),
    {
        Index {
            aliases: match &self.aliases {
                Some(m) => Some(m.clone()),
                None => None,
            },
            mappings: match &self.mappings {
                Some(m) => Some(
                    IndexMappings {
                        dynamic: duplicate_opt_string(&m.dynamic),
                        properties: m.properties.clone(),
                    },
                ),
                None => None,
            },
            settings: match &self.settings {
                Some(s) => Some(s.duplicate()),
                None => None,
            },
        }
    }
}

} // verus!
