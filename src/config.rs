use vstd::prelude::*;

verus! {

/// Settings read once at start-up.
pub struct Config {
    pub elasticsearch: Option<Vec<ElasticsearchConfig>>,
}

/// One named cluster and how to reach it.
pub struct ElasticsearchConfig {
    pub name: String,
    /// Address of the cluster, as written in the settings.
    pub endpoint: String,
    pub credential: ElasticsearchCredential,
}

pub struct ElasticsearchCredential {
    pub username: String,
    pub password: String,
    pub cloud_id: Option<String>,
}

impl Config {
    /// The configured clusters, none when the section is absent.
    pub open spec fn spec_configs(&self) -> Seq<ElasticsearchConfig> {
        match self.elasticsearch {
            Some(v) => v@,
            None => Seq::<ElasticsearchConfig>::empty(),
        }
    }

    /// The configured clusters, none when the section is absent.
    pub fn elasticsearch_configs(self) -> (r: Vec<ElasticsearchConfig>)
        ensures
            r@ == self.spec_configs(),
    {
        match self.elasticsearch {
            Some(v) => v,
            None => Vec::new(),
        }
    }
}

} // verus!
