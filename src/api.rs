use vstd::prelude::*;

use crate::config::ElasticsearchConfig;
use crate::response::{duplicate_aliases, duplicate_indices, CatAlias, CatIndex, ClusterHealth, Index};

verus! {

/// Correlation identifier of one request.
#[derive(Debug, Clone, Copy, PartialEq, Eq, Hash, Structural)]
pub struct RequestId(pub u64);

/// A query against one configured cluster.
#[derive(Debug)]
pub enum ElasticsearchRequestEvent {
    FetchCluster { cluster_name: String },
    FetchIndices { cluster_name: String },
    FetchAliases { cluster_name: String },
    FetchIndex { cluster_name: String, index: String },
}

/// A backend operation, tagged by backend.
#[derive(Debug)]
pub enum RequestEvent {
    Elasticsearch(ElasticsearchRequestEvent),
}

/// The result of a query against one cluster.
#[derive(Clone)]
pub enum ElasticsearchResponseEvent {
    ClusterHealth { cluster_name: String, response: ClusterHealth },
    Indices { cluster_name: String, response: Vec<CatIndex> },
    Aliases { cluster_name: String, response: Vec<CatAlias> },
    Index { cluster_name: String, index: String, response: Index },
}

#[derive(Clone)]
pub enum ResponseEvent {
    Elasticsearch(ElasticsearchResponseEvent),
}

/// A request on its way to the dispatcher.
pub struct RequestEnvelope {
    pub request_id: RequestId,
    pub event: RequestEvent,
}

/// A completed request: its payload, or a summary of the backend failure.
pub struct ResponseEnvelope {
    pub request_id: RequestId,
    pub result: Result<ResponseEvent, String>,
}

#[derive(Debug, Clone, Copy, PartialEq, Eq, Structural)]
pub enum ApiHandleError {
    Elasticsearch,
}

#[derive(Debug, Clone, Copy, PartialEq, Eq, Structural)]
pub enum ElasticsearchClientError {
    BuildClient,
    ApiRequest,
    DeserializeResponse,
}

impl ElasticsearchRequestEvent {
    /// A copy of this request.
    pub fn duplicate(&self) -> (r: Self)
        ensures
            r == *self,
    {
        match self {
            ElasticsearchRequestEvent::FetchCluster { cluster_name } => {
                ElasticsearchRequestEvent::FetchCluster { cluster_name: cluster_name.clone() }
            },
            ElasticsearchRequestEvent::FetchIndices { cluster_name } => {
                ElasticsearchRequestEvent::FetchIndices { cluster_name: cluster_name.clone() }
            },
            ElasticsearchRequestEvent::FetchAliases { cluster_name } => {
                ElasticsearchRequestEvent::FetchAliases { cluster_name: cluster_name.clone() }
            },
            ElasticsearchRequestEvent::FetchIndex { cluster_name, index } => {
                ElasticsearchRequestEvent::FetchIndex {
                    cluster_name: cluster_name.clone(),
                    index: index.clone(),
                }
            },
        }
    }

    pub open spec fn spec_cluster_name(&self) -> String {
        match self {
            ElasticsearchRequestEvent::FetchCluster { cluster_name } => *cluster_name,
            ElasticsearchRequestEvent::FetchIndices { cluster_name } => *cluster_name,
            ElasticsearchRequestEvent::FetchAliases { cluster_name } => *cluster_name,
            ElasticsearchRequestEvent::FetchIndex { cluster_name, .. } => *cluster_name,
        }
    }

    /// The cluster that the request is addressed to.
    pub fn cluster_name(&self) -> (r: &str)
        ensures
            r@ == self.spec_cluster_name()@,
    {
        match self {
            ElasticsearchRequestEvent::FetchCluster { cluster_name } => cluster_name.as_str(),
            ElasticsearchRequestEvent::FetchIndices { cluster_name } => cluster_name.as_str(),
            ElasticsearchRequestEvent::FetchAliases { cluster_name } => cluster_name.as_str(),
            ElasticsearchRequestEvent::FetchIndex { cluster_name, .. } => cluster_name.as_str(),
        }
    }
}

impl RequestEvent {
    /// A copy of this request.
    pub fn duplicate(&self) -> (r: Self)
        ensures
            r == *self,
    {
        match self {
            RequestEvent::Elasticsearch(e) => RequestEvent::Elasticsearch(e.duplicate()),
        }
    }
}

/// The requests that an optional plan holds.
pub open spec fn opt_seq(r: Option<Vec<RequestEvent>>) -> Option<Seq<RequestEvent>> {
    match r {
        Some(v) => Some(v@),
        None => None,
    }
}

impl ResponseEvent {
    /// Both answer the same query with the same payload (index detail up to
    /// the entries of its tables).
    pub open spec fn same_payload(&self, other: &ResponseEvent) -> bool {
        match (self, other) {
            (
                ResponseEvent::Elasticsearch(ElasticsearchResponseEvent::ClusterHealth { cluster_name: a, response: x }),
                ResponseEvent::Elasticsearch(ElasticsearchResponseEvent::ClusterHealth { cluster_name: b, response: y }),
            ) => a == b && x == y,
            (
                ResponseEvent::Elasticsearch(ElasticsearchResponseEvent::Indices { cluster_name: a, response: x }),
                ResponseEvent::Elasticsearch(ElasticsearchResponseEvent::Indices { cluster_name: b, response: y }),
            ) => a == b && x@ == y@,
            (
                ResponseEvent::Elasticsearch(ElasticsearchResponseEvent::Aliases { cluster_name: a, response: x }),
                ResponseEvent::Elasticsearch(ElasticsearchResponseEvent::Aliases { cluster_name: b, response: y }),
            ) => a == b && x@ == y@,
            (
                ResponseEvent::Elasticsearch(ElasticsearchResponseEvent::Index { cluster_name: a, index: i, response: x }),
                ResponseEvent::Elasticsearch(ElasticsearchResponseEvent::Index { cluster_name: b, index: j, response: y }),
            ) => a == b && i == j && x.same_content(&y),
            _ => false,
        }
    }

    /// A copy of this answer.
    pub fn duplicate(&self) -> (r: ResponseEvent)
        ensures
            r.same_payload(self),
    {
        match self {
            ResponseEvent::Elasticsearch(e) => ResponseEvent::Elasticsearch(
                match e {
                    ElasticsearchResponseEvent::ClusterHealth { cluster_name, response } => {
                        ElasticsearchResponseEvent::ClusterHealth {
                            cluster_name: cluster_name.clone(),
                            response: response.duplicate(),
                        }
                    },
                    ElasticsearchResponseEvent::Indices { cluster_name, response } => {
                        ElasticsearchResponseEvent::Indices {
                            cluster_name: cluster_name.clone(),
                            response: duplicate_indices(response),
                        }
                    },
                    ElasticsearchResponseEvent::Aliases { cluster_name, response } => {
                        ElasticsearchResponseEvent::Aliases {
                            cluster_name: cluster_name.clone(),
                            response: duplicate_aliases(response),
                        }
                    },
                    ElasticsearchResponseEvent::Index { cluster_name, index, response } => {
                        ElasticsearchResponseEvent::Index {
                            cluster_name: cluster_name.clone(),
                            index: index.clone(),
                            response: response.duplicate(),
                        }
                    },
                },
            ),
        }
    }

    /// Whether the response answers `request`: same kind of query, same
    /// cluster and, for index detail, same index.
    pub open spec fn answers(&self, request: RequestEvent) -> bool {
        match (self, request) {
            (
                ResponseEvent::Elasticsearch(ElasticsearchResponseEvent::ClusterHealth { cluster_name, .. }),
                RequestEvent::Elasticsearch(ElasticsearchRequestEvent::FetchCluster { cluster_name: c }),
            ) => cluster_name@ == c@,
            (
                ResponseEvent::Elasticsearch(ElasticsearchResponseEvent::Indices { cluster_name, .. }),
                RequestEvent::Elasticsearch(ElasticsearchRequestEvent::FetchIndices { cluster_name: c }),
            ) => cluster_name@ == c@,
            (
                ResponseEvent::Elasticsearch(ElasticsearchResponseEvent::Aliases { cluster_name, .. }),
                RequestEvent::Elasticsearch(ElasticsearchRequestEvent::FetchAliases { cluster_name: c }),
            ) => cluster_name@ == c@,
            (
                ResponseEvent::Elasticsearch(ElasticsearchResponseEvent::Index { cluster_name, index, .. }),
                RequestEvent::Elasticsearch(ElasticsearchRequestEvent::FetchIndex { cluster_name: c, index: i }),
            ) => cluster_name@ == c@ && index@ == i@,
            _ => false,
        }
    }
}

/// Connection settings of one cluster, checked: only clusters addressed by
/// a cloud id are supported.
pub struct ElasticsearchClient {
    name: String,
    cloud_id: String,
    username: String,
    password: String,
    default_timeout_secs: u64,
}

pub const DEFAULT_TIMEOUT_SECS: u64 = 20;

impl ElasticsearchClient {
    pub closed spec fn spec_name(&self) -> Seq<char> {
        self.name@
    }

    pub closed spec fn spec_cloud_id(&self) -> Seq<char> {
        self.cloud_id@
    }

    pub closed spec fn spec_default_timeout_secs(&self) -> u64 {
        self.default_timeout_secs
    }

    pub closed spec fn spec_username(&self) -> Seq<char> {
        self.username@
    }

    pub closed spec fn spec_password(&self) -> Seq<char> {
        self.password@
    }

    /// Checks the settings of one cluster: without a cloud id they are
    /// refused.
    pub fn new(c: ElasticsearchConfig) -> (r: Result<ElasticsearchClient, ElasticsearchClientError>)
        ensures
            r is Err <==> c.credential.cloud_id is None,
            r matches Err(e) ==> e == ElasticsearchClientError::BuildClient,
            r matches Ok(client) ==> client.spec_name() == c.name@ && client.spec_username()
                == c.credential.username@ && client.spec_password() == c.credential.password@
                && (c.credential.cloud_id matches Some(id) && client.spec_cloud_id() == id@)
                && client.spec_default_timeout_secs() == DEFAULT_TIMEOUT_SECS,
    {
        match c.credential.cloud_id {
            Some(cloud_id) => Ok(
                ElasticsearchClient {
                    name: c.name,
                    cloud_id,
                    username: c.credential.username,
                    password: c.credential.password,
                    default_timeout_secs: DEFAULT_TIMEOUT_SECS,
                },
            ),
            None => Err(ElasticsearchClientError::BuildClient),
        }
    }

    pub fn name(&self) -> (r: &str)
        ensures
            r@ == self.spec_name(),
    {
        self.name.as_str()
    }

    pub fn cloud_id(&self) -> (r: &str)
        ensures
            r@ == self.spec_cloud_id(),
    {
        self.cloud_id.as_str()
    }

    pub fn username(&self) -> (r: &str)
        ensures
            r@ == self.spec_username(),
    {
        self.username.as_str()
    }

    pub fn password(&self) -> (r: &str)
        ensures
            r@ == self.spec_password(),
    {
        self.password.as_str()
    }

    pub fn default_timeout_secs(&self) -> (r: u64)
        ensures
            r == self.spec_default_timeout_secs(),
    {
        self.default_timeout_secs
    }
}

/// The configured clusters, looked up by name; a later entry of the same
/// name stands for the earlier ones.
pub struct ElasticsearchApiHandler {
    clients: Vec<ElasticsearchClient>,
}

impl ElasticsearchApiHandler {
    pub closed spec fn spec_clients(&self) -> Seq<ElasticsearchClient> {
        self.clients@
    }

    /// Checks each cluster's settings; the first refusal fails the whole.
    pub fn new(configs: Vec<ElasticsearchConfig>) -> (r: Result<Self, ElasticsearchClientError>)
        ensures
            r is Ok <==> forall|i: int|
                0 <= i < configs@.len() ==> (#[trigger] configs@[i]).credential.cloud_id is Some,
            r matches Ok(h) ==> h.spec_clients().len() == configs@.len() && forall|i: int|
                0 <= i < configs@.len() ==> (#[trigger] h.spec_clients()[i]).spec_name()
                    == configs@[i].name@,
            r matches Err(e) ==> e == ElasticsearchClientError::BuildClient,
    {
        let ghost cs = configs@;
        let mut clients: Vec<ElasticsearchClient> = Vec::new();
        let mut rest = configs;
        while rest.len() > 0
            invariant
                cs == configs@,
                clients@.len() <= cs.len(),
                rest@ == cs.subrange(clients@.len() as int, cs.len() as int),
                forall|i: int| 0 <= i < clients@.len() ==> (#[trigger] clients@[i]).spec_name()
                    == cs[i].name@,
                forall|i: int| 0 <= i < clients@.len() ==> (#[trigger] cs[i]).credential.cloud_id is Some,
            decreases rest.len(),
        {
            let c = rest.remove(0);
            proof {
                assert(c == cs[clients@.len() as int]);
            }
            match ElasticsearchClient::new(c) {
                Ok(client) => clients.push(client),
                Err(e) => {
                    proof {
                        let k = clients@.len() as int;
                        assert(cs[k].credential.cloud_id is None);
                    }
                    return Err(e);
                },
            }
        }
        Ok(ElasticsearchApiHandler { clients })
    }

    /// The client of the cluster named `name`.
    pub fn lookup_cluster(&self, name: &str) -> (r: Result<&ElasticsearchClient, ApiHandleError>)
        ensures
            r is Err <==> forall|i: int|
                0 <= i < self.spec_clients().len() ==> (#[trigger] self.spec_clients()[i]).spec_name() != name@,
            r matches Err(e) ==> e == ApiHandleError::Elasticsearch,
            r matches Ok(c) ==> exists|i: int|
                0 <= i < self.spec_clients().len() && self.spec_clients()[i] == *c && c.spec_name() == name@
                    && forall|j: int|
                    i < j < self.spec_clients().len() ==> (#[trigger] self.spec_clients()[j]).spec_name()
                        != name@,
    {
        let mut i: usize = self.clients.len();
        while i > 0
            invariant
                i <= self.spec_clients().len(),
                forall|j: int|
                    i <= j < self.spec_clients().len() ==> (#[trigger] self.spec_clients()[j]).spec_name()
                        != name@,
            decreases i,
        {
            i = i - 1;
            if str_eq(self.clients[i].name(), name) {
                return Ok(&self.clients[i]);
            }
        }
        Err(ApiHandleError::Elasticsearch)
    }

    /// The client that serves `req`.
    pub fn route(&self, req: &ElasticsearchRequestEvent) -> (r: Result<&ElasticsearchClient, ApiHandleError>)
        ensures
            r is Err <==> forall|i: int|
                0 <= i < self.spec_clients().len() ==> (#[trigger] self.spec_clients()[i]).spec_name()
                    != req.spec_cluster_name()@,
            r matches Ok(c) ==> c.spec_name() == req.spec_cluster_name()@,
    {
        self.lookup_cluster(req.cluster_name())
    }
}

/// Whether two strings hold the same characters.
pub fn str_eq(a: &str, b: &str) -> (r: bool)
    ensures
        r == (a@ == b@),
{
    let x = a.to_owned();
    let y = b.to_owned();
    x == y
}

} // verus!
