//! Core of a terminal dashboard for data-cluster backends: request
//! correlation, navigation state and the per-cluster response cache.
pub mod api;
pub mod cache;
pub mod component;
pub mod config;
pub mod elasticsearch;
pub mod error;
pub mod format;
pub mod input;
pub mod navigate;
pub mod response;
pub mod session;
pub mod style;
pub mod table;
pub mod transport;
pub mod view;

pub use api::{
    ApiHandleError, ElasticsearchApiHandler, ElasticsearchClient, ElasticsearchClientError,
    ElasticsearchRequestEvent, ElasticsearchResponseEvent, RequestEnvelope, RequestEvent,
    RequestId, ResponseEnvelope, ResponseEvent,
};
pub use cache::{Data, TableFilter};
pub use component::{ComponentKind, ElasticsearchComponentKind, ResourceKind, ResourceTab};
pub use config::{Config, ElasticsearchConfig, ElasticsearchCredential};
pub use elasticsearch::{ElasticsearchComponent, ElasticsearchResourceKind};
pub use error::{AppError, TerminalError};
pub use format::humanize_str_bytes;
pub use input::{handle, Command, Key, KeyInput};
pub use navigate::{Cursor, Navigate, Navigated};
pub use response::{
    CatAlias, CatIndex, ClusterHealth, Filter, Index, IndexAlias, IndexMappings, IndexSettings,
    Property, Settings,
};
pub use session::Session;
pub use style::Styled;
pub use transport::{
    InFlightEntry, TransportController, TransportError, TransportResult, TransportStats,
    HISTORY_SIZE,
};
pub use view::{Dashboard, ViewState};
