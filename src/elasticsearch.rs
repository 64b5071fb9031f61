use vstd::prelude::*;

use crate::api::{opt_seq, ElasticsearchRequestEvent, ElasticsearchResponseEvent, RequestEvent};
use crate::cache::{stores, visible_aliases, visible_indices, Data, TableFilter};
use crate::component::ElasticsearchComponentKind;
use crate::config::ElasticsearchConfig;
use crate::navigate::{spec_apply, Cursor, Navigate};

verus! {

/// What the cluster tab shows for the selected cluster.
#[derive(Debug, Clone, Copy, PartialEq, Eq, Structural)]
pub enum ElasticsearchResourceKind {
    Cluster,
    Index,
    Alias,
}

/// The views of the cluster tab, in the order listed.
pub open spec fn spec_resource_at(i: int) -> Option<ElasticsearchResourceKind> {
    if i == 0 {
        Some(ElasticsearchResourceKind::Cluster)
    } else if i == 1 {
        Some(ElasticsearchResourceKind::Index)
    } else if i == 2 {
        Some(ElasticsearchResourceKind::Alias)
    } else {
        None
    }
}

/// Number of views of the cluster tab.
pub const RESOURCE_COUNT: usize = 3;

impl ElasticsearchResourceKind {
    pub fn name(&self) -> (r: &'static str)
        ensures
            *self == ElasticsearchResourceKind::Cluster ==> r@ == "cluster"@,
            *self == ElasticsearchResourceKind::Index ==> r@ == "index"@,
            *self == ElasticsearchResourceKind::Alias ==> r@ == "alias"@,
    {
        match self {
            ElasticsearchResourceKind::Cluster => "cluster",
            ElasticsearchResourceKind::Index => "index",
            ElasticsearchResourceKind::Alias => "alias",
        }
    }
}

/// The cluster tab: a list of the configured clusters, a list of views,
/// the table of the selected view, and the cached answers.
pub struct ElasticsearchComponent {
    cluster_names: Vec<String>,
    focused: Option<ElasticsearchComponentKind>,
    cluster_list_state: Cursor,
    resource_list_state: Cursor,
    index_table_state: Cursor,
    alias_table_state: Cursor,
    /// Name of the index whose detail is shown, if one was entered.
    entered_index: Option<String>,
    filter: Option<TableFilter>,
    data: Data,
}

/// The plan for a cluster, a view and an entered index: the one request
/// that brings what that view shows.
pub open spec fn spec_plan_for(
    cluster: String,
    resource: ElasticsearchResourceKind,
    entered: Option<String>,
) -> RequestEvent {
    RequestEvent::Elasticsearch(
        match resource {
            ElasticsearchResourceKind::Cluster => ElasticsearchRequestEvent::FetchCluster {
                cluster_name: cluster,
            },
            ElasticsearchResourceKind::Index => match entered {
                Some(index) => ElasticsearchRequestEvent::FetchIndex {
                    cluster_name: cluster,
                    index,
                },
                None => ElasticsearchRequestEvent::FetchIndices { cluster_name: cluster },
            },
            ElasticsearchResourceKind::Alias => ElasticsearchRequestEvent::FetchAliases {
                cluster_name: cluster,
            },
        },
    )
}

impl ElasticsearchComponent {
    pub closed spec fn spec_cluster_names(&self) -> Seq<String> {
        self.cluster_names@
    }

    pub closed spec fn spec_focused(&self) -> Option<ElasticsearchComponentKind> {
        self.focused
    }

    pub closed spec fn spec_cluster_cursor(&self) -> Option<usize> {
        self.cluster_list_state.selected
    }

    pub closed spec fn spec_resource_cursor(&self) -> Option<usize> {
        self.resource_list_state.selected
    }

    pub closed spec fn spec_index_cursor(&self) -> Option<usize> {
        self.index_table_state.selected
    }

    pub closed spec fn spec_alias_cursor(&self) -> Option<usize> {
        self.alias_table_state.selected
    }

    pub closed spec fn spec_entered_index(&self) -> Option<String> {
        self.entered_index
    }

    pub closed spec fn spec_filter(&self) -> Option<TableFilter> {
        self.filter
    }

    pub closed spec fn spec_data(&self) -> Data {
        self.data
    }

    /// The cluster under the cluster cursor.
    pub open spec fn spec_selected_cluster(&self) -> Option<String> {
        match self.spec_cluster_cursor() {
            Some(i) => if i < self.spec_cluster_names().len() {
                Some(self.spec_cluster_names()[i as int])
            } else {
                None
            },
            None => None,
        }
    }

    /// The view under the view cursor.
    pub open spec fn spec_selected_resource(&self) -> Option<ElasticsearchResourceKind> {
        match self.spec_resource_cursor() {
            Some(i) => spec_resource_at(i as int),
            None => None,
        }
    }

    /// What to request for the current selection: nothing without a
    /// selected cluster and view, else the one request of `spec_plan_for`.
    pub open spec fn spec_fetch_plan(&self) -> Option<Seq<RequestEvent>> {
        match (self.spec_selected_cluster(), self.spec_selected_resource()) {
            (Some(c), Some(r)) => Some(seq![spec_plan_for(c, r, self.spec_entered_index())]),
            _ => None,
        }
    }

    /// The index rows shown for the selected cluster.
    pub open spec fn spec_visible_index_rows(&self) -> Seq<crate::response::CatIndex> {
        match self.spec_selected_cluster() {
            Some(c) => match self.spec_data().spec_indices(c@) {
                Some(all) => visible_indices(all@, self.spec_filter()),
                None => Seq::empty(),
            },
            None => Seq::empty(),
        }
    }

    /// The alias rows shown for the selected cluster.
    pub open spec fn spec_visible_alias_rows(&self) -> Seq<crate::response::CatAlias> {
        match self.spec_selected_cluster() {
            Some(c) => match self.spec_data().spec_aliases(c@) {
                Some(all) => visible_aliases(all@, self.spec_filter()),
                None => Seq::empty(),
            },
            None => Seq::empty(),
        }
    }

    /// The cursors, the entered index and the focus are the same in both.
    pub open spec fn same_navigation(&self, other: &ElasticsearchComponent) -> bool {
        &&& self.spec_focused() == other.spec_focused()
        &&& self.spec_cluster_cursor() == other.spec_cluster_cursor()
        &&& self.spec_resource_cursor() == other.spec_resource_cursor()
        &&& self.spec_index_cursor() == other.spec_index_cursor()
        &&& self.spec_alias_cursor() == other.spec_alias_cursor()
        &&& self.spec_entered_index() == other.spec_entered_index()
        &&& self.spec_filter() == other.spec_filter()
        &&& self.spec_cluster_names() == other.spec_cluster_names()
    }

    /// This is the tab that `new` makes for `configs`: their names, the
    /// first cluster and the first view selected, no focus, nothing
    /// entered, nothing hidden and nothing cached.
    pub open spec fn is_initial(&self, configs: Seq<ElasticsearchConfig>) -> bool {
        &&& self.spec_cluster_names().len() == configs.len()
        &&& forall|i: int|
            0 <= i < configs.len() ==> #[trigger] self.spec_cluster_names()[i] == configs[i].name
        &&& self.spec_focused() is None
        &&& self.spec_cluster_cursor() == Some(0usize)
        &&& self.spec_resource_cursor() == Some(0usize)
        &&& self.spec_index_cursor() == Some(0usize)
        &&& self.spec_alias_cursor() == Some(0usize)
        &&& self.spec_entered_index() is None
        &&& self.spec_filter() is None
        &&& self.spec_data().is_empty()
    }

    /// All but the focus is the same in both.
    pub open spec fn same_but_focus(&self, other: &ElasticsearchComponent) -> bool {
        &&& self.spec_cluster_cursor() == other.spec_cluster_cursor()
        &&& self.spec_resource_cursor() == other.spec_resource_cursor()
        &&& self.spec_index_cursor() == other.spec_index_cursor()
        &&& self.spec_alias_cursor() == other.spec_alias_cursor()
        &&& self.spec_entered_index() == other.spec_entered_index()
        &&& self.spec_filter() == other.spec_filter()
        &&& self.spec_cluster_names() == other.spec_cluster_names()
        &&& self.spec_data() == other.spec_data()
    }

    /// The cursors, the focus, the filter, the names and the cache are the
    /// same in both; the entered index may differ.
    pub open spec fn same_but_entered(&self, other: &ElasticsearchComponent) -> bool {
        &&& self.spec_focused() == other.spec_focused()
        &&& self.spec_cluster_cursor() == other.spec_cluster_cursor()
        &&& self.spec_resource_cursor() == other.spec_resource_cursor()
        &&& self.spec_index_cursor() == other.spec_index_cursor()
        &&& self.spec_alias_cursor() == other.spec_alias_cursor()
        &&& self.spec_filter() == other.spec_filter()
        &&& self.spec_cluster_names() == other.spec_cluster_names()
        &&& self.spec_data() == other.spec_data()
    }

    /// What `navigate` does: a move in the cluster or view list moves that
    /// cursor, leaves any entered index and plans anew; a move in a table
    /// moves its cursor over the rows shown and plans nothing.
    pub open spec fn navigate_step(
        pre: ElasticsearchComponent,
        post: ElasticsearchComponent,
        component: ElasticsearchComponentKind,
        navigate: Navigate,
        r: Option<Seq<RequestEvent>>,
    ) -> bool {
        &&& post.spec_focused() == pre.spec_focused()
        &&& post.spec_filter() == pre.spec_filter()
        &&& post.spec_cluster_names() == pre.spec_cluster_names()
        &&& post.spec_data() == pre.spec_data()
        &&& match component {
            ElasticsearchComponentKind::ClusterList => {
                &&& post.spec_cluster_cursor() == spec_apply(
                    pre.spec_cluster_cursor(),
                    navigate,
                    pre.spec_cluster_names().len() as int,
                )
                &&& post.spec_resource_cursor() == pre.spec_resource_cursor()
                &&& post.spec_index_cursor() == pre.spec_index_cursor()
                &&& post.spec_alias_cursor() == pre.spec_alias_cursor()
                &&& post.spec_entered_index() is None
                &&& r == post.spec_fetch_plan()
            },
            ElasticsearchComponentKind::ResourceList => {
                &&& post.spec_resource_cursor() == spec_apply(
                    pre.spec_resource_cursor(),
                    navigate,
                    RESOURCE_COUNT as int,
                )
                &&& post.spec_cluster_cursor() == pre.spec_cluster_cursor()
                &&& post.spec_index_cursor() == pre.spec_index_cursor()
                &&& post.spec_alias_cursor() == pre.spec_alias_cursor()
                &&& post.spec_entered_index() is None
                &&& r == post.spec_fetch_plan()
            },
            ElasticsearchComponentKind::IndexTable => {
                &&& post.spec_index_cursor() == spec_apply(
                    pre.spec_index_cursor(),
                    navigate,
                    pre.spec_visible_index_rows().len() as int,
                )
                &&& post.spec_cluster_cursor() == pre.spec_cluster_cursor()
                &&& post.spec_resource_cursor() == pre.spec_resource_cursor()
                &&& post.spec_alias_cursor() == pre.spec_alias_cursor()
                &&& post.spec_entered_index() == pre.spec_entered_index()
                &&& r is None
            },
            ElasticsearchComponentKind::AliasTable => {
                &&& post.spec_alias_cursor() == spec_apply(
                    pre.spec_alias_cursor(),
                    navigate,
                    pre.spec_visible_alias_rows().len() as int,
                )
                &&& post.spec_cluster_cursor() == pre.spec_cluster_cursor()
                &&& post.spec_resource_cursor() == pre.spec_resource_cursor()
                &&& post.spec_index_cursor() == pre.spec_index_cursor()
                &&& post.spec_entered_index() == pre.spec_entered_index()
                &&& r is None
            },
            ElasticsearchComponentKind::IndexDetail => {
                &&& post.same_navigation(&pre)
                &&& r is None
            },
        }
    }

    /// Whether `enter` drills into `component`: the index detail, while the
    /// Index view is selected and the index cursor is on a row shown.
    pub open spec fn can_enter(&self, component: ElasticsearchComponentKind) -> bool {
        &&& component == ElasticsearchComponentKind::IndexDetail
        &&& self.spec_selected_resource() == Some(ElasticsearchResourceKind::Index)
        &&& self.spec_index_cursor() matches Some(i)
        &&& (i as int) < self.spec_visible_index_rows().len()
    }

    /// The name of the index row under the index cursor.
    pub open spec fn spec_cursor_index_name(&self) -> String {
        self.spec_visible_index_rows()[self.spec_index_cursor()->0 as int].index
    }

    /// What `enter` does: the row under the cursor is entered and the one
    /// request is its detail, for the selected cluster; otherwise nothing
    /// changes and nothing is requested.
    pub open spec fn enter_step(
        pre: ElasticsearchComponent,
        post: ElasticsearchComponent,
        component: ElasticsearchComponentKind,
        r: Option<Seq<RequestEvent>>,
    ) -> bool {
        if pre.can_enter(component) {
            &&& post.spec_entered_index() == Some(pre.spec_cursor_index_name())
            &&& post.same_but_entered(&pre)
            &&& pre.spec_selected_cluster() matches Some(c)
            &&& r == Some(
                seq![
                    RequestEvent::Elasticsearch(
                        ElasticsearchRequestEvent::FetchIndex {
                            cluster_name: c,
                            index: pre.spec_cursor_index_name(),
                        },
                    ),
                ],
            )
        } else {
            &&& post == pre
            &&& r is None
        }
    }

    /// What `leave` does: nothing is entered afterwards and the plan is
    /// the listing's.
    pub open spec fn leave_step(
        pre: ElasticsearchComponent,
        post: ElasticsearchComponent,
        r: Option<Seq<RequestEvent>>,
    ) -> bool {
        &&& post.spec_entered_index() is None
        &&& post.same_but_entered(&pre)
        &&& r == post.spec_fetch_plan()
    }

    /// A tab for the clusters of `configs`, with the first cluster and the
    /// first view selected and nothing cached.
    pub fn new(configs: Vec<ElasticsearchConfig>) -> (r: ElasticsearchComponent)
        ensures
            r.is_initial(configs@),
    {
        let ghost cs = configs@;
        let mut names: Vec<String> = Vec::new();
        let mut rest = configs;
        while rest.len() > 0
            invariant
                cs == configs@,
                names@.len() <= cs.len(),
                rest@ == cs.subrange(names@.len() as int, cs.len() as int),
                forall|i: int| 0 <= i < names@.len() ==> #[trigger] names@[i] == cs[i].name,
            decreases rest.len(),
        {
            let c = rest.remove(0);
            proof {
                assert(c == cs[names@.len() as int]);
            }
            names.push(c.name);
        }
        let data = Data::new();
        ElasticsearchComponent {
            cluster_names: names,
            focused: None,
            cluster_list_state: Cursor::new(Some(0)),
            resource_list_state: Cursor::new(Some(0)),
            index_table_state: Cursor::new(Some(0)),
            alias_table_state: Cursor::new(Some(0)),
            entered_index: None,
            filter: None,
            data,
        }
    }

    /// Index of the selected cluster, if the cursor is on one.
    fn selected_cluster_index(&self) -> (r: Option<usize>)
        ensures
            r is None <==> self.spec_selected_cluster() is None,
            r matches Some(i) ==> i < self.cluster_names@.len() && self.spec_selected_cluster()
                == Some(self.cluster_names@[i as int]),
    {
        match self.cluster_list_state.selected() {
            Some(i) => if i < self.cluster_names.len() {
                Some(i)
            } else {
                None
            },
            None => None,
        }
    }

    /// The names of the configured clusters.
    pub fn cluster_names(&self) -> (r: &Vec<String>)
        ensures
            r@ == self.spec_cluster_names(),
    {
        &self.cluster_names
    }

    pub fn selected_cluster_name(&self) -> (r: Option<&str>)
        ensures
            r is None <==> self.spec_selected_cluster() is None,
            r matches Some(n) ==> self.spec_selected_cluster() matches Some(c) && n@ == c@,
    {
        match self.selected_cluster_index() {
            Some(i) => Some(self.cluster_names[i].as_str()),
            None => None,
        }
    }

    pub fn selected_resource(&self) -> (r: Option<ElasticsearchResourceKind>)
        ensures
            r == self.spec_selected_resource(),
    {
        match self.resource_list_state.selected() {
            Some(0) => Some(ElasticsearchResourceKind::Cluster),
            Some(1) => Some(ElasticsearchResourceKind::Index),
            Some(2) => Some(ElasticsearchResourceKind::Alias),
            _ => None,
        }
    }

    /// The request that brings what the current selection shows.
    pub fn fetch_data(&self) -> (r: Option<Vec<RequestEvent>>)
        ensures
            r is None <==> self.spec_fetch_plan() is None,
            r matches Some(v) ==> self.spec_fetch_plan() == Some(v@),
    {
        match (self.selected_cluster_index(), self.selected_resource()) {
            (Some(i), Some(resource)) => {
                let cluster = self.cluster_names[i].clone();
                let event = match resource {
                    ElasticsearchResourceKind::Cluster => ElasticsearchRequestEvent::FetchCluster {
                        cluster_name: cluster,
                    },
                    ElasticsearchResourceKind::Index => match &self.entered_index {
                        Some(index) => ElasticsearchRequestEvent::FetchIndex {
                            cluster_name: cluster,
                            index: index.clone(),
                        },
                        None => ElasticsearchRequestEvent::FetchIndices { cluster_name: cluster },
                    },
                    ElasticsearchResourceKind::Alias => ElasticsearchRequestEvent::FetchAliases {
                        cluster_name: cluster,
                    },
                };
                let v = vec![RequestEvent::Elasticsearch(event)];
                assert(v@ =~= seq![
                    spec_plan_for(self.cluster_names@[i as int], resource, self.entered_index),
                ]);
                Some(v)
            },
            _ => None,
        }
    }

    /// The requests to make before the first frame.
    pub fn init_data(&self) -> (r: Option<Vec<RequestEvent>>)
        ensures
            r is None <==> self.spec_fetch_plan() is None,
            r matches Some(v) ==> self.spec_fetch_plan() == Some(v@),
    {
        self.fetch_data()
    }

    /// Stores an answer in the cache; only the entry of its kind and
    /// cluster (and index) changes.
    pub fn update_api_response(&mut self, res: ElasticsearchResponseEvent)
        ensures
            final(self).same_navigation(old(self)),
            stores(old(self).spec_data(), final(self).spec_data(), res),
    {
        match res {
            ElasticsearchResponseEvent::ClusterHealth { cluster_name, response } => {
                self.data.update_cluster_health(cluster_name, response)
            },
            ElasticsearchResponseEvent::Indices { cluster_name, response } => {
                self.data.update_indices(cluster_name, response)
            },
            ElasticsearchResponseEvent::Aliases { cluster_name, response } => {
                self.data.update_aliases(cluster_name, response)
            },
            ElasticsearchResponseEvent::Index { cluster_name, index, response } => {
                self.data.update_index(cluster_name, index, response)
            },
        }
    }

    pub fn focus(&mut self, component: ElasticsearchComponentKind)
        ensures
            final(self).spec_focused() == Some(component),
            final(self).spec_cluster_cursor() == old(self).spec_cluster_cursor(),
            final(self).spec_resource_cursor() == old(self).spec_resource_cursor(),
            final(self).spec_index_cursor() == old(self).spec_index_cursor(),
            final(self).spec_alias_cursor() == old(self).spec_alias_cursor(),
            final(self).spec_entered_index() == old(self).spec_entered_index(),
            final(self).spec_filter() == old(self).spec_filter(),
            final(self).spec_cluster_names() == old(self).spec_cluster_names(),
            final(self).spec_data() == old(self).spec_data(),
    {
        self.focused = Some(component);
    }

    pub fn unfocus(&mut self)
        ensures
            final(self).spec_focused() is None,
            final(self).spec_cluster_cursor() == old(self).spec_cluster_cursor(),
            final(self).spec_resource_cursor() == old(self).spec_resource_cursor(),
            final(self).spec_index_cursor() == old(self).spec_index_cursor(),
            final(self).spec_alias_cursor() == old(self).spec_alias_cursor(),
            final(self).spec_entered_index() == old(self).spec_entered_index(),
            final(self).spec_filter() == old(self).spec_filter(),
            final(self).spec_cluster_names() == old(self).spec_cluster_names(),
            final(self).spec_data() == old(self).spec_data(),
    {
        self.focused = None;
    }

    pub fn focused(&self) -> (r: Option<ElasticsearchComponentKind>)
        ensures
            r == self.spec_focused(),
    {
        self.focused
    }

    /// Number of index rows shown for the selected cluster.
    fn visible_index_count(&self) -> (r: usize)
        ensures
            r == self.spec_visible_index_rows().len(),
    {
        match self.selected_cluster_name() {
            Some(c) => match self.data.get_visible_indices(c, self.filter) {
                Some(v) => v.len(),
                None => 0,
            },
            None => 0,
        }
    }

    /// Number of alias rows shown for the selected cluster.
    fn visible_alias_count(&self) -> (r: usize)
        ensures
            r == self.spec_visible_alias_rows().len(),
    {
        match self.selected_cluster_name() {
            Some(c) => match self.data.get_visible_aliases(c, self.filter) {
                Some(v) => v.len(),
                None => 0,
            },
            None => 0,
        }
    }

    /// Moves the cursor of `component`. Moving in the cluster or view list
    /// leaves any entered index and returns the new plan; moving in a table
    /// only moves its cursor and requests nothing.
    pub fn navigate(&mut self, component: ElasticsearchComponentKind, navigate: Navigate) -> (r:
        Option<Vec<RequestEvent>>)
        ensures
            Self::navigate_step(*old(self), *final(self), component, navigate, opt_seq(r)),
    {
        match component {
            ElasticsearchComponentKind::ClusterList => {
                let len = self.cluster_names.len();
                self.cluster_list_state.apply(navigate, len);
                self.entered_index = None;
                self.fetch_data()
            },
            ElasticsearchComponentKind::ResourceList => {
                self.resource_list_state.apply(navigate, RESOURCE_COUNT);
                self.entered_index = None;
                self.fetch_data()
            },
            ElasticsearchComponentKind::IndexTable => {
                let len = self.visible_index_count();
                self.index_table_state.apply(navigate, len);
                None
            },
            ElasticsearchComponentKind::AliasTable => {
                let len = self.visible_alias_count();
                self.alias_table_state.apply(navigate, len);
                None
            },
            ElasticsearchComponentKind::IndexDetail => None,
        }
    }

    /// Name of the index row under the index cursor.
    fn selected_index_name(&self) -> (r: Option<String>)
        ensures
            r is None <==> !(self.spec_index_cursor() matches Some(i) && i
                < self.spec_visible_index_rows().len()),
            r matches Some(n) ==> self.spec_index_cursor() matches Some(i) && n
                == self.spec_visible_index_rows()[i as int].index,
    {
        match self.selected_cluster_name() {
            Some(c) => match self.data.get_visible_indices(c, self.filter) {
                Some(rows) => match self.index_table_state.selected() {
                    Some(i) => if i < rows.len() {
                        Some(rows[i].index.clone())
                    } else {
                        None
                    },
                    None => None,
                },
                None => None,
            },
            None => None,
        }
    }

    /// Drills down into the detail of the index row under the cursor,
    /// while the Index view is selected; see `enter_step`.
    pub fn enter(&mut self, component: ElasticsearchComponentKind) -> (r: Option<Vec<RequestEvent>>)
        ensures
            Self::enter_step(*old(self), *final(self), component, opt_seq(r)),
    {
        match component {
            ElasticsearchComponentKind::IndexDetail => {
                match self.selected_resource() {
                    Some(ElasticsearchResourceKind::Index) => {},
                    _ => return None,
                }
                match self.selected_index_name() {
                    Some(name) => {
                        self.entered_index = Some(name);
                        self.fetch_data()
                    },
                    None => None,
                }
            },
            _ => None,
        }
    }

    /// Whether an index is entered.
    pub fn is_entered(&self) -> (r: bool)
        ensures
            r == self.spec_entered_index() is Some,
    {
        self.entered_index.is_some()
    }

    /// Leaves the detail view: no index is entered any more, and the plan
    /// goes back to the listing.
    pub fn leave(&mut self, component: ElasticsearchComponentKind) -> (r: Option<Vec<RequestEvent>>)
        ensures
            Self::leave_step(*old(self), *final(self), opt_seq(r)),
    {
        self.entered_index = None;
        self.fetch_data()
    }

    /// Sets which rows the tables hide.
    pub fn set_filter(&mut self, filter: Option<TableFilter>)
        ensures
            final(self).spec_filter() == filter,
            final(self).spec_focused() == old(self).spec_focused(),
            final(self).spec_cluster_cursor() == old(self).spec_cluster_cursor(),
            final(self).spec_resource_cursor() == old(self).spec_resource_cursor(),
            final(self).spec_index_cursor() == old(self).spec_index_cursor(),
            final(self).spec_alias_cursor() == old(self).spec_alias_cursor(),
            final(self).spec_entered_index() == old(self).spec_entered_index(),
            final(self).spec_cluster_names() == old(self).spec_cluster_names(),
            final(self).spec_data() == old(self).spec_data(),
    {
        self.filter = filter;
    }

    pub fn filter(&self) -> (r: Option<TableFilter>)
        ensures
            r == self.spec_filter(),
    {
        self.filter
    }

    pub fn entered_index(&self) -> (r: Option<&String>)
        ensures
            r is None <==> self.spec_entered_index() is None,
            r matches Some(n) ==> self.spec_entered_index() == Some(*n),
    {
        self.entered_index.as_ref()
    }

    pub fn cluster_cursor(&self) -> (r: Option<usize>)
        ensures
            r == self.spec_cluster_cursor(),
    {
        self.cluster_list_state.selected()
    }

    pub fn resource_cursor(&self) -> (r: Option<usize>)
        ensures
            r == self.spec_resource_cursor(),
    {
        self.resource_list_state.selected()
    }

    pub fn index_cursor(&self) -> (r: Option<usize>)
        ensures
            r == self.spec_index_cursor(),
    {
        self.index_table_state.selected()
    }

    pub fn alias_cursor(&self) -> (r: Option<usize>)
        ensures
            r == self.spec_alias_cursor(),
    {
        self.alias_table_state.selected()
    }

    pub fn data(&self) -> (r: &Data)
        ensures
            *r == self.spec_data(),
    {
        &self.data
    }
}

/// The plan depends on the navigation state alone: two tabs that agree on
/// it, whatever their caches hold, plan the same requests, and so does one
/// tab asked twice.
pub proof fn lemma_fetch_plan_depends_on_navigation(
    a: ElasticsearchComponent,
    b: ElasticsearchComponent,
)
    requires
        a.same_navigation(&b),
    ensures
        a.spec_fetch_plan() == b.spec_fetch_plan(),
{
}

} // verus!
