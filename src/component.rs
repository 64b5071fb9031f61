use vstd::prelude::*;

use crate::navigate::Navigate;

verus! {

/// The kinds of backend that the dashboard has a tab for.
#[derive(Debug, Clone, Copy, PartialEq, Eq, Structural)]
pub enum ResourceKind {
    Elasticsearch,
    Mongo,
    RabbitMQ,
}

/// The tabs, in the order shown.
pub open spec fn spec_resource_variants() -> Seq<ResourceKind> {
    seq![ResourceKind::Elasticsearch, ResourceKind::Mongo, ResourceKind::RabbitMQ]
}

impl ResourceKind {
    pub fn variants() -> (r: Vec<ResourceKind>)
        ensures
            r@ == spec_resource_variants(),
    {
        let r = vec![ResourceKind::Elasticsearch, ResourceKind::Mongo, ResourceKind::RabbitMQ];
        assert(r@ =~= spec_resource_variants());
        r
    }

    /// The name of the kind, in lower case.
    pub fn name(&self) -> (r: &'static str)
        ensures
            *self == ResourceKind::Elasticsearch ==> r@ == "elasticsearch"@,
            *self == ResourceKind::Mongo ==> r@ == "mongo"@,
            *self == ResourceKind::RabbitMQ ==> r@ == "rabbitmq"@,
    {
        match self {
            ResourceKind::Elasticsearch => "elasticsearch",
            ResourceKind::Mongo => "mongo",
            ResourceKind::RabbitMQ => "rabbitmq",
        }
    }
}

/// The parts of the cluster tab that can take focus.
#[derive(Debug, Clone, Copy, PartialEq, Eq, Structural)]
pub enum ElasticsearchComponentKind {
    ClusterList,
    ResourceList,
    AliasTable,
    IndexTable,
    /// The detail of the index chosen in the index table.
    IndexDetail,
}

/// A part of the screen that takes input.
#[derive(Debug, Clone, Copy, PartialEq, Eq, Structural)]
pub enum ComponentKind {
    ResourceTab,
    Elasticsearch(ElasticsearchComponentKind),
}

impl ComponentKind {
    /// Whether the component has a detail view to drill down into.
    pub open spec fn spec_supports_enter(&self) -> bool {
        *self == ComponentKind::Elasticsearch(ElasticsearchComponentKind::IndexDetail)
    }
}

/// The tab bar at the top: which backend kind is shown.
pub struct ResourceTab {
    is_focused: bool,
    selected: usize,
}

/// Position in a cyclic list of `len` items after moving left or right.
pub open spec fn spec_tab_move(current: int, navigate: Navigate, len: int) -> int {
    match navigate {
        Navigate::Left => if current == 0 {
            len - 1
        } else {
            current - 1
        },
        Navigate::Right => (current + 1) % len,
        _ => current,
    }
}

impl ResourceTab {
    pub closed spec fn spec_selected(&self) -> int {
        self.selected as int
    }

    pub closed spec fn spec_is_focused(&self) -> bool {
        self.is_focused
    }

    pub open spec fn wf(&self) -> bool {
        0 <= self.spec_selected() < spec_resource_variants().len()
    }

    pub open spec fn spec_selected_resource(&self) -> ResourceKind {
        spec_resource_variants()[self.spec_selected()]
    }

    pub fn new() -> (r: ResourceTab)
        ensures
            r.wf(),
            r.spec_selected() == 0,
            !r.spec_is_focused(),
    {
        ResourceTab { is_focused: false, selected: 0 }
    }

    pub fn toggle_focus(&mut self, focused: bool)
        ensures
            final(self).spec_is_focused() == focused,
            final(self).spec_selected() == old(self).spec_selected(),
    {
        self.is_focused = focused;
    }

    pub fn is_focused(&self) -> (r: bool)
        ensures
            r == self.spec_is_focused(),
    {
        self.is_focused
    }

    /// Index of the selected tab.
    pub fn selected(&self) -> (r: usize)
        ensures
            r == self.spec_selected(),
    {
        self.selected
    }

    /// Moves the selection left or right, wrapping around.
    pub fn navigate(&mut self, navigate: Navigate)
        requires
            old(self).wf(),
        ensures
            final(self).wf(),
            final(self).spec_is_focused() == old(self).spec_is_focused(),
            final(self).spec_selected() == spec_tab_move(old(self).spec_selected(), navigate, 3),
    {
        let len: usize = 3;
        let current = self.selected;
        match navigate {
            Navigate::Left => {
                self.selected = if current == 0 {
                    len - 1
                } else {
                    current - 1
                };
            },
            Navigate::Right => self.selected = (current + 1) % len,
            _ => {},
        }
    }

    pub fn selected_resource(&self) -> (r: ResourceKind)
        requires
            self.wf(),
        ensures
            r == self.spec_selected_resource(),
    {
        let variants = ResourceKind::variants();
        variants[self.selected]
    }
}

} // verus!
