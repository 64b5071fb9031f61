use vstd::prelude::*;

use crate::api::{opt_seq, RequestEvent, ResponseEvent};
use crate::component::{
    spec_resource_variants, ComponentKind, ElasticsearchComponentKind, ResourceKind, ResourceTab,
};
use crate::config::Config;
use crate::cache::stores;
use crate::elasticsearch::{ElasticsearchComponent, ElasticsearchResourceKind};
use crate::input::KeyInput;
use crate::navigate::Navigate;

verus! {

/// Which component has focus, which one is drilled into, which tab is
/// selected, and the last key read (for highlighting its help).
pub struct ViewState {
    pub focused_component: Option<ComponentKind>,
    pub entered_component: Option<ComponentKind>,
    pub selected_resource: Option<ResourceKind>,
    pub last_input_key: Option<KeyInput>,
}

impl ViewState {
    pub fn new() -> (r: ViewState)
        ensures
            r.focused_component is None,
            r.entered_component is None,
            r.selected_resource == Some(spec_resource_variants()[0]),
            r.last_input_key is None,
    {
        let variants = ResourceKind::variants();
        ViewState {
            focused_component: None,
            entered_component: None,
            selected_resource: Some(variants[0]),
            last_input_key: None,
        }
    }
}

/// The navigation state of the whole screen and the components under it.
pub struct Dashboard {
    resource_tab: ResourceTab,
    elasticsearch: ElasticsearchComponent,
    state: ViewState,
}

/// The kind of the cluster tab's part that `focused` names, if any.
pub open spec fn inner_focus(focused: Option<ComponentKind>) -> Option<ElasticsearchComponentKind> {
    match focused {
        Some(ComponentKind::Elasticsearch(k)) => Some(k),
        _ => None,
    }
}

/// Moves in the cluster or view list change what is planned.
pub open spec fn is_list(k: ElasticsearchComponentKind) -> bool {
    k == ElasticsearchComponentKind::ClusterList || k == ElasticsearchComponentKind::ResourceList
}

impl Dashboard {
    pub closed spec fn spec_resource_tab(&self) -> ResourceTab {
        self.resource_tab
    }

    pub closed spec fn spec_elasticsearch(&self) -> ElasticsearchComponent {
        self.elasticsearch
    }

    pub closed spec fn spec_state(&self) -> ViewState {
        self.state
    }

    /// The selected resource is the tab's; only the index detail can be
    /// entered, only while the cluster tab and its Index view are selected,
    /// and exactly when the cluster tab has an index entered; the
    /// components' own focus flags agree with the focused component.
    pub open spec fn wf(&self) -> bool {
        &&& self.spec_resource_tab().wf()
        &&& self.spec_state().selected_resource == Some(
            self.spec_resource_tab().spec_selected_resource(),
        )
        &&& (self.spec_state().entered_component is Some
            <==> self.spec_elasticsearch().spec_entered_index() is Some)
        &&& self.spec_state().entered_component is Some ==> {
            &&& self.spec_state().entered_component == Some(
                ComponentKind::Elasticsearch(ElasticsearchComponentKind::IndexDetail),
            )
            &&& self.spec_state().selected_resource == Some(ResourceKind::Elasticsearch)
        }
        &&& self.spec_elasticsearch().spec_entered_index() is Some
            ==> self.spec_elasticsearch().spec_selected_resource() == Some(
            ElasticsearchResourceKind::Index,
        )
        &&& self.spec_resource_tab().spec_is_focused() == (self.spec_state().focused_component
            == Some(ComponentKind::ResourceTab))
        &&& self.spec_elasticsearch().spec_focused() == inner_focus(
            self.spec_state().focused_component,
        )
    }

    /// What to request for the current state: the cluster tab's plan while
    /// it is selected, else nothing.
    pub open spec fn spec_plan(&self) -> Option<Seq<RequestEvent>> {
        if self.spec_state().selected_resource == Some(ResourceKind::Elasticsearch) {
            self.spec_elasticsearch().spec_fetch_plan()
        } else {
            None
        }
    }

    /// `post` has `focused` as its focus, each component's own flag set to
    /// match, and is otherwise `pre`.
    pub open spec fn focus_step(pre: Dashboard, post: Dashboard, focused: Option<ComponentKind>) -> bool {
        &&& post.spec_state() == (ViewState { focused_component: focused, ..pre.spec_state() })
        &&& post.spec_resource_tab().spec_selected() == pre.spec_resource_tab().spec_selected()
        &&& post.spec_resource_tab().spec_is_focused() == (focused == Some(ComponentKind::ResourceTab))
        &&& post.spec_elasticsearch().spec_focused() == inner_focus(focused)
        &&& post.spec_elasticsearch().same_but_focus(&pre.spec_elasticsearch())
    }

    /// What `navigate_component` does: a tab move selects another tab,
    /// leaves any drill-down and plans for the new tab; a move in the
    /// cluster tab is that tab's `navigate_step`, and a list move there also
    /// leaves the drill-down.
    pub open spec fn navigate_step(
        pre: Dashboard,
        post: Dashboard,
        component: ComponentKind,
        navigate: Navigate,
        r: Option<Seq<RequestEvent>>,
    ) -> bool {
        &&& post.spec_state().focused_component == pre.spec_state().focused_component
        &&& post.spec_state().last_input_key == pre.spec_state().last_input_key
        &&& match component {
            ComponentKind::ResourceTab => {
                &&& post.spec_resource_tab().spec_selected() == crate::component::spec_tab_move(
                    pre.spec_resource_tab().spec_selected(),
                    navigate,
                    3,
                )
                &&& post.spec_resource_tab().spec_is_focused() == pre.spec_resource_tab().spec_is_focused()
                &&& post.spec_state().entered_component is None
                &&& post.spec_elasticsearch().spec_entered_index() is None
                &&& post.spec_elasticsearch().same_but_entered(&pre.spec_elasticsearch())
                &&& r == post.spec_plan()
            },
            ComponentKind::Elasticsearch(k) => {
                &&& post.spec_resource_tab() == pre.spec_resource_tab()
                &&& post.spec_state().selected_resource == pre.spec_state().selected_resource
                &&& ElasticsearchComponent::navigate_step(
                    pre.spec_elasticsearch(),
                    post.spec_elasticsearch(),
                    k,
                    navigate,
                    r,
                )
                &&& post.spec_state().entered_component == (if is_list(k) {
                    None
                } else {
                    pre.spec_state().entered_component
                })
            },
        }
    }

    /// Whether `enter_component` drills into `component`.
    pub open spec fn can_enter(&self, component: ComponentKind) -> bool {
        &&& self.spec_state().selected_resource == Some(ResourceKind::Elasticsearch)
        &&& component matches ComponentKind::Elasticsearch(k)
        &&& self.spec_elasticsearch().can_enter(k)
    }

    /// What `enter_component` does: the cluster tab's `enter_step`, with
    /// `component` recorded as entered; otherwise nothing changes.
    pub open spec fn enter_step(
        pre: Dashboard,
        post: Dashboard,
        component: ComponentKind,
        r: Option<Seq<RequestEvent>>,
    ) -> bool {
        if pre.can_enter(component) {
            &&& post.spec_resource_tab() == pre.spec_resource_tab()
            &&& post.spec_state() == (ViewState {
                entered_component: Some(component),
                ..pre.spec_state()
            })
            &&& ElasticsearchComponent::enter_step(
                pre.spec_elasticsearch(),
                post.spec_elasticsearch(),
                ElasticsearchComponentKind::IndexDetail,
                r,
            )
        } else {
            &&& post == pre
            &&& r is None
        }
    }

    /// What `leave_component` does: nothing is entered afterwards, all else
    /// stays, and the plan is the current one.
    pub open spec fn leave_step(pre: Dashboard, post: Dashboard, r: Option<Seq<RequestEvent>>) -> bool {
        &&& post.spec_resource_tab() == pre.spec_resource_tab()
        &&& post.spec_state() == (ViewState { entered_component: None, ..pre.spec_state() })
        &&& post.spec_elasticsearch().spec_entered_index() is None
        &&& post.spec_elasticsearch().same_but_entered(&pre.spec_elasticsearch())
        &&& r == post.spec_plan()
    }

    /// What `update_api_response` does: the answer goes to the cache of its
    /// component; nothing else changes.
    pub open spec fn update_step(pre: Dashboard, post: Dashboard, res: ResponseEvent) -> bool {
        &&& post.spec_state() == pre.spec_state()
        &&& post.spec_resource_tab() == pre.spec_resource_tab()
        &&& post.spec_elasticsearch().same_navigation(&pre.spec_elasticsearch())
        &&& match res {
            ResponseEvent::Elasticsearch(e) => stores(
                pre.spec_elasticsearch().spec_data(),
                post.spec_elasticsearch().spec_data(),
                e,
            ),
        }
    }

    /// The screen for `config`: the first tab selected, nothing focused or
    /// entered, and the cluster tab as `ElasticsearchComponent::new` makes it.
    pub fn new(config: Config) -> (r: Dashboard)
        ensures
            r.wf(),
            r.spec_state() == (ViewState {
                focused_component: None,
                entered_component: None,
                selected_resource: Some(ResourceKind::Elasticsearch),
                last_input_key: None,
            }),
            r.spec_resource_tab().spec_selected() == 0,
            r.spec_elasticsearch().is_initial(config.spec_configs()),
    {
        Dashboard {
            resource_tab: ResourceTab::new(),
            elasticsearch: ElasticsearchComponent::new(config.elasticsearch_configs()),
            state: ViewState::new(),
        }
    }

    /// The requests to make before the first frame.
    pub fn pre_render_loop(&self) -> (r: Option<Vec<RequestEvent>>)
        requires
            self.wf(),
        ensures
            opt_seq(r) == self.spec_plan(),
    {
        match self.resource_tab.selected_resource() {
            ResourceKind::Elasticsearch => self.elasticsearch.init_data(),
            _ => None,
        }
    }

    pub fn state(&self) -> (r: &ViewState)
        ensures
            *r == self.spec_state(),
    {
        &self.state
    }

    pub fn resource_tab(&self) -> (r: &ResourceTab)
        ensures
            *r == self.spec_resource_tab(),
    {
        &self.resource_tab
    }

    pub fn elasticsearch(&self) -> (r: &ElasticsearchComponent)
        ensures
            *r == self.spec_elasticsearch(),
    {
        &self.elasticsearch
    }

    /// Records the last key read.
    pub fn set_last_input_key(&mut self, key: Option<KeyInput>)
        requires
            old(self).wf(),
        ensures
            final(self).wf(),
            final(self).spec_state() == (ViewState { last_input_key: key, ..old(self).spec_state() }),
            final(self).spec_elasticsearch() == old(self).spec_elasticsearch(),
            final(self).spec_resource_tab() == old(self).spec_resource_tab(),
    {
        self.state.last_input_key = key;
    }

    /// Takes the focus away from the focused component.
    pub fn unfocus(&mut self)
        requires
            old(self).wf(),
        ensures
            final(self).wf(),
            Self::focus_step(*old(self), *final(self), None),
    {
        if let Some(focused) = self.state.focused_component {
            match focused {
                ComponentKind::ResourceTab => self.resource_tab.toggle_focus(false),
                ComponentKind::Elasticsearch(_) => self.elasticsearch.unfocus(),
            }
        }
        self.state.focused_component = None;
    }

    /// Moves the focus to `component`.
    pub fn focus(&mut self, component: ComponentKind)
        requires
            old(self).wf(),
        ensures
            final(self).wf(),
            Self::focus_step(*old(self), *final(self), Some(component)),
    {
        self.unfocus();
        match component {
            ComponentKind::ResourceTab => self.resource_tab.toggle_focus(true),
            ComponentKind::Elasticsearch(component) => self.elasticsearch.focus(component),
        }
        self.state.focused_component = Some(component);
    }

    /// Moves the cursor of `component`; see `navigate_step`.
    pub fn navigate_component(&mut self, component: ComponentKind, navigate: Navigate) -> (r:
        Option<Vec<RequestEvent>>)
        requires
            old(self).wf(),
        ensures
            final(self).wf(),
            Self::navigate_step(*old(self), *final(self), component, navigate, opt_seq(r)),
    {
        match component {
            ComponentKind::ResourceTab => {
                self.resource_tab.navigate(navigate);
                self.state.selected_resource = Some(self.resource_tab.selected_resource());
                let _ = self.elasticsearch.leave(ElasticsearchComponentKind::IndexDetail);
                self.state.entered_component = None;
                self.pre_render_loop()
            },
            ComponentKind::Elasticsearch(k) => {
                let r = self.elasticsearch.navigate(k, navigate);
                match k {
                    ElasticsearchComponentKind::ClusterList
                    | ElasticsearchComponentKind::ResourceList => {
                        self.state.entered_component = None;
                    },
                    _ => {},
                }
                r
            },
        }
    }

    /// Drills into the index row under the cursor; see `enter_step`.
    pub fn enter_component(&mut self, component: ComponentKind) -> (r: Option<Vec<RequestEvent>>)
        requires
            old(self).wf(),
        ensures
            final(self).wf(),
            Self::enter_step(*old(self), *final(self), component, opt_seq(r)),
    {
        if self.resource_tab.selected_resource() != ResourceKind::Elasticsearch {
            return None;
        }
        match component {
            ComponentKind::ResourceTab => None,
            ComponentKind::Elasticsearch(k) => {
                match k {
                    ElasticsearchComponentKind::IndexDetail => {
                        let r = self.elasticsearch.enter(k);
                        if r.is_some() {
                            self.state.entered_component = Some(component);
                        }
                        r
                    },
                    _ => None,
                }
            },
        }
    }

    /// Leaves the drill-down: nothing is entered afterwards, whatever was
    /// entered before, and the plan goes back to the listing. Only a
    /// component with a detail view can be left.
    pub fn leave_component(&mut self, component: ComponentKind) -> (r: Option<Vec<RequestEvent>>)
        requires
            old(self).wf(),
            component.spec_supports_enter(),
        ensures
            final(self).wf(),
            Self::leave_step(*old(self), *final(self), opt_seq(r)),
    {
        let _ = self.elasticsearch.leave(ElasticsearchComponentKind::IndexDetail);
        self.state.entered_component = None;
        self.pre_render_loop()
    }

    /// Stores an answer in the cache of its component.
    pub fn update_api_response(&mut self, res: ResponseEvent)
        requires
            old(self).wf(),
        ensures
            final(self).wf(),
            Self::update_step(*old(self), *final(self), res),
    {
        match res {
            ResponseEvent::Elasticsearch(res) => self.elasticsearch.update_api_response(res),
        }
    }
}

/// While an index is entered, the plan is that index's detail for the
/// selected cluster, and nothing else.
pub proof fn lemma_entered_plan_is_detail(d: Dashboard)
    requires
        d.wf(),
        d.spec_elasticsearch().spec_entered_index() is Some,
    ensures
        d.spec_elasticsearch().spec_selected_cluster() matches Some(c) ==> d.spec_plan() == Some(
            seq![
                RequestEvent::Elasticsearch(
                    crate::api::ElasticsearchRequestEvent::FetchIndex {
                        cluster_name: c,
                        index: d.spec_elasticsearch().spec_entered_index()->0,
                    },
                ),
            ],
        ),
        d.spec_elasticsearch().spec_selected_cluster() is None ==> d.spec_plan() is None,
{
}

/// The plan of a dashboard depends on its navigation state alone: two dashboards that
/// agree on it plan the same requests, whatever their caches hold.
pub proof fn lemma_dashboard_plan_depends_on_navigation(a: Dashboard, b: Dashboard)
    requires
        a.spec_state().selected_resource == b.spec_state().selected_resource,
        a.spec_elasticsearch().same_navigation(&b.spec_elasticsearch()),
    ensures
        a.spec_plan() == b.spec_plan(),
{
}

} // verus!
