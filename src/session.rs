use vstd::prelude::*;

use crate::api::{opt_seq, RequestEnvelope, RequestEvent, ResponseEnvelope};
use crate::config::Config;
use crate::input::{Command, KeyInput};
use crate::transport::{TransportController, TransportError};
use crate::view::Dashboard;

verus! {

/// The state of the event loop: the screen's navigation state and the
/// transport. Each input command or response is one step; the loop around
/// it sends the envelopes that a step returns and renders.
pub struct Session {
    view: Dashboard,
    transport: TransportController,
}

/// The requests of an optional plan; none when there is no plan.
pub open spec fn plan_requests(p: Option<Seq<RequestEvent>>) -> Seq<RequestEvent> {
    match p {
        Some(s) => s,
        None => Seq::empty(),
    }
}

impl Session {
    pub closed spec fn spec_view(&self) -> Dashboard {
        self.view
    }

    pub closed spec fn spec_transport(&self) -> TransportController {
        self.transport
    }

    pub open spec fn wf(&self) -> bool {
        self.spec_view().wf() && self.spec_transport().wf()
    }

    /// The transport sent exactly the requests of `p`, as `envs`.
    pub open spec fn sent(pre: Session, post: Session, p: Option<Seq<RequestEvent>>, now: u64, envs: Seq<RequestEnvelope>) -> bool {
        TransportController::batch_step(
            pre.spec_transport(),
            post.spec_transport(),
            plan_requests(p),
            now,
            envs,
        )
    }

    /// What `on_command` does for each command: the screen changes as the
    /// matching `Dashboard` step says, and the requests that step plans are
    /// sent, no more and no fewer.
    pub open spec fn command_step(
        pre: Session,
        post: Session,
        command: Command,
        now: u64,
        r: Option<Seq<RequestEnvelope>>,
    ) -> bool {
        match command {
            Command::QuitApp => {
                &&& r is None
                &&& post == pre
            },
            Command::UnfocusComponent => {
                &&& r == Some(Seq::<RequestEnvelope>::empty())
                &&& Dashboard::focus_step(pre.spec_view(), post.spec_view(), None)
                &&& post.spec_transport() == pre.spec_transport()
            },
            Command::FocusComponent(c) => {
                &&& r == Some(Seq::<RequestEnvelope>::empty())
                &&& Dashboard::focus_step(pre.spec_view(), post.spec_view(), Some(c))
                &&& post.spec_transport() == pre.spec_transport()
            },
            Command::NavigateComponent(c, n) => exists|p: Option<Seq<RequestEvent>>|
                Dashboard::navigate_step(pre.spec_view(), post.spec_view(), c, n, p) && (r matches Some(
                    envs,
                ) && Self::sent(pre, post, p, now, envs)),
            Command::Enter(c) => exists|p: Option<Seq<RequestEvent>>|
                Dashboard::enter_step(pre.spec_view(), post.spec_view(), c, p) && (r matches Some(envs)
                    && Self::sent(pre, post, p, now, envs)),
            Command::Leave(_) => exists|p: Option<Seq<RequestEvent>>|
                Dashboard::leave_step(pre.spec_view(), post.spec_view(), p) && (r matches Some(envs)
                    && Self::sent(pre, post, p, now, envs)),
        }
    }

    /// A session for `config`: the screen as `Dashboard::new` makes it and
    /// nothing sent.
    pub fn new(config: Config) -> (r: Session)
        ensures
            r.wf(),
            r.spec_view().spec_state().focused_component is None,
            r.spec_view().spec_state().entered_component is None,
            r.spec_view().spec_state().selected_resource == Some(crate::component::ResourceKind::Elasticsearch),
            r.spec_view().spec_elasticsearch().is_initial(config.spec_configs()),
            r.spec_transport().spec_in_flights() == Map::<u64, crate::transport::InFlightEntry>::empty(),
            r.spec_transport().spec_next_id() == 0,
            r.spec_transport().spec_history().len() == 0,
    {
        Session { view: Dashboard::new(config), transport: TransportController::new() }
    }

    pub fn view(&self) -> (r: &Dashboard)
        ensures
            *r == self.spec_view(),
    {
        &self.view
    }

    pub fn transport(&self) -> (r: &TransportController)
        ensures
            *r == self.spec_transport(),
    {
        &self.transport
    }

    fn send_plan(&mut self, plan: Option<Vec<RequestEvent>>, now: u64) -> (r: Vec<RequestEnvelope>)
        requires
            old(self).wf(),
        ensures
            final(self).wf(),
            final(self).spec_view() == old(self).spec_view(),
            Self::sent(*old(self), *final(self), opt_seq(plan), now, r@),
    {
        match plan {
            Some(reqs) => self.transport.send_requests(reqs, now),
            None => {
                let r = Vec::new();
                assert(Self::sent(*old(self), *self, opt_seq(plan), now, r@));
                r
            },
        }
    }

    /// Sends the requests of the first frame: exactly the screen's plan.
    pub fn start(&mut self, now: u64) -> (r: Vec<RequestEnvelope>)
        requires
            old(self).wf(),
        ensures
            final(self).wf(),
            final(self).spec_view() == old(self).spec_view(),
            Self::sent(*old(self), *final(self), old(self).spec_view().spec_plan(), now, r@),
    {
        let plan = self.view.pre_render_loop();
        self.send_plan(plan, now)
    }

    /// Records the last key read, for the help line.
    pub fn set_last_input_key(&mut self, key: Option<KeyInput>)
        requires
            old(self).wf(),
        ensures
            final(self).wf(),
            final(self).spec_view().spec_state().last_input_key == key,
            final(self).spec_transport() == old(self).spec_transport(),
    {
        self.view.set_last_input_key(key);
    }

    /// Carries out `command` at time `now`: `None` to quit, else the
    /// envelopes to send; see `command_step`. Only a component with a
    /// detail view can be left.
    pub fn on_command(&mut self, command: Command, now: u64) -> (r: Option<Vec<RequestEnvelope>>)
        requires
            old(self).wf(),
            command matches Command::Leave(c) ==> c.spec_supports_enter(),
        ensures
            final(self).wf(),
            Self::command_step(
                *old(self),
                *final(self),
                command,
                now,
                match r {
                    Some(v) => Some(v@),
                    None => None,
                },
            ),
    {
        match command {
            Command::QuitApp => None,
            Command::UnfocusComponent => {
                self.view.unfocus();
                let r = Vec::new();
                assert(r@ =~= Seq::<RequestEnvelope>::empty());
                Some(r)
            },
            Command::FocusComponent(component) => {
                self.view.focus(component);
                let r = Vec::new();
                assert(r@ =~= Seq::<RequestEnvelope>::empty());
                Some(r)
            },
            Command::NavigateComponent(component, navigate) => {
                let ghost v0 = self.view;
                let plan = self.view.navigate_component(component, navigate);
                let ghost p = opt_seq(plan);
                let ghost s1 = *self;
                let envs = self.send_plan(plan, now);
                assert(Dashboard::navigate_step(v0, self.view, component, navigate, p));
                assert(Self::sent(*old(self), *self, p, now, envs@)) by {
                    assert(old(self).transport == s1.transport);
                }
                Some(envs)
            },
            Command::Enter(component) => {
                let ghost v0 = self.view;
                let plan = self.view.enter_component(component);
                let ghost p = opt_seq(plan);
                let ghost s1 = *self;
                let envs = self.send_plan(plan, now);
                assert(Dashboard::enter_step(v0, self.view, component, p));
                assert(Self::sent(*old(self), *self, p, now, envs@)) by {
                    assert(old(self).transport == s1.transport);
                }
                Some(envs)
            },
            Command::Leave(component) => {
                let ghost v0 = self.view;
                let plan = self.view.leave_component(component);
                let ghost p = opt_seq(plan);
                let ghost s1 = *self;
                let envs = self.send_plan(plan, now);
                assert(Dashboard::leave_step(v0, self.view, p));
                assert(Self::sent(*old(self), *self, p, now, envs@)) by {
                    assert(old(self).transport == s1.transport);
                }
                Some(envs)
            },
        }
    }

    /// Takes a response at time `now`: the transport matches and records
    /// it, and a payload that answers a request in flight goes to the
    /// cache. A failure, or a response that matches nothing, leaves the
    /// screen and the cache as they were.
    pub fn on_response(&mut self, res: ResponseEnvelope, now: u64) -> (r: Result<(), TransportError>)
        requires
            old(self).wf(),
        ensures
            final(self).wf(),
            exists|rr: Result<ResponseEnvelope, TransportError>|
                TransportController::recv_step(
                    old(self).spec_transport(),
                    final(self).spec_transport(),
                    res,
                    now,
                    rr,
                ) && (r is Ok <==> rr is Ok),
            r is Ok <==> old(self).spec_transport().spec_in_flights().contains_key(res.request_id.0),
            (r is Ok && res.result is Ok) ==> Dashboard::update_step(
                old(self).spec_view(),
                final(self).spec_view(),
                res.result->Ok_0,
            ),
            (r is Err || res.result is Err) ==> final(self).spec_view() == old(self).spec_view(),
    {
        let ghost res0 = res;
        let rr = self.transport.recv_response(res, now);
        let ghost g = rr;
        let ghost t1 = self.transport;
        assert(TransportController::recv_step(old(self).spec_transport(), t1, res0, now, g));
        match rr {
            Ok(matched) => {
                match matched.result {
                    Ok(event) => self.view.update_api_response(event),
                    Err(_) => {},
                }
                assert(self.spec_transport() == t1);
                assert(TransportController::recv_step(old(self).spec_transport(), self.spec_transport(), res0, now, g));
                Ok(())
            },
            Err(e) => Err(e),
        }
    }
}

} // verus!
