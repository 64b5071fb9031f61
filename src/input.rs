use vstd::prelude::*;

use crate::component::{ComponentKind, ElasticsearchComponentKind, ResourceKind};
use crate::navigate::Navigate;
use crate::view::ViewState;

verus! {

/// A key, as far as the dashboard tells keys apart.
#[derive(Debug, Clone, Copy, PartialEq, Eq, Structural)]
pub enum Key {
    Char(char),
    Esc,
    Enter,
    Left,
    Right,
    Up,
    Down,
    Other,
}

/// A key press and whether Control was held.
#[derive(Debug, Clone, Copy, PartialEq, Eq, Structural)]
pub struct KeyInput {
    pub code: Key,
    pub ctrl: bool,
}

/// What the operator asked for.
#[derive(Debug, Clone, Copy, PartialEq, Eq, Structural)]
pub enum Command {
    QuitApp,
    UnfocusComponent,
    FocusComponent(ComponentKind),
    NavigateComponent(ComponentKind, Navigate),
    Enter(ComponentKind),
    Leave(ComponentKind),
}

/// `q`, or Control with `c` or `d`, quits.
pub open spec fn spec_should_quit(k: KeyInput) -> bool {
    k.code == Key::Char('q') || (k.ctrl && (k.code == Key::Char('c') || k.code == Key::Char('d')))
}

/// The vi keys and the arrows move cursors.
pub open spec fn spec_navigate(k: KeyInput) -> Option<Navigate> {
    match k.code {
        Key::Char('h') | Key::Left => Some(Navigate::Left),
        Key::Char('l') | Key::Right => Some(Navigate::Right),
        Key::Char('k') | Key::Up => Some(Navigate::Up),
        Key::Char('j') | Key::Down => Some(Navigate::Down),
        _ => None,
    }
}

/// The component that a key focuses when nothing has focus.
pub open spec fn spec_focus_target(selected: Option<ResourceKind>, code: Key) -> Option<ComponentKind> {
    match (selected, code) {
        (Some(ResourceKind::Elasticsearch), Key::Char('c')) => Some(
            ComponentKind::Elasticsearch(ElasticsearchComponentKind::ClusterList),
        ),
        (Some(ResourceKind::Elasticsearch), Key::Char('e')) => Some(
            ComponentKind::Elasticsearch(ElasticsearchComponentKind::ResourceList),
        ),
        (Some(ResourceKind::Elasticsearch), Key::Char('i')) => Some(
            ComponentKind::Elasticsearch(ElasticsearchComponentKind::IndexTable),
        ),
        (Some(ResourceKind::Elasticsearch), Key::Char('a')) => Some(
            ComponentKind::Elasticsearch(ElasticsearchComponentKind::AliasTable),
        ),
        (_, Key::Char('r')) => Some(ComponentKind::ResourceTab),
        _ => None,
    }
}

/// The command of a key in a state: quitting comes first; then, with
/// nothing focused, the focus keys, and with a component focused, the
/// movement keys and Enter on the index table; last, Esc leaves a
/// drill-down or else takes the focus away.
pub open spec fn spec_handle(k: KeyInput, state: ViewState) -> Option<Command> {
    if spec_should_quit(k) {
        Some(Command::QuitApp)
    } else {
        let early: Option<Command> = match state.focused_component {
            None => match spec_focus_target(state.selected_resource, k.code) {
                Some(c) => Some(Command::FocusComponent(c)),
                None => None,
            },
            Some(component) => match spec_navigate(k) {
                Some(n) => Some(Command::NavigateComponent(component, n)),
                None => if component == ComponentKind::Elasticsearch(
                    ElasticsearchComponentKind::IndexTable,
                ) && k.code == Key::Enter {
                    Some(
                        Command::Enter(
                            ComponentKind::Elasticsearch(ElasticsearchComponentKind::IndexDetail),
                        ),
                    )
                } else {
                    None
                },
            },
        };
        match early {
            Some(c) => Some(c),
            None => if k.code == Key::Esc {
                match state.entered_component {
                    Some(entered) => Some(Command::Leave(entered)),
                    None => Some(Command::UnfocusComponent),
                }
            } else {
                None
            },
        }
    }
}

impl KeyInput {
    pub fn should_quit(&self) -> (r: bool)
        ensures
            r == spec_should_quit(*self),
    {
        match self.code {
            Key::Char('q') => true,
            Key::Char('c') | Key::Char('d') => self.ctrl,
            _ => false,
        }
    }

    pub fn key_code(&self) -> (r: Key)
        ensures
            r == self.code,
    {
        self.code
    }

    pub fn navigate(&self) -> (r: Option<Navigate>)
        ensures
            r == spec_navigate(*self),
    {
        match self.code {
            Key::Char('h') | Key::Left => Some(Navigate::Left),
            Key::Char('l') | Key::Right => Some(Navigate::Right),
            Key::Char('k') | Key::Up => Some(Navigate::Up),
            Key::Char('j') | Key::Down => Some(Navigate::Down),
            _ => None,
        }
    }
}

fn focus_target(selected: Option<ResourceKind>, code: Key) -> (r: Option<ComponentKind>)
    ensures
        r == spec_focus_target(selected, code),
{
    match (selected, code) {
        (Some(ResourceKind::Elasticsearch), Key::Char('c')) => Some(
            ComponentKind::Elasticsearch(ElasticsearchComponentKind::ClusterList),
        ),
        (Some(ResourceKind::Elasticsearch), Key::Char('e')) => Some(
            ComponentKind::Elasticsearch(ElasticsearchComponentKind::ResourceList),
        ),
        (Some(ResourceKind::Elasticsearch), Key::Char('i')) => Some(
            ComponentKind::Elasticsearch(ElasticsearchComponentKind::IndexTable),
        ),
        (Some(ResourceKind::Elasticsearch), Key::Char('a')) => Some(
            ComponentKind::Elasticsearch(ElasticsearchComponentKind::AliasTable),
        ),
        (_, Key::Char('r')) => Some(ComponentKind::ResourceTab),
        _ => None,
    }
}

/// Decodes a key press into a command, given the current state.
pub fn handle(input: KeyInput, state: &ViewState) -> (r: Option<Command>)
    ensures
        r == spec_handle(input, *state),
{
    if input.should_quit() {
        return Some(Command::QuitApp);
    }
    match state.focused_component {
        None => match focus_target(state.selected_resource, input.code) {
            Some(c) => return Some(Command::FocusComponent(c)),
            None => {},
        },
        Some(component) => {
            if let Some(navigate) = input.navigate() {
                return Some(Command::NavigateComponent(component, navigate));
            }
            if component == ComponentKind::Elasticsearch(ElasticsearchComponentKind::IndexTable)
                && input.code == Key::Enter {
                return Some(
                    Command::Enter(ComponentKind::Elasticsearch(ElasticsearchComponentKind::IndexDetail)),
                );
            }
        },
    }
    if input.code == Key::Esc {
        if let Some(entered) = state.entered_component {
            return Some(Command::Leave(entered));
        }
        return Some(Command::UnfocusComponent);
    }
    None
}

} // verus!
