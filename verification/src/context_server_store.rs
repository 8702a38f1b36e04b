//! The store of context servers, which holds none: it keeps the handles it is given, and
//! every server is stopped.

use std::sync::Arc;
use vstd::prelude::*;
use vstd::string::*;

verus! {

/// The name of a context server.
#[derive(Debug, Clone, PartialEq, Eq, Hash)]
pub struct ContextServerId(pub Arc<str>);

impl ContextServerId {
    /// The name as a text.
    pub fn to_string(&self) -> (r: String)
        ensures
            r@ == self.0@,
    {
        let text: &str = &self.0;
        text.to_string()
    }
}

/// The state of a context server.
#[derive(Debug, Clone, Copy, PartialEq, Eq, Hash, Structural)]
pub enum ContextServerStatus {
    Stopped,
}

/// The state of a context server has changed.
pub struct ServerStatusChangedEvent {
    pub server_id: ContextServerId,
    pub status: ContextServerStatus,
}

/// Whether the project is here or on a host, with the client to the other end: of type `C`
/// to those it is shared with, of type `R` to the host.
pub enum ContextServerStoreState<C, R> {
    Local { downstream_client: Option<(u64, C)> },
    Remote { project_id: u64, upstream_client: R },
}

/// The store, with handles of the worktrees, the project and the registry.
pub struct ContextServerStore<C, R, W, P, G> {
    pub state: ContextServerStoreState<C, R>,
    pub worktree_store: W,
    pub project: Option<P>,
    pub registry: G,
}

impl<C, R, W, P, G> ContextServerStore<C, R, W, P, G> {
    /// The store of a project that is here and not shared.
    pub fn local(worktree_store: W, weak_project: Option<P>, _headless: bool, registry: G) -> (r:
        Self)
        ensures
            r == (ContextServerStore::<C, R, W, P, G> {
                state: ContextServerStoreState::Local { downstream_client: None },
                worktree_store,
                project: weak_project,
                registry,
            }),
    {
        ContextServerStore {
            state: ContextServerStoreState::Local { downstream_client: None },
            worktree_store,
            project: weak_project,
            registry,
        }
    }

    /// The store of a project that is on a host.
    pub fn remote(
        project_id: u64,
        upstream_client: R,
        worktree_store: W,
        weak_project: Option<P>,
        registry: G,
    ) -> (r: Self)
        ensures
            r == (ContextServerStore::<C, R, W, P, G> {
                state: ContextServerStoreState::Remote { project_id, upstream_client },
                worktree_store,
                project: weak_project,
                registry,
            }),
    {
        ContextServerStore {
            state: ContextServerStoreState::Remote { project_id, upstream_client },
            worktree_store,
            project: weak_project,
            registry,
        }
    }

    /// A session without a window needs no servers, and nothing is done for it.
    pub fn init_headless(_session: &C) {
    }

    /// The project is shared through `client`. One that is on a host is shared from there.
    pub fn shared(&mut self, project_id: u64, client: C)
        ensures
            *final(self) == match old(self).state {
                ContextServerStoreState::Local { .. } => ContextServerStore {
                    state: ContextServerStoreState::Local {
                        downstream_client: Some((project_id, client)),
                    },
                    ..*old(self)
                },
                ContextServerStoreState::Remote { .. } => *old(self),
            },
    {
        match &mut self.state {
            ContextServerStoreState::Local { downstream_client } => {
                *downstream_client = Some((project_id, client));
            },
            ContextServerStoreState::Remote { .. } => {},
        }
    }

    /// The servers of the store.
    pub fn server_ids(&self) -> (r: &[ContextServerId])
        ensures
            r@.len() == 0,
    {
        &[]
    }
}

} // verus!
