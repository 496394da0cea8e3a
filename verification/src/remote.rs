//! The library's model of the remote chat platform's state, and the
//! remote calls the reconciler can ask for.
//!
//! The platform itself is an external collaborator: callers list the
//! remote threads, hand them to the library as plain values, and carry
//! out the returned actions in order.

use vstd::prelude::*;

verus! {

/// What the reconciliation logic reads of one remote thread: its name,
/// the id of the container it hangs under, and whether it is archived.
#[derive(Clone)]
pub struct RemoteThread {
    pub name: String,
    pub parent_id: u64,
    pub archived: bool,
}

/// The kind of the target container: a forum creates threads as posts
/// in one call, a text container needs an anchor message first.
pub enum ContainerKind {
    Forum,
    Text,
}

/// The target discussion container threads are created under.
pub struct Container {
    pub id: u64,
    pub kind: ContainerKind,
}

/// One remote call the caller must issue. Actions come in a sequence
/// and must be carried out in order; thread-directed actions address
/// the located thread, or the thread the preceding creation returned.
pub enum RemoteAction {
    /// Archive the located thread.
    ArchiveThread,
    /// Send `body` to the located (or just created) thread.
    SendThreadMessage { body: String },
    /// Create a forum post titled `title` whose initial message is `body`.
    CreateForumPost { title: String, body: String },
    /// Send `body` as a standalone message into the container itself.
    SendContainerMessage { body: String },
    /// Create a thread named `name` anchored to the message the
    /// preceding action sent.
    CreateThreadFromMessage { name: String },
}

/// The mathematical value of a `RemoteAction`: the same shape over
/// character sequences.
pub enum ActionView {
    Archive,
    SendThreadMessage(Seq<char>),
    CreateForumPost(Seq<char>, Seq<char>),
    SendContainerMessage(Seq<char>),
    CreateThreadFromMessage(Seq<char>),
}

impl View for RemoteAction {
    type V = ActionView;

    open spec fn view(&self) -> ActionView {
        match self {
            RemoteAction::ArchiveThread => ActionView::Archive,
            RemoteAction::SendThreadMessage { body } => ActionView::SendThreadMessage(body@),
            RemoteAction::CreateForumPost { title, body } => ActionView::CreateForumPost(
                title@,
                body@,
            ),
            RemoteAction::SendContainerMessage { body } => ActionView::SendContainerMessage(body@),
            RemoteAction::CreateThreadFromMessage { name } => ActionView::CreateThreadFromMessage(
                name@,
            ),
        }
    }
}

/// The views of a sequence of actions, in order.
pub open spec fn views_of(actions: Seq<RemoteAction>) -> Seq<ActionView> {
    actions.map_values(|a: RemoteAction| a@)
}

} // verus!
