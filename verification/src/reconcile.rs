//! Thread reconciler: decides, from the located thread and the
//! incoming status, which remote calls to make, and composes the
//! message body they carry.

use vstd::prelude::*;
use vstd::string::StringExecFns;
use crate::model::AlertAnnotations;
use crate::remote::{ActionView, Container, ContainerKind, RemoteAction, RemoteThread, views_of};

verus! {

/// The status value that closes a thread.
pub open spec fn resolved_text() -> Seq<char> {
    "resolved"@
}

/// The text substituted when an alert carries no description.
pub open spec fn no_description_text() -> Seq<char> {
    "No description provided"@
}

/// The description an alert contributes to the message body.
pub open spec fn description_of(annotations: Option<AlertAnnotations>) -> Seq<char> {
    match annotations {
        Some(a) => match a.description {
            Some(d) => d@,
            None => no_description_text(),
        },
        None => no_description_text(),
    }
}

/// The composed message body, literally:
/// `**Title:** {name}\n**Status:** {status}\n**Description:** {desc}`.
pub open spec fn message_of(name: Seq<char>, status: Seq<char>, desc: Seq<char>) -> Seq<char> {
    "**Title:** "@ + name + "\n**Status:** "@ + status + "\n**Description:** "@ + desc
}

/// The standalone title message a text container gets before a thread
/// is anchored to it: `**Title:** {name}`.
pub open spec fn title_message_of(name: Seq<char>) -> Seq<char> {
    "**Title:** "@ + name
}

/// Composes the message body sent into a thread.
pub fn compose_message(
    thread_name: &String,
    status: &String,
    annotations: &Option<AlertAnnotations>,
) -> (r: String)
    ensures
        r@ == message_of(thread_name@, status@, description_of(*annotations)),
{
    let mut m: String = "**Title:** ".to_owned();
    m.append(thread_name.as_str());
    m.append("\n**Status:** ");
    m.append(status.as_str());
    m.append("\n**Description:** ");
    let desc: String = match annotations {
        Some(a) => match &a.description {
            Some(d) => d.clone(),
            None => "No description provided".to_owned(),
        },
        None => "No description provided".to_owned(),
    };
    m.append(desc.as_str());
    proof {
        assert(m@ =~= message_of(thread_name@, status@, description_of(*annotations)));
    }
    m
}

/// Composes the standalone title message.
pub fn compose_title_message(thread_name: &String) -> (r: String)
    ensures
        r@ == title_message_of(thread_name@),
{
    let mut m: String = "**Title:** ".to_owned();
    m.append(thread_name.as_str());
    m
}

/// The value of the located-thread argument, with the reference gone.
pub open spec fn located_view(located: Option<&RemoteThread>) -> Option<RemoteThread> {
    match located {
        Some(t) => Some(*t),
        None => None,
    }
}

/// The state machine of one reconciliation: the exact sequence of
/// remote calls owed for a located thread (or none), a container kind,
/// a thread name, a status, and a composed body.
pub open spec fn plan_of(
    located: Option<RemoteThread>,
    kind: ContainerKind,
    name: Seq<char>,
    status: Seq<char>,
    body: Seq<char>,
) -> Seq<ActionView> {
    match located {
        Some(t) => if status == resolved_text() {
            seq![ActionView::Archive]
        } else if t.archived {
            seq![ActionView::Archive, ActionView::SendThreadMessage(body)]
        } else {
            seq![ActionView::SendThreadMessage(body)]
        },
        None => match kind {
            ContainerKind::Forum => seq![ActionView::CreateForumPost(name, body)],
            ContainerKind::Text => seq![
                ActionView::SendContainerMessage(title_message_of(name)),
                ActionView::CreateThreadFromMessage(name),
                ActionView::SendThreadMessage(body),
            ],
        },
    }
}

/// Decides the remote calls for one alert: composes the body and maps
/// the located thread's state and the status through the
/// reconciliation state machine.
pub fn reconcile(
    container: &Container,
    thread_name: &String,
    located: Option<&RemoteThread>,
    status: &String,
    annotations: &Option<AlertAnnotations>,
) -> (r: Vec<RemoteAction>)
    ensures
        views_of(r@) == plan_of(
            located_view(located),
            container.kind,
            thread_name@,
            status@,
            message_of(thread_name@, status@, description_of(*annotations)),
        ),
{
    let ghost plan = plan_of(
        located_view(located),
        container.kind,
        thread_name@,
        status@,
        message_of(thread_name@, status@, description_of(*annotations)),
    );
    let body = compose_message(thread_name, status, annotations);
    let mut actions: Vec<RemoteAction> = Vec::new();
    match located {
        Some(t) => {
            let resolved: String = "resolved".to_owned();
            if *status == resolved {
                actions.push(RemoteAction::ArchiveThread);
            } else {
                if t.archived {
                    actions.push(RemoteAction::ArchiveThread);
                }
                actions.push(RemoteAction::SendThreadMessage { body });
            }
        },
        None => {
            match container.kind {
                ContainerKind::Forum => {
                    actions.push(
                        RemoteAction::CreateForumPost { title: thread_name.clone(), body },
                    );
                },
                ContainerKind::Text => {
                    let title = compose_title_message(thread_name);
                    actions.push(RemoteAction::SendContainerMessage { body: title });
                    actions.push(
                        RemoteAction::CreateThreadFromMessage { name: thread_name.clone() },
                    );
                    actions.push(RemoteAction::SendThreadMessage { body });
                },
            }
        },
    }
    proof {
        assert(views_of(actions@) =~= plan);
    }
    actions
}

/// With a located thread and status `"resolved"`, the plan archives
/// the thread and does nothing else: in particular, no message is sent.
pub proof fn lemma_resolved_only_archives(
    t: RemoteThread,
    kind: ContainerKind,
    name: Seq<char>,
    status: Seq<char>,
    body: Seq<char>,
)
    requires
        status == resolved_text(),
    ensures
        plan_of(Some(t), kind, name, status, body) == seq![ActionView::Archive],
{
}

/// With a located thread that is already archived and a status other
/// than `"resolved"`, the plan is archive then send, in that order.
pub proof fn lemma_archived_thread_rearchived_then_messaged(
    t: RemoteThread,
    kind: ContainerKind,
    name: Seq<char>,
    status: Seq<char>,
    body: Seq<char>,
)
    requires
        status != resolved_text(),
        t.archived,
    ensures
        plan_of(Some(t), kind, name, status, body) == seq![
            ActionView::Archive,
            ActionView::SendThreadMessage(body),
        ],
{
}

/// With a located active thread and a status other than `"resolved"`,
/// the plan is a single message into the thread.
pub proof fn lemma_active_thread_messaged(
    t: RemoteThread,
    kind: ContainerKind,
    name: Seq<char>,
    status: Seq<char>,
    body: Seq<char>,
)
    requires
        status != resolved_text(),
        !t.archived,
    ensures
        plan_of(Some(t), kind, name, status, body) == seq![ActionView::SendThreadMessage(body)],
{
}

/// With no located thread and a forum container, the plan is exactly
/// one forum-post creation carrying the thread name as title and the
/// composed body as initial message: no separate thread creation and
/// no extra message.
pub proof fn lemma_forum_creates_in_one_call(name: Seq<char>, status: Seq<char>, body: Seq<char>)
    ensures
        plan_of(None::<RemoteThread>, ContainerKind::Forum, name, status, body) == seq![
            ActionView::CreateForumPost(name, body),
        ],
{
}

/// With no located thread and a text container, the plan is exactly
/// three calls in order: the standalone title message, the thread
/// creation anchored to it, and the body message into the new thread.
pub proof fn lemma_text_container_creates_in_three_calls(
    name: Seq<char>,
    status: Seq<char>,
    body: Seq<char>,
)
    ensures
        plan_of(None::<RemoteThread>, ContainerKind::Text, name, status, body) == seq![
            ActionView::SendContainerMessage(title_message_of(name)),
            ActionView::CreateThreadFromMessage(name),
            ActionView::SendThreadMessage(body),
        ],
{
}

} // verus!
