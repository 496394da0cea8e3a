use alert_threads::dispatch::dispatch;
use alert_threads::locate::{combined_threads, locate};
use alert_threads::model::{Alert, AlertAnnotations, AlertLabels, AlertPayload};
use alert_threads::reconcile::reconcile;
use alert_threads::remote::{Container, ContainerKind, RemoteAction, RemoteThread};

fn thread(name: &str, parent_id: u64, archived: bool) -> RemoteThread {
    RemoteThread { name: name.to_string(), parent_id, archived }
}

fn forum(id: u64) -> Container {
    Container { id, kind: ContainerKind::Forum }
}

fn text_channel(id: u64) -> Container {
    Container { id, kind: ContainerKind::Text }
}

#[test]
fn locate_finds_by_name_under_container() {
    let threads = vec![thread("other", 5, false), thread("A - x", 5, false)];
    let found = locate(&threads, &forum(5), &"A - x".to_string());
    assert_eq!(found, Some(1));
}

#[test]
fn locate_ignores_threads_of_other_containers() {
    let threads = vec![thread("A - x", 4, false), thread("A - x", 5, true)];
    let found = locate(&threads, &forum(5), &"A - x".to_string());
    assert_eq!(found, Some(1));
}

#[test]
fn locate_returns_none_when_nothing_matches() {
    let threads = vec![thread("A - x", 4, false), thread("B - y", 5, false)];
    assert_eq!(locate(&threads, &forum(5), &"A - x".to_string()), None);
}

#[test]
fn locate_scans_active_before_archived() {
    let active = vec![thread("A - x", 5, false)];
    let archived = vec![thread("A - x", 5, true)];
    let all = combined_threads(active, archived);
    assert_eq!(all.len(), 2);
    assert_eq!(locate(&all, &forum(5), &"A - x".to_string()), Some(0));
}

#[test]
fn locate_takes_first_match_among_duplicates() {
    let threads = vec![
        thread("dup", 5, true),
        thread("dup", 5, false),
    ];
    assert_eq!(locate(&threads, &forum(5), &"dup".to_string()), Some(0));
}

#[test]
fn resolved_alert_only_archives() {
    let t = thread("A - x", 5, false);
    let actions = reconcile(
        &forum(5),
        &"A - x".to_string(),
        Some(&t),
        &"resolved".to_string(),
        &None,
    );
    assert_eq!(actions.len(), 1);
    match &actions[0] {
        RemoteAction::ArchiveThread => {}
        _ => panic!("expected an archive action"),
    }
}

#[test]
fn archived_thread_is_rearchived_then_messaged() {
    let t = thread("A - x", 5, true);
    let actions = reconcile(
        &text_channel(5),
        &"A - x".to_string(),
        Some(&t),
        &"firing".to_string(),
        &None,
    );
    assert_eq!(actions.len(), 2);
    match &actions[0] {
        RemoteAction::ArchiveThread => {}
        _ => panic!("expected an archive action first"),
    }
    match &actions[1] {
        RemoteAction::SendThreadMessage { body } => {
            assert_eq!(
                body,
                "**Title:** A - x\n**Status:** firing\n**Description:** No description provided"
            );
        }
        _ => panic!("expected a thread message second"),
    }
}

#[test]
fn active_thread_just_gets_the_message() {
    let t = thread("A - x", 5, false);
    let actions = reconcile(
        &forum(5),
        &"A - x".to_string(),
        Some(&t),
        &"firing".to_string(),
        &Some(AlertAnnotations { description: Some("cpu hot".to_string()) }),
    );
    assert_eq!(actions.len(), 1);
    match &actions[0] {
        RemoteAction::SendThreadMessage { body } => {
            assert_eq!(body, "**Title:** A - x\n**Status:** firing\n**Description:** cpu hot");
        }
        _ => panic!("expected a thread message"),
    }
}

#[test]
fn missing_thread_in_forum_is_one_forum_post() {
    let actions = reconcile(
        &forum(5),
        &"A - x".to_string(),
        None,
        &"firing".to_string(),
        &None,
    );
    assert_eq!(actions.len(), 1);
    match &actions[0] {
        RemoteAction::CreateForumPost { title, body } => {
            assert_eq!(title, "A - x");
            assert_eq!(
                body,
                "**Title:** A - x\n**Status:** firing\n**Description:** No description provided"
            );
        }
        _ => panic!("expected a forum-post creation"),
    }
}

#[test]
fn missing_thread_in_text_container_takes_three_calls() {
    let actions = reconcile(
        &text_channel(5),
        &"A - x".to_string(),
        None,
        &"firing".to_string(),
        &None,
    );
    assert_eq!(actions.len(), 3);
    match &actions[0] {
        RemoteAction::SendContainerMessage { body } => {
            assert_eq!(body, "**Title:** A - x");
        }
        _ => panic!("expected the standalone title message first"),
    }
    match &actions[1] {
        RemoteAction::CreateThreadFromMessage { name } => {
            assert_eq!(name, "A - x");
        }
        _ => panic!("expected the thread creation second"),
    }
    match &actions[2] {
        RemoteAction::SendThreadMessage { body } => {
            assert_eq!(
                body,
                "**Title:** A - x\n**Status:** firing\n**Description:** No description provided"
            );
        }
        _ => panic!("expected the body message third"),
    }
}

#[test]
fn resolved_alert_with_unknown_thread_still_creates() {
    let actions = reconcile(
        &forum(5),
        &"A - x".to_string(),
        None,
        &"resolved".to_string(),
        &None,
    );
    assert_eq!(actions.len(), 1);
    match &actions[0] {
        RemoteAction::CreateForumPost { .. } => {}
        _ => panic!("expected a forum-post creation"),
    }
}

#[test]
fn firing_alert_against_empty_forum_creates_one_post() {
    let payload = AlertPayload {
        alerts: Some(vec![Alert {
            status: Some("firing".to_string()),
            labels: Some(AlertLabels {
                alertname: Some("HighCPU".to_string()),
                namespace: Some("ns1".to_string()),
                pod: None,
            }),
            annotations: Some(AlertAnnotations { description: None }),
        }]),
        status: None,
    };
    let container = forum(9);
    let requests = dispatch(&payload);
    assert_eq!(requests.len(), 1);

    let request = &requests[0];
    assert_eq!(request.thread_name, "HighCPU - ns1");
    assert_eq!(request.status, "firing");

    let threads: Vec<RemoteThread> = vec![];
    assert_eq!(locate(&threads, &container, &request.thread_name), None);

    let actions = reconcile(
        &container,
        &request.thread_name,
        None,
        &request.status,
        &request.annotations,
    );
    assert_eq!(actions.len(), 1);
    match &actions[0] {
        RemoteAction::CreateForumPost { title, body } => {
            assert_eq!(title, "HighCPU - ns1");
            assert_eq!(
                body,
                "**Title:** HighCPU - ns1\n**Status:** firing\n**Description:** No description provided"
            );
        }
        _ => panic!("expected exactly one forum-post creation"),
    }
}
