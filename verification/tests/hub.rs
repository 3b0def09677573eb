use code_management_backend::hub::{Delivery, WebSocketManager, WebSocketMsg};

fn msg(user: &str, repo: &str, status: &str) -> WebSocketMsg {
    WebSocketMsg {
        user_id: user.to_string(),
        repo_name: repo.to_string(),
        message: status.to_string(),
    }
}

fn channels(hub: &WebSocketManager, owner: &str) -> Vec<u64> {
    hub.send_message(owner, &msg(owner, "r", "m")).into_iter().map(|d| d.channel).collect()
}

#[test]
fn a_new_hub_knows_nobody() {
    let hub = WebSocketManager::new();
    assert_eq!(hub.owners_len(), 0);
    assert!(!hub.is_registered("alice"));
    assert!(hub.send_message("alice", &msg("alice", "proj", "COMPLETED")).is_empty());
}

#[test]
fn two_channels_of_one_owner_get_the_same_message() {
    let mut hub = WebSocketManager::new();
    hub.register_connection("alice", 10);
    hub.register_connection("alice", 20);
    let deliveries = hub.send_clone_status("alice", "proj", "COMPLETED");
    assert_eq!(
        deliveries,
        vec![
            Delivery { channel: 10, message: msg("alice", "proj", "COMPLETED") },
            Delivery { channel: 20, message: msg("alice", "proj", "COMPLETED") },
        ]
    );
    assert_eq!(deliveries[0].message, deliveries[1].message);

    hub.unregister_connection("alice", 10);
    let deliveries = hub.send_clone_status("alice", "proj", "FAILED");
    assert_eq!(deliveries, vec![Delivery { channel: 20, message: msg("alice", "proj", "FAILED") }]);
}

#[test]
fn the_entry_goes_with_the_last_channel() {
    let mut hub = WebSocketManager::new();
    hub.register_connection("alice", 1);
    hub.register_connection("bob", 2);
    assert_eq!(hub.owners_len(), 2);
    hub.unregister_connection("alice", 1);
    assert_eq!(hub.owners_len(), 1);
    assert!(!hub.is_registered("alice"));
    assert!(hub.is_registered("bob"));
    assert!(channels(&hub, "alice").is_empty());
    assert_eq!(channels(&hub, "bob"), vec![2]);
}

#[test]
fn owners_do_not_see_each_other() {
    let mut hub = WebSocketManager::new();
    hub.register_connection("alice", 1);
    hub.register_connection("bob", 2);
    hub.register_connection("alice", 3);
    assert_eq!(channels(&hub, "alice"), vec![1, 3]);
    assert_eq!(channels(&hub, "bob"), vec![2]);
    assert!(channels(&hub, "carol").is_empty());
    hub.unregister_connection("bob", 1);
    assert_eq!(channels(&hub, "alice"), vec![1, 3]);
    assert_eq!(channels(&hub, "bob"), vec![2]);
}

#[test]
fn unregistering_an_unknown_channel_changes_nothing() {
    let mut hub = WebSocketManager::new();
    hub.unregister_connection("alice", 1);
    assert_eq!(hub.owners_len(), 0);
    hub.register_connection("alice", 1);
    hub.unregister_connection("alice", 2);
    hub.unregister_connection("bob", 1);
    assert_eq!(channels(&hub, "alice"), vec![1]);
    assert_eq!(hub.owners_len(), 1);
}

#[test]
fn a_channel_registered_twice_is_unregistered_whole() {
    let mut hub = WebSocketManager::new();
    hub.register_connection("alice", 1);
    hub.register_connection("alice", 2);
    hub.register_connection("alice", 1);
    assert_eq!(channels(&hub, "alice"), vec![1, 2, 1]);
    hub.unregister_connection("alice", 1);
    assert_eq!(channels(&hub, "alice"), vec![2]);
}

#[test]
fn a_message_is_delivered_as_it_is() {
    let mut hub = WebSocketManager::new();
    hub.register_connection("alice", 7);
    let message = msg("someone", "repo \u{1f600}", "anything");
    let deliveries = hub.send_message("alice", &message);
    assert_eq!(deliveries.len(), 1);
    assert_eq!(deliveries[0].message, message);
    assert_eq!(message.duplicate(), message);
}

#[test]
fn many_owners_come_and_go() {
    let mut hub = WebSocketManager::new();
    for i in 0..20u64 {
        hub.register_connection(&format!("user{}", i % 5), i);
    }
    assert_eq!(hub.owners_len(), 5);
    assert_eq!(channels(&hub, "user3"), vec![3, 8, 13, 18]);
    for i in 0..20u64 {
        if i % 5 == 3 {
            hub.unregister_connection("user3", i);
        }
    }
    assert_eq!(hub.owners_len(), 4);
    assert_eq!(channels(&hub, "user4"), vec![4, 9, 14, 19]);
    assert_eq!(channels(&hub, "user0"), vec![0, 5, 10, 15]);
}
