use linjector::channels::ChannelRegistry;

#[test]
fn channel_ids_are_sequential() {
    let mut reg = ChannelRegistry::new();
    assert_eq!(reg.add_channel(Some("alpha".to_string())), 0);
    assert_eq!(reg.add_channel(None), 1);
    assert_eq!(reg.add_channel(Some("beta".to_string())), 2);
}

#[test]
fn published_messages_poll_in_order() {
    let mut reg = ChannelRegistry::new();
    let id = reg.add_channel(Some("chan".to_string()));
    reg.publish_message_to_guest(id, vec![1, 2, 3]);
    reg.publish_message_to_guest(id, vec![4]);
    assert_eq!(reg.poll_plugin_message(id), Some(vec![1, 2, 3]));
    assert_eq!(reg.poll_plugin_message(id), Some(vec![4]));
    assert_eq!(reg.poll_plugin_message(id), None);
}

#[test]
fn queues_are_independent_per_channel() {
    let mut reg = ChannelRegistry::new();
    let a = reg.add_channel(Some("a".to_string()));
    let b = reg.add_channel(Some("b".to_string()));
    reg.publish_message_to_guest(a, vec![10]);
    reg.publish_message_to_guest(b, vec![20]);
    assert_eq!(reg.poll_plugin_message(b), Some(vec![20]));
    assert_eq!(reg.poll_plugin_message(a), Some(vec![10]));
    assert_eq!(reg.poll_plugin_message(a), None);
}

#[test]
fn publish_to_unknown_channel_is_dropped() {
    let mut reg = ChannelRegistry::new();
    let id = reg.add_channel(None);
    reg.publish_message_to_guest(55, vec![9, 9]);
    assert_eq!(reg.poll_plugin_message(id), None);
}

#[test]
fn messages_from_guest_are_handed_back_for_delivery() {
    let mut reg = ChannelRegistry::new();
    let id = reg.add_channel(Some("events".to_string()));
    assert_eq!(reg.publish_message_from_guest(id, vec![7, 8]), Some(vec![7, 8]));
    assert_eq!(reg.publish_message_from_guest(42, vec![7, 8]), None);
}

#[test]
fn channels_are_found_by_name() {
    let mut reg = ChannelRegistry::new();
    reg.add_channel(Some("alpha".to_string()));
    reg.add_channel(None);
    reg.add_channel(Some("beta".to_string()));
    assert_eq!(reg.get_channel_from_name("beta"), Some(2));
    assert_eq!(reg.get_channel_from_name("alpha"), Some(0));
    assert_eq!(reg.get_channel_from_name("gamma"), None);
}
