use mycomp::channel::{bg_send_message, drain_queue, DeliveryError, ExternalChannel};
use mycomp::comp::{MyCompData, MyCompDataMessager, Payload};
use mycomp::router::{route, CompEvent, RoutingOutcome};
use mycomp::scope::{build_app, build_widget, AppData, MyCompDataTransfer, ScopedInstance};
use mycomp::text::{format_entry, usize_to_string};

fn payload(id: usize, message: &str) -> Payload {
    Payload { my_comp_data_id: id, message: message.to_string() }
}

#[test]
fn decimal_rendering() {
    assert_eq!(usize_to_string(0), "0");
    assert_eq!(usize_to_string(7), "7");
    assert_eq!(usize_to_string(10), "10");
    assert_eq!(usize_to_string(907), "907");
    assert_eq!(usize_to_string(1200345), "1200345");
}

#[test]
fn entry_format_exact() {
    assert_eq!(format_entry("Message", 0, 1), "Message 0 for MyComp 1");
    assert_eq!(format_entry("Hi", 12, 305), "Hi 12 for MyComp 305");
    assert_eq!(format_entry("", 0, 0), " 0 for MyComp 0");
}

#[test]
fn receive_matching_appends_one_entry() {
    let mut comp = MyCompData::new(1);
    assert_eq!(comp.titles_len(), 0);
    let matched = comp.receive_message(&payload(1, "Message"));
    assert!(matched);
    assert_eq!(comp.titles_len(), 1);
    assert_eq!(comp.title_at(0), "Message 0 for MyComp 1");
}

#[test]
fn receive_non_matching_is_noop() {
    let mut comp = MyCompData::new(2);
    let matched = comp.receive_message(&payload(1, "Message"));
    assert!(!matched);
    assert_eq!(comp.titles_len(), 0);
}

#[test]
fn log_is_append_only_and_ordered() {
    let mut comp = MyCompData::new(4);
    comp.receive_message(&payload(4, "first"));
    comp.receive_message(&payload(4, "second"));
    comp.receive_message(&payload(4, "third"));
    assert_eq!(comp.titles_len(), 3);
    assert_eq!(comp.title_at(0), "first 0 for MyComp 4");
    assert_eq!(comp.title_at(1), "second 1 for MyComp 4");
    assert_eq!(comp.title_at(2), "third 2 for MyComp 4");
}

#[test]
fn route_delivers_tagged_matching_event() {
    let mut comp = MyCompData::new(3);
    let outcome = route(&CompEvent::Message(payload(3, "Message")), &mut comp);
    assert!(matches!(outcome, RoutingOutcome::Delivered));
    assert_eq!(comp.titles_len(), 1);
    assert_eq!(comp.title_at(0), "Message 0 for MyComp 3");
}

#[test]
fn route_drops_tagged_mismatched_event() {
    let mut comp = MyCompData::new(3);
    let outcome = route(&CompEvent::Message(payload(8, "Message")), &mut comp);
    assert!(matches!(outcome, RoutingOutcome::Dropped));
    assert_eq!(comp.titles_len(), 0);
}

#[test]
fn route_passes_other_events_through_unchanged() {
    let mut comp = MyCompData::new(3);
    comp.receive_message(&payload(3, "Message"));
    let outcome = route(&CompEvent::Other, &mut comp);
    assert!(matches!(outcome, RoutingOutcome::PassedThrough));
    assert_eq!(comp.titles_len(), 1);
    assert_eq!(comp.title_at(0), "Message 0 for MyComp 3");
}

#[test]
fn submit_on_closed_channel_fails() {
    let mut channel = ExternalChannel::new();
    channel.close();
    let r = channel.submit(1, "Message".to_string());
    assert!(matches!(r, Err(DeliveryError::ChannelClosed)));
    let r2 = bg_send_message(&mut channel, 1);
    assert!(matches!(r2, Err(DeliveryError::ChannelClosed)));
}

#[test]
fn three_instances_scenario() {
    let (_root, mut comps) = build_app();
    let mut channel = ExternalChannel::new();
    assert_eq!(comps.len(), 3);
    for comp in comps.iter() {
        assert_eq!(comp.state.titles_len(), 0);
    }

    bg_send_message(&mut channel, 1).unwrap();
    drain_queue(&mut channel, &mut comps);
    assert_eq!(comps[0].state.titles_len(), 0);
    assert_eq!(comps[1].state.titles_len(), 1);
    assert_eq!(comps[2].state.titles_len(), 0);
    assert_eq!(comps[1].state.title_at(0), "Message 0 for MyComp 1");

    bg_send_message(&mut channel, 1).unwrap();
    drain_queue(&mut channel, &mut comps);
    assert_eq!(comps[1].state.titles_len(), 2);
    assert_eq!(comps[1].state.title_at(0), "Message 0 for MyComp 1");
    assert_eq!(comps[1].state.title_at(1), "Message 1 for MyComp 1");
    assert_eq!(comps[0].state.titles_len(), 0);
    assert_eq!(comps[2].state.titles_len(), 0);
}

#[test]
fn racing_submissions_each_reach_their_instance() {
    // Every serialization the channel could produce of three racing workers.
    let orders: [[usize; 3]; 6] =
        [[0, 1, 2], [0, 2, 1], [1, 0, 2], [1, 2, 0], [2, 0, 1], [2, 1, 0]];
    for order in orders.iter() {
        let (_root, mut comps) = build_app();
        let mut channel = ExternalChannel::new();
        for &id in order.iter() {
            bg_send_message(&mut channel, id).unwrap();
        }
        drain_queue(&mut channel, &mut comps);
        for (i, comp) in comps.iter().enumerate() {
            assert_eq!(comp.state.titles_len(), 1);
            assert_eq!(
                comp.state.title_at(0),
                &format!("Message 0 for MyComp {}", i)
            );
        }
    }
}

#[test]
fn envelope_for_dead_instance_changes_no_log() {
    let (_root, mut comps) = build_app();
    let mut channel = ExternalChannel::new();
    bg_send_message(&mut channel, 9).unwrap();
    drain_queue(&mut channel, &mut comps);
    for comp in comps.iter() {
        assert_eq!(comp.state.titles_len(), 0);
    }
    assert!(channel.queue.is_empty());
}

#[test]
fn scope_transfer_rules_are_noops() {
    let transfer = MyCompDataTransfer;
    let mut inner = AppData::default();
    let ScopedInstance { state: mut comp } = build_widget(5);
    comp.receive_message(&payload(5, "kept"));
    transfer.read_input(&mut comp, &inner);
    assert_eq!(comp.titles_len(), 1);
    assert_eq!(comp.title_at(0), "kept 0 for MyComp 5");
    transfer.write_back_input(&comp, &mut inner);
    assert_eq!(comp.titles_len(), 1);
}

#[test]
fn build_widget_fresh_isolated_state() {
    let a = build_widget(7);
    let b = build_widget(7);
    assert_eq!(a.state.titles_len(), 0);
    assert_eq!(b.state.titles_len(), 0);
    let mut a = a;
    a.state.receive_message(&payload(7, "only a"));
    assert_eq!(a.state.titles_len(), 1);
    assert_eq!(b.state.titles_len(), 0);
}
