use volapplet::connection::{
    subscribe_callback, subscription_mask, ConnectionState, EchoLatch, RetryAction, StateAction,
    Supervisor,
};
use volapplet::dispatcher::{
    get_icon_name, percent_from_units, source_type, update_list, Categories, Completion,
    Dispatcher, SourceType,
};
use volapplet::geometry::{popout_position, Rect};
use volapplet::command::{CommandError, MuteCommand};
use volapplet::session::{handle_mute_button, handle_volume_slider_change, AudioSession};
use volapplet::diff::{apply_completion, Notification};
use volapplet::registry::{set_default_output, Output, OutputRegistry, VolumeType};

fn item(id: &str, avg: u32) -> Output {
    update_list(id.to_string(), avg, false, id.to_string(), 1, None, VolumeType::Sink)
}

const SINKS_ONLY: Categories = Categories { inputs: false, streams: false };
const ALL: Categories = Categories { inputs: true, streams: true };

#[test]
fn single_query_completes_after_every_category() {
    let mut d = Dispatcher::new();
    let id = d.begin_query(ALL, Completion::Reload);
    assert_eq!(id, 1);
    assert!(d.on_item(id, item("sink", 50000), vec![50000, 50000]));
    assert!(d.on_end_of_list(id).is_none());
    assert!(d.on_source_item(id, item("mic", 20000), vec![20000], u32::MAX));
    assert!(d.on_end_of_list(id).is_none());
    let (completion, outputs) = d.on_end_of_list(id).unwrap();
    assert_eq!(completion, Completion::Reload);
    assert_eq!(outputs.len(), 2);
    assert_eq!(outputs[0].id, "sink");
    assert_eq!(outputs[1].id, "mic");
    assert!(d.pending.is_empty());
    assert!(d.on_end_of_list(id).is_none());
    assert_eq!(d.templates.get(&"sink".to_string()), Some(&vec![50000, 50000]));
}

#[test]
fn superseded_query_items_are_dropped() {
    let mut d = Dispatcher::new();
    let first = d.begin_query(SINKS_ONLY, Completion::Reload);
    assert!(d.on_item(first, item("early", 1000), vec![1000]));
    let second = d.begin_query(SINKS_ONLY, Completion::Diff);
    assert_eq!(second, first + 1);
    assert!(!d.on_item(first, item("stale", 1000), vec![1000]));
    assert!(d.on_item(second, item("fresh", 2000), vec![2000]));
    assert!(d.on_end_of_list(first).is_none());
    let (completion, outputs) = d.on_end_of_list(second).unwrap();
    assert_eq!(completion, Completion::Diff);
    assert_eq!(outputs.len(), 1);
    assert_eq!(outputs[0].id, "fresh");
    assert!(d.pending.is_empty());
    assert!(d.templates.get(&"stale".to_string()).is_none());
}

#[test]
fn superseded_query_never_completes() {
    let mut d = Dispatcher::new();
    let first = d.begin_query(ALL, Completion::Reload);
    let second = d.begin_query(SINKS_ONLY, Completion::Diff);
    assert!(d.on_end_of_list(first).is_none());
    assert!(d.on_end_of_list(first).is_none());
    assert!(d.on_end_of_list(first).is_none());
    assert_eq!(d.pending.len(), 1);
    assert!(d.on_end_of_list(first).is_none());
    assert!(d.on_end_of_list(second).is_some());
    assert!(d.pending.is_empty());
}

#[test]
fn monitor_sources_are_excluded() {
    let mut d = Dispatcher::new();
    let id = d.begin_query(ALL, Completion::Reload);
    assert!(!d.on_source_item(id, item("monitor", 1000), vec![1000], 3));
    assert!(d.templates.get(&"monitor".to_string()).is_none());
    assert_eq!(source_type(3, 0), SourceType::Monitor);
    assert_eq!(source_type(u32::MAX, 4), SourceType::Hardware);
    assert_eq!(source_type(u32::MAX, 1), SourceType::Virtual);
}

#[test]
fn units_become_percent() {
    assert_eq!(percent_from_units(0), 0);
    assert_eq!(percent_from_units(499), 0);
    assert_eq!(percent_from_units(500), 1);
    assert_eq!(percent_from_units(73000), 73);
    assert_eq!(percent_from_units(65536), 66);
    assert_eq!(percent_from_units(u32::MAX), 4294967);
    let o = update_list("Name".to_string(), 42400, true, "id".to_string(), 9, None, VolumeType::Input);
    assert_eq!(o.volume, 42);
    assert_eq!(o.pa_index, Some(9));
    assert!(o.muted);
}

#[test]
fn icon_name_preference() {
    let s = |x: &str| Some(x.to_string());
    assert_eq!(get_icon_name(s("m"), s("w"), s("a")), s("m"));
    assert_eq!(get_icon_name(None, s("w"), s("a")), s("w"));
    assert_eq!(get_icon_name(None, None, s("a")), s("a"));
    assert_eq!(get_icon_name(None, None, None), None);
}

#[test]
fn reconnect_succeeds_on_fourth_attempt() {
    let mut sup = Supervisor::new();
    let c = SINKS_ONLY;
    assert_eq!(sup.context_state_callback(ConnectionState::Failed, c), StateAction::Recover);
    let mut attempts = 0;
    loop {
        match sup.retry_connection_loop() {
            RetryAction::Attempt => {
                attempts += 1;
                if attempts == 4 {
                    sup.context_state_callback(ConnectionState::Ready, c);
                } else {
                    assert_eq!(
                        sup.context_state_callback(ConnectionState::Failed, c),
                        StateAction::Wait
                    );
                }
            }
            RetryAction::Recovered => break,
            RetryAction::GiveUp => panic!("gave up"),
        }
    }
    assert_eq!(attempts, 4);
    assert_eq!(sup.attempts, 4);
    assert!(!sup.in_progress);
}

#[test]
fn reconnect_gives_up_after_forty() {
    let mut sup = Supervisor::new();
    let c = SINKS_ONLY;
    assert_eq!(sup.context_state_callback(ConnectionState::Terminated, c), StateAction::Recover);
    let mut attempts = 0;
    loop {
        match sup.retry_connection_loop() {
            RetryAction::Attempt => attempts += 1,
            RetryAction::Recovered => panic!("recovered without a ready state"),
            RetryAction::GiveUp => break,
        }
    }
    assert_eq!(attempts, 40);
}

#[test]
fn ready_subscribes_with_mask() {
    let mut sup = Supervisor::new();
    assert_eq!(
        sup.context_state_callback(ConnectionState::Ready, SINKS_ONLY),
        StateAction::SubscribeAndEnumerate(1, Completion::Reload)
    );
    assert_eq!(
        sup.context_state_callback(ConnectionState::Ready, ALL),
        StateAction::SubscribeAndEnumerate(7, Completion::Reload)
    );
    assert_eq!(
        sup.context_state_callback(ConnectionState::Connecting, ALL),
        StateAction::Wait
    );
    assert_eq!(subscription_mask(Categories { inputs: true, streams: false }), 3);
    assert_eq!(subscription_mask(Categories { inputs: false, streams: true }), 5);
}

#[test]
fn change_events_are_filtered() {
    assert!(subscribe_callback(0x10, SINKS_ONLY));
    assert!(!subscribe_callback(0x11, SINKS_ONLY));
    assert!(subscribe_callback(0x11, ALL));
    assert!(!subscribe_callback(0x02, SINKS_ONLY));
    assert!(subscribe_callback(0x22, ALL));
    assert!(!subscribe_callback(0x05, ALL));
}

#[test]
fn echo_latch_swallows_one_event() {
    let mut latch = EchoLatch::new();
    assert!(latch.handle_callback());
    latch.set_ignore_next_callback();
    assert!(!latch.handle_callback());
    assert!(latch.handle_callback());
}

#[test]
fn popout_placement() {
    let monitor = Rect { x: 0, y: 0, width: 1920, height: 1080 };
    let icon = Rect { x: 1900, y: 0, width: 20, height: 20 };
    assert_eq!(popout_position(icon, false, 320, 50, monitor), (1600, 20));
    let bottom_icon = Rect { x: 100, y: 1060, width: 20, height: 20 };
    assert_eq!(popout_position(bottom_icon, false, 320, 50, monitor), (100, 1010));
    let side_icon = Rect { x: 0, y: 1070, width: 20, height: 20 };
    assert_eq!(popout_position(side_icon, true, 320, 50, monitor), (20, 1030));
    let right_icon = Rect { x: 1900, y: 10, width: 20, height: 20 };
    assert_eq!(popout_position(right_icon, true, 320, 50, monitor), (1580, 10));
}

#[test]
fn completions_apply_as_asked() {
    let mut registry = OutputRegistry::new();
    set_default_output(&mut registry, "b".to_string());
    let events = apply_completion(
        &mut registry,
        Completion::Reload,
        vec![item("a", 10000), item("b", 20000)],
    );
    assert_eq!(events.len(), 1);
    assert!(matches!(&events[0], Notification::OutputsReloaded(v) if v.len() == 2));
    assert_eq!(registry.list.len(), 2);

    let events = apply_completion(&mut registry, Completion::TrayRefresh, vec![item("b", 35000)]);
    assert_eq!(events.len(), 2);
    assert!(matches!(&events[0], Notification::DefaultVolumeChanged(35)));
    assert!(matches!(&events[1], Notification::DefaultMutedChanged(false)));
    assert_eq!(registry.list.len(), 2);
    assert_eq!(registry.list[1].volume, 20);

    let events = apply_completion(
        &mut registry,
        Completion::Diff,
        vec![item("a", 10000), item("b", 30000)],
    );
    assert_eq!(events.len(), 2);
    assert!(matches!(&events[0], Notification::VolumeChanged(id, 30) if id == "b"));
    assert!(matches!(&events[1], Notification::DefaultVolumeChanged(30)));
    assert_eq!(registry.list[1].volume, 30);
}

#[test]
fn session_diffs_only_the_newest_snapshot() {
    let mut session = AudioSession::new();
    let first = session.get_outputs(SINKS_ONLY, Completion::Reload);
    assert!(session.dispatcher.on_item(first, item("A", 50000), vec![50000]));
    let events = session.try_finish_callback(first);
    assert_eq!(events.len(), 1);
    assert!(matches!(&events[0], Notification::OutputsReloaded(v) if v.len() == 1));
    assert_eq!(session.registry.list[0].volume, 50);

    let older = session.get_outputs(SINKS_ONLY, Completion::Diff);
    let newer = session.get_outputs(SINKS_ONLY, Completion::Diff);
    assert!(!session.dispatcher.on_item(older, item("A", 10000), vec![10000]));
    assert!(session.dispatcher.on_item(newer, item("A", 73000), vec![73000]));
    assert!(session.try_finish_callback(older).is_empty());
    let events = session.try_finish_callback(newer);
    assert_eq!(events.len(), 1);
    assert!(matches!(&events[0], Notification::VolumeChanged(id, 73) if id == "A"));
    assert_eq!(session.registry.list[0].volume, 73);
    assert!(session.try_finish_callback(newer).is_empty());
}

#[test]
fn session_change_events_respect_latch() {
    let mut session = AudioSession::new();
    assert_eq!(session.handle_change_event(0x10, SINKS_ONLY), Some(1));
    assert_eq!(session.dispatcher.pending[0].completion, Completion::Diff);
    session.latch.set_ignore_next_callback();
    assert_eq!(session.handle_change_event(0x01, SINKS_ONLY), None);
    assert!(session.latch.ignore_next_callback);
    assert_eq!(session.handle_change_event(0x00, SINKS_ONLY), None);
    assert_eq!(session.handle_change_event(0x00, SINKS_ONLY), Some(2));
    assert_eq!(session.dispatcher.pending.len(), 2);
}

#[test]
fn mute_button_arms_latch_and_builds_command() {
    let mut session = AudioSession::new();
    set_default_output(&mut session.registry, "A".to_string());
    let mut a = item("A", 50000);
    a.pa_index = Some(6);
    let b = update_list("B".to_string(), 1000, false, "B".to_string(), 2, None, VolumeType::Input);
    session.registry.list.push(a);
    session.registry.list.push(b);

    let outcome = handle_mute_button(&mut session, &"A".to_string());
    assert!(outcome.muted);
    assert!(session.latch.ignore_next_callback);
    assert!(session.registry.list[0].muted);
    assert_eq!(outcome.events.len(), 2);
    assert!(matches!(&outcome.events[0], Notification::DefaultMutedChanged(true)));
    assert!(matches!(&outcome.events[1], Notification::MutedChanged(id, true) if id == "A"));
    assert_eq!(
        outcome.command,
        Ok(MuteCommand { type_: VolumeType::Sink, index: 6, muted: true })
    );

    let outcome = handle_mute_button(&mut session, &"B".to_string());
    assert!(outcome.muted);
    assert_eq!(outcome.events.len(), 1);
    assert_eq!(
        outcome.command,
        Ok(MuteCommand { type_: VolumeType::Input, index: 2, muted: true })
    );

    let outcome = handle_mute_button(&mut session, &"missing".to_string());
    assert!(!outcome.muted);
    assert_eq!(outcome.events.len(), 1);
    assert_eq!(outcome.command, Err(CommandError::MissingIndex));
}

#[test]
fn slider_move_arms_latch_and_builds_command() {
    let mut session = AudioSession::new();
    let mut a = item("A", 50000);
    a.pa_index = Some(3);
    session.registry.list.push(a);
    session.dispatcher.templates.insert("A".to_string(), vec![50000, 50000]);

    assert!(handle_volume_slider_change(&mut session, 51, &"A".to_string()).is_none());
    assert!(!session.latch.ignore_next_callback);

    let outcome = handle_volume_slider_change(&mut session, 130, &"A".to_string()).unwrap();
    assert_eq!(outcome.volume, 100);
    assert!(session.latch.ignore_next_callback);
    let c = outcome.command.unwrap();
    assert_eq!(c.index, 3);
    assert_eq!(c.type_, VolumeType::Sink);
    assert_eq!(c.channels, vec![100000, 100000]);

    let outcome = handle_volume_slider_change(&mut session, 40, &"B".to_string()).unwrap();
    assert_eq!(outcome.volume, 40);
    assert_eq!(outcome.command.err(), Some(CommandError::MissingTemplate));
}
