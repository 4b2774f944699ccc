use vstd::prelude::*;

use crate::command::{
    CommandError, MuteCommand, VolumeCommand, clamp_spec, index_of, set_muted, set_volume,
    slider_target, type_spec, volume_slider_target,
};
use crate::connection::{EchoLatch, Supervisor, relevant_facility, subscribe_callback};
use crate::diff::{
    Notification, NotificationView, apply_completion, completion_events, completion_list,
    notifications_view,
};
use crate::dispatcher::{Categories, Completion, Dispatcher, begun, eol_applied, eol_result};
use crate::registry::{
    OutputRegistry, OutputView, absent, first_match, is_default_output, lemma_chosen_match,
    toggle_muted, type_of,
};

verus! {

/// The state that the server's event thread and the user interface share:
/// the registry, the enumerations in flight, the reconnect supervisor and
/// the echo latch.
pub struct AudioSession {
    pub registry: OutputRegistry,
    pub dispatcher: Dispatcher,
    pub supervisor: Supervisor,
    pub latch: EchoLatch,
}

impl AudioSession {
    pub open spec fn wf(&self) -> bool {
        self.dispatcher.wf()
    }

    /// A session with no outputs, no enumeration issued, no recovery in
    /// progress and the latch disarmed.
    pub fn new() -> (r: AudioSession)
        ensures
            r.wf(),
            r.registry@.list.len() == 0,
            r.registry@.default_id.len() == 0,
            r.dispatcher@.current_call_id == 0,
            r.dispatcher@.pending.len() == 0,
            !r.supervisor.in_progress,
            r.supervisor.attempts == 0,
            !r.latch.ignore_next_callback,
            r.dispatcher.templates.map() == Map::<Seq<char>, Seq<u32>>::empty(),
    {
        AudioSession {
            registry: OutputRegistry::new(),
            dispatcher: Dispatcher::new(),
            supervisor: Supervisor::new(),
            latch: EchoLatch::new(),
        }
    }

    /// Counts an end-of-list marker tagged `call_id`; when it completes the
    /// newest enumeration, the snapshot is applied to the registry as that
    /// enumeration asked and the resulting notifications are returned.
    pub fn try_finish_callback(&mut self, call_id: u64) -> (events: Vec<Notification>)
        requires
            old(self).wf(),
        ensures
            final(self).wf(),
            final(self).dispatcher@ == eol_applied(old(self).dispatcher@, call_id),
            final(self).registry@.default_id == old(self).registry@.default_id,
            final(self).supervisor == old(self).supervisor,
            final(self).latch == old(self).latch,
            match eol_result(old(self).dispatcher@, call_id) {
                Some((c, snapshot)) => notifications_view(events@) == completion_events(
                    c,
                    old(self).registry@.list,
                    snapshot,
                    old(self).registry@.default_id,
                ) && final(self).registry@.list == completion_list(
                    c,
                    old(self).registry@.list,
                    snapshot,
                ),
                None => events@.len() == 0 && final(self).registry@.list == old(
                    self,
                ).registry@.list,
            },
    {
        match self.dispatcher.on_end_of_list(call_id) {
            Some((completion, outputs)) => apply_completion(&mut self.registry, completion, outputs),
            None => Vec::new(),
        }
    }

    /// Handles a change event from the server. One that concerns an enabled
    /// category refreshes the outputs, unless the armed echo latch swallows
    /// it: the refresh is a new enumeration whose snapshot is diffed against
    /// the registry, and its call id is returned.
    pub fn handle_change_event(&mut self, event_type: u32, c: Categories) -> (issued: Option<u64>)
        requires
            old(self).wf(),
            old(self).dispatcher@.current_call_id < u64::MAX,
        ensures
            final(self).wf(),
            issued is Some <==> (relevant_facility(event_type % 16, c)
                && !old(self).latch.ignore_next_callback),
            issued matches Some(id) ==> id == old(self).dispatcher@.current_call_id + 1
                && final(self).dispatcher@ == begun(old(self).dispatcher@, c, Completion::Diff),
            issued is None ==> final(self).dispatcher@ == old(self).dispatcher@,
            final(self).dispatcher.templates == old(self).dispatcher.templates,
            relevant_facility(event_type % 16, c) ==> !final(self).latch.ignore_next_callback,
            !relevant_facility(event_type % 16, c) ==> final(self).latch == old(self).latch,
            final(self).registry == old(self).registry,
            final(self).supervisor == old(self).supervisor,
    {
        if !subscribe_callback(event_type, c) {
            return None;
        }
        if self.latch.handle_callback() {
            Some(self.dispatcher.begin_query(c, Completion::Diff))
        } else {
            None
        }
    }

    /// Issues a new enumeration for the enabled categories and returns the
    /// call id that tags its requests.
    pub fn get_outputs(&mut self, c: Categories, completion: Completion) -> (id: u64)
        requires
            old(self).wf(),
            old(self).dispatcher@.current_call_id < u64::MAX,
        ensures
            final(self).wf(),
            id == old(self).dispatcher@.current_call_id + 1,
            final(self).dispatcher@ == crate::dispatcher::begun(old(self).dispatcher@, c, completion),
            final(self).dispatcher.templates == old(self).dispatcher.templates,
            final(self).registry == old(self).registry,
            final(self).latch == old(self).latch,
            final(self).supervisor == old(self).supervisor,
    {
        self.dispatcher.begin_query(c, completion)
    }
}

/// What a click on an output's mute button leads to.
pub struct MuteOutcome {
    /// The output's new muted flag.
    pub muted: bool,
    /// What the display is told, in order.
    pub events: Vec<Notification>,
    /// The request for the server, or why none can be sent.
    pub command: Result<MuteCommand, CommandError>,
}

/// The notifications of a mute click: the tray hears of it first when the
/// output is the default one.
pub open spec fn mute_events(found: bool, is_default: bool, id: Seq<char>, muted: bool) -> Seq<
    NotificationView,
> {
    if found && is_default {
        seq![
            NotificationView::DefaultMutedChanged(muted),
            NotificationView::MutedChanged(id, muted),
        ]
    } else {
        seq![NotificationView::MutedChanged(id, muted)]
    }
}

/// Toggles the muted flag of the first output with id `id`, arms the echo
/// latch for the change the server will report back, and returns the new
/// flag, the notifications for the display and the command for the server.
/// With no such output the flag reads false and no command can be made.
pub fn handle_mute_button(session: &mut AudioSession, id: &String) -> (r: MuteOutcome)
    requires
        old(session).wf(),
    ensures
        final(session).wf(),
        final(session).latch.ignore_next_callback,
        final(session).dispatcher == old(session).dispatcher,
        final(session).supervisor == old(session).supervisor,
        final(session).registry@.default_id == old(session).registry@.default_id,
        notifications_view(r.events@) == mute_events(
            !absent(old(session).registry@.list, id@),
            id@ == old(session).registry@.default_id,
            id@,
            r.muted,
        ),
        absent(old(session).registry@.list, id@) ==> !r.muted && final(session).registry@.list
            == old(session).registry@.list && r.command == Err::<MuteCommand, CommandError>(
            CommandError::MissingIndex,
        ),
        forall|i: int|
            first_match(old(session).registry@.list, id@, i) ==> ({
                let before = old(session).registry@.list[i];
                &&& r.muted == !before.muted
                &&& final(session).registry@.list == old(session).registry@.list.update(
                    i,
                    OutputView { muted: r.muted, ..before },
                )
                &&& before.pa_index is None ==> r.command == Err::<MuteCommand, CommandError>(
                    CommandError::MissingIndex,
                )
                &&& before.pa_index matches Some(x) ==> r.command == Ok::<
                    MuteCommand,
                    CommandError,
                >(MuteCommand { type_: before.type_, index: x, muted: r.muted })
            }),
{
    session.latch.set_ignore_next_callback();
    let ghost before = session.registry@.list;
    let muted = toggle_muted(&mut session.registry, id);
    let type_ = type_of(&session.registry, id);
    let command = set_muted(&session.registry, id, muted, type_);
    proof {
        if !absent(before, id@) {
            lemma_chosen_match(before, id@);
            let i = crate::registry::chosen_match(before, id@);
            assert(first_match(session.registry@.list, id@, i));
            lemma_chosen_match(session.registry@.list, id@);
        } else {
            assert(absent(session.registry@.list, id@));
        }
    }
    let mut events: Vec<Notification> = Vec::new();
    let found = get_found(&session.registry, id);
    if found && is_default_output(&session.registry, id) {
        events.push(Notification::DefaultMutedChanged(muted));
    }
    events.push(Notification::MutedChanged(id.clone(), muted));
    assert(notifications_view(events@) =~= mute_events(
        !absent(before, id@),
        id@ == session.registry@.default_id,
        id@,
        muted,
    ));
    MuteOutcome { muted, events, command }
}

fn get_found(registry: &OutputRegistry, id: &String) -> (r: bool)
    ensures
        r == !absent(registry@.list, id@),
{
    let mut i: usize = 0;
    while i < registry.list.len()
        invariant
            i <= registry.list.len(),
            forall|j: int| 0 <= j < i ==> registry@.list[j].id != id@,
        decreases registry.list.len() - i,
    {
        if registry.list[i].id == *id {
            assert(registry@.list[i as int].id == id@);
            return true;
        }
        i = i + 1;
    }
    false
}

} // verus!

verus! {

/// What a slider move that is sent leads to.
pub struct SliderOutcome {
    /// The volume asked for, in whole percent.
    pub volume: u32,
    /// The request for the server, or why none can be sent.
    pub command: Result<VolumeCommand, CommandError>,
}

/// Handles a move of an output's volume slider. A move within two percent
/// of the stored volume is ignored and changes nothing. Any other arms the
/// echo latch for the change the server will report back and returns the
/// clamped volume with the command that sets every cached channel to it.
pub fn handle_volume_slider_change(session: &mut AudioSession, volume: i32, id: &String) -> (r:
    Option<SliderOutcome>)
    requires
        old(session).wf(),
    ensures
        final(session).wf(),
        final(session).registry == old(session).registry,
        final(session).dispatcher == old(session).dispatcher,
        final(session).supervisor == old(session).supervisor,
        r is Some <==> slider_target(&old(session).registry, id@, volume as int) is Some,
        r is None ==> final(session).latch == old(session).latch,
        r matches Some(o) ==> {
            let templates = old(session).dispatcher.templates.map();
            let registry = &old(session).registry;
            &&& Some(o.volume) == slider_target(registry, id@, volume as int)
            &&& final(session).latch.ignore_next_callback
            &&& (o.command is Ok <==> templates.contains_key(id@) && index_of(registry, id@) is Some)
            &&& (!templates.contains_key(id@) ==> o.command == Err::<VolumeCommand, CommandError>(
                CommandError::MissingTemplate,
            ))
            &&& (o.command matches Ok(c) ==> c.type_ == type_spec(registry, id@) && Some(c.index)
                == index_of(registry, id@) && c.channels@ == Seq::new(
                templates[id@].len(),
                |i: int| (o.volume * 1000) as u32,
            ))
        },
{
    let target = volume_slider_target(&session.registry, volume, id);
    match target {
        None => None,
        Some(v) => {
            session.latch.set_ignore_next_callback();
            let type_ = type_of(&session.registry, id);
            proof {
                if !absent(session.registry@.list, id@) {
                    lemma_chosen_match(session.registry@.list, id@);
                }
                assert(clamp_spec(v as int) == v);
            }
            let command = set_volume(
                &session.dispatcher.templates,
                &session.registry,
                id,
                v as i32,
                type_,
            );
            Some(SliderOutcome { volume: v, command })
        },
    }
}

} // verus!
