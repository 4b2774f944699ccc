use vstd::prelude::*;

use crate::dispatcher::Completion;
use crate::registry::{
    Output, OutputRegistry, OutputView, outputs_view, reload_outputs_in_popout,
};

verus! {

/// A change that the user interface is told about.
#[derive(Clone, Debug)]
pub enum Notification {
    /// The list changed shape: every output is shown afresh.
    OutputsReloaded(Vec<Output>),
    /// The output with this id now has this volume.
    VolumeChanged(String, u32),
    /// The output with this id is now muted or unmuted.
    MutedChanged(String, bool),
    /// The default output now has this volume.
    DefaultVolumeChanged(u32),
    /// The default output is now muted or unmuted.
    DefaultMutedChanged(bool),
}

pub enum NotificationView {
    OutputsReloaded(Seq<OutputView>),
    VolumeChanged(Seq<char>, u32),
    MutedChanged(Seq<char>, bool),
    DefaultVolumeChanged(u32),
    DefaultMutedChanged(bool),
}

impl View for Notification {
    type V = NotificationView;

    open spec fn view(&self) -> NotificationView {
        match self {
            Notification::OutputsReloaded(v) => NotificationView::OutputsReloaded(outputs_view(v@)),
            Notification::VolumeChanged(id, v) => NotificationView::VolumeChanged(id@, *v),
            Notification::MutedChanged(id, m) => NotificationView::MutedChanged(id@, *m),
            Notification::DefaultVolumeChanged(v) => NotificationView::DefaultVolumeChanged(*v),
            Notification::DefaultMutedChanged(m) => NotificationView::DefaultMutedChanged(*m),
        }
    }
}

pub open spec fn notifications_view(v: Seq<Notification>) -> Seq<NotificationView> {
    v.map_values(|n: Notification| n@)
}

/// What a change of volume between `old` and `new` at one position emits.
pub open spec fn volume_events(old: OutputView, new: OutputView, default_id: Seq<char>) -> Seq<
    NotificationView,
> {
    if new.volume == old.volume {
        seq![]
    } else if new.id == default_id {
        seq![
            NotificationView::VolumeChanged(new.id, new.volume),
            NotificationView::DefaultVolumeChanged(new.volume),
        ]
    } else {
        seq![NotificationView::VolumeChanged(new.id, new.volume)]
    }
}

/// What a change of the muted flag between `old` and `new` at one position emits.
pub open spec fn muted_events(old: OutputView, new: OutputView, default_id: Seq<char>) -> Seq<
    NotificationView,
> {
    if new.muted == old.muted {
        seq![]
    } else if new.id == default_id {
        seq![
            NotificationView::MutedChanged(new.id, new.muted),
            NotificationView::DefaultMutedChanged(new.muted),
        ]
    } else {
        seq![NotificationView::MutedChanged(new.id, new.muted)]
    }
}

/// Everything emitted for one position.
pub open spec fn events_at(old: OutputView, new: OutputView, default_id: Seq<char>) -> Seq<
    NotificationView,
> {
    volume_events(old, new, default_id) + muted_events(old, new, default_id)
}

/// The notifications for the first `n` positions of two lists of equal length.
pub open spec fn diff_prefix(
    old: Seq<OutputView>,
    new: Seq<OutputView>,
    default_id: Seq<char>,
    n: int,
) -> Seq<NotificationView>
    decreases n,
{
    if n <= 0 {
        seq![]
    } else {
        diff_prefix(old, new, default_id, n - 1) + events_at(old[n - 1], new[n - 1], default_id)
    }
}

/// The notifications that a new snapshot `new` provokes against the registry
/// list `old`.
pub open spec fn diff_events(old: Seq<OutputView>, new: Seq<OutputView>, default_id: Seq<char>) -> Seq<
    NotificationView,
> {
    if old.len() != new.len() {
        seq![NotificationView::OutputsReloaded(new)]
    } else {
        diff_prefix(old, new, default_id, new.len() as int)
    }
}

/// `old` with the volume and muted flag of `new`.
pub open spec fn merged(old: OutputView, new: OutputView) -> OutputView {
    OutputView { volume: new.volume, muted: new.muted, ..old }
}

/// The registry list after the snapshot `new` was applied to `old`.
pub open spec fn after_diff(old: Seq<OutputView>, new: Seq<OutputView>) -> Seq<OutputView> {
    if old.len() != new.len() {
        new
    } else {
        Seq::new(old.len(), |i: int| merged(old[i], new[i]))
    }
}

/// Pushes what one position emits onto `events`.
fn push_events_at(
    events: &mut Vec<Notification>,
    before: &Output,
    after: &Output,
    default_id: &String,
)
    ensures
        notifications_view(final(events)@) == notifications_view(old(events)@) + events_at(
            before@,
            after@,
            default_id@,
        ),
{
    let ghost start = notifications_view(events@);
    let is_default = after.id == *default_id;
    if after.volume != before.volume {
        events.push(Notification::VolumeChanged(after.id.clone(), after.volume));
        if is_default {
            events.push(Notification::DefaultVolumeChanged(after.volume));
        }
    }
    let ghost mid = notifications_view(events@);
    assert(mid =~= start + volume_events(before@, after@, default_id@));
    if after.muted != before.muted {
        events.push(Notification::MutedChanged(after.id.clone(), after.muted));
        if is_default {
            events.push(Notification::DefaultMutedChanged(after.muted));
        }
    }
    assert(notifications_view(events@) =~= mid + muted_events(before@, after@, default_id@));
}

/// Reconciles a completed snapshot with the registry. A snapshot of another
/// length replaces the list and gives one reload notification; one of the
/// same length is compared position by position, and each changed volume or
/// muted flag is stored and notified.
pub fn sink_change_subscription_event_handler(
    registry: &mut OutputRegistry,
    outputs: Vec<Output>,
) -> (events: Vec<Notification>)
    ensures
        notifications_view(events@) == diff_events(
            old(registry)@.list,
            outputs_view(outputs@),
            old(registry)@.default_id,
        ),
        final(registry)@.list == after_diff(old(registry)@.list, outputs_view(outputs@)),
        final(registry)@.default_id == old(registry)@.default_id,
{
    let mut events: Vec<Notification> = Vec::new();
    if outputs.len() != registry.list.len() {
        let ghost new_list = outputs_view(outputs@);
        events.push(reload_outputs_in_popout(registry, outputs));
        assert(notifications_view(events@) =~= seq![NotificationView::OutputsReloaded(new_list)]);
        return events;
    }
    let ghost old_list = registry@.list;
    let ghost new_list = outputs_view(outputs@);
    let mut merged_list: Vec<Output> = Vec::new();
    let mut i: usize = 0;
    while i < outputs.len()
        invariant
            i <= outputs.len(),
            outputs.len() == registry.list.len(),
            registry@.list == old_list,
            new_list == outputs_view(outputs@),
            merged_list@.len() == i,
            forall|j: int| 0 <= j < i ==> merged_list@[j]@ == merged(old_list[j], new_list[j]),
            notifications_view(events@) == diff_prefix(
                old_list,
                new_list,
                registry@.default_id,
                i as int,
            ),
        decreases outputs.len() - i,
    {
        push_events_at(&mut events, &registry.list[i], &outputs[i], &registry.default_id);
        let mut o = registry.list[i].duplicate();
        o.volume = outputs[i].volume;
        o.muted = outputs[i].muted;
        merged_list.push(o);
        i = i + 1;
    }
    registry.list = merged_list;
    assert(registry@.list =~= after_diff(old_list, new_list));
    events
}

/// What the tray learns from the first `n` outputs of a snapshot: the volume
/// and muted flag of each one that is the default output.
pub open spec fn tray_prefix(outputs: Seq<OutputView>, default_id: Seq<char>, n: int) -> Seq<
    NotificationView,
>
    decreases n,
{
    if n <= 0 {
        seq![]
    } else if outputs[n - 1].id == default_id {
        tray_prefix(outputs, default_id, n - 1) + seq![
            NotificationView::DefaultVolumeChanged(outputs[n - 1].volume),
            NotificationView::DefaultMutedChanged(outputs[n - 1].muted),
        ]
    } else {
        tray_prefix(outputs, default_id, n - 1)
    }
}

/// The notifications that a completed snapshot gives, by what it was
/// asked for.
pub open spec fn completion_events(
    c: Completion,
    old: Seq<OutputView>,
    new: Seq<OutputView>,
    default_id: Seq<char>,
) -> Seq<NotificationView> {
    match c {
        Completion::Reload => seq![NotificationView::OutputsReloaded(new)],
        Completion::Diff => diff_events(old, new, default_id),
        Completion::TrayRefresh => tray_prefix(new, default_id, new.len() as int),
    }
}

/// The registry list after a completed snapshot was applied.
pub open spec fn completion_list(c: Completion, old: Seq<OutputView>, new: Seq<OutputView>) -> Seq<
    OutputView,
> {
    match c {
        Completion::Reload => new,
        Completion::Diff => after_diff(old, new),
        Completion::TrayRefresh => old,
    }
}

/// Applies a completed snapshot as its query asked: a reload replaces the
/// registry, a diff reconciles with it, and a tray refresh reports the
/// default output's state and leaves the registry alone.
pub fn apply_completion(registry: &mut OutputRegistry, completion: Completion, outputs: Vec<Output>) -> (events: Vec<Notification>)
    ensures
        notifications_view(events@) == completion_events(
            completion,
            old(registry)@.list,
            outputs_view(outputs@),
            old(registry)@.default_id,
        ),
        final(registry)@.list == completion_list(
            completion,
            old(registry)@.list,
            outputs_view(outputs@),
        ),
        final(registry)@.default_id == old(registry)@.default_id,
{
    match completion {
        Completion::Reload => {
            let ghost new_list = outputs_view(outputs@);
            let mut events: Vec<Notification> = Vec::new();
            events.push(reload_outputs_in_popout(registry, outputs));
            assert(notifications_view(events@) =~= seq![NotificationView::OutputsReloaded(new_list)]);
            events
        },
        Completion::Diff => sink_change_subscription_event_handler(registry, outputs),
        Completion::TrayRefresh => {
            let mut events: Vec<Notification> = Vec::new();
            let ghost new = outputs_view(outputs@);
            let mut i: usize = 0;
            while i < outputs.len()
                invariant
                    i <= outputs.len(),
                    new == outputs_view(outputs@),
                    notifications_view(events@) == tray_prefix(new, registry@.default_id, i as int),
                decreases outputs.len() - i,
            {
                let ghost before = notifications_view(events@);
                if outputs[i].is_default(registry) {
                    events.push(Notification::DefaultVolumeChanged(outputs[i].volume));
                    events.push(Notification::DefaultMutedChanged(outputs[i].muted));
                }
                i = i + 1;
                assert(notifications_view(events@) =~= tray_prefix(new, registry@.default_id, i as int));
            }
            events
        },
    }
}

/// A snapshot of the registry's length provokes no reload, and at each
/// position it provokes notifications if and only if the volume or the
/// muted flag there changed; these come in the order of the positions.
pub proof fn lemma_same_length_notifies_changes(
    old: Seq<OutputView>,
    new: Seq<OutputView>,
    default_id: Seq<char>,
)
    requires
        old.len() == new.len(),
    ensures
        diff_events(old, new, default_id) == diff_prefix(old, new, default_id, new.len() as int),
        forall|i: int|
            0 <= i < new.len() ==> (events_at(old[i], new[i], default_id).len() > 0 <==> (
            old[i].volume != new[i].volume || old[i].muted != new[i].muted)),
        forall|i: int|
            0 <= i < new.len() ==> (volume_events(old[i], new[i], default_id).len() > 0 <==> old[i].volume
                != new[i].volume),
        forall|i: int|
            0 <= i < new.len() && old[i].volume != new[i].volume ==> volume_events(
                old[i],
                new[i],
                default_id,
            )[0] == NotificationView::VolumeChanged(new[i].id, new[i].volume),
        forall|i: int|
            0 <= i < new.len() ==> (muted_events(old[i], new[i], default_id).len() > 0 <==> old[i].muted
                != new[i].muted),
        forall|i: int|
            0 <= i < new.len() && old[i].muted != new[i].muted ==> muted_events(
                old[i],
                new[i],
                default_id,
            )[0] == NotificationView::MutedChanged(new[i].id, new[i].muted),
        forall|k: int|
            0 <= k < diff_events(old, new, default_id).len() ==> !(diff_events(
                old,
                new,
                default_id,
            )[k] is OutputsReloaded),
        after_diff(old, new).len() == new.len(),
        forall|i: int|
            0 <= i < new.len() ==> after_diff(old, new)[i].volume == new[i].volume
                && after_diff(old, new)[i].muted == new[i].muted,
{
    lemma_prefix_has_no_reload(old, new, default_id, new.len() as int);
}

proof fn lemma_prefix_has_no_reload(
    old: Seq<OutputView>,
    new: Seq<OutputView>,
    default_id: Seq<char>,
    n: int,
)
    requires
        0 <= n <= old.len(),
        old.len() == new.len(),
    ensures
        forall|k: int|
            0 <= k < diff_prefix(old, new, default_id, n).len() ==> !(diff_prefix(
                old,
                new,
                default_id,
                n,
            )[k] is OutputsReloaded),
    decreases n,
{
    if n > 0 {
        lemma_prefix_has_no_reload(old, new, default_id, n - 1);
        let p = diff_prefix(old, new, default_id, n - 1);
        let e = events_at(old[n - 1], new[n - 1], default_id);
        assert forall|k: int| 0 <= k < (p + e).len() implies !((p + e)[k] is OutputsReloaded) by {
            if k >= p.len() {
                assert((p + e)[k] == e[k - p.len()]);
            }
        }
    }
}

/// A snapshot whose length differs from the registry's provokes exactly one
/// reload notification, which carries the snapshot, and the registry then has
/// the snapshot's length.
pub proof fn lemma_other_length_reloads(
    old: Seq<OutputView>,
    new: Seq<OutputView>,
    default_id: Seq<char>,
)
    requires
        old.len() != new.len(),
    ensures
        diff_events(old, new, default_id) == seq![NotificationView::OutputsReloaded(new)],
        after_diff(old, new) == new,
        after_diff(old, new).len() == new.len(),
{
}

} // verus!
