use vstd::prelude::*;

use crate::registry::{Output, OutputView, VolumeType, outputs_view};
use crate::templates::TemplateCache;

verus! {

/// What becomes of a snapshot once its enumeration is complete.
#[derive(Clone, Copy, Debug, PartialEq, Eq, Structural)]
pub enum Completion {
    /// Replace the registry and rebuild the popout.
    Reload,
    /// Reconcile with the registry and send targeted notifications.
    Diff,
    /// Show the default output's state on the tray icon.
    TrayRefresh,
}

/// Which enumeration categories are queried besides sinks.
#[derive(Clone, Copy, Debug, PartialEq, Eq, Structural)]
pub struct Categories {
    pub inputs: bool,
    pub streams: bool,
}

/// The number of end-of-list markers an enumeration waits for: sinks are
/// always queried, inputs and streams when enabled.
pub open spec fn expected_parts(c: Categories) -> u32 {
    (1 + (if c.inputs { 1int } else { 0 }) + (if c.streams { 1int } else { 0 })) as u32
}

/// One enumeration in flight.
pub struct PendingQuery {
    pub call_id: u64,
    pub expected: u32,
    pub received: u32,
    pub accumulator: Vec<Output>,
    pub completion: Completion,
}

pub struct PendingView {
    pub call_id: u64,
    pub expected: u32,
    pub received: u32,
    pub accumulator: Seq<OutputView>,
    pub completion: Completion,
}

impl View for PendingQuery {
    type V = PendingView;

    open spec fn view(&self) -> PendingView {
        PendingView {
            call_id: self.call_id,
            expected: self.expected,
            received: self.received,
            accumulator: outputs_view(self.accumulator@),
            completion: self.completion,
        }
    }
}

pub open spec fn pending_view(v: Seq<PendingQuery>) -> Seq<PendingView> {
    v.map_values(|p: PendingQuery| p@)
}

/// The handle table of enumerations in flight, keyed by call id, and the
/// id of the newest one.
pub struct Dispatcher {
    pub current_call_id: u64,
    pub pending: Vec<PendingQuery>,
    pub templates: TemplateCache,
}

pub struct DispatcherView {
    pub current_call_id: u64,
    pub pending: Seq<PendingView>,
}

impl View for Dispatcher {
    type V = DispatcherView;

    open spec fn view(&self) -> DispatcherView {
        DispatcherView { current_call_id: self.current_call_id, pending: pending_view(self.pending@) }
    }
}

/// Every entry's id was issued already, no two entries share an id, and no
/// entry has seen all of its markers.
pub open spec fn table_wf(d: DispatcherView) -> bool {
    &&& forall|i: int|
        0 <= i < d.pending.len() ==> d.pending[i].call_id <= d.current_call_id
            && d.pending[i].received < d.pending[i].expected
    &&& forall|i: int, j: int|
        0 <= i < d.pending.len() && 0 <= j < d.pending.len() && i != j ==> d.pending[i].call_id
            != d.pending[j].call_id
}

pub open spec fn has_slot(d: DispatcherView, id: u64) -> bool {
    exists|i: int| 0 <= i < d.pending.len() && d.pending[i].call_id == id
}

pub open spec fn slot_of(d: DispatcherView, id: u64) -> int {
    choose|i: int| 0 <= i < d.pending.len() && d.pending[i].call_id == id
}

/// The table after a new enumeration was issued.
pub open spec fn begun(d: DispatcherView, c: Categories, completion: Completion) -> DispatcherView {
    let id = (d.current_call_id + 1) as u64;
    DispatcherView {
        current_call_id: id,
        pending: d.pending.push(
            PendingView {
                call_id: id,
                expected: expected_parts(c),
                received: 0,
                accumulator: seq![],
                completion,
            },
        ),
    }
}

/// The table after an item tagged `id` arrived: kept only for the newest
/// enumeration.
pub open spec fn item_applied(d: DispatcherView, id: u64, item: OutputView) -> DispatcherView {
    if id == d.current_call_id && has_slot(d, id) {
        let i = slot_of(d, id);
        DispatcherView {
            pending: d.pending.update(
                i,
                PendingView { accumulator: d.pending[i].accumulator.push(item), ..d.pending[i] },
            ),
            ..d
        }
    } else {
        d
    }
}

/// Whether an end-of-list marker tagged `id` completes its enumeration.
pub open spec fn eol_completes(d: DispatcherView, id: u64) -> bool {
    has_slot(d, id) && d.pending[slot_of(d, id)].received + 1 == d.pending[slot_of(
        d,
        id,
    )].expected
}

/// The table after an end-of-list marker tagged `id` arrived: the entry
/// counts it, and leaves the table on its last marker.
pub open spec fn eol_applied(d: DispatcherView, id: u64) -> DispatcherView {
    if !has_slot(d, id) {
        d
    } else if eol_completes(d, id) {
        DispatcherView { pending: d.pending.remove(slot_of(d, id)), ..d }
    } else {
        let i = slot_of(d, id);
        DispatcherView {
            pending: d.pending.update(
                i,
                PendingView { received: (d.pending[i].received + 1) as u32, ..d.pending[i] },
            ),
            ..d
        }
    }
}

/// What an end-of-list marker tagged `id` delivers: the snapshot and what to
/// do with it, only when it completes the newest enumeration.
pub open spec fn eol_result(d: DispatcherView, id: u64) -> Option<(Completion, Seq<OutputView>)> {
    if id == d.current_call_id && eol_completes(d, id) {
        Some((d.pending[slot_of(d, id)].completion, d.pending[slot_of(d, id)].accumulator))
    } else {
        None
    }
}

proof fn lemma_slot_is(d: DispatcherView, id: u64, i: int)
    requires
        table_wf(d),
        0 <= i < d.pending.len(),
        d.pending[i].call_id == id,
    ensures
        has_slot(d, id),
        slot_of(d, id) == i,
{
}

impl Dispatcher {
    pub open spec fn wf(&self) -> bool {
        table_wf(self@) && self.templates.wf()
    }

    /// A dispatcher with no enumeration issued yet.
    pub fn new() -> (r: Dispatcher)
        ensures
            r.wf(),
            r@.current_call_id == 0,
            r@.pending.len() == 0,
            r.templates.map() == Map::<Seq<char>, Seq<u32>>::empty(),
    {
        let r = Dispatcher { current_call_id: 0, pending: Vec::new(), templates: TemplateCache::new() };
        assert(r@.pending =~= Seq::<PendingView>::empty());
        r
    }

    fn slot(&self, id: u64) -> (r: Option<usize>)
        requires
            self.wf(),
        ensures
            match r {
                Some(i) => i < self@.pending.len() && has_slot(self@, id) && slot_of(self@, id)
                    == i,
                None => !has_slot(self@, id),
            },
    {
        let mut i: usize = 0;
        while i < self.pending.len()
            invariant
                self.wf(),
                i <= self.pending.len(),
                forall|j: int| 0 <= j < i ==> self@.pending[j].call_id != id,
            decreases self.pending.len() - i,
        {
            if self.pending[i].call_id == id {
                proof {
                    lemma_slot_is(self@, id, i as int);
                }
                return Some(i);
            }
            i = i + 1;
        }
        None
    }

    /// Issues a new enumeration: takes the next call id and opens an entry
    /// that waits for one marker per queried category.
    pub fn begin_query(&mut self, categories: Categories, completion: Completion) -> (id: u64)
        requires
            old(self).wf(),
            old(self)@.current_call_id < u64::MAX,
        ensures
            final(self).wf(),
            id == old(self)@.current_call_id + 1,
            final(self)@ == begun(old(self)@, categories, completion),
            final(self).templates == old(self).templates,
    {
        let mut expected: u32 = 1;
        if categories.inputs {
            expected = expected + 1;
        }
        if categories.streams {
            expected = expected + 1;
        }
        self.current_call_id = self.current_call_id + 1;
        let id = self.current_call_id;
        let ghost before = self@.pending;
        self.pending.push(
            PendingQuery { call_id: id, expected, received: 0, accumulator: Vec::new(), completion },
        );
        assert(self@.pending[self@.pending.len() - 1].accumulator =~= Seq::<OutputView>::empty());
        assert(self@.pending =~= begun(old(self)@, categories, completion).pending);
        id
    }

    /// Takes one enumerated item tagged `call_id`. It joins its entry, and
    /// its channel volumes are cached, only when `call_id` is the newest
    /// call; an item of a superseded call changes nothing.
    pub fn on_item(&mut self, call_id: u64, item: Output, channels: Vec<u32>) -> (accepted: bool)
        requires
            old(self).wf(),
        ensures
            final(self).wf(),
            accepted == (call_id == old(self)@.current_call_id && has_slot(old(self)@, call_id)),
            final(self)@ == item_applied(old(self)@, call_id, item@),
            accepted ==> final(self).templates.map() == old(self).templates.map().insert(
                item@.id,
                channels@,
            ),
            !accepted ==> final(self).templates == old(self).templates,
    {
        if call_id != self.current_call_id {
            return false;
        }
        match self.slot(call_id) {
            None => false,
            Some(i) => {
                let ghost before = self@;
                let id_copy = item.id.clone();
                let mut entry = self.pending.remove(i);
                entry.accumulator.push(item);
                assert(entry@.accumulator =~= before.pending[i as int].accumulator.push(item@));
                self.pending.insert(i, entry);
                assert(self@.pending =~= item_applied(before, call_id, item@).pending);
                self.templates.insert(id_copy, channels);
                true
            },
        }
    }

    /// Takes a capture-device item: one that monitors a sink is no endpoint
    /// of its own and is dropped; any other is taken as `on_item` takes it.
    pub fn on_source_item(
        &mut self,
        call_id: u64,
        item: Output,
        channels: Vec<u32>,
        monitor_of_sink: u32,
    ) -> (accepted: bool)
        requires
            old(self).wf(),
        ensures
            final(self).wf(),
            is_monitor(monitor_of_sink) ==> !accepted && final(self)@ == old(self)@
                && final(self).templates == old(self).templates,
            !is_monitor(monitor_of_sink) ==> accepted == (call_id == old(self)@.current_call_id
                && has_slot(old(self)@, call_id)) && final(self)@ == item_applied(
                old(self)@,
                call_id,
                item@,
            ),
            !is_monitor(monitor_of_sink) && accepted ==> final(self).templates.map() == old(
                self,
            ).templates.map().insert(item@.id, channels@),
            !is_monitor(monitor_of_sink) && !accepted ==> final(self).templates == old(
                self,
            ).templates,
    {
        if source_type(monitor_of_sink, 0) == SourceType::Monitor {
            return false;
        }
        self.on_item(call_id, item, channels)
    }

    /// Takes an end-of-list marker tagged `call_id`. The entry counts it and
    /// leaves the table on its last marker; the snapshot is handed out only
    /// when that entry is the newest call's.
    pub fn on_end_of_list(&mut self, call_id: u64) -> (r: Option<(Completion, Vec<Output>)>)
        requires
            old(self).wf(),
        ensures
            final(self).wf(),
            final(self)@ == eol_applied(old(self)@, call_id),
            final(self).templates == old(self).templates,
            match r {
                Some((c, v)) => eol_result(old(self)@, call_id) == Some((c, outputs_view(v@))),
                None => eol_result(old(self)@, call_id) is None,
            },
    {
        match self.slot(call_id) {
            None => None,
            Some(i) => {
                let ghost before = self@;
                let mut entry = self.pending.remove(i);
                if entry.received + 1 == entry.expected {
                    assert(self@.pending =~= eol_applied(before, call_id).pending);
                    if call_id == self.current_call_id {
                        Some((entry.completion, entry.accumulator))
                    } else {
                        None
                    }
                } else {
                    entry.received = entry.received + 1;
                    self.pending.insert(i, entry);
                    assert(self@.pending =~= eol_applied(before, call_id).pending);
                    None
                }
            },
        }
    }
}

/// A callback that the server makes for an enumeration: one item, or the
/// end-of-list marker of one category.
pub enum Callback {
    Item(u64, OutputView),
    EndOfList(u64),
}

/// The table after one callback.
pub open spec fn callback_applied(d: DispatcherView, cb: Callback) -> DispatcherView {
    match cb {
        Callback::Item(id, item) => item_applied(d, id, item),
        Callback::EndOfList(id) => eol_applied(d, id),
    }
}

/// The table after a sequence of callbacks, in order.
pub open spec fn run_callbacks(d: DispatcherView, cbs: Seq<Callback>) -> DispatcherView
    decreases cbs.len(),
{
    if cbs.len() == 0 {
        d
    } else {
        callback_applied(run_callbacks(d, cbs.drop_last()), cbs.last())
    }
}

/// Once an enumeration is superseded by a newer call id, whatever items and
/// markers arrive afterwards, in any order: the newest id stays as it is,
/// every item of the older call changes nothing (so it never reaches the
/// newer snapshot), and no marker of the older call delivers a snapshot (so
/// its completion never runs).
pub proof fn lemma_superseded_query_is_inert(d: DispatcherView, older: u64, cbs: Seq<Callback>)
    requires
        older < d.current_call_id,
    ensures
        forall|k: int|
            0 <= k <= cbs.len() ==> #[trigger] run_callbacks(d, cbs.take(k)).current_call_id
                == d.current_call_id,
        forall|k: int, item: OutputView|
            0 <= k < cbs.len() && cbs[k] == Callback::Item(older, item) ==> callback_applied(
                run_callbacks(d, cbs.take(k)),
                cbs[k],
            ) == run_callbacks(d, cbs.take(k)),
        forall|k: int|
            0 <= k < cbs.len() && cbs[k] == Callback::EndOfList(older) ==> eol_result(
                run_callbacks(d, cbs.take(k)),
                older,
            ) is None,
    decreases cbs.len(),
{
    if cbs.len() > 0 {
        let front = cbs.drop_last();
        lemma_superseded_query_is_inert(d, older, front);
        assert forall|k: int| 0 <= k < cbs.len() implies #[trigger] cbs.take(k) == front.take(k) by {
            assert(cbs.take(k) =~= front.take(k));
        }
        assert(cbs.take(cbs.len() as int) =~= cbs);
        assert(cbs.take(cbs.len() as int).drop_last() =~= front);
        assert(front.take(front.len() as int) =~= front);
        assert forall|k: int| 0 <= k <= cbs.len() implies #[trigger] run_callbacks(
            d,
            cbs.take(k),
        ).current_call_id == d.current_call_id by {
            if k == cbs.len() {
                assert(run_callbacks(d, front).current_call_id == run_callbacks(
                    d,
                    front.take(front.len() as int),
                ).current_call_id);
            }
        }
        assert forall|k: int|
            0 <= k < cbs.len() && cbs[k] == Callback::EndOfList(older) implies eol_result(
            run_callbacks(d, cbs.take(k)),
            older,
        ) is None by {
            if k < front.len() {
                assert(front[k] == cbs[k]);
            }
        }
        assert forall|k: int, item: OutputView|
            0 <= k < cbs.len() && cbs[k] == Callback::Item(older, item) implies callback_applied(
            run_callbacks(d, cbs.take(k)),
            cbs[k],
        ) == run_callbacks(d, cbs.take(k)) by {
            if k < front.len() {
                assert(front[k] == cbs[k]);
            }
        }
    }
}

/// Issuing an enumeration supersedes every one in the table: the new call
/// id is above the previous newest id and above every pending entry's id.
pub proof fn lemma_new_query_supersedes(d: DispatcherView, c: Categories, completion: Completion)
    requires
        table_wf(d),
        d.current_call_id < u64::MAX,
    ensures
        d.current_call_id < begun(d, c, completion).current_call_id,
        forall|i: int|
            0 <= i < d.pending.len() ==> d.pending[i].call_id < begun(
                d,
                c,
                completion,
            ).current_call_id,
{
}

/// An item or marker tagged with any id but the newest one leaves the
/// newest enumeration's entry as it was and delivers nothing.
pub proof fn lemma_stale_tag_is_dropped(d: DispatcherView, id: u64, item: OutputView)
    requires
        id != d.current_call_id,
    ensures
        item_applied(d, id, item) == d,
        eol_result(d, id) is None,
        eol_applied(d, id).current_call_id == d.current_call_id,
{
}

/// An enumeration delivers its snapshot at most once: the marker that
/// delivers it also takes its entry out of the table.
pub proof fn lemma_completion_at_most_once(d: DispatcherView, id: u64)
    requires
        table_wf(d),
        eol_result(d, id) is Some,
    ensures
        !has_slot(eol_applied(d, id), id),
        eol_result(eol_applied(d, id), id) is None,
{
    let i = slot_of(d, id);
    let e = eol_applied(d, id);
    assert forall|j: int| 0 <= j < e.pending.len() implies e.pending[j].call_id != id by {
        if j < i {
            assert(e.pending[j] == d.pending[j]);
        } else {
            assert(e.pending[j] == d.pending[j + 1]);
        }
    }
}

/// How a capture device is classed.
#[derive(Clone, Copy, Debug, PartialEq, Eq, Structural)]
pub enum SourceType {
    Hardware,
    Virtual,
    Monitor,
}

/// The index value that stands for "none".
pub const INVALID_INDEX: u32 = 0xffff_ffff;

/// The flag bit of a capture device that is hardware.
pub const SOURCE_HARDWARE: u32 = 4;

pub open spec fn is_monitor(monitor_of_sink: u32) -> bool {
    monitor_of_sink != INVALID_INDEX
}

/// Classes a capture device by the sink it monitors, if any, and its flags.
pub fn source_type(monitor_of_sink: u32, flags: u32) -> (r: SourceType)
    ensures
        is_monitor(monitor_of_sink) <==> r == SourceType::Monitor,
        !is_monitor(monitor_of_sink) ==> (r == SourceType::Hardware <==> flags & SOURCE_HARDWARE
            != 0),
{
    if monitor_of_sink != INVALID_INDEX {
        SourceType::Monitor
    } else if flags & SOURCE_HARDWARE != 0 {
        SourceType::Hardware
    } else {
        SourceType::Virtual
    }
}

/// Converts an average channel volume, where 1000 units make one percent, to
/// whole percent, rounding halves up.
pub fn percent_from_units(units: u32) -> (r: u32)
    ensures
        r == (units as int + 500) / 1000,
{
    let whole = units / 1000;
    if units % 1000 >= 500 {
        whole + 1
    } else {
        whole
    }
}

/// Builds the output that one enumerated item stands for.
pub fn update_list(
    name: String,
    average_volume: u32,
    muted: bool,
    output_id: String,
    pa_index: u32,
    icon_name: Option<String>,
    type_: VolumeType,
) -> (r: Output)
    ensures
        r.name == name,
        r.volume == (average_volume as int + 500) / 1000,
        r.muted == muted,
        r.id == output_id,
        r.pa_index == Some(pa_index),
        r.icon_name == icon_name,
        r.type_ == type_,
{
    Output {
        name,
        volume: percent_from_units(average_volume),
        muted,
        id: output_id,
        pa_index: Some(pa_index),
        icon_name,
        type_,
    }
}

/// The icon of a stream: the media's, else the window's, else the
/// application's.
pub fn get_icon_name(
    media: Option<String>,
    window: Option<String>,
    application: Option<String>,
) -> (r: Option<String>)
    ensures
        r == (if media is Some {
            media
        } else if window is Some {
            window
        } else {
            application
        }),
{
    if media.is_some() {
        media
    } else if window.is_some() {
        window
    } else {
        application
    }
}

} // verus!
