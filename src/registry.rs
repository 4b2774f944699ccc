use vstd::prelude::*;

use crate::diff::{Notification, NotificationView};
use crate::exception::Exception;

verus! {

/// The category of an audio endpoint.
#[derive(Clone, Copy, Debug, PartialEq, Eq, Structural)]
pub enum VolumeType {
    /// A playback device.
    Sink,
    /// One application's playback stream.
    Stream,
    /// A capture device.
    Input,
}

/// One addressable audio endpoint, with its volume as a whole percentage.
#[derive(Clone, Debug)]
pub struct Output {
    pub name: String,
    pub volume: u32,
    pub muted: bool,
    pub id: String,
    pub pa_index: Option<u32>,
    pub icon_name: Option<String>,
    pub type_: VolumeType,
}

/// The mathematical value of an `Output`.
pub struct OutputView {
    pub name: Seq<char>,
    pub volume: u32,
    pub muted: bool,
    pub id: Seq<char>,
    pub pa_index: Option<u32>,
    pub icon_name: Option<Seq<char>>,
    pub type_: VolumeType,
}

pub open spec fn opt_str_view(o: Option<String>) -> Option<Seq<char>> {
    match o {
        Some(s) => Some(s@),
        None => None,
    }
}

impl View for Output {
    type V = OutputView;

    open spec fn view(&self) -> OutputView {
        OutputView {
            name: self.name@,
            volume: self.volume,
            muted: self.muted,
            id: self.id@,
            pa_index: self.pa_index,
            icon_name: opt_str_view(self.icon_name),
            type_: self.type_,
        }
    }
}

pub open spec fn outputs_view(v: Seq<Output>) -> Seq<OutputView> {
    v.map_values(|o: Output| o@)
}

fn clone_opt_str(o: &Option<String>) -> (r: Option<String>)
    ensures
        opt_str_view(r) == opt_str_view(*o),
{
    match o {
        Some(s) => Some(s.clone()),
        None => None,
    }
}

impl Output {
    /// A copy of this output.
    pub fn duplicate(&self) -> (r: Output)
        ensures
            r@ == self@,
    {
        Output {
            name: self.name.clone(),
            volume: self.volume,
            muted: self.muted,
            id: self.id.clone(),
            pa_index: self.pa_index,
            icon_name: clone_opt_str(&self.icon_name),
            type_: self.type_,
        }
    }

    /// Whether this output is the registry's default output.
    pub fn is_default(&self, registry: &OutputRegistry) -> (r: bool)
        ensures
            r == (self.id@ == registry@.default_id),
    {
        is_default_output(registry, &self.id)
    }
}

/// Copies a list of outputs element by element.
pub fn duplicate_list(v: &Vec<Output>) -> (r: Vec<Output>)
    ensures
        outputs_view(r@) == outputs_view(v@),
{
    let mut r: Vec<Output> = Vec::new();
    let mut i: usize = 0;
    while i < v.len()
        invariant
            i <= v.len(),
            r@.len() == i,
            forall|j: int| 0 <= j < i ==> r@[j]@ == v@[j]@,
        decreases v.len() - i,
    {
        r.push(v[i].duplicate());
        i = i + 1;
    }
    assert(outputs_view(r@) =~= outputs_view(v@));
    r
}

/// The known outputs, in display order, and the id of the default output
/// (empty while unknown).
pub struct OutputRegistry {
    pub list: Vec<Output>,
    pub default_id: String,
}

pub struct RegistryView {
    pub list: Seq<OutputView>,
    pub default_id: Seq<char>,
}

impl View for OutputRegistry {
    type V = RegistryView;

    open spec fn view(&self) -> RegistryView {
        RegistryView { list: outputs_view(self.list@), default_id: self.default_id@ }
    }
}

/// `i` is the first position of `s` whose output has id `id`.
pub open spec fn first_match(s: Seq<OutputView>, id: Seq<char>, i: int) -> bool {
    &&& 0 <= i < s.len()
    &&& s[i].id == id
    &&& forall|j: int| 0 <= j < i ==> s[j].id != id
}

/// No output of `s` has id `id`.
pub open spec fn absent(s: Seq<OutputView>, id: Seq<char>) -> bool {
    forall|j: int| 0 <= j < s.len() ==> s[j].id != id
}

/// The position of the first output with id `id`, where there is one.
pub open spec fn chosen_match(s: Seq<OutputView>, id: Seq<char>) -> int {
    choose|i: int| first_match(s, id, i)
}

proof fn lemma_first_match_from(s: Seq<OutputView>, id: Seq<char>, k: int) -> (i: int)
    requires
        0 <= k < s.len(),
        s[k].id == id,
    ensures
        first_match(s, id, i),
    decreases k,
{
    if forall|m: int| 0 <= m < k ==> s[m].id != id {
        k
    } else {
        let m = choose|m: int| 0 <= m < k && s[m].id == id;
        lemma_first_match_from(s, id, m)
    }
}

/// Where some output has id `id`, `chosen_match` is its first position, and
/// that position is the only first match.
pub proof fn lemma_chosen_match(s: Seq<OutputView>, id: Seq<char>)
    requires
        !absent(s, id),
    ensures
        first_match(s, id, chosen_match(s, id)),
        forall|i: int| first_match(s, id, i) ==> i == chosen_match(s, id),
{
    let k = choose|k: int| 0 <= k < s.len() && s[k].id == id;
    let _ = lemma_first_match_from(s, id, k);
    let c = chosen_match(s, id);
    assert forall|i: int| first_match(s, id, i) implies i == c by {
        if i < c {
            assert(s[i].id == id);
        } else if c < i {
            assert(s[c].id == id);
        }
    }
}

impl OutputRegistry {
    /// An empty registry with no default output.
    pub fn new() -> (r: OutputRegistry)
        ensures
            r@.list.len() == 0,
            r@.default_id.len() == 0,
    {
        let r = OutputRegistry { list: Vec::new(), default_id: String::new() };
        assert(r@.list =~= Seq::<OutputView>::empty());
        r
    }

    /// The position of the first output with id `id`.
    fn find(&self, id: &String) -> (r: Option<usize>)
        ensures
            match r {
                Some(i) => first_match(self@.list, id@, i as int),
                None => absent(self@.list, id@),
            },
    {
        let mut i: usize = 0;
        while i < self.list.len()
            invariant
                i <= self.list.len(),
                forall|j: int| 0 <= j < i ==> self@.list[j].id != id@,
            decreases self.list.len() - i,
        {
            if self.list[i].id == *id {
                return Some(i);
            }
            i = i + 1;
        }
        None
    }






}

/// Whether `output_id` names the default output.
pub fn is_default_output(registry: &OutputRegistry, output_id: &String) -> (r: bool)
    ensures
        r == (output_id@ == registry@.default_id),
{
    *output_id == registry.default_id
}

/// A copy of the list of outputs.
pub fn get_output_list(registry: &OutputRegistry) -> (r: Vec<Output>)
    ensures
        outputs_view(r@) == registry@.list,
{
    duplicate_list(&registry.list)
}

/// The backend index of the first output with id `output_id`.
pub fn get_pa_index(registry: &OutputRegistry, output_id: &String) -> (r: Option<u32>)
    ensures
        absent(registry@.list, output_id@) ==> r is None,
        forall|i: int| first_match(registry@.list, output_id@, i) ==> r == registry@.list[i].pa_index,
{
    match registry.find(output_id) {
        Some(i) => registry.list[i].pa_index,
        None => None,
    }
}

/// The category of the first output with id `output_id`; a sink when
/// there is none.
pub fn type_of(registry: &OutputRegistry, output_id: &String) -> (r: VolumeType)
    ensures
        absent(registry@.list, output_id@) ==> r == VolumeType::Sink,
        forall|i: int| first_match(registry@.list, output_id@, i) ==> r == registry@.list[i].type_,
{
    match registry.find(output_id) {
        Some(i) => registry.list[i].type_,
        None => VolumeType::Sink,
    }
}

/// The stored volume of the first output with id `output_id`; zero when
/// there is none.
pub fn get_stored_volume(registry: &OutputRegistry, output_id: &String) -> (r: u32)
    ensures
        absent(registry@.list, output_id@) ==> r == 0,
        forall|i: int| first_match(registry@.list, output_id@, i) ==> r == registry@.list[i].volume,
{
    match registry.find(output_id) {
        Some(i) => registry.list[i].volume,
        None => 0,
    }
}

/// The first output whose id is the default id.
pub fn get_default_output(registry: &OutputRegistry) -> (r: Result<Output, Exception>)
    ensures
        absent(registry@.list, registry@.default_id) <==> r is Err,
        forall|i: int|
            first_match(registry@.list, registry@.default_id, i) ==> (r matches Ok(o) && o@
                == registry@.list[i]),
{
    match registry.find(&registry.default_id) {
        Some(i) => Ok(registry.list[i].duplicate()),
        None => Err(Exception::misc_from("No default output found")),
    }
}

/// Records `output_id` as the default output.
pub fn set_default_output(registry: &mut OutputRegistry, output_id: String)
    ensures
        final(registry)@.default_id == output_id@,
        final(registry)@.list == old(registry)@.list,
{
    registry.default_id = output_id;
}

/// Toggles the muted flag of the first output with id `id` and returns the
/// new flag; with no such output nothing changes and the result is false.
pub fn toggle_muted(registry: &mut OutputRegistry, id: &String) -> (muted: bool)
    ensures
        final(registry)@.default_id == old(registry)@.default_id,
        absent(old(registry)@.list, id@) ==> !muted && final(registry)@.list == old(registry)@.list,
        forall|i: int|
            first_match(old(registry)@.list, id@, i) ==> muted == !old(registry)@.list[i].muted
                && final(registry)@.list == old(registry)@.list.update(
                i,
                OutputView { muted, ..old(registry)@.list[i] },
            ),
{
    match registry.find(id) {
        None => false,
        Some(i) => {
            let ghost before = registry@.list;
            let mut o = registry.list[i].duplicate();
            o.muted = !o.muted;
            let muted = o.muted;
            registry.list.set(i, o);
            assert(registry@.list =~= before.update(i as int, OutputView { muted, ..before[i as int] }));
            muted
        },
    }
}

/// Replaces the registry's list wholesale with a completed snapshot and
/// returns the one notification that asks for a full reload of the display.
pub fn reload_outputs_in_popout(registry: &mut OutputRegistry, outputs: Vec<Output>) -> (event:
    Notification)
    ensures
        final(registry)@.list == outputs_view(outputs@),
        final(registry)@.default_id == old(registry)@.default_id,
        event@ == NotificationView::OutputsReloaded(outputs_view(outputs@)),
{
    let copy = duplicate_list(&outputs);
    registry.list = outputs;
    Notification::OutputsReloaded(copy)
}

} // verus!
