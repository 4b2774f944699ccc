use vstd::prelude::*;

use crate::registry::{
    OutputRegistry, VolumeType, absent, chosen_match, first_match, get_pa_index, get_stored_volume,
    lemma_chosen_match,
};
use crate::templates::TemplateCache;

verus! {

/// Backend volume units per percent.
pub const UNITS_PER_PERCENT: u32 = 1000;

/// Why a command was dropped before reaching the server.
#[derive(Clone, Copy, Debug, PartialEq, Eq, Structural)]
pub enum CommandError {
    /// No channel volumes are cached for the output.
    MissingTemplate,
    /// The output has no backend index.
    MissingIndex,
}

/// A volume change ready for the server: every channel gets the same value.
#[derive(Clone, Debug)]
pub struct VolumeCommand {
    pub type_: VolumeType,
    pub index: u32,
    pub channels: Vec<u32>,
}

/// A mute change ready for the server.
#[derive(Clone, Copy, Debug, PartialEq, Eq, Structural)]
pub struct MuteCommand {
    pub type_: VolumeType,
    pub index: u32,
    pub muted: bool,
}

pub open spec fn clamp_spec(v: int) -> int {
    if v > 100 {
        100
    } else if v < 0 {
        0
    } else {
        v
    }
}

/// Clamps a requested volume to whole percent in [0, 100].
pub fn clamp_volume(volume: i32) -> (r: u32)
    ensures
        r == clamp_spec(volume as int),
        r <= 100,
{
    if volume > 100 {
        100
    } else if volume < 0 {
        0
    } else {
        volume as u32
    }
}

/// The category that `registry` holds for `id`, a sink when there is none.
pub open spec fn type_spec(registry: &OutputRegistry, id: Seq<char>) -> VolumeType {
    if absent(registry@.list, id) {
        VolumeType::Sink
    } else {
        registry@.list[chosen_match(registry@.list, id)].type_
    }
}

/// The index that `registry` holds for `id`, as the contracts see it.
pub open spec fn index_of(registry: &OutputRegistry, id: Seq<char>) -> Option<u32> {
    if absent(registry@.list, id) {
        None
    } else {
        registry@.list[chosen_match(registry@.list, id)].pa_index
    }
}

/// `count` channels, each holding `units`.
fn fill_channels(count: usize, units: u32) -> (r: Vec<u32>)
    ensures
        r@ == Seq::new(count as nat, |i: int| units),
{
    let mut r: Vec<u32> = Vec::new();
    let mut i: usize = 0;
    while i < count
        invariant
            i <= count,
            r@ == Seq::new(i as nat, |j: int| units),
        decreases count - i,
    {
        r.push(units);
        i = i + 1;
        assert(r@ =~= Seq::new(i as nat, |j: int| units));
    }
    r
}

proof fn lemma_index_of(registry: &OutputRegistry, id: Seq<char>, r: Option<u32>)
    requires
        absent(registry@.list, id) ==> r is None,
        forall|i: int| first_match(registry@.list, id, i) ==> r == registry@.list[i].pa_index,
    ensures
        r == index_of(registry, id),
{
    if !absent(registry@.list, id) {
        lemma_chosen_match(registry@.list, id);
    }
}

/// The volume that a slider move asks for: clamped to [0, 100], and none
/// when it lies within two percent of the stored volume.
pub open spec fn slider_target(registry: &OutputRegistry, id: Seq<char>, volume: int) -> Option<
    u32,
> {
    let v = clamp_spec(volume);
    let stored: int = if absent(registry@.list, id) {
        0
    } else {
        registry@.list[chosen_match(registry@.list, id)].volume as int
    };
    if -2 < v - stored < 2 {
        None
    } else {
        Some(v as u32)
    }
}

/// Decides whether a slider move is sent: the clamped volume, unless it is
/// within two percent of what is stored for the output already.
pub fn volume_slider_target(registry: &OutputRegistry, volume: i32, id: &String) -> (r:
    Option<u32>)
    ensures
        r == slider_target(registry, id@, volume as int),
{
    let v = clamp_volume(volume);
    let stored = get_stored_volume(registry, id);
    proof {
        if !absent(registry@.list, id@) {
            lemma_chosen_match(registry@.list, id@);
        }
    }
    let close = if v >= stored {
        v - stored < 2
    } else {
        stored - v < 2
    };
    if close {
        None
    } else {
        Some(v)
    }
}

/// Turns a volume request into a command: the volume is clamped to
/// [0, 100] and every cached channel of `id` is set to it in backend units.
/// Without cached channels, or without a backend index, nothing is sent.
pub fn set_volume(
    templates: &TemplateCache,
    registry: &OutputRegistry,
    sink_id: &String,
    volume: i32,
    type_: VolumeType,
) -> (r: Result<VolumeCommand, CommandError>)
    requires
        templates.wf(),
    ensures
        !templates.map().contains_key(sink_id@) <==> r == Err::<VolumeCommand, CommandError>(
            CommandError::MissingTemplate,
        ),
        templates.map().contains_key(sink_id@) && index_of(registry, sink_id@) is None ==> r
            == Err::<VolumeCommand, CommandError>(CommandError::MissingIndex),
        r is Ok <==> templates.map().contains_key(sink_id@) && index_of(registry, sink_id@) is Some,
        r matches Ok(c) ==> c.type_ == type_ && Some(c.index) == index_of(registry, sink_id@)
            && c.channels@ == Seq::new(
            templates.map()[sink_id@].len(),
            |i: int| (clamp_spec(volume as int) * 1000) as u32,
        ),
{
    let percent = clamp_volume(volume);
    let template = match templates.get(sink_id) {
        Some(t) => t,
        None => {
            return Err(CommandError::MissingTemplate);
        },
    };
    let idx = get_pa_index(registry, sink_id);
    proof {
        lemma_index_of(registry, sink_id@, idx);
    }
    match idx {
        Some(index) => {
            let channels = fill_channels(template.len(), percent * UNITS_PER_PERCENT);
            Ok(VolumeCommand { type_, index, channels })
        },
        None => Err(CommandError::MissingIndex),
    }
}

/// A volume that a command writes is read back as the same clamped
/// percentage: every channel holds `clamp(v) * 1000` units, and converting
/// that average back to percent gives `clamp(v)`.
pub proof fn lemma_written_volume_reads_back(volume: int)
    ensures
        (clamp_spec(volume) * 1000 + 500) / 1000 == clamp_spec(volume),
{
    let c = clamp_spec(volume);
    assert((c * 1000 + 500) / 1000 == c) by (nonlinear_arith)
        requires
            0 <= c <= 100,
    ;
}

/// Turns a mute request into a command for the backend index of `id`.
pub fn set_muted(registry: &OutputRegistry, sink_id: &String, muted: bool, type_: VolumeType) -> (r:
    Result<MuteCommand, CommandError>)
    ensures
        index_of(registry, sink_id@) is None <==> r == Err::<MuteCommand, CommandError>(
            CommandError::MissingIndex,
        ),
        r is Ok <==> index_of(registry, sink_id@) is Some,
        r matches Ok(c) ==> Some(c.index) == index_of(registry, sink_id@) && c.muted == muted
            && c.type_ == type_,
{
    let idx = get_pa_index(registry, sink_id);
    proof {
        lemma_index_of(registry, sink_id@, idx);
    }
    match idx {
        Some(index) => Ok(MuteCommand { type_, index, muted }),
        None => Err(CommandError::MissingIndex),
    }
}

} // verus!
