//! Decisions about playback: volume arithmetic and the shuffle / repeat toggles.
use vstd::prelude::*;
use crate::args::{RepeatOperation, VolumeOperation};

verus! {

/// Largest volume, in percent.
pub const MAX_VOLUME: u8 = 100;

/// The volume that a request to set `v` results in: clamped to 0..=100.
pub open spec fn clamped_volume(v: int) -> int {
    if v > MAX_VOLUME as int {
        MAX_VOLUME as int
    } else if v < 0 {
        0
    } else {
        v
    }
}

/// Clamp a requested volume to the range 0..=100.
pub fn clamp_volume(volume: u8) -> (r: u8)
    ensures
        r as int == clamped_volume(volume as int),
{
    if volume > MAX_VOLUME {
        MAX_VOLUME
    } else {
        volume
    }
}

/// The volume after raising `current` by `up` percent, saturating at 100.
pub fn raised_volume(current: u8, up: u8) -> (r: u8)
    ensures
        r as int == clamped_volume(current as int + up as int),
        r <= MAX_VOLUME,
{
    let current = clamp_volume(current);
    let room: u8 = MAX_VOLUME - current;
    let step: u8 = if up < room { up } else { room };
    current + step
}

/// The volume after lowering `current` by `down` percent, stopping at 0 (and
/// never above 100).
pub fn lowered_volume(current: u8, down: u8) -> (r: u8)
    ensures
        r as int == clamped_volume(current as int - down as int),
        r <= MAX_VOLUME,
{
    let step: u8 = if down < current { down } else { current };
    clamp_volume(current - step)
}

/// The volume that `op` leads to from `current`.
pub open spec fn volume_after(op: VolumeOperation, current: u8) -> int {
    match op {
        VolumeOperation::Increase(up) => clamped_volume(current as int + up as int),
        VolumeOperation::Decrease(down) => clamped_volume(current as int - down as int),
        VolumeOperation::SetTo(v) => clamped_volume(v as int),
    }
}

/// The volume to set for `op` when the device is at `current`.
pub fn target_volume(op: VolumeOperation, current: u8) -> (r: u8)
    ensures
        r as int == volume_after(op, current),
        r <= MAX_VOLUME,
{
    match op {
        VolumeOperation::Increase(up) => raised_volume(current, up),
        VolumeOperation::Decrease(down) => lowered_volume(current, down),
        VolumeOperation::SetTo(v) => clamp_volume(v),
    }
}

/// A change of volume never leaves 0..=100, whatever the current volume and the
/// step.
pub proof fn lemma_volume_stays_in_range(op: VolumeOperation, current: u8)
    ensures
        0 <= volume_after(op, current) <= MAX_VOLUME as int,
{
}

/// The volume that a device reports, as a percentage: none if it reports none.
pub fn reported_volume(percent: Option<u32>) -> (r: Option<u8>)
    ensures
        percent is None ==> r is None,
        percent matches Some(p) ==> r matches Some(v) && v as int == clamped_volume(p as int),
{
    match percent {
        None => None,
        Some(p) => {
            if p > MAX_VOLUME as u32 {
                Some(MAX_VOLUME)
            } else {
                Some(p as u8)
            }
        },
    }
}

/// A request about whether playback runs.
#[derive(PartialEq, Eq, Structural, Clone, Copy, Debug)]
pub enum PlaybackRequest {
    Pause,
    Resume,
    Toggle,
}

/// A call that changes whether playback runs.
#[derive(PartialEq, Eq, Structural, Clone, Copy, Debug)]
pub enum PlaybackChange {
    Pause,
    Resume,
}

/// The call that `request` needs when playback is (or is not) running: pausing
/// what is paused, or resuming what runs, needs none.
pub open spec fn change_for(request: PlaybackRequest, is_playing: bool) -> Option<PlaybackChange> {
    match request {
        PlaybackRequest::Pause => if is_playing {
            Some(PlaybackChange::Pause)
        } else {
            None
        },
        PlaybackRequest::Resume => if is_playing {
            None
        } else {
            Some(PlaybackChange::Resume)
        },
        PlaybackRequest::Toggle => if is_playing {
            Some(PlaybackChange::Pause)
        } else {
            Some(PlaybackChange::Resume)
        },
    }
}

/// The call that `request` needs, given whether playback is running.
pub fn playback_change(request: PlaybackRequest, is_playing: bool) -> (r: Option<PlaybackChange>)
    ensures
        r == change_for(request, is_playing),
{
    match request {
        PlaybackRequest::Pause => if is_playing {
            Some(PlaybackChange::Pause)
        } else {
            None
        },
        PlaybackRequest::Resume => if is_playing {
            None
        } else {
            Some(PlaybackChange::Resume)
        },
        PlaybackRequest::Toggle => if is_playing {
            Some(PlaybackChange::Pause)
        } else {
            Some(PlaybackChange::Resume)
        },
    }
}

/// The shuffle state that a toggle sets.
pub fn toggled_shuffle(shuffling: bool) -> (r: bool)
    ensures
        r == !shuffling,
{
    !shuffling
}

/// A repeat mode of the playback.
#[derive(PartialEq, Eq, Structural, Clone, Copy, Debug)]
pub enum RepeatMode {
    Off,
    Track,
    Context,
}

/// The mode that a repeat operation sets: `on` repeats the context.
pub fn repeat_mode_for(op: RepeatOperation) -> (r: RepeatMode)
    ensures
        op == RepeatOperation::On ==> r == RepeatMode::Context,
        op == RepeatOperation::Off ==> r == RepeatMode::Off,
        op == RepeatOperation::Track ==> r == RepeatMode::Track,
{
    match op {
        RepeatOperation::On => RepeatMode::Context,
        RepeatOperation::Off => RepeatMode::Off,
        RepeatOperation::Track => RepeatMode::Track,
    }
}

/// The next mode in the cycle track, off, context, track.
pub open spec fn next_repeat(current: RepeatMode) -> RepeatMode {
    match current {
        RepeatMode::Track => RepeatMode::Off,
        RepeatMode::Off => RepeatMode::Context,
        RepeatMode::Context => RepeatMode::Track,
    }
}

/// The mode that a repeat toggle sets.
pub fn toggled_repeat(current: RepeatMode) -> (r: RepeatMode)
    ensures
        r == next_repeat(current),
{
    match current {
        RepeatMode::Track => RepeatMode::Off,
        RepeatMode::Off => RepeatMode::Context,
        RepeatMode::Context => RepeatMode::Track,
    }
}

/// Toggling repeat is a strict cycle: three toggles come back to where they
/// began, and no fewer do.
pub proof fn lemma_repeat_toggle_cycles(m: RepeatMode)
    ensures
        next_repeat(next_repeat(next_repeat(m))) == m,
        next_repeat(m) != m,
        next_repeat(next_repeat(m)) != m,
{
}

} // verus!
