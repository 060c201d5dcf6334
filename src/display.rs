use vstd::prelude::*;

verus! {

/// A key the display loop tells apart.
#[derive(Clone, Copy, Debug, PartialEq, Eq, Structural)]
pub enum Key {
    Escape,
    Other,
}

/// An input event as the display loop sees it.
#[derive(Clone, Copy, Debug, PartialEq, Eq, Structural)]
pub enum LoopEvent {
    KeyDown(Key),
    CloseRequested,
    Other,
}

#[derive(Clone, Copy, Debug, PartialEq, Eq, Structural)]
pub enum LoopState {
    Running,
    Exiting,
}

/// The event ends the loop: escape pressed or the window closed.
pub open spec fn is_exit(e: LoopEvent) -> bool {
    e == LoopEvent::KeyDown(Key::Escape) || e == LoopEvent::CloseRequested
}

/// Some event among the first `n` ends the loop.
pub open spec fn exit_among(events: Seq<LoopEvent>, n: int) -> bool {
    exists|i: int| 0 <= i < n && is_exit(#[trigger] events[i])
}

/// The loop's state after one event: once exiting it stays so.
pub fn next_state(s: LoopState, e: LoopEvent) -> (r: LoopState)
    ensures
        r == if s == LoopState::Exiting || is_exit(e) {
            LoopState::Exiting
        } else {
            LoopState::Running
        },
{
    match (s, e) {
        (LoopState::Exiting, _) => LoopState::Exiting,
        (_, LoopEvent::KeyDown(Key::Escape)) => LoopState::Exiting,
        (_, LoopEvent::CloseRequested) => LoopState::Exiting,
        _ => LoopState::Running,
    }
}

/// The loop's state after the events polled in one frame.
pub fn after_events(s: LoopState, events: &[LoopEvent]) -> (r: LoopState)
    ensures
        r == if s == LoopState::Exiting || exit_among(events@, events@.len() as int) {
            LoopState::Exiting
        } else {
            LoopState::Running
        },
{
    let mut state = s;
    let mut k: usize = 0;
    while k < events.len()
        invariant
            k <= events@.len(),
            state == if s == LoopState::Exiting || exit_among(events@, k as int) {
                LoopState::Exiting
            } else {
                LoopState::Running
            },
        decreases events@.len() - k,
    {
        state = next_state(state, events[k]);
        proof {
            if is_exit(events@[k as int]) {
                assert(exit_among(events@, k + 1));
            }
            if exit_among(events@, k as int) {
                let i = choose|i: int| 0 <= i < k && is_exit(#[trigger] events@[i]);
                assert(0 <= i < k + 1 && is_exit(events@[i]));
            }
            if exit_among(events@, k + 1) && !is_exit(events@[k as int]) {
                let i = choose|i: int| 0 <= i < k + 1 && is_exit(#[trigger] events@[i]);
                assert(0 <= i < k && is_exit(events@[i]));
            }
        }
        k = k + 1;
    }
    state
}

/// Whether this frame decodes the source again: every frame when stepping
/// through blocks, otherwise only until a first decode has been made.
pub fn should_decode(redecode_each_frame: bool, decoded_once: bool) -> (r: bool)
    ensures
        r == (redecode_each_frame || !decoded_once),
{
    redecode_each_frame || !decoded_once
}

/// Microseconds between frames presented at `rate_hz` frames a second.
pub fn frame_interval_micros(rate_hz: u32) -> (r: u64)
    requires
        rate_hz > 0,
    ensures
        r == 1_000_000int / (rate_hz as int),
{
    1_000_000u64 / (rate_hz as u64)
}

} // verus!
