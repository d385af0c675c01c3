use vstd::prelude::*;

use crate::input::GameInputMessage;

verus! {

/// The recorded part of an input message (pausing is not replayed).
#[derive(Clone, Copy, Debug, PartialEq, Eq, Structural)]
pub struct SerializableInput {
    pub move_left: bool,
    pub move_right: bool,
    pub jump_pressed: bool,
    pub jump_held: bool,
    pub dash: bool,
}

/// One recorded input with the frame it arrived in.
#[derive(Clone, Copy, Debug, PartialEq, Eq, Structural)]
pub struct RecordedFrame {
    pub tick: u64,
    pub input: SerializableInput,
}

/// A recording of the inputs of a run.
#[derive(Clone, Debug)]
pub struct ReplayData {
    pub frames: Vec<RecordedFrame>,
}

impl Default for ReplayData {
    /// An empty recording.
    fn default() -> (r: Self)
        ensures
            r.frames@.len() == 0,
    {
        ReplayData { frames: Vec::new() }
    }
}

impl SerializableInput {
    pub open spec fn spec_from_message(m: GameInputMessage) -> SerializableInput {
        SerializableInput {
            move_left: m.move_left,
            move_right: m.move_right,
            jump_pressed: m.jump_pressed,
            jump_held: m.jump_held,
            dash: m.dash,
        }
    }

    /// Keeps the fields of a message that a replay needs.
    pub fn from_message(m: &GameInputMessage) -> (s: SerializableInput)
        ensures
            s == Self::spec_from_message(*m),
            s.move_left == m.move_left,
            s.move_right == m.move_right,
            s.jump_pressed == m.jump_pressed,
            s.jump_held == m.jump_held,
            s.dash == m.dash,
    {
        SerializableInput {
            move_left: m.move_left,
            move_right: m.move_right,
            jump_pressed: m.jump_pressed,
            jump_held: m.jump_held,
            dash: m.dash,
        }
    }
}

/// The frames recorded from `inputs` at frame `tick`.
pub open spec fn frames_of(inputs: Seq<GameInputMessage>, tick: u64) -> Seq<RecordedFrame> {
    inputs.map_values(|m: GameInputMessage| RecordedFrame { tick, input: SerializableInput::spec_from_message(m) })
}

/// A recording is in order up to frame `counter`: ticks never go down and
/// are all earlier than `counter`.
pub open spec fn replay_in_order(frames: Seq<RecordedFrame>, counter: u64) -> bool {
    &&& forall|i: int, j: int| 0 <= i <= j < frames.len() ==> frames[i].tick <= frames[j].tick
    &&& forall|i: int| 0 <= i < frames.len() ==> #[trigger] frames[i].tick < counter
}

/// Every recorded frame keeps the frame number and each replayed field of
/// the message it came from, one frame per message, in order.
pub proof fn lemma_recorded_frames_keep_inputs(inputs: Seq<GameInputMessage>, tick: u64)
    ensures
        frames_of(inputs, tick).len() == inputs.len(),
        forall|i: int|
            0 <= i < inputs.len() ==> {
                let f = #[trigger] frames_of(inputs, tick)[i];
                &&& f.tick == tick
                &&& f.input.move_left == inputs[i].move_left
                &&& f.input.move_right == inputs[i].move_right
                &&& f.input.jump_pressed == inputs[i].jump_pressed
                &&& f.input.jump_held == inputs[i].jump_held
                &&& f.input.dash == inputs[i].dash
            },
{
}

/// Records this frame's inputs, stamped with the frame counter, and moves
/// the counter to the next frame.
pub fn record_frame(replay: &mut ReplayData, counter: &mut u64, inputs: &Vec<GameInputMessage>)
    requires
        *old(counter) < u64::MAX,
    ensures
        final(replay).frames@ == old(replay).frames@ + frames_of(inputs@, *old(counter)),
        *final(counter) == *old(counter) + 1,
        forall|i: int|
            0 <= i < inputs@.len() ==> {
                let f = #[trigger] final(replay).frames@[old(replay).frames@.len() + i];
                &&& f.tick == *old(counter)
                &&& f.input.move_left == inputs@[i].move_left
                &&& f.input.move_right == inputs@[i].move_right
                &&& f.input.jump_pressed == inputs@[i].jump_pressed
                &&& f.input.jump_held == inputs@[i].jump_held
                &&& f.input.dash == inputs@[i].dash
            },
        replay_in_order(old(replay).frames@, *old(counter)) ==> replay_in_order(
            final(replay).frames@,
            *final(counter),
        ),
{
    let ghost start = replay.frames@;
    let tick = *counter;
    let mut i: usize = 0;
    while i < inputs.len()
        invariant
            i <= inputs.len(),
            tick == *old(counter),
            replay.frames@ == start + frames_of(inputs@.take(i as int), tick),
        decreases inputs.len() - i,
    {
        let input = SerializableInput::from_message(&inputs[i]);
        replay.frames.push(RecordedFrame { tick, input });
        i = i + 1;
        assert(frames_of(inputs@.take(i as int), tick) =~= frames_of(
            inputs@.take(i - 1),
            tick,
        ).push(RecordedFrame { tick, input }));
    }
    assert(inputs@.take(inputs.len() as int) =~= inputs@);
    *counter = tick + 1;
    let ghost fin = replay.frames@;
    proof {
        lemma_recorded_frames_keep_inputs(inputs@, tick);
        assert forall|i: int| 0 <= i < inputs@.len() implies #[trigger] fin[start.len() + i]
            == frames_of(inputs@, tick)[i] by {}
    }
    assert(replay_in_order(start, tick) ==> replay_in_order(fin, *counter)) by {
        if replay_in_order(start, tick) {
            assert forall|i: int| 0 <= i < fin.len() implies #[trigger] fin[i].tick < *counter by {
                if i >= start.len() {
                    assert(fin[i] == frames_of(inputs@, tick)[i - start.len()]);
                }
            }
            assert forall|i: int, j: int| 0 <= i <= j < fin.len() implies fin[i].tick
                <= fin[j].tick by {
                if j >= start.len() {
                    assert(fin[j] == frames_of(inputs@, tick)[j - start.len()]);
                    assert(fin[i].tick < tick + 1);
                }
            }
        }
    }
}

} // verus!
