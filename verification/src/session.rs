//! One step of the event loop's decisions: how each input event changes the
//! buffer and which sound cue it schedules. The host program runs the loop
//! around this — polling input, drawing, performing file work on save, and
//! handing any returned request to the sound scheduler (or dropping it when
//! no scheduler could be constructed; the buffer's course is the same
//! either way).

use vstd::prelude::*;
use crate::buffer::{Buffer, spec_insert_char, spec_backspace, spec_move_right, spec_new_line};
use crate::input::InputEvent;
use crate::sound::{SoundType, SoundRequest, schedule_request, spec_play_at};

verus! {

/// Applies one input event to the buffer at the moment `now` (milliseconds)
/// and returns the cue to schedule, if the event calls for one: a typed
/// character schedules its keypress cue and a line return schedules the
/// return cue, both keyed to the new cell's reveal moment. Save and Close
/// leave the buffer unchanged here; the host program performs the file work
/// and the shutdown around this call.
pub fn apply_event(buffer: &mut Buffer, event: &InputEvent, now: u64) -> (req: Option<
    SoundRequest,
>)
    requires
        old(buffer).wf(),
        now + old(buffer)@.reveal_rate <= u64::MAX,
    ensures
        final(buffer).wf(),
        final(buffer)@ == (match *event {
            InputEvent::Char(c) => spec_insert_char(old(buffer)@, c, now),
            InputEvent::Backspace => spec_backspace(old(buffer)@),
            InputEvent::NewLine => spec_new_line(old(buffer)@),
            InputEvent::Right => spec_move_right(old(buffer)@),
            InputEvent::Save => old(buffer)@,
            InputEvent::Close => old(buffer)@,
            InputEvent::Timeout => old(buffer)@,
        }),
        req == (match *event {
            InputEvent::Char(c) => Some(
                (SoundRequest {
                    sound_type: SoundType::KeyPress(c),
                    play_at: spec_play_at((now + old(buffer)@.reveal_rate) as u64),
                }),
            ),
            InputEvent::NewLine => Some(
                (SoundRequest {
                    sound_type: SoundType::Return,
                    play_at: spec_play_at((now + old(buffer)@.reveal_rate) as u64),
                }),
            ),
            _ => None::<SoundRequest>,
        }),
{
    match event {
        InputEvent::Char(c) => {
            let reveal_time = now + buffer.reveal_rate();
            let req = schedule_request(SoundType::KeyPress(*c), reveal_time);
            buffer.insert_char(*c, now);
            Some(req)
        },
        InputEvent::Backspace => {
            buffer.backspace();
            None
        },
        InputEvent::NewLine => {
            let reveal_time = now + buffer.reveal_rate();
            let req = schedule_request(SoundType::Return, reveal_time);
            buffer.new_line();
            Some(req)
        },
        InputEvent::Right => {
            buffer.move_right();
            None
        },
        InputEvent::Save => None,
        InputEvent::Close => None,
        InputEvent::Timeout => None,
    }
}

} // verus!
