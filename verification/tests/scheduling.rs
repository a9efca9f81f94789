//! Tests of the sound scheduler's decisions and the event-loop step: fire
//! moments, dispatch waits, cue selection, jitter bounds, and that the
//! buffer's course does not depend on whether a scheduler exists.

use typewriter::buffer::Buffer;
use typewriter::input::InputEvent;
use typewriter::session::apply_event;
use typewriter::sound::{
    click_index, cue_playback, schedule_request, wait_before_dispatch, SoundRequest, SoundType,
    PRE_ROLL_MS,
};

#[test]
fn schedule_request_fires_one_pre_roll_early() {
    let r = schedule_request(SoundType::Return, 500);
    assert_eq!(r.play_at, 500 - PRE_ROLL_MS);
    assert_eq!(r.sound_type, SoundType::Return);
}

#[test]
fn schedule_request_clamps_at_clock_start() {
    let r = schedule_request(SoundType::KeyPress('a'), 40);
    assert_eq!(r.play_at, 0);
}

#[test]
fn dispatch_waits_until_the_fire_moment() {
    // fire moment still ahead: the worker sleeps out the difference
    assert_eq!(wait_before_dispatch(200, 450), 250);
    // fire moment passed: dispatch immediately
    assert_eq!(wait_before_dispatch(500, 450), 0);
    // either way the dispatch instant is never before the fire moment
    for (now, play_at) in [(200u64, 450u64), (500, 450), (450, 450)] {
        let wait = wait_before_dispatch(now, play_at);
        assert!(now + wait >= play_at);
    }
}

#[test]
fn click_index_buckets_the_alphabet() {
    assert_eq!(click_index('a'), 1);
    assert_eq!(click_index('f'), 1);
    assert_eq!(click_index('g'), 2);
    assert_eq!(click_index('l'), 2);
    assert_eq!(click_index('m'), 3);
    assert_eq!(click_index('r'), 3);
    assert_eq!(click_index('s'), 4);
    assert_eq!(click_index('x'), 4);
    assert_eq!(click_index('y'), 5);
    assert_eq!(click_index('z'), 5);
    assert_eq!(click_index('A'), 6);
    assert_eq!(click_index(' '), 6);
    assert_eq!(click_index('3'), 6);
}

#[test]
fn keypress_cue_takes_its_bucket_with_bounded_jitter() {
    for _ in 0..50 {
        let plan = cue_playback(&SoundType::KeyPress('h'));
        assert_eq!(plan.click_index, Some(2));
        assert!(950 <= plan.speed_permille && plan.speed_permille <= 1050);
        assert!(900 <= plan.volume_permille && plan.volume_permille <= 1100);
    }
}

#[test]
fn return_cue_plays_plain_and_quiet() {
    let plan = cue_playback(&SoundType::Return);
    assert_eq!(plan.click_index, None);
    assert_eq!(plan.speed_permille, 1000);
    assert_eq!(plan.volume_permille, 200);
}

#[test]
fn apply_event_schedules_cues_for_typing_and_return() {
    let mut buffer = Buffer::new(300);
    let req = apply_event(&mut buffer, &InputEvent::Char('q'), 1000);
    assert_eq!(
        req,
        Some(SoundRequest { sound_type: SoundType::KeyPress('q'), play_at: 1000 + 300 - PRE_ROLL_MS })
    );
    let req = apply_event(&mut buffer, &InputEvent::NewLine, 2000);
    assert_eq!(
        req,
        Some(SoundRequest { sound_type: SoundType::Return, play_at: 2000 + 300 - PRE_ROLL_MS })
    );
    for event in [InputEvent::Backspace, InputEvent::Right, InputEvent::Save, InputEvent::Close,
        InputEvent::Timeout] {
        assert_eq!(apply_event(&mut buffer, &event, 3000), None);
    }
}

#[test]
fn buffer_course_is_the_same_with_and_without_a_scheduler() {
    // the same event sequence, once with the requests collected (scheduler
    // present) and once with them dropped (scheduler absent): the buffers
    // agree in every observable respect
    let events = [
        InputEvent::Char('a'),
        InputEvent::Char('b'),
        InputEvent::Backspace,
        InputEvent::Char('x'),
        InputEvent::NewLine,
        InputEvent::Char('c'),
        InputEvent::Right,
        InputEvent::Timeout,
        InputEvent::Save,
    ];

    let mut with_sound = Buffer::new(300);
    let mut collected = Vec::new();
    for (k, event) in events.iter().enumerate() {
        if let Some(request) = apply_event(&mut with_sound, event, k as u64) {
            collected.push(request);
        }
    }

    let mut without_sound = Buffer::new(300);
    for (k, event) in events.iter().enumerate() {
        let _ = apply_event(&mut without_sound, event, k as u64);
    }

    assert!(!collected.is_empty());
    assert_eq!(with_sound.lines, without_sound.lines);
    assert_eq!(with_sound.cursor_position(), without_sound.cursor_position());
    assert_eq!(with_sound.is_mark_out_mode(), without_sound.is_mark_out_mode());
    assert_eq!(with_sound.is_modified(), without_sound.is_modified());
    assert_eq!(with_sound.reveal_rate(), without_sound.reveal_rate());
    assert_eq!(with_sound.saved_text(), without_sound.saved_text());
}

#[test]
fn apply_event_edits_the_buffer_like_the_direct_calls() {
    let mut stepped = Buffer::new(100);
    apply_event(&mut stepped, &InputEvent::Char('a'), 5);
    apply_event(&mut stepped, &InputEvent::Char('b'), 6);
    apply_event(&mut stepped, &InputEvent::Backspace, 7);
    apply_event(&mut stepped, &InputEvent::Char('x'), 8);

    let mut direct = Buffer::new(100);
    direct.insert_char('a', 5);
    direct.insert_char('b', 6);
    direct.backspace();
    direct.insert_char('x', 8);

    assert_eq!(stepped.lines, direct.lines);
    assert_eq!(stepped.cursor_position(), direct.cursor_position());
}
