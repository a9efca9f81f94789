//! The sound-cue scheduler's decisions: when a cue fires relative to its
//! character's reveal moment, which cue a typed symbol selects, and the
//! bounded random jitter applied to playback. The host program owns the
//! audio device and the timing worker thread; every timing and selection
//! decision those make comes from here.

use vstd::prelude::*;

verus! {

/// How long before its character's reveal moment a cue fires, in
/// milliseconds (the "clack" arrives slightly before the letter settles
/// into view).
pub const PRE_ROLL_MS: u64 = 100;

/// The kinds of cue the typewriter plays.
#[derive(Debug, Clone, Copy, PartialEq, Eq, Structural)]
pub enum SoundType {
    /// A keypress cue, parameterized by the typed symbol.
    KeyPress(char),
    /// The line-return cue.
    Return,
}

/// A scheduled cue: what to play and the moment, in milliseconds, to play
/// it at. Created at enqueue time and consumed exactly once by the timing
/// worker.
#[derive(Debug, Clone, Copy, PartialEq, Eq, Structural)]
pub struct SoundRequest {
    /// Which cue to play.
    pub sound_type: SoundType,
    /// The moment the cue should fire.
    pub play_at: u64,
}

/// The fire moment for a cue whose character reveals at `reveal_time`: one
/// pre-roll earlier, clamped at the start of the clock.
pub open spec fn spec_play_at(reveal_time: u64) -> u64 {
    if reveal_time >= PRE_ROLL_MS {
        (reveal_time - PRE_ROLL_MS) as u64
    } else {
        0
    }
}

/// Builds the request for a cue whose character reveals at `reveal_time`.
pub fn schedule_request(sound_type: SoundType, reveal_time: u64) -> (r: SoundRequest)
    ensures
        r.sound_type == sound_type,
        r.play_at == spec_play_at(reveal_time),
{
    let play_at = if reveal_time >= PRE_ROLL_MS {
        reveal_time - PRE_ROLL_MS
    } else {
        0
    };
    SoundRequest { sound_type, play_at }
}

/// The moment the sequential worker dispatches a request it picks up at
/// `now`: immediately if the fire moment has passed, else exactly at the
/// fire moment.
pub open spec fn spec_dispatch_at(now: u64, play_at: u64) -> u64 {
    if play_at > now {
        play_at
    } else {
        now
    }
}

/// How long the worker sleeps, from `now`, before dispatching a request
/// that fires at `play_at`.
pub fn wait_before_dispatch(now: u64, play_at: u64) -> (r: u64)
    ensures
        now + r == spec_dispatch_at(now, play_at),
        now + r >= play_at,
{
    if play_at > now {
        play_at - now
    } else {
        0
    }
}

/// The dispatch moments of the strictly sequential timing worker. Request
/// `i` fires at `play_ats[i]` and becomes available at `arrivals[i]`; the
/// worker takes requests in submission order — it never reorders by
/// deadline — so it picks request `i` up once it has dispatched request
/// `i - 1` and the request has arrived, and then waits out any remaining
/// time to the fire moment.
pub open spec fn spec_worker_dispatches(play_ats: Seq<u64>, arrivals: Seq<u64>) -> Seq<int>
    decreases play_ats.len(),
{
    if play_ats.len() == 0 {
        Seq::empty()
    } else {
        let prev = spec_worker_dispatches(play_ats.drop_last(), arrivals.drop_last());
        let arrived = arrivals.last() as int;
        let ready = if play_ats.len() == 1 {
            arrived
        } else if prev.last() > arrived {
            prev.last()
        } else {
            arrived
        };
        let fire = play_ats.last() as int;
        prev.push(if fire > ready {
            fire
        } else {
            ready
        })
    }
}

/// Law: a request's dispatch moment is never earlier than its computed fire
/// moment — only at or after it, when the strictly sequential worker is
/// still busy with preceding requests or the request arrives late.
pub proof fn lemma_dispatch_never_early(play_ats: Seq<u64>, arrivals: Seq<u64>)
    requires
        play_ats.len() == arrivals.len(),
    ensures
        spec_worker_dispatches(play_ats, arrivals).len() == play_ats.len(),
        forall|i: int| 0 <= i < play_ats.len()
            ==> #[trigger] spec_worker_dispatches(play_ats, arrivals)[i] >= play_ats[i],
        forall|i: int| 0 <= i < play_ats.len()
            ==> #[trigger] spec_worker_dispatches(play_ats, arrivals)[i] >= arrivals[i],
    decreases play_ats.len(),
{
    if play_ats.len() > 0 {
        lemma_dispatch_never_early(play_ats.drop_last(), arrivals.drop_last());
        let d = spec_worker_dispatches(play_ats, arrivals);
        let prev = spec_worker_dispatches(play_ats.drop_last(), arrivals.drop_last());
        assert forall|i: int| 0 <= i < play_ats.len() implies #[trigger] d[i] >= play_ats[i]
            && d[i] >= arrivals[i] by {
            if i < play_ats.len() - 1 {
                assert(d[i] == prev[i]);
                assert(play_ats.drop_last()[i] == play_ats[i]);
                assert(arrivals.drop_last()[i] == arrivals[i]);
            }
        }
    }
}

/// Which click cue a typed symbol selects: six buckets over contiguous
/// letter ranges, with the sixth as the fallback for every other symbol.
pub open spec fn spec_click_index(c: char) -> u64 {
    if 'a' <= c && c <= 'f' {
        1
    } else if 'g' <= c && c <= 'l' {
        2
    } else if 'm' <= c && c <= 'r' {
        3
    } else if 's' <= c && c <= 'x' {
        4
    } else if 'y' <= c && c <= 'z' {
        5
    } else {
        6
    }
}

/// Selects the click cue for a typed symbol.
pub fn click_index(c: char) -> (r: u64)
    ensures
        r == spec_click_index(c),
        1 <= r <= 6,
{
    if 'a' <= c && c <= 'f' {
        1
    } else if 'g' <= c && c <= 'l' {
        2
    } else if 'm' <= c && c <= 'r' {
        3
    } else if 's' <= c && c <= 'x' {
        4
    } else if 'y' <= c && c <= 'z' {
        5
    } else {
        6
    }
}

/// Relies on `rand::thread_rng` and `rand::Rng::gen_range`: returns a
/// uniformly random value within the given range, here `0..=100`.
#[verifier::external_body]
fn random_percent() -> (r: u64)
    ensures
        r <= 100,
{
    rand::Rng::gen_range(&mut rand::thread_rng(), 0..=100u64)
}

/// Playback parameters for one cue: which click file to play (`None` for
/// the line-return cue) and the speed and volume, in thousandths of the
/// nominal value.
#[derive(Debug, Clone, Copy, PartialEq, Eq, Structural)]
pub struct CuePlan {
    /// The click cue to play, or `None` for the line-return cue.
    pub click_index: Option<u64>,
    /// Playback speed, in thousandths of nominal speed.
    pub speed_permille: u64,
    /// Playback volume, in thousandths of full volume.
    pub volume_permille: u64,
}

/// Decides playback for one request's cue: a keypress cue takes its
/// symbol's click bucket with independent small random jitter to pitch
/// (within five percent) and loudness (within ten percent); the line-return
/// cue plays at nominal speed and a fifth of full volume.
pub fn cue_playback(sound_type: &SoundType) -> (r: CuePlan)
    ensures
        match *sound_type {
            SoundType::KeyPress(c) => r.click_index == Some(spec_click_index(c)) && 950
                <= r.speed_permille <= 1050 && 900 <= r.volume_permille <= 1100,
            SoundType::Return => r == (CuePlan {
                click_index: None,
                speed_permille: 1000,
                volume_permille: 200,
            }),
        },
{
    match sound_type {
        SoundType::KeyPress(c) => {
            let speed_permille = 950 + random_percent();
            let volume_permille = 900 + 2 * random_percent();
            CuePlan { click_index: Some(click_index(*c)), speed_permille, volume_permille }
        },
        SoundType::Return => CuePlan {
            click_index: None,
            speed_permille: 1000,
            volume_permille: 200,
        },
    }
}

} // verus!
