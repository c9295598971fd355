//! The decisions of the game loop: when a tick or a frame is due, and what
//! a pressed key does to the player.

use vstd::prelude::*;

verus! {

/// Ticks per second where none is configured.
pub const DEFAULT_TICK_RATE: u8 = 30;

/// Frames per second where no limit is configured.
pub const DEFAULT_MAX_FPS: u8 = 60;

/// The frame rate that stands for "unlimited".
pub const UNLIMITED_FPS: u16 = 1000;

/// The size of the velocity impulse that one pressed movement key gives.
pub const MOVE_SPEED: i32 = 10;

/// Nanoseconds in a second.
pub const NANOS_PER_SECOND: u64 = 1_000_000_000;

/// Whether `elapsed_nanos` nanoseconds are at least one period of `rate`
/// events per second. At rate 0 no time is ever enough.
pub open spec fn period_elapsed(rate: nat, elapsed_nanos: nat) -> bool {
    elapsed_nanos * rate >= NANOS_PER_SECOND
}

/// How fast the world ticks and how often it is drawn.
#[derive(Clone, Copy, Debug, PartialEq, Eq, Structural)]
pub struct GameConfig {
    pub tick_rate: u8,
    pub max_fps: u8,
}

impl GameConfig {
    /// The frame rate in effect: the configured one, or `UNLIMITED_FPS` where
    /// that is 0.
    pub open spec fn frame_rate(self) -> nat {
        if self.max_fps == 0 {
            UNLIMITED_FPS as nat
        } else {
            self.max_fps as nat
        }
    }

    /// The configuration for the given settings, with the defaults where
    /// one is missing.
    pub fn new(tick_rate: Option<u8>, max_fps: Option<u8>) -> (config: GameConfig)
        ensures
            config.tick_rate == (match tick_rate {
                Some(rate) => rate,
                None => DEFAULT_TICK_RATE,
            }),
            config.max_fps == (match max_fps {
                Some(rate) => rate,
                None => DEFAULT_MAX_FPS,
            }),
    {
        GameConfig {
            tick_rate: match tick_rate {
                Some(rate) => rate,
                None => DEFAULT_TICK_RATE,
            },
            max_fps: match max_fps {
                Some(rate) => rate,
                None => DEFAULT_MAX_FPS,
            },
        }
    }

    /// Whether the world is to tick, `elapsed_nanos` after its last tick.
    pub fn tick_due(&self, elapsed_nanos: u64) -> (due: bool)
        ensures
            due == period_elapsed(self.tick_rate as nat, elapsed_nanos as nat),
    {
        period_is_over(self.tick_rate as u16, elapsed_nanos)
    }

    /// Whether a frame is to be drawn, `elapsed_nanos` after the last one.
    pub fn frame_due(&self, elapsed_nanos: u64) -> (due: bool)
        ensures
            due == period_elapsed(self.frame_rate(), elapsed_nanos as nat),
    {
        let rate: u16 = if self.max_fps == 0 {
            UNLIMITED_FPS
        } else {
            self.max_fps as u16
        };
        period_is_over(rate, elapsed_nanos)
    }
}

/// Whether `elapsed_nanos` are at least one period of `rate` per second.
fn period_is_over(rate: u16, elapsed_nanos: u64) -> (over: bool)
    ensures
        over == period_elapsed(rate as nat, elapsed_nanos as nat),
{
    assert(elapsed_nanos * rate <= 0xffff_ffff_ffff_ffff * 0xffff) by (nonlinear_arith)
        requires
            elapsed_nanos <= 0xffff_ffff_ffff_ffff,
            rate <= 0xffff,
    ;
    (elapsed_nanos as u128) * (rate as u128) >= NANOS_PER_SECOND as u128
}

/// A key, as far as the game tells keys apart.
#[derive(Clone, Copy, Debug, PartialEq, Eq, Structural)]
pub enum Key {
    W,
    A,
    S,
    D,
    Other,
}

impl Key {
    /// The change of velocity that this key asks for: `MOVE_SPEED` along one
    /// axis for the four movement keys, nothing for any other key.
    pub open spec fn impulse_of(self) -> (int, int) {
        match self {
            Key::W => (0, MOVE_SPEED as int),
            Key::S => (0, -MOVE_SPEED),
            Key::A => (-MOVE_SPEED, 0),
            Key::D => (MOVE_SPEED as int, 0),
            Key::Other => (0, 0),
        }
    }

    /// The change of velocity that this key asks for, x first.
    pub fn impulse(&self) -> (delta: (i32, i32))
        ensures
            delta.0 == self.impulse_of().0,
            delta.1 == self.impulse_of().1,
    {
        match self {
            Key::W => (0, MOVE_SPEED),
            Key::S => (0, -MOVE_SPEED),
            Key::A => (-MOVE_SPEED, 0),
            Key::D => (MOVE_SPEED, 0),
            Key::Other => (0, 0),
        }
    }
}

} // verus!
