//! The timing model of one device: how long an input takes to show and how
//! long a unit of it (a tile, a press) lasts.

use vstd::prelude::*;

use crate::text::same;

verus! {

/// One walking step: the default tile time, in milliseconds.
pub const TILE_MS: u64 = 268;

/// Frames to wait for a step to show up on screen.
pub const STEP_TIMEOUT: u64 = 30;

/// Frames to wait for a warp's fade and the new map.
pub const WARP_TIMEOUT: u64 = 180;

/// Frames a turn in place may take to show.
pub const TURN_TIMEOUT: u64 = 6;

/// Frames a menu press may take to show.
pub const MENU_TIMEOUT: u64 = 30;

/// Extra frames actions may take on real hardware.
pub const HARDWARE_LATENCY_FRAMES: u64 = 30;

/// Nanoseconds in a millisecond.
pub const NS_PER_MS: u64 = 1_000_000;

/// The game runs at 59.7275 frames a second: this many frames ...
pub const FRAMES_PER_SPAN: u64 = 597_275;

/// ... in this many nanoseconds.
pub const SPAN_NS: u64 = 10_000_000_000_000;

/// The kinds of input that are timed apart.
#[derive(Debug, Clone, Copy, PartialEq, Eq, PartialOrd, Ord, Structural)]
pub enum InputKind {
    /// A directional press or hold that moves the player (unit: one tile).
    WalkTile,
    /// A directional tap that only turns the player.
    Turn,
    /// A press on a menu, dialogue or list.
    MenuPress,
    /// Taking a warp: fade out, new map located.
    WarpFade,
    /// Entering a battle: transition to the battle screen.
    BattleStart,
}

impl InputKind {
    /// The frames that `units` of this kind may take to show after the
    /// inputs finish, before anything was measured.
    pub open spec fn default_timeout(self, units: int) -> int {
        match self {
            InputKind::WalkTile => if units >= 2 {
                STEP_TIMEOUT + 16 + 2 * units
            } else {
                STEP_TIMEOUT as int
            },
            InputKind::Turn => TURN_TIMEOUT as int,
            InputKind::MenuPress => MENU_TIMEOUT as int,
            InputKind::WarpFade | InputKind::BattleStart => WARP_TIMEOUT as int,
        }
    }

    pub fn default_timeout_frames(self, units: usize) -> (frames: u64)
        requires
            2 * units + 46 <= u64::MAX,
        ensures
            frames == self.default_timeout(units as int),
    {
        match self {
            // A hold: the last tile finishes after the release, and a
            // moving sprite is located a little late.
            InputKind::WalkTile => if units >= 2 {
                STEP_TIMEOUT + 16 + 2 * units as u64
            } else {
                STEP_TIMEOUT
            },
            InputKind::Turn => TURN_TIMEOUT,
            InputKind::MenuPress => MENU_TIMEOUT,
            InputKind::WarpFade | InputKind::BattleStart => WARP_TIMEOUT,
        }
    }

    /// The unit's duration in nanoseconds before anything was measured.
    pub open spec fn default_unit(self) -> u64 {
        match self {
            InputKind::WalkTile => 268_000_000,
            // A turn takes 8 frames; a menu press shows the next frame but
            // its animation runs a few; fades and battle transitions are
            // long and only bounded by their timeouts.
            InputKind::Turn => 133_941_652,
            InputKind::MenuPress => 66_970_826,
            InputKind::WarpFade | InputKind::BattleStart => 1_506_843_581,
        }
    }

    pub fn default_unit_ns(self) -> (ns: u64)
        ensures
            ns == self.default_unit(),
    {
        match self {
            InputKind::WalkTile => 268_000_000,
            InputKind::Turn => 133_941_652,
            InputKind::MenuPress => 66_970_826,
            InputKind::WarpFade | InputKind::BattleStart => 1_506_843_581,
        }
    }

    /// Whether one unit must play out before the first visible effect (a
    /// step is only seen once the player left the tile).
    pub fn effect_after_unit(self) -> (r: bool)
        ensures
            r == (self == InputKind::WalkTile),
    {
        match self {
            InputKind::WalkTile => true,
            _ => false,
        }
    }
}

/// The default units are the frames they are told in, to the nearest
/// nanosecond.
pub proof fn default_units_are_frames()
    ensures
        InputKind::WalkTile.default_unit() == TILE_MS * NS_PER_MS,
        InputKind::Turn.default_unit() == (8 * SPAN_NS + FRAMES_PER_SPAN / 2) / (
        FRAMES_PER_SPAN as int),
        InputKind::MenuPress.default_unit() == (4 * SPAN_NS + FRAMES_PER_SPAN / 2) / (
        FRAMES_PER_SPAN as int),
        InputKind::WarpFade.default_unit() == (WARP_TIMEOUT / 2 * SPAN_NS + FRAMES_PER_SPAN / 2) / (
        FRAMES_PER_SPAN as int),
        InputKind::BattleStart.default_unit() == InputKind::WarpFade.default_unit(),
{
}

/// What the model believes about one input kind.
#[derive(Debug, Clone, Copy, PartialEq, Eq, Structural)]
pub struct Estimate {
    /// From command issue to the first visible effect.
    pub latency_ns: u64,
    /// Per unit (tile, press).
    pub unit_ns: u64,
    /// Mean absolute deviation of the recent samples.
    pub spread_ns: u64,
    pub samples: u32,
}

/// The whole frames that a time in half nanoseconds takes, rounded up.
pub open spec fn frames_in(halves: int) -> int {
    (halves * FRAMES_PER_SPAN + 2 * SPAN_NS - 1) / (2 * SPAN_NS as int)
}

fn frames_of(halves: u128) -> (frames: u64)
    requires
        halves <= 8 * (u64::MAX as int),
    ensures
        frames == frames_in(halves as int),
{
    assert(halves * 597_275 <= 8 * (u64::MAX as int) * 597_275) by (nonlinear_arith)
        requires
            halves <= 8 * (u64::MAX as int),
    ;
    let span: u128 = 2 * (SPAN_NS as u128);
    let scaled: u128 = halves * (FRAMES_PER_SPAN as u128) + span - 1;
    let n: u128 = scaled / span;
    assert(n <= u64::MAX) by (nonlinear_arith)
        requires
            n == scaled as int / (span as int),
            span == 20_000_000_000_000,
            scaled <= 8 * (u64::MAX as int) * 597_275 + span,
    ;
    n as u64
}

/// A time in whole milliseconds, to the nearest, the half up.
pub open spec fn rounded_ms(ns: int) -> int {
    (ns + NS_PER_MS / 2) / (NS_PER_MS as int)
}

pub fn round_ms(ns: u64) -> (ms: u64)
    ensures
        ms == rounded_ms(ns as int),
{
    let up: u64 = if ns % NS_PER_MS >= 500_000 {
        1
    } else {
        0
    };
    ns / NS_PER_MS + up
}

impl Estimate {
    pub open spec fn unmeasured(kind: InputKind) -> Estimate {
        Estimate { latency_ns: 0, unit_ns: kind.default_unit(), spread_ns: 0, samples: 0 }
    }

    /// What is believed before anything was measured.
    pub fn default_for(kind: InputKind) -> (e: Estimate)
        ensures
            e == Estimate::unmeasured(kind),
    {
        Estimate { latency_ns: 0, unit_ns: kind.default_unit_ns(), spread_ns: 0, samples: 0 }
    }

    /// How long to hold for `units`, in half nanoseconds: up to the middle of
    /// the last unit, and two spreads more.
    pub open spec fn hold(self, units: int) -> int {
        let halves = 2 * (self.unit_ns * units) - self.unit_ns + 4 * self.spread_ns;
        if halves > 0 {
            halves
        } else {
            0
        }
    }

    /// The hold in whole milliseconds, to the nearest, the half up.
    pub open spec fn hold_ms(self, units: int) -> u64 {
        let ms = (self.hold(units) + NS_PER_MS) / (2 * NS_PER_MS as int);
        if ms < u64::MAX {
            ms as u64
        } else {
            u64::MAX
        }
    }

    /// How long to hold for `units`, in milliseconds: release inside the last
    /// unit, which the game then finishes, plus a margin of two spreads.
    /// Latency is not added: a press and its release travel the same path,
    /// so it moves the walk in time without changing how far it goes.
    pub fn hold_for(self, units: usize) -> (ms: u64)
        ensures
            ms == self.hold_ms(units as int),
    {
        assert(self.unit_ns * units <= u64::MAX * u64::MAX) by (nonlinear_arith)
            requires
                self.unit_ns <= u64::MAX,
                units <= u64::MAX,
        ;
        assert(self.unit_ns * units >= 0) by (nonlinear_arith);
        let walked: u128 = (self.unit_ns as u128) * (units as u128);
        // Longer than can be said in milliseconds.
        if walked >= 0x1_0000_0000_0000_0000_0000_0000 {
            return u64::MAX;
        }
        let whole: u128 = 2 * walked + 4 * (self.spread_ns as u128);
        let half: u128 = self.unit_ns as u128;
        let halves: u128 = if whole > half {
            whole - half
        } else {
            0
        };
        let ms: u128 = (halves + 1_000_000) / 2_000_000;
        assert(halves == self.hold(units as int));
        if ms < u64::MAX as u128 {
            ms as u64
        } else {
            u64::MAX
        }
    }

    /// How long after the inputs finish `units` may take to show, where the
    /// device was measured, in half nanoseconds: the latency, then the whole unit (a tap walks its
    /// tile after the press) or the last half of it (a hold is released inside
    /// the last unit), and two spreads.
    pub open spec fn shown_after(self, units: int) -> int {
        2 * self.latency_ns + (if units >= 2 {
            self.unit_ns as int
        } else {
            2 * self.unit_ns
        }) + 4 * self.spread_ns
    }
}

/// What is believed of every kind of input of one device.
#[derive(Debug, Clone, Copy, PartialEq, Eq, Structural)]
pub struct Timing {
    /// Extra frames every action may take to show its effect, before
    /// anything was measured.
    pub base_latency_frames: u64,
    pub walk: Estimate,
    pub turn: Estimate,
    pub menu: Estimate,
    pub warp: Estimate,
    pub battle: Estimate,
}

impl Timing {
    pub open spec fn of(self, kind: InputKind) -> Estimate {
        match kind {
            InputKind::WalkTile => self.walk,
            InputKind::Turn => self.turn,
            InputKind::MenuPress => self.menu,
            InputKind::WarpFade => self.warp,
            InputKind::BattleStart => self.battle,
        }
    }

    /// Nothing is measured yet; a device other than the emulator is taken to be slow.
    pub open spec fn is_new(self, profile: Seq<char>) -> bool {
        &&& self.base_latency_frames == (if profile == "emulator"@ {
            0
        } else {
            HARDWARE_LATENCY_FRAMES
        })
        &&& forall|kind: InputKind| #[trigger] self.of(kind) == Estimate::unmeasured(kind)
    }

    /// An empty model for `profile` (`emulator`, `switch`): every value is the
    /// default.
    pub fn new(profile: &str) -> (t: Timing)
        ensures
            t.is_new(profile@),
    {
        Timing {
            base_latency_frames: if same(profile, "emulator") {
                0
            } else {
                HARDWARE_LATENCY_FRAMES
            },
            walk: Estimate::default_for(InputKind::WalkTile),
            turn: Estimate::default_for(InputKind::Turn),
            menu: Estimate::default_for(InputKind::MenuPress),
            warp: Estimate::default_for(InputKind::WarpFade),
            battle: Estimate::default_for(InputKind::BattleStart),
        }
    }

    /// The estimate for `kind`.
    pub fn estimate(&self, kind: InputKind) -> (e: Estimate)
        ensures
            e == self.of(kind),
    {
        match kind {
            InputKind::WalkTile => self.walk,
            InputKind::Turn => self.turn,
            InputKind::MenuPress => self.menu,
            InputKind::WarpFade => self.warp,
            InputKind::BattleStart => self.battle,
        }
    }

    pub open spec fn timeout(self, kind: InputKind, units: int) -> int {
        let default = kind.default_timeout(units);
        let e = self.of(kind);
        let measured = frames_in(e.shown_after(units));
        if e.samples > 0 && measured > default {
            measured
        } else {
            default
        }
    }

    /// How long to hold for `units` of `kind`, in milliseconds.
    pub fn hold_for(&self, kind: InputKind, units: usize) -> (ms: u64)
        ensures
            ms == self.of(kind).hold_ms(units as int),
    {
        self.estimate(kind).hold_for(units)
    }

    /// Frames to wait after the inputs finish for `units` of `kind` to show:
    /// the default, extended when the device measured slower.
    pub fn timeout_frames(&self, kind: InputKind, units: usize) -> (frames: u64)
        requires
            2 * units + 46 <= u64::MAX,
        ensures
            frames == self.timeout(kind, units as int),
    {
        let default = kind.default_timeout_frames(units);
        let e = self.estimate(kind);
        if e.samples == 0 {
            return default;
        }
        let tail: u128 = if units >= 2 {
            e.unit_ns as u128
        } else {
            2 * (e.unit_ns as u128)
        };
        let measured = frames_of(2 * (e.latency_ns as u128) + tail + 4 * (e.spread_ns as u128));
        if measured > default {
            measured
        } else {
            default
        }
    }

    pub open spec fn allowance(self, kind: Option<InputKind>) -> int {
        match kind {
            None => self.base_latency_frames as int,
            Some(kind) => {
                let e = self.of(kind);
                let measured = frames_in(2 * e.latency_ns + 4 * e.spread_ns);
                if e.samples > 0 && measured > self.base_latency_frames {
                    measured
                } else {
                    self.base_latency_frames as int
                }
            },
        }
    }

    /// Extra frames an action of `kind` may take to show its effect (the
    /// allowance on top of the action's timeout).
    pub fn expect_frames(&self, kind: Option<InputKind>) -> (frames: u64)
        ensures
            frames == self.allowance(kind),
    {
        let kind = match kind {
            Some(kind) => kind,
            None => {
                return self.base_latency_frames;
            },
        };
        let e = self.estimate(kind);
        if e.samples == 0 {
            return self.base_latency_frames;
        }
        let measured = frames_of(2 * (e.latency_ns as u128) + 4 * (e.spread_ns as u128));
        if measured > self.base_latency_frames {
            measured
        } else {
            self.base_latency_frames
        }
    }
}

/// Measuring a device only ever lengthens what its actions may take.
pub proof fn measuring_never_shortens(t: Timing, kind: InputKind, units: usize)
    ensures
        t.timeout(kind, units as int) >= kind.default_timeout(units as int),
        t.allowance(Some(kind)) >= t.allowance(None),
{
}

/// A hold of one tile more is one unit longer.
pub proof fn a_longer_walk_is_held_a_unit_longer(e: Estimate, units: int)
    requires
        units >= 1,
    ensures
        e.hold(units + 1) == e.hold(units) + 2 * e.unit_ns,
{
    assert(e.unit_ns * (units + 1) == e.unit_ns * units + e.unit_ns) by (nonlinear_arith);
    assert(e.unit_ns * units >= e.unit_ns) by (nonlinear_arith)
        requires
            units >= 1,
            e.unit_ns >= 0,
    ;
}

} // verus!
