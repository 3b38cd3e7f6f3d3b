//! The angle estimator: a stateful driver that polls the sensor over an
//! injected bus, detects wraparounds at the zero point, and accumulates a
//! signed turn count alongside the current single-turn angle.

use vstd::prelude::*;

verus! {

use crate::angle::{extract_angle, turn_step, FULL_TURN_COUNTS, WRAP_THRESHOLD_COUNTS};

/// Failure kinds surfaced by the driver. Both abandon the call that raised
/// them and leave the estimator state untouched; recovery is the caller's
/// polling loop, never an internal retry.
#[derive(Debug, Clone, Copy, PartialEq, Eq, Structural)]
pub enum MT6701Error {
    /// The bus transfer failed.
    SpiError,
    /// Driving the chip-select line failed.
    CsnError,
}

/// A duplex transfer primitive on 16-bit frames, supplied by the host
/// platform at construction time. Nothing is assumed of an implementation:
/// it may fail, and it may return any frame.
pub trait FrameTransfer {
    /// Clocks one frame out and returns the frame clocked back in.
    fn transfer(&mut self, frame: u16) -> Result<u16, ()>;
}

/// A digital output line with a settable high/low state (the chip select),
/// supplied by the host platform at construction time. Nothing is assumed of
/// an implementation: either transition may fail.
pub trait OutputLine {
    /// Drives the line low.
    fn set_low(&mut self) -> Result<(), ()>;

    /// Drives the line high.
    fn set_high(&mut self) -> Result<(), ()>;
}

/// Elapsed time between the two samples a velocity estimate was formed from.
#[derive(Debug, Clone, Copy, PartialEq, Eq, Structural)]
pub enum Elapsed {
    /// The timestamps were non-increasing, so one millisecond is substituted
    /// for the elapsed time rather than dividing by zero or a negative value.
    FallbackMillisecond,
    /// The timestamps were strictly increasing: their difference, in
    /// nanoseconds. When forming seconds the host scales this delta by 1e-6,
    /// as if it were microseconds: that historical time base is kept as the
    /// behaviour to reproduce, not corrected here.
    Nanoseconds(u64),
}

/// An angular velocity sample in exact form: the signed count difference
/// between the wrapped single-turn samples it was formed from (not adjusted
/// for a wraparound in the same step, by design), and the elapsed time
/// between them. The radian-per-second value is
/// `(delta_counts / 16384) * 2*pi / seconds`, formed by the host in floating
/// point.
#[derive(Debug, Clone, Copy, PartialEq, Eq, Structural)]
pub struct Velocity {
    /// Current sample minus previous sample, in counts.
    pub delta_counts: i32,
    /// Elapsed time between the two samples.
    pub elapsed: Elapsed,
}

/// A continuous multi-turn position in exact form: accumulated full turns and
/// the single-turn angle in counts. The radian value is
/// `turns * 2*pi + (angle / 16384) * 2*pi`, formed by the host in floating
/// point.
#[derive(Debug, Clone, Copy, PartialEq, Eq, Structural)]
pub struct Position {
    /// Accumulated full revolutions; negative for net reverse rotation.
    pub turns: i64,
    /// Single-turn angle in counts, within `[0, 16384)`.
    pub angle: u16,
}

/// The estimator state of a driver, as contracts see it: everything the
/// driver owns apart from the two bus collaborators.
pub struct EstimatorView {
    /// Accumulated full revolutions.
    pub turns: int,
    /// Single-turn angle in counts at the last successful update.
    pub angle: int,
    /// Single-turn angle in counts at the update before that.
    pub angle_prev: int,
    /// Velocity estimate from the last timestamped update.
    pub velocity: Velocity,
    /// Timestamp handed to the last successful update, in nanoseconds.
    pub prev_ns: int,
}

/// Elapsed time derived from the previous and the current timestamp: their
/// difference in nanoseconds when strictly increasing, otherwise the
/// one-millisecond fallback.
pub open spec fn elapsed_between(prev_ns: int, now_ns: int) -> Elapsed {
    if now_ns > prev_ns {
        Elapsed::Nanoseconds((now_ns - prev_ns) as u64)
    } else {
        Elapsed::FallbackMillisecond
    }
}

/// With a non-increasing timestamp the elapsed time falls back to one
/// millisecond, a fixed positive duration, so the velocity estimate is never
/// formed from a zero or negative elapsed time.
pub proof fn lemma_elapsed_fallback(prev_ns: int, now_ns: int)
    ensures
        now_ns <= prev_ns ==> elapsed_between(prev_ns, now_ns) == Elapsed::FallbackMillisecond,
        now_ns > prev_ns ==> elapsed_between(prev_ns, now_ns) == Elapsed::Nanoseconds(
            (now_ns - prev_ns) as u64,
        ),
{
}

/// Driver for the MT6701 sensor over a synchronous serial bus, generic over
/// the platform's frame-transfer primitive and chip-select line.
pub struct MT6701Spi<SPI, CS> {
    spi: SPI,
    cs: CS,
    turns: i64,
    angle: u16,
    angle_prev: u16,
    velocity: Velocity,
    prev_ns: u64,
}

impl<SPI, CS> View for MT6701Spi<SPI, CS> {
    type V = EstimatorView;

    closed spec fn view(&self) -> EstimatorView {
        EstimatorView {
            turns: self.turns as int,
            angle: self.angle as int,
            angle_prev: self.angle_prev as int,
            velocity: self.velocity,
            prev_ns: self.prev_ns as int,
        }
    }
}

impl<SPI: FrameTransfer, CS: OutputLine> MT6701Spi<SPI, CS> {
    /// Both stored samples lie within one turn.
    pub open spec fn wf(self) -> bool {
        self@.angle < FULL_TURN_COUNTS && self@.angle_prev < FULL_TURN_COUNTS
    }

    /// Creates a driver around the given bus collaborators, at angle zero
    /// with no accumulated turns, no timestamp seen, and a zero velocity
    /// estimate (a zero count delta over the fallback elapsed time).
    pub fn new(spi: SPI, cs: CS) -> (r: Self)
        ensures
            r@.turns == 0,
            r@.angle == 0,
            r@.angle_prev == 0,
            r@.velocity == (Velocity {
                delta_counts: 0,
                elapsed: Elapsed::FallbackMillisecond,
            }),
            r@.prev_ns == 0,
            r.wf(),
    {
        MT6701Spi {
            spi,
            cs,
            turns: 0,
            angle: 0,
            angle_prev: 0,
            velocity: Velocity { delta_counts: 0, elapsed: Elapsed::FallbackMillisecond },
            prev_ns: 0,
        }
    }

    /// Establishes the idle bus state by driving the chip-select line high.
    /// Computes nothing and never touches the estimator state; fails with a
    /// line-control fault if the transition fails.
    pub fn init(&mut self) -> (r: Result<(), MT6701Error>)
        ensures
            final(self)@ == old(self)@,
            r matches Err(e) ==> e == MT6701Error::CsnError,
    {
        match self.cs.set_high() {
            Ok(()) => Ok(()),
            Err(()) => Err(MT6701Error::CsnError),
        }
    }

    /// Performs one bus transaction — select, transfer one frame, deselect —
    /// and decodes the 14-bit angle field from the returned frame. The
    /// estimator state is never touched. On a failed transfer the device is
    /// deselected again before the fault is surfaced.
    ///
    /// Which outcome arrives is the collaborators' choice, so the contract
    /// promises only what holds of every outcome: a returned sample lies
    /// within one turn, a transfer fault surfaces as `SpiError`, and a
    /// chip-select fault as `CsnError`.
    pub fn read_raw_angle(&mut self) -> (r: Result<u16, MT6701Error>)
        ensures
            final(self)@ == old(self)@,
            r matches Ok(raw) ==> raw < FULL_TURN_COUNTS,
    {
        if self.cs.set_low().is_err() {
            return Err(MT6701Error::CsnError);
        }
        let frame = match self.spi.transfer(0u16) {
            Ok(f) => f,
            Err(()) => {
                // Leave the device deselected; the transfer fault is what is
                // reported, whether or not the deselect succeeds.
                let _ = self.cs.set_high();
                return Err(MT6701Error::SpiError);
            },
        };
        if self.cs.set_high().is_err() {
            return Err(MT6701Error::CsnError);
        }
        Ok(extract_angle(frame))
    }

    /// The shared estimation step, on a sample already in hand: commits the
    /// new angle, steps the turn counter by the wraparound rule, and, when a
    /// timestamp is supplied (non-zero), refreshes the velocity estimate from
    /// the wrapped count delta and the elapsed time. Zero stands for "no
    /// timestamp available" and leaves the velocity untouched.
    ///
    /// The velocity delta is taken against the previous sample before it is
    /// overwritten, and the elapsed time against the previous timestamp, so
    /// the estimate always describes the step just committed.
    pub fn update_with_raw(&mut self, raw: u16, now_ns: u64)
        requires
            raw < FULL_TURN_COUNTS,
            old(self)@.turns > i64::MIN,
            old(self)@.turns < i64::MAX,
        ensures
            final(self)@.angle == raw,
            final(self)@.angle_prev == raw,
            final(self)@.turns == old(self)@.turns + turn_step(raw as int, old(self)@.angle_prev),
            final(self)@.prev_ns == now_ns,
            now_ns == 0 ==> final(self)@.velocity == old(self)@.velocity,
            now_ns > 0 ==> (final(self)@.velocity.delta_counts == raw - old(self)@.angle_prev
                && final(self)@.velocity.elapsed == elapsed_between(
                old(self)@.prev_ns,
                now_ns as int,
            )),
            final(self).wf(),
    {
        self.angle = raw;
        let delta: i32 = self.angle as i32 - self.angle_prev as i32;
        if delta > WRAP_THRESHOLD_COUNTS as i32 {
            self.turns = self.turns - 1;
        } else if delta < -(WRAP_THRESHOLD_COUNTS as i32) {
            self.turns = self.turns + 1;
        }
        if now_ns > 0 {
            self.cal_velocity(now_ns);
        }
        self.angle_prev = self.angle;
        self.prev_ns = now_ns;
    }

    /// One polling cycle: reads a sample over the bus and, on success, runs
    /// the estimation step on it with the supplied timestamp (zero for "no
    /// timestamp available"). On any bus or line fault the error is
    /// propagated unchanged and every estimator field is exactly as before
    /// the call: no partial commit.
    ///
    /// Whether the read succeeds is the bus collaborators' choice; the
    /// contract states the outcome for every answer they can give. On
    /// success, the committed angle is the returned sample, so the clauses
    /// speak of the new state's own angle.
    pub fn update(&mut self, ts_ns: u64) -> (r: Result<(), MT6701Error>)
        requires
            old(self)@.turns > i64::MIN,
            old(self)@.turns < i64::MAX,
        ensures
            r matches Err(_) ==> final(self)@ == old(self)@,
            r matches Ok(_) ==> final(self)@.angle < FULL_TURN_COUNTS,
            r matches Ok(_) ==> final(self)@.angle_prev == final(self)@.angle,
            r matches Ok(_) ==> final(self)@.turns == old(self)@.turns + turn_step(
                final(self)@.angle,
                old(self)@.angle_prev,
            ),
            r matches Ok(_) ==> final(self)@.prev_ns == ts_ns,
            r matches Ok(_) && ts_ns == 0 ==> final(self)@.velocity == old(self)@.velocity,
            r matches Ok(_) && ts_ns > 0 ==> (final(self)@.velocity.delta_counts == final(self)@.angle
                - old(self)@.angle_prev && final(self)@.velocity.elapsed == elapsed_between(
                old(self)@.prev_ns,
                ts_ns as int,
            )),
            r matches Ok(_) ==> final(self).wf(),
    {
        let raw = match self.read_raw_angle() {
            Ok(v) => v,
            Err(e) => {
                return Err(e);
            },
        };
        self.update_with_raw(raw, ts_ns);
        Ok(())
    }

    /// The current single-turn angle, in counts within `[0, 16384)`.
    pub fn get_angle(&self) -> (r: u16)
        ensures
            r == self@.angle,
    {
        self.angle
    }

    /// The accumulated turn count.
    pub fn get_turns(&self) -> (r: i64)
        ensures
            r == self@.turns,
    {
        self.turns
    }

    /// The continuous multi-turn position: always rebuilt from the current
    /// turn count and angle, never held in a field of its own, so it can
    /// never disagree with them.
    pub fn get_position(&self) -> (r: Position)
        ensures
            r.turns == self@.turns,
            r.angle == self@.angle,
    {
        Position { turns: self.turns, angle: self.angle }
    }

    /// The velocity estimate from the last timestamped update.
    pub fn get_velocity(&self) -> (r: Velocity)
        ensures
            r == self@.velocity,
    {
        self.velocity
    }

    /// Refreshes the velocity estimate: the count delta between the newly
    /// committed sample and the previous one, over the elapsed time since the
    /// previous timestamp (with the one-millisecond fallback when the
    /// timestamps are non-increasing).
    fn cal_velocity(&mut self, now_ns: u64)
        ensures
            final(self)@.turns == old(self)@.turns,
            final(self)@.angle == old(self)@.angle,
            final(self)@.angle_prev == old(self)@.angle_prev,
            final(self)@.prev_ns == old(self)@.prev_ns,
            final(self)@.velocity.delta_counts == old(self)@.angle - old(self)@.angle_prev,
            final(self)@.velocity.elapsed == elapsed_between(old(self)@.prev_ns, now_ns as int),
    {
        let delta_counts: i32 = self.angle as i32 - self.angle_prev as i32;
        let elapsed = if now_ns > self.prev_ns {
            Elapsed::Nanoseconds(now_ns - self.prev_ns)
        } else {
            Elapsed::FallbackMillisecond
        };
        self.velocity = Velocity { delta_counts, elapsed };
    }
}

} // verus!
