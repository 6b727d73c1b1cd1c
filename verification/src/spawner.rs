//! When and how many particles an effect emits.

use vstd::prelude::*;

verus! {

/// The bits of the float 0.
pub const ZERO_BITS: u32 = 0;

/// The bits of the float 1.
pub const ONE_BITS: u32 = 0x3F80_0000;

/// The bits of positive infinity.
pub const INFINITY_BITS: u32 = 0x7F80_0000;

/// A float chosen on the CPU: one value, or a value drawn from a range each
/// time it is needed. Floats are held as their bits.
#[derive(Clone, Copy, Debug, PartialEq, Eq, Structural, Hash)]
pub enum CpuValue {
    /// Always the same value.
    Single(u32),
    /// A value between the two bounds.
    Uniform(u32, u32),
}

/// The emission of particles: how many are spawned, over which time, and how
/// often. Spawners emit into group 0.
#[derive(Clone, Copy, Debug, PartialEq, Eq, Structural, Hash)]
pub struct Spawner {
    /// Number of particles to spawn over `spawn_time`.
    pub num_particles: CpuValue,
    /// Time over which the particles are spawned, in seconds.
    pub spawn_time: CpuValue,
    /// Time between the starts of two bursts, in seconds.
    pub period: CpuValue,
    /// Whether the spawner is active when the effect starts.
    pub starts_active: bool,
    /// Whether the first burst happens at once.
    pub starts_immediately: bool,
}

impl Spawner {
    /// A spawner that emits `count` particles once.
    pub fn once(count: CpuValue, spawn_immediately: bool) -> (r: Spawner)
        ensures
            r == (Spawner {
                num_particles: count,
                spawn_time: CpuValue::Single(ZERO_BITS),
                period: CpuValue::Single(INFINITY_BITS),
                starts_active: true,
                starts_immediately: spawn_immediately,
            }),
    {
        Spawner {
            num_particles: count,
            spawn_time: CpuValue::Single(ZERO_BITS),
            period: CpuValue::Single(INFINITY_BITS),
            starts_active: true,
            starts_immediately: spawn_immediately,
        }
    }

    /// A spawner that emits `rate` particles each second, without pause.
    pub fn rate(rate: CpuValue) -> (r: Spawner)
        ensures
            r == (Spawner {
                num_particles: rate,
                spawn_time: CpuValue::Single(ONE_BITS),
                period: CpuValue::Single(ONE_BITS),
                starts_active: true,
                starts_immediately: true,
            }),
    {
        Spawner {
            num_particles: rate,
            spawn_time: CpuValue::Single(ONE_BITS),
            period: CpuValue::Single(ONE_BITS),
            starts_active: true,
            starts_immediately: true,
        }
    }

    /// A spawner that emits `count` particles at once, every `period`.
    pub fn burst(count: CpuValue, period: CpuValue) -> (r: Spawner)
        ensures
            r == (Spawner {
                num_particles: count,
                spawn_time: CpuValue::Single(ZERO_BITS),
                period,
                starts_active: true,
                starts_immediately: true,
            }),
    {
        Spawner {
            num_particles: count,
            spawn_time: CpuValue::Single(ZERO_BITS),
            period,
            starts_active: true,
            starts_immediately: true,
        }
    }

    /// The same spawner, active at the start or not.
    pub fn with_starts_active(self, starts_active: bool) -> (r: Spawner)
        ensures
            r == (Spawner { starts_active, ..self }),
    {
        Spawner { starts_active, ..self }
    }
}

impl Default for Spawner {
    /// A spawner that emits nothing: no particles, once, inactive.
    fn default() -> (r: Spawner)
        ensures
            r == (Spawner {
                num_particles: CpuValue::Single(ZERO_BITS),
                spawn_time: CpuValue::Single(ZERO_BITS),
                period: CpuValue::Single(INFINITY_BITS),
                starts_active: false,
                starts_immediately: false,
            }),
    {
        Spawner {
            num_particles: CpuValue::Single(ZERO_BITS),
            spawn_time: CpuValue::Single(ZERO_BITS),
            period: CpuValue::Single(INFINITY_BITS),
            starts_active: false,
            starts_immediately: false,
        }
    }
}

} // verus!
