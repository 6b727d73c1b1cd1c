//! Bit sets: the phases a modifier may run in, and the particle groups it
//! applies to.

use vstd::prelude::*;

verus! {

/// Number of particle groups an effect can address.
pub const MAX_GROUPS: u32 = 32;

/// A set of particle groups with indices below [`MAX_GROUPS`], one bit per
/// group.
#[derive(Clone, Copy, Debug, PartialEq, Eq, Structural, Hash)]
pub struct ParticleGroupSet {
    /// Bit `i` is set when group `i` is a member.
    pub mask: u32,
}

impl ParticleGroupSet {
    /// Whether group `index` is a member.
    pub open spec fn has(self, index: u32) -> bool {
        index < 32 && (self.mask >> index) & 1u32 == 1u32
    }

    /// The set without groups.
    pub fn none() -> (r: Self)
        ensures
            r.mask == 0,
            forall|i: u32| !r.has(i),
    {
        assert forall|i: u32| i < 32 implies (0u32 >> i) & 1u32 != 1u32 by {
            assert((0u32 >> i) & 1u32 != 1u32) by (bit_vector);
        }
        ParticleGroupSet { mask: 0 }
    }

    /// The set of all groups.
    pub fn all() -> (r: Self)
        ensures
            r.mask == 0xFFFF_FFFFu32,
            forall|i: u32| r.has(i) <==> i < 32,
    {
        assert forall|i: u32| i < 32 implies (0xFFFF_FFFFu32 >> i) & 1u32 == 1u32 by {
            assert(i < 32 ==> (0xFFFF_FFFFu32 >> i) & 1u32 == 1u32) by (bit_vector);
        }
        ParticleGroupSet { mask: 0xFFFF_FFFF }
    }

    /// The set that holds group `index` alone.
    pub fn single(index: u32) -> (r: Self)
        requires
            index < MAX_GROUPS,
        ensures
            r.mask == 1u32 << index,
            forall|i: u32| r.has(i) <==> i == index,
    {
        assert forall|i: u32| i < 32 implies (((1u32 << index) >> i) & 1u32 == 1u32 <==> i
            == index) by {
            assert(i < 32 && index < 32 ==> (((1u32 << index) >> i) & 1u32 == 1u32 <==> i
                == index)) by (bit_vector);
        }
        ParticleGroupSet { mask: 1u32 << index }
    }

    /// Whether group `index` is a member; no group at or above
    /// [`MAX_GROUPS`] is.
    pub fn contains(&self, index: u32) -> (r: bool)
        ensures
            r == self.has(index),
    {
        index < 32 && (self.mask >> index) & 1 == 1
    }

    /// The groups that are in either set.
    pub fn union(self, other: ParticleGroupSet) -> (r: Self)
        ensures
            r.mask == self.mask | other.mask,
            forall|i: u32| r.has(i) <==> self.has(i) || other.has(i),
    {
        let a = self.mask;
        let b = other.mask;
        assert forall|i: u32| i < 32 implies ((((a | b) >> i) & 1u32 == 1u32) <==> ((a >> i) & 1u32
            == 1u32 || (b >> i) & 1u32 == 1u32)) by {
            assert(i < 32 ==> ((((a | b) >> i) & 1u32 == 1u32) <==> ((a >> i) & 1u32 == 1u32 || (b
                >> i) & 1u32 == 1u32))) by (bit_vector);
        }
        ParticleGroupSet { mask: a | b }
    }
}

/// A set of simulation phases: the phases in which a modifier may run.
///
/// The three phases are init, which sets up a newly spawned particle, update,
/// which runs each frame, and render.
#[derive(Clone, Copy, Debug, PartialEq, Eq, Structural, Hash)]
pub enum ModifierContext {
    /// No phase.
    Empty,
    /// The init phase.
    Init,
    /// The update phase.
    Update,
    /// The init and update phases.
    InitUpdate,
    /// The render phase.
    Render,
    /// The init and render phases.
    InitRender,
    /// The update and render phases.
    UpdateRender,
    /// All three phases.
    All,
}

impl ModifierContext {
    /// The set as bits: bit 0 stands for init, bit 1 for update, bit 2 for
    /// render.
    pub open spec fn bits_spec(self) -> u8 {
        match self {
            ModifierContext::Empty => 0,
            ModifierContext::Init => 1,
            ModifierContext::Update => 2,
            ModifierContext::InitUpdate => 3,
            ModifierContext::Render => 4,
            ModifierContext::InitRender => 5,
            ModifierContext::UpdateRender => 6,
            ModifierContext::All => 7,
        }
    }

    /// Whether the init phase is in the set.
    pub open spec fn has_init(self) -> bool {
        self == ModifierContext::Init || self == ModifierContext::InitUpdate || self
            == ModifierContext::InitRender || self == ModifierContext::All
    }

    /// Whether the update phase is in the set.
    pub open spec fn has_update(self) -> bool {
        self == ModifierContext::Update || self == ModifierContext::InitUpdate || self
            == ModifierContext::UpdateRender || self == ModifierContext::All
    }

    /// Whether the render phase is in the set.
    pub open spec fn has_render(self) -> bool {
        self == ModifierContext::Render || self == ModifierContext::InitRender || self
            == ModifierContext::UpdateRender || self == ModifierContext::All
    }

    /// Whether every phase of `other` is in `self`.
    pub open spec fn includes(self, other: ModifierContext) -> bool {
        &&& other.has_init() ==> self.has_init()
        &&& other.has_update() ==> self.has_update()
        &&& other.has_render() ==> self.has_render()
    }

    /// Whether the set holds exactly one phase.
    pub open spec fn is_phase(self) -> bool {
        self == ModifierContext::Init || self == ModifierContext::Update || self
            == ModifierContext::Render
    }

    /// The set made of the given phases.
    pub fn of(init: bool, update: bool, render: bool) -> (r: Self)
        ensures
            r.has_init() == init,
            r.has_update() == update,
            r.has_render() == render,
    {
        if init {
            if update {
                if render {
                    ModifierContext::All
                } else {
                    ModifierContext::InitUpdate
                }
            } else if render {
                ModifierContext::InitRender
            } else {
                ModifierContext::Init
            }
        } else if update {
            if render {
                ModifierContext::UpdateRender
            } else {
                ModifierContext::Update
            }
        } else if render {
            ModifierContext::Render
        } else {
            ModifierContext::Empty
        }
    }

    /// Whether the init phase is in the set.
    pub fn init(self) -> (r: bool)
        ensures
            r == self.has_init(),
    {
        match self {
            ModifierContext::Init => true,
            ModifierContext::InitUpdate => true,
            ModifierContext::InitRender => true,
            ModifierContext::All => true,
            _ => false,
        }
    }

    /// Whether the update phase is in the set.
    pub fn update(self) -> (r: bool)
        ensures
            r == self.has_update(),
    {
        match self {
            ModifierContext::Update => true,
            ModifierContext::InitUpdate => true,
            ModifierContext::UpdateRender => true,
            ModifierContext::All => true,
            _ => false,
        }
    }

    /// Whether the render phase is in the set.
    pub fn render(self) -> (r: bool)
        ensures
            r == self.has_render(),
    {
        match self {
            ModifierContext::Render => true,
            ModifierContext::InitRender => true,
            ModifierContext::UpdateRender => true,
            ModifierContext::All => true,
            _ => false,
        }
    }

    /// The set as bits.
    pub fn bits(self) -> (r: u8)
        ensures
            r == self.bits_spec(),
            r < 8,
    {
        match self {
            ModifierContext::Empty => 0,
            ModifierContext::Init => 1,
            ModifierContext::Update => 2,
            ModifierContext::InitUpdate => 3,
            ModifierContext::Render => 4,
            ModifierContext::InitRender => 5,
            ModifierContext::UpdateRender => 6,
            ModifierContext::All => 7,
        }
    }

    /// The set with the given bits; bits above the third are ignored.
    pub fn from_bits(bits: u8) -> (r: Self)
        ensures
            r.bits_spec() == bits % 8,
    {
        ModifierContext::of(bits % 2 == 1, (bits / 2) % 2 == 1, (bits / 4) % 2 == 1)
    }

    /// Whether every phase of `other` is in `self`.
    pub fn contains(&self, other: ModifierContext) -> (r: bool)
        ensures
            r == self.includes(other),
    {
        (!other.init() || self.init()) && (!other.update() || self.update()) && (!other.render()
            || self.render())
    }

    /// Whether the set holds exactly one phase.
    pub fn is_single(&self) -> (r: bool)
        ensures
            r == self.is_phase(),
    {
        match self {
            ModifierContext::Init => true,
            ModifierContext::Update => true,
            ModifierContext::Render => true,
            _ => false,
        }
    }

    /// The phases that are in either set.
    pub fn union(self, other: ModifierContext) -> (r: Self)
        ensures
            r.has_init() == (self.has_init() || other.has_init()),
            r.has_update() == (self.has_update() || other.has_update()),
            r.has_render() == (self.has_render() || other.has_render()),
    {
        ModifierContext::of(
            self.init() || other.init(),
            self.update() || other.update(),
            self.render() || other.render(),
        )
    }
}

} // verus!
