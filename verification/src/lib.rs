//! Authoring of GPU particle effects.
//!
//! An effect is described as an ordered list of modifiers per simulation
//! phase. Compiling it yields the memory layouts of its particles and
//! properties and the shader source of each phase. Floating-point quantities
//! are carried as IEEE-754 bit patterns throughout.

pub mod asset;
pub mod attribute;
pub mod attribute_set;
pub mod compile;
pub mod expr;
pub mod groups;
pub mod layout;
pub mod loader;
pub mod modifier;
pub mod particle_layout;
pub mod property;
pub mod spawner;
pub mod text;
pub mod value;
pub mod writer;

pub use crate::asset::{
    AlphaMode, AssetParts, ContractViolation, EffectAsset, MotionIntegration,
    SimulationCondition, SimulationSpace,
};
pub use crate::attribute::Attribute;
pub use crate::compile::CompiledEffect;
pub use crate::expr::{
    BinaryOperator, BuiltInOperator, Expr, ExprError, ExprHandle, Module, UnaryOperator,
};
pub use crate::groups::{ModifierContext, ParticleGroupSet};
pub use crate::layout::{Layout, LayoutEntry};
pub use crate::loader::{EffectAssetLoader, EffectAssetLoaderError};
pub use crate::modifier::clone::CloneModifier;
pub use crate::modifier::render::{
    ColorOverLifetimeModifier, OrientMode, OrientModifier, ParticleTextureModifier,
    RenderContext, RenderModifier, Rgba, SetColorModifier, SetSizeModifier,
    SizeOverLifetimeModifier,
};
pub use crate::modifier::{
    AccelModifier, ConformToSphereModifier, GroupedModifier, LinearDragModifier, Modifier,
    SetAttributeModifier, SetPositionSphereModifier, SetVelocitySphereModifier, ShapeDimension,
};
pub use crate::particle_layout::{ParticleLayout, ParticleLayoutBuilder};
pub use crate::property::{Property, PropertyLayout};
pub use crate::spawner::{CpuValue, Spawner};
pub use crate::value::{ScalarType, ScalarValue, Value, ValueType, VectorValue, Width};
pub use crate::writer::{FunctionBuilder, GeneratedFunction, ShaderWriter};
