//! The catalog of per-particle attributes.

use vstd::prelude::*;
use crate::value::{ScalarType, ValueType, Width};

verus! {

/// Number of attributes in the catalog.
pub const ATTRIBUTE_COUNT: u32 = 12;

/// A named, typed field of a particle. The catalog is fixed; an attribute is
/// identified by its name.
#[derive(Clone, Copy, Debug, PartialEq, Eq, Structural, Hash)]
pub enum Attribute {
    /// Position of the particle, `vec3<f32>`.
    Position,
    /// Velocity of the particle, `vec3<f32>`.
    Velocity,
    /// Time since the particle was spawned, in seconds.
    Age,
    /// Time after which the particle dies, in seconds.
    Lifetime,
    /// Color packed into four 8-bit channels.
    Color,
    /// Color with one float per channel.
    HdrColor,
    /// Opacity.
    Alpha,
    /// Uniform size.
    Size,
    /// Size along the two axes of the quad.
    Size2,
    /// First axis of the particle's frame.
    AxisX,
    /// Second axis of the particle's frame.
    AxisY,
    /// Third axis of the particle's frame.
    AxisZ,
}

impl Attribute {
    /// The position attribute.
    pub const POSITION: Attribute = Attribute::Position;

    /// The velocity attribute.
    pub const VELOCITY: Attribute = Attribute::Velocity;

    /// The age attribute.
    pub const AGE: Attribute = Attribute::Age;

    /// The lifetime attribute.
    pub const LIFETIME: Attribute = Attribute::Lifetime;

    /// The packed color attribute.
    pub const COLOR: Attribute = Attribute::Color;

    /// The float color attribute.
    pub const HDR_COLOR: Attribute = Attribute::HdrColor;

    /// The opacity attribute.
    pub const ALPHA: Attribute = Attribute::Alpha;

    /// The uniform size attribute.
    pub const SIZE: Attribute = Attribute::Size;

    /// The two-axis size attribute.
    pub const SIZE2: Attribute = Attribute::Size2;

    /// The first frame axis.
    pub const AXIS_X: Attribute = Attribute::AxisX;

    /// The second frame axis.
    pub const AXIS_Y: Attribute = Attribute::AxisY;

    /// The third frame axis.
    pub const AXIS_Z: Attribute = Attribute::AxisZ;

    /// The name of the attribute, which is also the name of its field in the
    /// particle structure.
    pub open spec fn name_spec(self) -> Seq<char> {
        match self {
            Attribute::Position => "position"@,
            Attribute::Velocity => "velocity"@,
            Attribute::Age => "age"@,
            Attribute::Lifetime => "lifetime"@,
            Attribute::Color => "color"@,
            Attribute::HdrColor => "hdr_color"@,
            Attribute::Alpha => "alpha"@,
            Attribute::Size => "size"@,
            Attribute::Size2 => "size2"@,
            Attribute::AxisX => "axis_x"@,
            Attribute::AxisY => "axis_y"@,
            Attribute::AxisZ => "axis_z"@,
        }
    }

    /// The type of the attribute.
    pub open spec fn value_type_spec(self) -> ValueType {
        match self {
            Attribute::Position => ValueType::Vector(ScalarType::Float, Width::Three),
            Attribute::Velocity => ValueType::Vector(ScalarType::Float, Width::Three),
            Attribute::Age => ValueType::Scalar(ScalarType::Float),
            Attribute::Lifetime => ValueType::Scalar(ScalarType::Float),
            Attribute::Color => ValueType::Scalar(ScalarType::Uint),
            Attribute::HdrColor => ValueType::Vector(ScalarType::Float, Width::Four),
            Attribute::Alpha => ValueType::Scalar(ScalarType::Float),
            Attribute::Size => ValueType::Scalar(ScalarType::Float),
            Attribute::Size2 => ValueType::Vector(ScalarType::Float, Width::Two),
            Attribute::AxisX => ValueType::Vector(ScalarType::Float, Width::Three),
            Attribute::AxisY => ValueType::Vector(ScalarType::Float, Width::Three),
            Attribute::AxisZ => ValueType::Vector(ScalarType::Float, Width::Three),
        }
    }

    /// The position of the attribute in the catalog.
    pub open spec fn id_spec(self) -> u32 {
        match self {
            Attribute::Position => 0,
            Attribute::Velocity => 1,
            Attribute::Age => 2,
            Attribute::Lifetime => 3,
            Attribute::Color => 4,
            Attribute::HdrColor => 5,
            Attribute::Alpha => 6,
            Attribute::Size => 7,
            Attribute::Size2 => 8,
            Attribute::AxisX => 9,
            Attribute::AxisY => 10,
            Attribute::AxisZ => 11,
        }
    }

    /// The attribute at a position of the catalog.
    pub open spec fn from_id_spec(id: u32) -> Option<Attribute> {
        if id == 0 {
            Some(Attribute::Position)
        } else if id == 1 {
            Some(Attribute::Velocity)
        } else if id == 2 {
            Some(Attribute::Age)
        } else if id == 3 {
            Some(Attribute::Lifetime)
        } else if id == 4 {
            Some(Attribute::Color)
        } else if id == 5 {
            Some(Attribute::HdrColor)
        } else if id == 6 {
            Some(Attribute::Alpha)
        } else if id == 7 {
            Some(Attribute::Size)
        } else if id == 8 {
            Some(Attribute::Size2)
        } else if id == 9 {
            Some(Attribute::AxisX)
        } else if id == 10 {
            Some(Attribute::AxisY)
        } else if id == 11 {
            Some(Attribute::AxisZ)
        } else {
            None
        }
    }

    /// The name of the attribute.
    pub fn name(self) -> (r: &'static str)
        ensures
            r@ == self.name_spec(),
    {
        match self {
            Attribute::Position => "position",
            Attribute::Velocity => "velocity",
            Attribute::Age => "age",
            Attribute::Lifetime => "lifetime",
            Attribute::Color => "color",
            Attribute::HdrColor => "hdr_color",
            Attribute::Alpha => "alpha",
            Attribute::Size => "size",
            Attribute::Size2 => "size2",
            Attribute::AxisX => "axis_x",
            Attribute::AxisY => "axis_y",
            Attribute::AxisZ => "axis_z",
        }
    }

    /// The type of the attribute.
    pub fn value_type(self) -> (r: ValueType)
        ensures
            r == self.value_type_spec(),
    {
        match self {
            Attribute::Position => ValueType::Vector(ScalarType::Float, Width::Three),
            Attribute::Velocity => ValueType::Vector(ScalarType::Float, Width::Three),
            Attribute::Age => ValueType::Scalar(ScalarType::Float),
            Attribute::Lifetime => ValueType::Scalar(ScalarType::Float),
            Attribute::Color => ValueType::Scalar(ScalarType::Uint),
            Attribute::HdrColor => ValueType::Vector(ScalarType::Float, Width::Four),
            Attribute::Alpha => ValueType::Scalar(ScalarType::Float),
            Attribute::Size => ValueType::Scalar(ScalarType::Float),
            Attribute::Size2 => ValueType::Vector(ScalarType::Float, Width::Two),
            Attribute::AxisX => ValueType::Vector(ScalarType::Float, Width::Three),
            Attribute::AxisY => ValueType::Vector(ScalarType::Float, Width::Three),
            Attribute::AxisZ => ValueType::Vector(ScalarType::Float, Width::Three),
        }
    }

    /// The position of the attribute in the catalog.
    pub fn id(self) -> (r: u32)
        ensures
            r == self.id_spec(),
            r < ATTRIBUTE_COUNT,
            Attribute::from_id_spec(r) == Some(self),
    {
        match self {
            Attribute::Position => 0,
            Attribute::Velocity => 1,
            Attribute::Age => 2,
            Attribute::Lifetime => 3,
            Attribute::Color => 4,
            Attribute::HdrColor => 5,
            Attribute::Alpha => 6,
            Attribute::Size => 7,
            Attribute::Size2 => 8,
            Attribute::AxisX => 9,
            Attribute::AxisY => 10,
            Attribute::AxisZ => 11,
        }
    }

    /// The attribute at position `id` of the catalog, if there is one.
    pub fn from_id(id: u32) -> (r: Option<Attribute>)
        ensures
            r == Attribute::from_id_spec(id),
            r is Some <==> id < ATTRIBUTE_COUNT,
            r matches Some(a) ==> a.id_spec() == id,
    {
        if id == 0 {
            Some(Attribute::Position)
        } else if id == 1 {
            Some(Attribute::Velocity)
        } else if id == 2 {
            Some(Attribute::Age)
        } else if id == 3 {
            Some(Attribute::Lifetime)
        } else if id == 4 {
            Some(Attribute::Color)
        } else if id == 5 {
            Some(Attribute::HdrColor)
        } else if id == 6 {
            Some(Attribute::Alpha)
        } else if id == 7 {
            Some(Attribute::Size)
        } else if id == 8 {
            Some(Attribute::Size2)
        } else if id == 9 {
            Some(Attribute::AxisX)
        } else if id == 10 {
            Some(Attribute::AxisY)
        } else if id == 11 {
            Some(Attribute::AxisZ)
        } else {
            None
        }
    }

    /// Different attributes have different names.
    pub proof fn lemma_name_identifies(a: Attribute, b: Attribute)
        requires
            a.name_spec() == b.name_spec(),
        ensures
            a == b,
    {
        reveal_strlit("position");
        reveal_strlit("velocity");
        reveal_strlit("age");
        reveal_strlit("lifetime");
        reveal_strlit("color");
        reveal_strlit("hdr_color");
        reveal_strlit("alpha");
        reveal_strlit("size");
        reveal_strlit("size2");
        reveal_strlit("axis_x");
        reveal_strlit("axis_y");
        reveal_strlit("axis_z");
        if a != b {
            let x = a.name_spec();
            let y = b.name_spec();
            if x.len() == y.len() {
                assert(x[0] != y[0] || x[1] != y[1] || x[5] != y[5]);
            }
        }
    }
}

} // verus!
