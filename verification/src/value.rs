//! Types and constant values of the shader language.

use vstd::prelude::*;
use vstd::string::*;
use crate::text::{decimal_digits, hex_digits, push_decimal, push_hex};

verus! {

/// The type of one component.
#[derive(Clone, Copy, Debug, PartialEq, Eq, Structural, Hash)]
pub enum ScalarType {
    /// `bool`
    Bool,
    /// `f32`
    Float,
    /// `i32`
    Int,
    /// `u32`
    Uint,
}

/// The number of components of a vector.
#[derive(Clone, Copy, Debug, PartialEq, Eq, Structural, Hash)]
pub enum Width {
    /// Two components.
    Two,
    /// Three components.
    Three,
    /// Four components.
    Four,
}

/// The type of a value: a scalar, or a vector of two to four components.
#[derive(Clone, Copy, Debug, PartialEq, Eq, Structural, Hash)]
pub enum ValueType {
    /// A single component.
    Scalar(ScalarType),
    /// Several components of one scalar type.
    Vector(ScalarType, Width),
}

impl ScalarType {
    /// The name of the type in shader source.
    pub open spec fn name_spec(self) -> Seq<char> {
        match self {
            ScalarType::Bool => "bool"@,
            ScalarType::Float => "f32"@,
            ScalarType::Int => "i32"@,
            ScalarType::Uint => "u32"@,
        }
    }

    /// The name of the type in shader source.
    pub fn name(self) -> (r: &'static str)
        ensures
            r@ == self.name_spec(),
    {
        match self {
            ScalarType::Bool => "bool",
            ScalarType::Float => "f32",
            ScalarType::Int => "i32",
            ScalarType::Uint => "u32",
        }
    }

    /// Whether arithmetic is defined on the type.
    pub open spec fn is_numeric_spec(self) -> bool {
        self != ScalarType::Bool
    }

    /// Whether arithmetic is defined on the type.
    pub fn is_numeric(self) -> (r: bool)
        ensures
            r == self.is_numeric_spec(),
    {
        match self {
            ScalarType::Bool => false,
            _ => true,
        }
    }
}

impl Width {
    /// The number of components.
    pub open spec fn count_spec(self) -> nat {
        match self {
            Width::Two => 2,
            Width::Three => 3,
            Width::Four => 4,
        }
    }

    /// The number of components.
    pub fn count(self) -> (r: usize)
        ensures
            r == self.count_spec(),
    {
        match self {
            Width::Two => 2,
            Width::Three => 3,
            Width::Four => 4,
        }
    }

    /// The vector prefix in shader source.
    pub open spec fn name_spec(self) -> Seq<char> {
        match self {
            Width::Two => "vec2"@,
            Width::Three => "vec3"@,
            Width::Four => "vec4"@,
        }
    }

    /// The vector prefix in shader source.
    pub fn name(self) -> (r: &'static str)
        ensures
            r@ == self.name_spec(),
    {
        match self {
            Width::Two => "vec2",
            Width::Three => "vec3",
            Width::Four => "vec4",
        }
    }
}

impl ValueType {
    /// The number of components: 1 for a scalar.
    pub open spec fn components_spec(self) -> nat {
        match self {
            ValueType::Scalar(_) => 1,
            ValueType::Vector(_, w) => w.count_spec(),
        }
    }

    /// The type of each component.
    pub open spec fn scalar_spec(self) -> ScalarType {
        match self {
            ValueType::Scalar(t) => t,
            ValueType::Vector(t, _) => t,
        }
    }

    /// Size in bytes in a GPU structure: 4 for one component, 8 for two, 16
    /// for three or four.
    pub open spec fn size_spec(self) -> nat {
        if self.components_spec() == 1 {
            4
        } else if self.components_spec() == 2 {
            8
        } else {
            16
        }
    }

    /// Alignment in bytes in a GPU structure; it equals the size.
    pub open spec fn align_spec(self) -> nat {
        self.size_spec()
    }

    /// Size and alignment are equal, and one of 4, 8 and 16.
    pub proof fn lemma_size_align(self)
        ensures
            self.size_spec() == self.align_spec(),
            self.size_spec() == 4 || self.size_spec() == 8 || self.size_spec() == 16,
    {
    }

    /// The type of each component.
    pub fn scalar(self) -> (r: ScalarType)
        ensures
            r == self.scalar_spec(),
    {
        match self {
            ValueType::Scalar(t) => t,
            ValueType::Vector(t, _) => t,
        }
    }

    /// Whether the type is a scalar.
    pub fn is_scalar(self) -> (r: bool)
        ensures
            r == (self is Scalar),
    {
        match self {
            ValueType::Scalar(_) => true,
            ValueType::Vector(_, _) => false,
        }
    }

    /// Size in bytes in a GPU structure.
    pub fn size(self) -> (r: u32)
        ensures
            r == self.size_spec(),
            r == 4 || r == 8 || r == 16,
    {
        match self {
            ValueType::Scalar(_) => 4,
            ValueType::Vector(_, Width::Two) => 8,
            ValueType::Vector(_, _) => 16,
        }
    }

    /// Alignment in bytes in a GPU structure.
    pub fn align(self) -> (r: u32)
        ensures
            r == self.align_spec(),
            r == 4 || r == 8 || r == 16,
    {
        self.size()
    }

    /// The name of the type in shader source, such as `vec3<f32>`.
    pub open spec fn name_spec(self) -> Seq<char> {
        match self {
            ValueType::Scalar(t) => t.name_spec(),
            ValueType::Vector(t, w) => w.name_spec() + "<"@ + t.name_spec() + ">"@,
        }
    }

    /// Appends the name of the type in shader source.
    pub fn push_name(self, out: &mut String)
        ensures
            final(out)@ == old(out)@ + self.name_spec(),
    {
        match self {
            ValueType::Scalar(t) => {
                out.append(t.name());
            },
            ValueType::Vector(t, w) => {
                out.append(w.name());
                out.append("<");
                out.append(t.name());
                out.append(">");
                assert(final(out)@ =~= old(out)@ + self.name_spec());
            },
        }
    }
}

/// A constant of one component. A float is held as its IEEE-754 bits.
#[derive(Clone, Copy, Debug, PartialEq, Eq, Structural, Hash)]
pub enum ScalarValue {
    /// A boolean.
    Bool(bool),
    /// A 32-bit float, as its bit pattern.
    Float(u32),
    /// A signed integer.
    Int(i32),
    /// An unsigned integer.
    Uint(u32),
}

/// The text of one 32-bit lane of type `t` holding the bits `bits`.
///
/// Floats and signed integers are written as a `bitcast` of their bit
/// pattern, which is exact; a boolean lane is true when any bit is set.
pub open spec fn lane_text(t: ScalarType, bits: u32) -> Seq<char> {
    match t {
        ScalarType::Bool => if bits != 0 {
            "true"@
        } else {
            "false"@
        },
        ScalarType::Float => "bitcast<f32>(0x"@ + hex_digits(bits as nat, 8) + "u)"@,
        ScalarType::Int => "bitcast<i32>(0x"@ + hex_digits(bits as nat, 8) + "u)"@,
        ScalarType::Uint => decimal_digits(bits as nat) + "u"@,
    }
}

/// Appends the text of one lane.
pub fn push_lane(out: &mut String, t: ScalarType, bits: u32)
    ensures
        final(out)@ == old(out)@ + lane_text(t, bits),
{
    match t {
        ScalarType::Bool => {
            if bits != 0 {
                out.append("true");
            } else {
                out.append("false");
            }
        },
        ScalarType::Float => {
            out.append("bitcast<f32>(0x");
            push_hex(out, bits as u64, 8);
            out.append("u)");
            assert(final(out)@ =~= old(out)@ + lane_text(t, bits));
        },
        ScalarType::Int => {
            out.append("bitcast<i32>(0x");
            push_hex(out, bits as u64, 8);
            out.append("u)");
            assert(final(out)@ =~= old(out)@ + lane_text(t, bits));
        },
        ScalarType::Uint => {
            push_decimal(out, bits);
            out.append("u");
            assert(final(out)@ =~= old(out)@ + lane_text(t, bits));
        },
    }
}

impl ScalarValue {
    /// The type of the constant.
    pub open spec fn scalar_type_spec(self) -> ScalarType {
        match self {
            ScalarValue::Bool(_) => ScalarType::Bool,
            ScalarValue::Float(_) => ScalarType::Float,
            ScalarValue::Int(_) => ScalarType::Int,
            ScalarValue::Uint(_) => ScalarType::Uint,
        }
    }

    /// The 32-bit lane that holds the constant.
    pub open spec fn bits_spec(self) -> u32 {
        match self {
            ScalarValue::Bool(b) => if b {
                1u32
            } else {
                0u32
            },
            ScalarValue::Float(bits) => bits,
            ScalarValue::Int(i) => i as u32,
            ScalarValue::Uint(u) => u,
        }
    }

    /// The type of the constant.
    pub fn scalar_type(self) -> (r: ScalarType)
        ensures
            r == self.scalar_type_spec(),
    {
        match self {
            ScalarValue::Bool(_) => ScalarType::Bool,
            ScalarValue::Float(_) => ScalarType::Float,
            ScalarValue::Int(_) => ScalarType::Int,
            ScalarValue::Uint(_) => ScalarType::Uint,
        }
    }

    /// The 32-bit lane that holds the constant.
    pub fn bits(self) -> (r: u32)
        ensures
            r == self.bits_spec(),
    {
        match self {
            ScalarValue::Bool(b) => if b {
                1
            } else {
                0
            },
            ScalarValue::Float(bits) => bits,
            ScalarValue::Int(i) => #[verifier::truncate]
            (i as u32),
            ScalarValue::Uint(u) => u,
        }
    }
}

/// A constant vector of two to four lanes of one scalar type.
#[derive(Clone, Copy, Debug, PartialEq, Eq, Hash)]
pub struct VectorValue {
    /// The type of each lane.
    pub elem: ScalarType,
    /// The number of lanes in use.
    pub width: Width,
    /// The lanes; those beyond `width` are ignored.
    pub lanes: [u32; 4],
}

impl VectorValue {
    /// A vector of two lanes.
    pub fn vec2(elem: ScalarType, x: u32, y: u32) -> (r: Self)
        ensures
            r.elem == elem,
            r.width == Width::Two,
            r.lanes@ == seq![x, y, 0u32, 0u32],
    {
        let r = VectorValue { elem, width: Width::Two, lanes: [x, y, 0, 0] };
        assert(r.lanes@ =~= seq![x, y, 0u32, 0u32]);
        r
    }

    /// A vector of three lanes.
    pub fn vec3(elem: ScalarType, x: u32, y: u32, z: u32) -> (r: Self)
        ensures
            r.elem == elem,
            r.width == Width::Three,
            r.lanes@ == seq![x, y, z, 0u32],
    {
        let r = VectorValue { elem, width: Width::Three, lanes: [x, y, z, 0] };
        assert(r.lanes@ =~= seq![x, y, z, 0u32]);
        r
    }

    /// A vector of four lanes.
    pub fn vec4(elem: ScalarType, x: u32, y: u32, z: u32, w: u32) -> (r: Self)
        ensures
            r.elem == elem,
            r.width == Width::Four,
            r.lanes@ == seq![x, y, z, w],
    {
        let r = VectorValue { elem, width: Width::Four, lanes: [x, y, z, w] };
        assert(r.lanes@ =~= seq![x, y, z, w]);
        r
    }

    /// The texts of the first `n` lanes, separated by commas.
    pub open spec fn lanes_text(self, n: nat) -> Seq<char>
        decreases n,
    {
        if n == 0 {
            Seq::empty()
        } else if n == 1 {
            lane_text(self.elem, self.lanes@[0])
        } else {
            self.lanes_text((n - 1) as nat) + ","@ + lane_text(self.elem, self.lanes@[n - 1])
        }
    }
}

/// A constant: a scalar or a vector.
#[derive(Clone, Copy, Debug, PartialEq, Eq, Hash)]
pub enum Value {
    /// A single component.
    Scalar(ScalarValue),
    /// A vector.
    Vector(VectorValue),
}

impl Value {
    /// The type of the constant.
    pub open spec fn value_type_spec(self) -> ValueType {
        match self {
            Value::Scalar(s) => ValueType::Scalar(s.scalar_type_spec()),
            Value::Vector(v) => ValueType::Vector(v.elem, v.width),
        }
    }

    /// The type of the constant.
    pub fn value_type(&self) -> (r: ValueType)
        ensures
            r == self.value_type_spec(),
    {
        match self {
            Value::Scalar(s) => ValueType::Scalar(s.scalar_type()),
            Value::Vector(v) => ValueType::Vector(v.elem, v.width),
        }
    }

    /// The constant in shader source: a lane for a scalar, a constructor
    /// call such as `vec2<u32>(1u,2u)` for a vector.
    pub open spec fn text_spec(self) -> Seq<char> {
        match self {
            Value::Scalar(s) => lane_text(s.scalar_type_spec(), s.bits_spec()),
            Value::Vector(v) => ValueType::Vector(v.elem, v.width).name_spec() + "("@
                + v.lanes_text(v.width.count_spec()) + ")"@,
        }
    }

    /// Appends the constant in shader source.
    pub fn push_text(&self, out: &mut String)
        ensures
            final(out)@ == old(out)@ + self.text_spec(),
    {
        match self {
            Value::Scalar(s) => {
                push_lane(out, s.scalar_type(), s.bits());
            },
            Value::Vector(v) => {
                ValueType::Vector(v.elem, v.width).push_name(out);
                out.append("(");
                let ghost start = out@;
                let n: usize = v.width.count();
                let mut i: usize = 0;
                while i < n
                    invariant
                        i <= n,
                        2 <= n <= 4,
                        out@ == start + v.lanes_text(i as nat),
                    decreases n - i,
                {
                    if i > 0 {
                        out.append(",");
                    }
                    push_lane(out, v.elem, v.lanes[i]);
                    i += 1;
                    assert(out@ =~= start + v.lanes_text(i as nat));
                }
                out.append(")");
                assert(final(out)@ =~= old(out)@ + self.text_spec());
            },
        }
    }
}

} // verus!
