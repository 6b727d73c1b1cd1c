//! Modifiers: the operations that an effect is made of.
//!
//! A modifier declares the phases in which it may run and the attributes it
//! needs, and generates its code into the context of a phase.

use vstd::prelude::*;
use vstd::string::*;
use crate::attribute::Attribute;
use crate::expr::{eval_node, Expr, ExprError, ExprHandle, Module};
use crate::groups::{ModifierContext, ParticleGroupSet};
use crate::layout::EntryView;
use crate::modifier::clone::CloneModifier;
use crate::modifier::render::RenderModifier;
use crate::property::PropertyLayout;
use crate::value::{ScalarType, ScalarValue, Value, ValueType, VectorValue, Width};
use crate::writer::{ShaderWriter, WriterView};

pub mod clone;
pub mod render;

verus! {

/// The type `vec3<f32>`.
pub open spec fn float3() -> ValueType {
    ValueType::Vector(ScalarType::Float, Width::Three)
}

/// The type `f32`.
pub open spec fn float1() -> ValueType {
    ValueType::Scalar(ScalarType::Float)
}

/// The text of an expression that must have type `expected`: the error of
/// its evaluation, a type error where it has another type, its text
/// otherwise.
pub open spec fn typed_text(
    nodes: Seq<Expr>,
    properties: Seq<EntryView>,
    handle: ExprHandle,
    expected: ValueType,
) -> Result<Seq<char>, ExprError> {
    match eval_node(nodes, properties, handle.index - 1) {
        Err(e) => Err(e),
        Ok((t, text)) => if t == expected {
            Ok(text)
        } else {
            Err(ExprError::TypeError)
        },
    }
}

/// Evaluates an expression that must have type `expected`.
pub fn eval_typed(
    module: &Module,
    properties: &PropertyLayout,
    handle: ExprHandle,
    expected: ValueType,
) -> (r: Result<String, ExprError>)
    ensures
        match typed_text(module@, properties@.entries, handle, expected) {
            Ok(text) => r matches Ok(s) && s@ == text,
            Err(e) => r == Err::<String, ExprError>(e),
        },
{
    let t = match module.value_type(handle, properties) {
        Ok(t) => t,
        Err(e) => {
            return Err(e);
        },
    };
    if t != expected {
        return Err(ExprError::TypeError);
    }
    module.eval(handle, properties)
}

/// The context after code has been generated, where generation succeeded:
/// `code` is appended to the main code of `context`.
pub open spec fn with_code(context: WriterView, code: Result<Seq<char>, ExprError>) -> Result<
    WriterView,
    ExprError,
> {
    match code {
        Ok(text) => Ok(WriterView { main_code: context.main_code + text, ..context }),
        Err(e) => Err(e),
    }
}

/// Whether `context` has become `expected`, or has stayed as it was where
/// `expected` is an error, which `outcome` then reports.
pub open spec fn applied(
    outcome: Result<(), ExprError>,
    before: WriterView,
    after: WriterView,
    expected: Result<WriterView, ExprError>,
) -> bool {
    match expected {
        Ok(view) => outcome is Ok && after == view,
        Err(e) => outcome == Err::<(), ExprError>(e) && after == before,
    }
}

/// Sets an attribute of the particle to the value of an expression.
#[derive(Clone, Copy, Debug, PartialEq, Eq, Structural, Hash)]
pub struct SetAttributeModifier {
    /// The attribute to set.
    pub attribute: Attribute,
    /// The value to give it; it must have the type of the attribute.
    pub value: ExprHandle,
}

impl SetAttributeModifier {
    /// The assignment that the modifier generates.
    pub open spec fn code_spec(self, nodes: Seq<Expr>, properties: Seq<EntryView>) -> Result<
        Seq<char>,
        ExprError,
    > {
        match typed_text(nodes, properties, self.value, self.attribute.value_type_spec()) {
            Ok(text) => Ok("particle."@ + self.attribute.name_spec() + " = "@ + text + ";\n"@),
            Err(e) => Err(e),
        }
    }

    /// A modifier that sets `attribute` to `value`.
    pub fn new(attribute: Attribute, value: ExprHandle) -> (r: Self)
        ensures
            r.attribute == attribute,
            r.value == value,
    {
        SetAttributeModifier { attribute, value }
    }

    /// Generates the assignment into `context`.
    pub fn apply(&self, module: &mut Module, context: &mut ShaderWriter) -> (r: Result<
        (),
        ExprError,
    >)
        ensures
            final(module)@ == old(module)@,
            old(context).wf() ==> final(context).wf(),
            applied(
                r,
                old(context)@,
                final(context)@,
                with_code(
                    old(context)@,
                    self.code_spec(old(module)@, old(context)@.property_layout.entries),
                ),
            ),
    {
        let text = match eval_typed(
            module,
            context.property_layout(),
            self.value,
            self.attribute.value_type(),
        ) {
            Ok(text) => text,
            Err(e) => {
                return Err(e);
            },
        };
        let mut code = String::new();
        code.append("particle.");
        code.append(self.attribute.name());
        code.append(" = ");
        code.append(text.as_str());
        code.append(";\n");
        assert(code@ =~= "particle."@ + self.attribute.name_spec() + " = "@ + text@ + ";\n"@);
        context.append_main_code(code.as_str());
        Ok(())
    }
}

/// Whether a shape is filled or hollow.
#[derive(Clone, Copy, Debug, PartialEq, Eq, Structural, Hash)]
pub enum ShapeDimension {
    /// Points on the surface of the shape.
    Surface,
    /// Points inside the shape.
    Volume,
}

/// Places a new particle at a random point of a sphere.
#[derive(Clone, Copy, Debug, PartialEq, Eq, Structural, Hash)]
pub struct SetPositionSphereModifier {
    /// The center of the sphere, a `vec3<f32>`.
    pub center: ExprHandle,
    /// The radius of the sphere, an `f32`.
    pub radius: ExprHandle,
    /// Whether the point lies on or in the sphere.
    pub dimension: ShapeDimension,
}

impl SetPositionSphereModifier {
    /// The assignment that the modifier generates. The center is evaluated
    /// before the radius.
    pub open spec fn code_spec(self, nodes: Seq<Expr>, properties: Seq<EntryView>) -> Result<
        Seq<char>,
        ExprError,
    > {
        match typed_text(nodes, properties, self.center, float3()) {
            Err(e) => Err(e),
            Ok(center) => match typed_text(nodes, properties, self.radius, float1()) {
                Err(e) => Err(e),
                Ok(radius) => Ok(
                    "particle.position = ("@ + center + ") + rand_dir3() * ("@ + radius + (
                    match self.dimension {
                        ShapeDimension::Surface => ");\n"@,
                        ShapeDimension::Volume => ") * pow(frand(), 1.0 / 3.0);\n"@,
                    }),
                ),
            },
        }
    }

    /// Generates the assignment into `context`.
    pub fn apply(&self, module: &mut Module, context: &mut ShaderWriter) -> (r: Result<
        (),
        ExprError,
    >)
        ensures
            final(module)@ == old(module)@,
            old(context).wf() ==> final(context).wf(),
            applied(
                r,
                old(context)@,
                final(context)@,
                with_code(
                    old(context)@,
                    self.code_spec(old(module)@, old(context)@.property_layout.entries),
                ),
            ),
    {
        let center = match eval_typed(
            module,
            context.property_layout(),
            self.center,
            ValueType::Vector(ScalarType::Float, Width::Three),
        ) {
            Ok(text) => text,
            Err(e) => {
                return Err(e);
            },
        };
        let radius = match eval_typed(
            module,
            context.property_layout(),
            self.radius,
            ValueType::Scalar(ScalarType::Float),
        ) {
            Ok(text) => text,
            Err(e) => {
                return Err(e);
            },
        };
        let mut code = String::new();
        code.append("particle.position = (");
        code.append(center.as_str());
        code.append(") + rand_dir3() * (");
        code.append(radius.as_str());
        match self.dimension {
            ShapeDimension::Surface => {
                code.append(");\n");
            },
            ShapeDimension::Volume => {
                code.append(") * pow(frand(), 1.0 / 3.0);\n");
            },
        }
        assert(Ok::<Seq<char>, ExprError>(code@) =~~= self.code_spec(
            module@,
            context@.property_layout.entries,
        ));
        context.append_main_code(code.as_str());
        Ok(())
    }
}

/// Gives a new particle a velocity that points away from a center.
#[derive(Clone, Copy, Debug, PartialEq, Eq, Structural, Hash)]
pub struct SetVelocitySphereModifier {
    /// The point to move away from, a `vec3<f32>`.
    pub center: ExprHandle,
    /// The speed, an `f32`.
    pub speed: ExprHandle,
}

impl SetVelocitySphereModifier {
    /// The assignment that the modifier generates. The center is evaluated
    /// before the speed.
    pub open spec fn code_spec(self, nodes: Seq<Expr>, properties: Seq<EntryView>) -> Result<
        Seq<char>,
        ExprError,
    > {
        match typed_text(nodes, properties, self.center, float3()) {
            Err(e) => Err(e),
            Ok(center) => match typed_text(nodes, properties, self.speed, float1()) {
                Err(e) => Err(e),
                Ok(speed) => Ok(
                    "particle.velocity = normalize(particle.position - ("@ + center + ")) * ("@
                        + speed + ");\n"@,
                ),
            },
        }
    }

    /// Generates the assignment into `context`.
    pub fn apply(&self, module: &mut Module, context: &mut ShaderWriter) -> (r: Result<
        (),
        ExprError,
    >)
        ensures
            final(module)@ == old(module)@,
            old(context).wf() ==> final(context).wf(),
            applied(
                r,
                old(context)@,
                final(context)@,
                with_code(
                    old(context)@,
                    self.code_spec(old(module)@, old(context)@.property_layout.entries),
                ),
            ),
    {
        let center = match eval_typed(
            module,
            context.property_layout(),
            self.center,
            ValueType::Vector(ScalarType::Float, Width::Three),
        ) {
            Ok(text) => text,
            Err(e) => {
                return Err(e);
            },
        };
        let speed = match eval_typed(
            module,
            context.property_layout(),
            self.speed,
            ValueType::Scalar(ScalarType::Float),
        ) {
            Ok(text) => text,
            Err(e) => {
                return Err(e);
            },
        };
        let mut code = String::new();
        code.append("particle.velocity = normalize(particle.position - (");
        code.append(center.as_str());
        code.append(")) * (");
        code.append(speed.as_str());
        code.append(");\n");
        assert(Ok::<Seq<char>, ExprError>(code@) =~~= self.code_spec(
            module@,
            context@.property_layout.entries,
        ));
        context.append_main_code(code.as_str());
        Ok(())
    }
}

/// Slows a particle down in proportion to its velocity.
#[derive(Clone, Copy, Debug, PartialEq, Eq, Structural, Hash)]
pub struct LinearDragModifier {
    /// The drag coefficient, an `f32`.
    pub drag: ExprHandle,
}

impl LinearDragModifier {
    /// The statement that the modifier generates.
    pub open spec fn code_spec(self, nodes: Seq<Expr>, properties: Seq<EntryView>) -> Result<
        Seq<char>,
        ExprError,
    > {
        match typed_text(nodes, properties, self.drag, float1()) {
            Err(e) => Err(e),
            Ok(drag) => Ok(
                "particle.velocity *= max(0.0, 1.0 - ("@ + drag + ") * sim_params.delta_time);\n"@,
            ),
        }
    }

    /// A modifier with the drag coefficient `drag`.
    pub fn new(drag: ExprHandle) -> (r: Self)
        ensures
            r.drag == drag,
    {
        LinearDragModifier { drag }
    }

    /// A modifier with a constant drag coefficient, given as the bits of a
    /// float; the constant is added to `module`.
    pub fn constant(module: &mut Module, drag: u32) -> (r: Self)
        requires
            old(module)@.len() < u32::MAX,
        ensures
            final(module)@ == old(module)@.push(
                Expr::Literal(Value::Scalar(ScalarValue::Float(drag))),
            ),
            r.drag.index == old(module)@.len() + 1,
    {
        LinearDragModifier { drag: module.lit(Value::Scalar(ScalarValue::Float(drag))) }
    }

    /// Generates the statement into `context`.
    pub fn apply(&self, module: &mut Module, context: &mut ShaderWriter) -> (r: Result<
        (),
        ExprError,
    >)
        ensures
            final(module)@ == old(module)@,
            old(context).wf() ==> final(context).wf(),
            applied(
                r,
                old(context)@,
                final(context)@,
                with_code(
                    old(context)@,
                    self.code_spec(old(module)@, old(context)@.property_layout.entries),
                ),
            ),
    {
        let drag = match eval_typed(
            module,
            context.property_layout(),
            self.drag,
            ValueType::Scalar(ScalarType::Float),
        ) {
            Ok(text) => text,
            Err(e) => {
                return Err(e);
            },
        };
        let mut code = String::new();
        code.append("particle.velocity *= max(0.0, 1.0 - (");
        code.append(drag.as_str());
        code.append(") * sim_params.delta_time);\n");
        assert(Ok::<Seq<char>, ExprError>(code@) =~~= self.code_spec(
            module@,
            context@.property_layout.entries,
        ));
        context.append_main_code(code.as_str());
        Ok(())
    }
}

/// Accelerates a particle.
#[derive(Clone, Copy, Debug, PartialEq, Eq, Structural, Hash)]
pub struct AccelModifier {
    /// The acceleration, a `vec3<f32>`.
    pub accel: ExprHandle,
}

impl AccelModifier {
    /// The statement that the modifier generates.
    pub open spec fn code_spec(self, nodes: Seq<Expr>, properties: Seq<EntryView>) -> Result<
        Seq<char>,
        ExprError,
    > {
        match typed_text(nodes, properties, self.accel, float3()) {
            Err(e) => Err(e),
            Ok(accel) => Ok("particle.velocity += ("@ + accel + ") * sim_params.delta_time;\n"@),
        }
    }

    /// A modifier with the acceleration `accel`.
    pub fn new(accel: ExprHandle) -> (r: Self)
        ensures
            r.accel == accel,
    {
        AccelModifier { accel }
    }

    /// A modifier with a constant acceleration, its three components given
    /// as the bits of floats; the constant is added to `module`.
    pub fn constant(module: &mut Module, x: u32, y: u32, z: u32) -> (r: Self)
        requires
            old(module)@.len() < u32::MAX,
        ensures
            final(module)@.len() == old(module)@.len() + 1,
            final(module)@.drop_last() == old(module)@,
            final(module)@.last() matches Expr::Literal(Value::Vector(v)) && v.elem
                == ScalarType::Float && v.width == Width::Three && v.lanes@ == seq![x, y, z, 0u32],
            r.accel.index == old(module)@.len() + 1,
    {
        let value = Value::Vector(VectorValue::vec3(ScalarType::Float, x, y, z));
        let accel = module.lit(value);
        assert(module@.drop_last() =~= old(module)@);
        AccelModifier { accel }
    }

    /// Generates the statement into `context`.
    pub fn apply(&self, module: &mut Module, context: &mut ShaderWriter) -> (r: Result<
        (),
        ExprError,
    >)
        ensures
            final(module)@ == old(module)@,
            old(context).wf() ==> final(context).wf(),
            applied(
                r,
                old(context)@,
                final(context)@,
                with_code(
                    old(context)@,
                    self.code_spec(old(module)@, old(context)@.property_layout.entries),
                ),
            ),
    {
        let accel = match eval_typed(
            module,
            context.property_layout(),
            self.accel,
            ValueType::Vector(ScalarType::Float, Width::Three),
        ) {
            Ok(text) => text,
            Err(e) => {
                return Err(e);
            },
        };
        let mut code = String::new();
        code.append("particle.velocity += (");
        code.append(accel.as_str());
        code.append(") * sim_params.delta_time;\n");
        assert(Ok::<Seq<char>, ExprError>(code@) =~~= self.code_spec(
            module@,
            context@.property_layout.entries,
        ));
        context.append_main_code(code.as_str());
        Ok(())
    }
}

/// Pulls a particle towards the surface of a sphere.
#[derive(Clone, Copy, Debug, PartialEq, Eq, Structural, Hash)]
pub struct ConformToSphereModifier {
    /// The center of the sphere, a `vec3<f32>`.
    pub origin: ExprHandle,
    /// The radius of the sphere, an `f32`.
    pub radius: ExprHandle,
    /// The distance from the surface over which the pull sets in, an `f32`.
    pub influence_dist: ExprHandle,
    /// The acceleration towards the sphere, an `f32`.
    pub attraction_accel: ExprHandle,
    /// The largest speed towards the sphere, an `f32`.
    pub max_attraction_speed: ExprHandle,
}

impl ConformToSphereModifier {
    /// The block that the modifier generates. The expressions are evaluated
    /// in the order of the fields.
    pub open spec fn code_spec(self, nodes: Seq<Expr>, properties: Seq<EntryView>) -> Result<
        Seq<char>,
        ExprError,
    > {
        match typed_text(nodes, properties, self.origin, float3()) {
            Err(e) => Err(e),
            Ok(origin) => match typed_text(nodes, properties, self.radius, float1()) {
                Err(e) => Err(e),
                Ok(radius) => match typed_text(nodes, properties, self.influence_dist, float1()) {
                    Err(e) => Err(e),
                    Ok(influence) => match typed_text(
                        nodes,
                        properties,
                        self.attraction_accel,
                        float1(),
                    ) {
                        Err(e) => Err(e),
                        Ok(accel) => match typed_text(
                            nodes,
                            properties,
                            self.max_attraction_speed,
                            float1(),
                        ) {
                            Err(e) => Err(e),
                            Ok(speed) => Ok(conform_text(origin, radius, influence, accel, speed)),
                        },
                    },
                },
            },
        }
    }

    /// A modifier that pulls towards the sphere around `origin`.
    pub fn new(
        origin: ExprHandle,
        radius: ExprHandle,
        influence_dist: ExprHandle,
        attraction_accel: ExprHandle,
        max_attraction_speed: ExprHandle,
    ) -> (r: Self)
        ensures
            r == (ConformToSphereModifier {
                origin,
                radius,
                influence_dist,
                attraction_accel,
                max_attraction_speed,
            }),
    {
        ConformToSphereModifier {
            origin,
            radius,
            influence_dist,
            attraction_accel,
            max_attraction_speed,
        }
    }

    /// Generates the block into `context`.
    pub fn apply(&self, module: &mut Module, context: &mut ShaderWriter) -> (r: Result<
        (),
        ExprError,
    >)
        ensures
            final(module)@ == old(module)@,
            old(context).wf() ==> final(context).wf(),
            applied(
                r,
                old(context)@,
                final(context)@,
                with_code(
                    old(context)@,
                    self.code_spec(old(module)@, old(context)@.property_layout.entries),
                ),
            ),
    {
        let origin = match eval_typed(
            module,
            context.property_layout(),
            self.origin,
            ValueType::Vector(ScalarType::Float, Width::Three),
        ) {
            Ok(text) => text,
            Err(e) => {
                return Err(e);
            },
        };
        let radius = match eval_typed(
            module,
            context.property_layout(),
            self.radius,
            ValueType::Scalar(ScalarType::Float),
        ) {
            Ok(text) => text,
            Err(e) => {
                return Err(e);
            },
        };
        let influence = match eval_typed(
            module,
            context.property_layout(),
            self.influence_dist,
            ValueType::Scalar(ScalarType::Float),
        ) {
            Ok(text) => text,
            Err(e) => {
                return Err(e);
            },
        };
        let accel = match eval_typed(
            module,
            context.property_layout(),
            self.attraction_accel,
            ValueType::Scalar(ScalarType::Float),
        ) {
            Ok(text) => text,
            Err(e) => {
                return Err(e);
            },
        };
        let speed = match eval_typed(
            module,
            context.property_layout(),
            self.max_attraction_speed,
            ValueType::Scalar(ScalarType::Float),
        ) {
            Ok(text) => text,
            Err(e) => {
                return Err(e);
            },
        };
        let mut code = String::new();
        code.append("{\n    let conform_offset = (");
        code.append(origin.as_str());
        code.append(") - particle.position;\n    let conform_dir = normalize(conform_offset);\n    let conform_weight = saturate((length(conform_offset) - (");
        code.append(radius.as_str());
        code.append(")) / (");
        code.append(influence.as_str());
        code.append("));\n    let conform_speed = min(dot(particle.velocity, conform_dir) + (");
        code.append(accel.as_str());
        code.append(") * conform_weight * sim_params.delta_time, (");
        code.append(speed.as_str());
        code.append("));\n    particle.velocity += conform_dir * (conform_speed - dot(particle.velocity, conform_dir));\n}\n");
        assert(code@ =~= conform_text(origin@, radius@, influence@, accel@, speed@));
        context.append_main_code(code.as_str());
        Ok(())
    }
}

/// The block that pulls a particle towards a sphere, from the texts of its
/// five expressions: the speed towards the sphere grows by the acceleration,
/// weighted by the distance from the surface, up to the largest speed.
pub open spec fn conform_text(
    origin: Seq<char>,
    radius: Seq<char>,
    influence: Seq<char>,
    accel: Seq<char>,
    speed: Seq<char>,
) -> Seq<char> {
    "{\n    let conform_offset = ("@ + origin
        + ") - particle.position;\n    let conform_dir = normalize(conform_offset);\n    let conform_weight = saturate((length(conform_offset) - ("@
        + radius + ")) / ("@ + influence
        + "));\n    let conform_speed = min(dot(particle.velocity, conform_dir) + ("@ + accel
        + ") * conform_weight * sim_params.delta_time, ("@ + speed
        + "));\n    particle.velocity += conform_dir * (conform_speed - dot(particle.velocity, conform_dir));\n}\n"@
}

/// A modifier of any kind.
#[derive(Clone, Copy, Debug, PartialEq, Eq, Structural, Hash)]
pub enum Modifier {
    /// Sets an attribute, when a particle is spawned or each frame.
    SetAttribute(SetAttributeModifier),
    /// Places a new particle in a sphere.
    SetPositionSphere(SetPositionSphereModifier),
    /// Sends a new particle away from a center.
    SetVelocitySphere(SetVelocitySphereModifier),
    /// Slows a particle down.
    LinearDrag(LinearDragModifier),
    /// Accelerates a particle.
    Accel(AccelModifier),
    /// Pulls a particle towards a sphere.
    ConformToSphere(ConformToSphereModifier),
    /// Duplicates a particle into another group.
    Clone(CloneModifier),
    /// Changes how a particle is drawn.
    Render(RenderModifier),
}

impl Modifier {
    /// The phases in which the modifier may run.
    pub open spec fn context_spec(self) -> ModifierContext {
        match self {
            Modifier::SetAttribute(_) => ModifierContext::InitUpdate,
            Modifier::SetPositionSphere(_) => ModifierContext::Init,
            Modifier::SetVelocitySphere(_) => ModifierContext::Init,
            Modifier::LinearDrag(_) => ModifierContext::Update,
            Modifier::Accel(_) => ModifierContext::Update,
            Modifier::ConformToSphere(_) => ModifierContext::Update,
            Modifier::Clone(_) => ModifierContext::Update,
            Modifier::Render(_) => ModifierContext::Render,
        }
    }

    /// The attributes that the modifier needs in the particle layout.
    pub open spec fn attributes_spec(self) -> Seq<Attribute> {
        match self {
            Modifier::SetAttribute(m) => seq![m.attribute],
            Modifier::SetPositionSphere(_) => seq![Attribute::Position],
            Modifier::SetVelocitySphere(_) => seq![Attribute::Position, Attribute::Velocity],
            Modifier::LinearDrag(_) => seq![Attribute::Velocity],
            Modifier::Accel(_) => seq![Attribute::Velocity],
            Modifier::ConformToSphere(_) => seq![Attribute::Position, Attribute::Velocity],
            Modifier::Clone(_) => Seq::empty(),
            Modifier::Render(m) => m.attributes_spec(),
        }
    }

    /// The context after the modifier has generated its code, or the error
    /// that it meets. A render modifier generates no code here and fails
    /// with a type error.
    pub open spec fn apply_spec(self, nodes: Seq<Expr>, context: WriterView) -> Result<
        WriterView,
        ExprError,
    > {
        let properties = context.property_layout.entries;
        match self {
            Modifier::SetAttribute(m) => with_code(context, m.code_spec(nodes, properties)),
            Modifier::SetPositionSphere(m) => with_code(context, m.code_spec(nodes, properties)),
            Modifier::SetVelocitySphere(m) => with_code(context, m.code_spec(nodes, properties)),
            Modifier::LinearDrag(m) => with_code(context, m.code_spec(nodes, properties)),
            Modifier::Accel(m) => with_code(context, m.code_spec(nodes, properties)),
            Modifier::ConformToSphere(m) => with_code(context, m.code_spec(nodes, properties)),
            Modifier::Clone(m) => Ok(m.apply_spec(context)),
            Modifier::Render(_) => Err(ExprError::TypeError),
        }
    }

    /// The phases in which the modifier may run.
    pub fn context(&self) -> (r: ModifierContext)
        ensures
            r == self.context_spec(),
    {
        match self {
            Modifier::SetAttribute(_) => ModifierContext::InitUpdate,
            Modifier::SetPositionSphere(_) => ModifierContext::Init,
            Modifier::SetVelocitySphere(_) => ModifierContext::Init,
            Modifier::LinearDrag(_) => ModifierContext::Update,
            Modifier::Accel(_) => ModifierContext::Update,
            Modifier::ConformToSphere(_) => ModifierContext::Update,
            Modifier::Clone(m) => m.context(),
            Modifier::Render(_) => ModifierContext::Render,
        }
    }

    /// The attributes that the modifier needs in the particle layout.
    pub fn attributes(&self) -> (r: Vec<Attribute>)
        ensures
            r@ == self.attributes_spec(),
    {
        let mut r: Vec<Attribute> = Vec::new();
        match self {
            Modifier::SetAttribute(m) => {
                r.push(m.attribute);
            },
            Modifier::SetPositionSphere(_) => {
                r.push(Attribute::Position);
            },
            Modifier::SetVelocitySphere(_) => {
                r.push(Attribute::Position);
                r.push(Attribute::Velocity);
            },
            Modifier::LinearDrag(_) => {
                r.push(Attribute::Velocity);
            },
            Modifier::Accel(_) => {
                r.push(Attribute::Velocity);
            },
            Modifier::ConformToSphere(_) => {
                r.push(Attribute::Position);
                r.push(Attribute::Velocity);
            },
            Modifier::Clone(m) => {
                r = m.attributes();
            },
            Modifier::Render(m) => {
                r = m.attributes();
            },
        }
        assert(r@ =~= self.attributes_spec());
        r
    }

    /// The modifier as a render modifier, if it is one.
    pub fn as_render(&self) -> (r: Option<&RenderModifier>)
        ensures
            match *self {
                Modifier::Render(m) => r matches Some(x) && *x == m,
                _ => r is None,
            },
    {
        match self {
            Modifier::Render(m) => Some(m),
            _ => None,
        }
    }

    /// Generates the code of the modifier into the context of a phase. On an
    /// error the context is unchanged.
    pub fn apply(&self, module: &mut Module, context: &mut ShaderWriter) -> (r: Result<
        (),
        ExprError,
    >)
        requires
            old(context).wf(),
        ensures
            final(context).wf(),
            final(module)@ == old(module)@,
            applied(
                r,
                old(context)@,
                final(context)@,
                self.apply_spec(old(module)@, old(context)@),
            ),
    {
        match self {
            Modifier::SetAttribute(m) => m.apply(module, context),
            Modifier::SetPositionSphere(m) => m.apply(module, context),
            Modifier::SetVelocitySphere(m) => m.apply(module, context),
            Modifier::LinearDrag(m) => m.apply(module, context),
            Modifier::Accel(m) => m.apply(module, context),
            Modifier::ConformToSphere(m) => m.apply(module, context),
            Modifier::Clone(m) => m.apply(module, context),
            Modifier::Render(_) => Err(ExprError::TypeError),
        }
    }
}

/// A modifier and the particle groups it applies to.
#[derive(Clone, Copy, Debug, PartialEq, Eq, Structural, Hash)]
pub struct GroupedModifier {
    /// The modifier.
    pub modifier: Modifier,
    /// The groups whose particles it modifies.
    pub groups: ParticleGroupSet,
}

} // verus!
