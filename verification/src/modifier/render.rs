//! Modifiers of the render phase, and the context they generate code into.

use vstd::prelude::*;
use vstd::string::*;
use crate::attribute::Attribute;
use crate::expr::Module;
use crate::layout::LayoutView;
use crate::particle_layout::ParticleLayout;
use crate::property::PropertyLayout;
use crate::spawner::ONE_BITS;
use crate::value::{lane_text, push_lane, ScalarType};

verus! {

/// The mathematical value of a [`RenderContext`].
pub ghost struct RenderView {
    /// The layout of the particles.
    pub particle_layout: LayoutView,
    /// The layout of the properties.
    pub property_layout: LayoutView,
    /// The code of the vertex stage generated so far.
    pub vertex_code: Seq<char>,
    /// The code of the fragment stage generated so far.
    pub fragment_code: Seq<char>,
}

/// The code generation context of the render phase.
pub struct RenderContext<'a> {
    property_layout: &'a PropertyLayout,
    particle_layout: &'a ParticleLayout,
    vertex_code: String,
    fragment_code: String,
}

impl<'a> View for RenderContext<'a> {
    type V = RenderView;

    closed spec fn view(&self) -> RenderView {
        RenderView {
            particle_layout: self.particle_layout@,
            property_layout: self.property_layout@,
            vertex_code: self.vertex_code@,
            fragment_code: self.fragment_code@,
        }
    }
}

impl<'a> RenderContext<'a> {
    /// A context without code.
    pub fn new(property_layout: &'a PropertyLayout, particle_layout: &'a ParticleLayout) -> (r:
        RenderContext<'a>)
        ensures
            r@.particle_layout == particle_layout@,
            r@.property_layout == property_layout@,
            r@.vertex_code == Seq::<char>::empty(),
            r@.fragment_code == Seq::<char>::empty(),
    {
        RenderContext {
            property_layout,
            particle_layout,
            vertex_code: String::new(),
            fragment_code: String::new(),
        }
    }

    /// The layout of the particles.
    pub fn particle_layout(&self) -> (r: &ParticleLayout)
        ensures
            r@ == self@.particle_layout,
    {
        self.particle_layout
    }

    /// The layout of the properties.
    pub fn property_layout(&self) -> (r: &PropertyLayout)
        ensures
            r@ == self@.property_layout,
    {
        self.property_layout
    }

    /// The code of the vertex stage generated so far.
    pub fn vertex_code(&self) -> (r: &str)
        ensures
            r@ == self@.vertex_code,
    {
        self.vertex_code.as_str()
    }

    /// The code of the fragment stage generated so far.
    pub fn fragment_code(&self) -> (r: &str)
        ensures
            r@ == self@.fragment_code,
    {
        self.fragment_code.as_str()
    }

    /// Appends `text` to the code of the vertex stage, as it is.
    pub fn append_vertex_code(&mut self, text: &str)
        ensures
            final(self)@ == (RenderView {
                vertex_code: old(self)@.vertex_code + text@,
                ..old(self)@
            }),
    {
        self.vertex_code.append(text);
    }

    /// Appends `text` to the code of the fragment stage, as it is.
    pub fn append_fragment_code(&mut self, text: &str)
        ensures
            final(self)@ == (RenderView {
                fragment_code: old(self)@.fragment_code + text@,
                ..old(self)@
            }),
    {
        self.fragment_code.append(text);
    }
}

/// The context after a modifier has added `vertex` to the code of the vertex
/// stage and `fragment` to that of the fragment stage.
pub open spec fn rendered(context: RenderView, vertex: Seq<char>, fragment: Seq<char>) -> RenderView {
    RenderView {
        vertex_code: context.vertex_code + vertex,
        fragment_code: context.fragment_code + fragment,
        ..context
    }
}

/// The text of a color as a `vec4<f32>`.
pub open spec fn rgba_text(color: Rgba) -> Seq<char> {
    "vec4<f32>("@ + lane_text(ScalarType::Float, color.r) + ","@ + lane_text(
        ScalarType::Float,
        color.g,
    ) + ","@ + lane_text(ScalarType::Float, color.b) + ","@ + lane_text(ScalarType::Float, color.a)
        + ")"@
}

/// Appends the text of a color.
fn push_rgba(out: &mut String, color: Rgba)
    ensures
        final(out)@ == old(out)@ + rgba_text(color),
{
    out.append("vec4<f32>(");
    push_lane(out, ScalarType::Float, color.r);
    out.append(",");
    push_lane(out, ScalarType::Float, color.g);
    out.append(",");
    push_lane(out, ScalarType::Float, color.b);
    out.append(",");
    push_lane(out, ScalarType::Float, color.a);
    out.append(")");
    assert(final(out)@ =~= old(out)@ + rgba_text(color));
}

/// The text of a size as a `vec2<f32>`.
pub open spec fn size_text(width: u32, height: u32) -> Seq<char> {
    "vec2<f32>("@ + lane_text(ScalarType::Float, width) + ","@ + lane_text(
        ScalarType::Float,
        height,
    ) + ")"@
}

/// Appends the text of a size.
fn push_size(out: &mut String, width: u32, height: u32)
    ensures
        final(out)@ == old(out)@ + size_text(width, height),
{
    out.append("vec2<f32>(");
    push_lane(out, ScalarType::Float, width);
    out.append(",");
    push_lane(out, ScalarType::Float, height);
    out.append(")");
    assert(final(out)@ =~= old(out)@ + size_text(width, height));
}

/// A color of four float channels, each held as its bits.
#[derive(Clone, Copy, Debug, PartialEq, Eq, Structural, Hash)]
pub struct Rgba {
    /// Red.
    pub r: u32,
    /// Green.
    pub g: u32,
    /// Blue.
    pub b: u32,
    /// Opacity.
    pub a: u32,
}

/// Draws all particles in one color.
#[derive(Clone, Copy, Debug, PartialEq, Eq, Structural, Hash)]
pub struct SetColorModifier {
    /// The color.
    pub color: Rgba,
}

impl SetColorModifier {
    /// The assignment that the modifier adds to the vertex stage.
    pub open spec fn code_spec(self) -> Seq<char> {
        "color = "@ + rgba_text(self.color) + ";\n"@
    }

    /// Generates the assignment into the vertex stage.
    pub fn apply_render(&self, module: &mut Module, context: &mut RenderContext)
        ensures
            final(module)@ == old(module)@,
            final(context)@ == rendered(old(context)@, self.code_spec(), Seq::empty()),
    {
        let mut code = String::new();
        code.append("color = ");
        push_rgba(&mut code, self.color);
        code.append(";\n");
        assert(code@ =~= self.code_spec());
        context.append_vertex_code(code.as_str());
        assert(context@ =~= rendered(old(context)@, self.code_spec(), Seq::empty()));
    }
}

/// Draws all particles in one size.
#[derive(Clone, Copy, Debug, PartialEq, Eq, Structural, Hash)]
pub struct SetSizeModifier {
    /// Width of the quad, as the bits of a float.
    pub width: u32,
    /// Height of the quad, as the bits of a float.
    pub height: u32,
}

impl SetSizeModifier {
    /// The assignment that the modifier adds to the vertex stage.
    pub open spec fn code_spec(self) -> Seq<char> {
        "size = "@ + size_text(self.width, self.height) + ";\n"@
    }

    /// Generates the assignment into the vertex stage.
    pub fn apply_render(&self, module: &mut Module, context: &mut RenderContext)
        ensures
            final(module)@ == old(module)@,
            final(context)@ == rendered(old(context)@, self.code_spec(), Seq::empty()),
    {
        let mut code = String::new();
        code.append("size = ");
        push_size(&mut code, self.width, self.height);
        code.append(";\n");
        assert(code@ =~= self.code_spec());
        context.append_vertex_code(code.as_str());
        assert(context@ =~= rendered(old(context)@, self.code_spec(), Seq::empty()));
    }
}

/// The share of its lifetime that a particle has lived, between 0 and 1, in
/// shader source.
pub open spec fn age_ratio() -> Seq<char> {
    "saturate(particle."@ + Attribute::Age.name_spec() + " / particle."@
        + Attribute::Lifetime.name_spec() + ")"@
}

/// Appends the share of its lifetime that a particle has lived.
fn push_age_ratio(out: &mut String)
    ensures
        final(out)@ == old(out)@ + age_ratio(),
{
    out.append("saturate(particle.");
    out.append(Attribute::AGE.name());
    out.append(" / particle.");
    out.append(Attribute::LIFETIME.name());
    out.append(")");
    assert(final(out)@ =~= old(out)@ + age_ratio());
}

/// Changes the color of a particle over its lifetime, from one color to
/// another.
#[derive(Clone, Copy, Debug, PartialEq, Eq, Structural, Hash)]
pub struct ColorOverLifetimeModifier {
    /// The color of a new particle.
    pub start: Rgba,
    /// The color of a particle at the end of its lifetime.
    pub end: Rgba,
}

impl ColorOverLifetimeModifier {
    /// The assignment that the modifier adds to the vertex stage.
    pub open spec fn code_spec(self) -> Seq<char> {
        "color = mix("@ + rgba_text(self.start) + ", "@ + rgba_text(self.end) + ", "@ + age_ratio()
            + ");\n"@
    }

    /// Generates the assignment into the vertex stage.
    pub fn apply_render(&self, module: &mut Module, context: &mut RenderContext)
        ensures
            final(module)@ == old(module)@,
            final(context)@ == rendered(old(context)@, self.code_spec(), Seq::empty()),
    {
        let mut code = String::new();
        code.append("color = mix(");
        push_rgba(&mut code, self.start);
        code.append(", ");
        push_rgba(&mut code, self.end);
        code.append(", ");
        push_age_ratio(&mut code);
        code.append(");\n");
        assert(code@ =~= self.code_spec());
        context.append_vertex_code(code.as_str());
        assert(context@ =~= rendered(old(context)@, self.code_spec(), Seq::empty()));
    }
}

impl Default for ColorOverLifetimeModifier {
    /// White throughout.
    fn default() -> (r: ColorOverLifetimeModifier)
        ensures
            r.start == (Rgba { r: ONE_BITS, g: ONE_BITS, b: ONE_BITS, a: ONE_BITS }),
            r.end == r.start,
    {
        let white = Rgba { r: ONE_BITS, g: ONE_BITS, b: ONE_BITS, a: ONE_BITS };
        ColorOverLifetimeModifier { start: white, end: white }
    }
}

/// Changes the size of a particle over its lifetime, from one size to
/// another. Sizes are held as the bits of floats.
#[derive(Clone, Copy, Debug, PartialEq, Eq, Structural, Hash)]
pub struct SizeOverLifetimeModifier {
    /// Width of a new particle.
    pub start_width: u32,
    /// Height of a new particle.
    pub start_height: u32,
    /// Width at the end of the lifetime.
    pub end_width: u32,
    /// Height at the end of the lifetime.
    pub end_height: u32,
}

impl SizeOverLifetimeModifier {
    /// The assignment that the modifier adds to the vertex stage.
    pub open spec fn code_spec(self) -> Seq<char> {
        "size = mix("@ + size_text(self.start_width, self.start_height) + ", "@ + size_text(
            self.end_width,
            self.end_height,
        ) + ", "@ + age_ratio() + ");\n"@
    }

    /// Generates the assignment into the vertex stage.
    pub fn apply_render(&self, module: &mut Module, context: &mut RenderContext)
        ensures
            final(module)@ == old(module)@,
            final(context)@ == rendered(old(context)@, self.code_spec(), Seq::empty()),
    {
        let mut code = String::new();
        code.append("size = mix(");
        push_size(&mut code, self.start_width, self.start_height);
        code.append(", ");
        push_size(&mut code, self.end_width, self.end_height);
        code.append(", ");
        push_age_ratio(&mut code);
        code.append(");\n");
        assert(code@ =~= self.code_spec());
        context.append_vertex_code(code.as_str());
        assert(context@ =~= rendered(old(context)@, self.code_spec(), Seq::empty()));
    }
}

impl Default for SizeOverLifetimeModifier {
    /// Size one throughout.
    fn default() -> (r: SizeOverLifetimeModifier)
        ensures
            r == (SizeOverLifetimeModifier {
                start_width: ONE_BITS,
                start_height: ONE_BITS,
                end_width: ONE_BITS,
                end_height: ONE_BITS,
            }),
    {
        SizeOverLifetimeModifier {
            start_width: ONE_BITS,
            start_height: ONE_BITS,
            end_width: ONE_BITS,
            end_height: ONE_BITS,
        }
    }
}

/// Colors a particle from the texture that the host binds for the effect.
#[derive(Clone, Copy, Debug, PartialEq, Eq, Structural, Hash)]
pub struct ParticleTextureModifier;

impl ParticleTextureModifier {
    /// The statement that the modifier adds to the fragment stage.
    pub open spec fn code_spec(self) -> Seq<char> {
        "color = color * textureSample(particle_texture, particle_texture_sampler, uv);\n"@
    }

    /// Generates the statement into the fragment stage.
    pub fn apply_render(&self, module: &mut Module, context: &mut RenderContext)
        ensures
            final(module)@ == old(module)@,
            final(context)@ == rendered(old(context)@, Seq::empty(), self.code_spec()),
    {
        context.append_fragment_code(
            "color = color * textureSample(particle_texture, particle_texture_sampler, uv);\n",
        );
        assert(context@ =~= rendered(old(context)@, Seq::empty(), self.code_spec()));
    }
}

impl Default for ParticleTextureModifier {
    fn default() -> (r: ParticleTextureModifier) {
        ParticleTextureModifier
    }
}

/// How the quad of a particle is turned.
#[derive(Clone, Copy, Debug, PartialEq, Eq, Structural, Hash)]
pub enum OrientMode {
    /// Parallel to the depth plane of the camera.
    ParallelCameraDepthPlane,
    /// Facing the position of the camera.
    FaceCameraPosition,
    /// With its first axis along the velocity of the particle.
    AlongVelocity,
}

/// Turns the quad of each particle.
#[derive(Clone, Copy, Debug, PartialEq, Eq, Structural, Hash)]
pub struct OrientModifier {
    /// How the quad is turned.
    pub mode: OrientMode,
}

impl OrientModifier {
    /// The statements that the modifier adds to the vertex stage: they set
    /// the three axes of the quad.
    pub open spec fn code_spec(self) -> Seq<char> {
        match self.mode {
            OrientMode::ParallelCameraDepthPlane => "axis_x = view.view[0].xyz;\naxis_y = view.view[1].xyz;\naxis_z = view.view[2].xyz;\n"@,
            OrientMode::FaceCameraPosition => "axis_z = normalize(get_camera_position_effect_space() - position);\naxis_x = normalize(cross(view.view[1].xyz, axis_z));\naxis_y = cross(axis_z, axis_x);\n"@,
            OrientMode::AlongVelocity => "let dir = normalize(position - get_camera_position_effect_space());\naxis_x = normalize(particle.velocity);\naxis_y = cross(dir, axis_x);\naxis_z = cross(axis_x, axis_y);\n"@,
        }
    }

    /// The attributes that the mode reads.
    pub open spec fn attributes_spec(self) -> Seq<Attribute> {
        match self.mode {
            OrientMode::ParallelCameraDepthPlane => Seq::empty(),
            OrientMode::FaceCameraPosition => seq![Attribute::Position],
            OrientMode::AlongVelocity => seq![Attribute::Position, Attribute::Velocity],
        }
    }

    /// A modifier that turns the quad as `mode` says.
    pub fn new(mode: OrientMode) -> (r: Self)
        ensures
            r.mode == mode,
    {
        OrientModifier { mode }
    }

    /// Generates the statements into the vertex stage.
    pub fn apply_render(&self, module: &mut Module, context: &mut RenderContext)
        ensures
            final(module)@ == old(module)@,
            final(context)@ == rendered(old(context)@, self.code_spec(), Seq::empty()),
    {
        match self.mode {
            OrientMode::ParallelCameraDepthPlane => {
                context.append_vertex_code(
                    "axis_x = view.view[0].xyz;\naxis_y = view.view[1].xyz;\naxis_z = view.view[2].xyz;\n",
                );
            },
            OrientMode::FaceCameraPosition => {
                context.append_vertex_code(
                    "axis_z = normalize(get_camera_position_effect_space() - position);\naxis_x = normalize(cross(view.view[1].xyz, axis_z));\naxis_y = cross(axis_z, axis_x);\n",
                );
            },
            OrientMode::AlongVelocity => {
                context.append_vertex_code(
                    "let dir = normalize(position - get_camera_position_effect_space());\naxis_x = normalize(particle.velocity);\naxis_y = cross(dir, axis_x);\naxis_z = cross(axis_x, axis_y);\n",
                );
            },
        }
        assert(context@ =~= rendered(old(context)@, self.code_spec(), Seq::empty()));
    }
}

/// A modifier of the render phase, of any kind.
#[derive(Clone, Copy, Debug, PartialEq, Eq, Structural, Hash)]
pub enum RenderModifier {
    /// Draws all particles in one color.
    SetColor(SetColorModifier),
    /// Changes the color over the lifetime.
    ColorOverLifetime(ColorOverLifetimeModifier),
    /// Draws all particles in one size.
    SetSize(SetSizeModifier),
    /// Changes the size over the lifetime.
    SizeOverLifetime(SizeOverLifetimeModifier),
    /// Turns the quad of each particle.
    Orient(OrientModifier),
    /// Colors a particle from a texture.
    ParticleTexture(ParticleTextureModifier),
}

impl RenderModifier {
    /// The attributes that the modifier needs in the particle layout.
    pub open spec fn attributes_spec(self) -> Seq<Attribute> {
        match self {
            RenderModifier::SetColor(_) => Seq::empty(),
            RenderModifier::ColorOverLifetime(_) => seq![Attribute::Age, Attribute::Lifetime],
            RenderModifier::SetSize(_) => Seq::empty(),
            RenderModifier::SizeOverLifetime(_) => seq![Attribute::Age, Attribute::Lifetime],
            RenderModifier::Orient(m) => m.attributes_spec(),
            RenderModifier::ParticleTexture(_) => Seq::empty(),
        }
    }

    /// The code that the modifier adds to the vertex stage.
    pub open spec fn vertex_spec(self) -> Seq<char> {
        match self {
            RenderModifier::SetColor(m) => m.code_spec(),
            RenderModifier::ColorOverLifetime(m) => m.code_spec(),
            RenderModifier::SetSize(m) => m.code_spec(),
            RenderModifier::SizeOverLifetime(m) => m.code_spec(),
            RenderModifier::Orient(m) => m.code_spec(),
            RenderModifier::ParticleTexture(_) => Seq::empty(),
        }
    }

    /// The code that the modifier adds to the fragment stage.
    pub open spec fn fragment_spec(self) -> Seq<char> {
        match self {
            RenderModifier::ParticleTexture(m) => m.code_spec(),
            _ => Seq::empty(),
        }
    }

    /// The attributes that the modifier needs in the particle layout.
    pub fn attributes(&self) -> (r: Vec<Attribute>)
        ensures
            r@ == self.attributes_spec(),
    {
        let mut r: Vec<Attribute> = Vec::new();
        match self {
            RenderModifier::ColorOverLifetime(_) => {
                r.push(Attribute::Age);
                r.push(Attribute::Lifetime);
            },
            RenderModifier::SizeOverLifetime(_) => {
                r.push(Attribute::Age);
                r.push(Attribute::Lifetime);
            },
            RenderModifier::Orient(m) => {
                match m.mode {
                    OrientMode::ParallelCameraDepthPlane => {},
                    OrientMode::FaceCameraPosition => {
                        r.push(Attribute::Position);
                    },
                    OrientMode::AlongVelocity => {
                        r.push(Attribute::Position);
                        r.push(Attribute::Velocity);
                    },
                }
            },
            _ => {},
        }
        assert(r@ =~= self.attributes_spec());
        r
    }

    /// Generates the code of the modifier into the render context.
    pub fn apply_render(&self, module: &mut Module, context: &mut RenderContext)
        ensures
            final(module)@ == old(module)@,
            final(context)@ == rendered(old(context)@, self.vertex_spec(), self.fragment_spec()),
    {
        match self {
            RenderModifier::SetColor(m) => m.apply_render(module, context),
            RenderModifier::ColorOverLifetime(m) => m.apply_render(module, context),
            RenderModifier::SetSize(m) => m.apply_render(module, context),
            RenderModifier::SizeOverLifetime(m) => m.apply_render(module, context),
            RenderModifier::Orient(m) => m.apply_render(module, context),
            RenderModifier::ParticleTexture(m) => m.apply_render(module, context),
        }
    }
}

} // verus!
