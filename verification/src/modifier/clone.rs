//! The modifier that duplicates particles into another group.

use vstd::prelude::*;
use vstd::string::*;
use vstd::arithmetic::div_mod::{lemma_fundamental_div_mod, lemma_fundamental_div_mod_converse, lemma_mod_bound};
use crate::attribute::Attribute;
use crate::expr::{Expr, ExprError, Module};
use crate::groups::ModifierContext;
use crate::layout::has_name;
use crate::text::{decimal_digits, owned, push_decimal, push_hex};
use crate::value::{lane_text, push_lane, ScalarType};
use crate::writer::{
    defines, function_name, lemma_function_name_injective, FunctionBuilder, FunctionView,
    ShaderWriter, WriterView,
};

verus! {

/// Whether the float with the given bits is not a number.
pub open spec fn is_nan(bits: u32) -> bool {
    bits % 0x8000_0000 > 0x7F80_0000
}

/// Whether the float with the given bits is zero or negative. A value that
/// is not a number is neither.
pub open spec fn is_non_positive(bits: u32) -> bool {
    bits % 0x8000_0000 == 0 || (bits >= 0x8000_0000 && !is_nan(bits))
}

/// The part of a period that the generated code depends on: nothing for a
/// period that is zero or negative, one pattern for all values that are not
/// numbers, and the bits themselves otherwise.
pub open spec fn significant_period(bits: u32) -> u32 {
    if is_non_positive(bits) {
        0
    } else if is_nan(bits) {
        0x7FC0_0000
    } else {
        bits
    }
}

/// The largest integer that is at most `a / b`, for a positive `b`.
pub open spec fn floor_div(a: int, b: int) -> int {
    a / b
}

/// The smallest integer that is at least `a / b`, for a positive `b`.
pub open spec fn ceil_div(a: int, b: int) -> int {
    -((-a) / b)
}

/// The number of duplications in a frame that ends at `time` and lasted
/// `delta`, for a positive `period`, all in one unit of time:
/// `max(0, floor(time / period) - ceil((time - delta) / period) + 1)`.
pub open spec fn multiple_count_spec(time: int, delta: int, period: int) -> int {
    let n = floor_div(time, period) - ceil_div(time - delta, period) + 1;
    if n < 0 {
        0
    } else {
        n
    }
}

/// `floor_div` is the floor: an integer is at most the floor of a quotient
/// exactly when its product with the divisor is at most the dividend.
pub proof fn lemma_floor_div(a: int, b: int, k: int)
    requires
        b > 0,
    ensures
        k <= floor_div(a, b) <==> k * b <= a,
{
    lemma_fundamental_div_mod(a, b);
    lemma_mod_bound(a, b);
    let q = a / b;
    let r = a % b;
    assert(k <= q <==> k * b <= a) by (nonlinear_arith)
        requires
            b > 0,
            a == b * q + r,
            0 <= r < b,
    ;
}

/// `ceil_div` is the ceiling: an integer is at least the ceiling of a
/// quotient exactly when its product with the divisor is at least the
/// dividend.
pub proof fn lemma_ceil_div(a: int, b: int, k: int)
    requires
        b > 0,
    ensures
        k >= ceil_div(a, b) <==> k * b >= a,
{
    lemma_fundamental_div_mod(-a, b);
    lemma_mod_bound(-a, b);
    let q = (-a) / b;
    let r = (-a) % b;
    assert(k >= -q <==> k * b >= a) by (nonlinear_arith)
        requires
            b > 0,
            -a == b * q + r,
            0 <= r < b,
    ;
}

/// What the count counts: the multiples of the period from `time - delta`
/// to `time`, both ends included. An integer `k` lies between the ceiling and
/// the floor exactly when `k * period` lies in that interval, and the count
/// is the number of such integers.
pub proof fn lemma_multiple_count(time: int, delta: int, period: int, k: int)
    requires
        period > 0,
    ensures
        (ceil_div(time - delta, period) <= k <= floor_div(time, period)) <==> (time - delta <= k
            * period <= time),
        multiple_count_spec(time, delta, period) == if ceil_div(time - delta, period) <= floor_div(
            time,
            period,
        ) {
            floor_div(time, period) - ceil_div(time - delta, period) + 1
        } else {
            0
        },
        delta < 0 ==> multiple_count_spec(time, delta, period) == 0,
{
    lemma_floor_div(time, period, k);
    lemma_ceil_div(time - delta, period, k);
    if delta < 0 {
        let c = ceil_div(time - delta, period);
        let f = floor_div(time, period);
        lemma_ceil_div(time - delta, period, c);
        lemma_floor_div(time, period, c);
    }
}

/// The number of duplications in a frame that ends at `time` and lasted
/// `delta`, for a positive `period`, all in one unit of time.
pub fn multiple_count(time: u64, delta: u64, period: u64) -> (r: u128)
    requires
        period > 0,
    ensures
        r == multiple_count_spec(time as int, delta as int, period as int),
{
    let floor: u128 = (time / period) as u128;
    if delta > time {
        let past = delta - time;
        assert(-(time as int - delta as int) == past as int);
        floor + (past / period) as u128 + 1
    } else {
        let start = time - delta;
        let whole = start / period;
        let rest = start % period;
        let ceil: u128 = if rest == 0 {
            whole as u128
        } else {
            whole as u128 + 1
        };
        proof {
            let x = start as int;
            let d = period as int;
            lemma_fundamental_div_mod(x, d);
            if rest == 0 {
                assert(-x == (-(x / d)) * d + 0) by (nonlinear_arith)
                    requires
                        x == d * (x / d) + (x % d),
                        x % d == 0,
                ;
                lemma_fundamental_div_mod_converse(-x, d, -(x / d), 0);
            } else {
                assert(-x == (-(x / d) - 1) * d + (d - x % d)) by (nonlinear_arith)
                    requires
                        x == d * (x / d) + (x % d),
                ;
                lemma_fundamental_div_mod_converse(-x, d, -(x / d) - 1, d - x % d);
            }
            assert(ceil == ceil_div(x, d));
        }
        if ceil > floor {
            0
        } else {
            floor - ceil + 1
        }
    }
}

/// The parameter list of a duplication function.
pub open spec fn clone_signature() -> Seq<char> {
    "particle: ptr<function, Particle>"@
}

/// The statements of the function that duplicates a particle into group
/// `destination`: it takes a dead slot of the group, copies the particle into
/// it, resets the age where the particles have one, and counts the slot as
/// alive and as an instance of the current side of the double buffer.
pub open spec fn clone_body(destination: u32, has_age: bool) -> Seq<char> {
    let group = decimal_digits(destination as nat) + "u"@;
    "    let base_index = particle_groups["@ + group + "].indirect_index;\n"@
        + "    let dead_index = atomicSub(&render_group_indirect["@ + group
        + "].dead_count, 1u) - 1u;\n"@
        + "    let index = indirect_buffer.indices[3u * (base_index + dead_index) + 2u];\n"@
        + "    particle_buffer.particles[index] = *particle;\n"@ + (if has_age {
        "    particle_buffer.particles[index]."@ + Attribute::Age.name_spec() + " = f32(0);\n"@
    } else {
        Seq::empty()
    }) + "    atomicAdd(&render_group_indirect["@ + group + "].alive_count, 1u);\n"@
        + "    let ping = render_effect_indirect.ping;\n"@
        + "    let indirect_index = atomicAdd(&render_group_indirect["@ + group
        + "].instance_count, 1u);\n"@
        + "    indirect_buffer.indices[3u * (base_index + indirect_index) + ping] = index;\n"@
}

/// Duplicates a particle into a group, every frame or once per period.
///
/// Spawners emit into group 0 only, so this is how particles reach the other
/// groups. The copy has all attributes of the particle but the age, which
/// starts at zero.
#[derive(Clone, Copy, Debug, PartialEq, Eq, Structural, Hash)]
pub struct CloneModifier {
    /// The time between two duplications in seconds, as the bits of a 32-bit
    /// float. Where it is zero or negative the particle is duplicated every
    /// frame.
    pub spawn_period: u32,
    /// The group that receives the copies.
    pub destination_group: u32,
}

impl CloneModifier {
    /// The key that identifies the generated code: the destination group in
    /// the upper half, the significant part of the period in the lower half.
    pub open spec fn content_key(self) -> u64 {
        (self.destination_group as u64 * 0x1_0000_0000 + significant_period(self.spawn_period)) as u64
    }

    /// The name of the duplication function.
    pub open spec fn function_name_spec(self) -> Seq<char> {
        function_name("duplicate"@, self.content_key())
    }

    /// The code that the modifier adds to the main code of a phase.
    ///
    /// Without a positive period it is one call of the duplication function.
    /// With one, it computes how many multiples of the period lie between the
    /// previous frame and this one and makes as many calls.
    pub open spec fn call_site(self) -> Seq<char> {
        let func = self.function_name_spec();
        if is_non_positive(self.spawn_period) {
            func + "(&particle);"@
        } else {
            let count = function_name("multiple_count"@, self.content_key());
            let period = lane_text(ScalarType::Float, self.spawn_period);
            "let "@ + count + " = max(0, i32(floor(sim_params.time / "@ + period
                + ")) - i32(ceil((sim_params.time - sim_params.delta_time) / "@ + period
                + ")) + 1);\n"@ + "for (var i = 0; i < "@ + count + "; i += 1) {\n    "@ + func
                + "(&particle);\n}\n"@
        }
    }

    /// The function that the modifier defines in a context with the given
    /// particle layout.
    pub open spec fn function_spec(self, context: WriterView) -> FunctionView {
        FunctionView {
            name: self.function_name_spec(),
            signature: clone_signature(),
            body: clone_body(
                self.destination_group,
                has_name(context.particle_layout.entries, Attribute::Age.name_spec()),
            ),
        }
    }

    /// The context after the modifier has been applied: the duplication
    /// function is defined unless the context had it, and the call site is
    /// appended to the main code.
    pub open spec fn apply_spec(self, context: WriterView) -> WriterView {
        WriterView {
            functions: if defines(context.functions, self.function_name_spec()) {
                context.functions
            } else {
                context.functions.push(self.function_spec(context))
            },
            main_code: context.main_code + self.call_site(),
            ..context
        }
    }

    /// A modifier that duplicates particles into `destination_group` every
    /// `spawn_period` seconds, the period given as the bits of a float.
    pub fn new(spawn_period: u32, destination_group: u32) -> (r: CloneModifier)
        ensures
            r.spawn_period == spawn_period,
            r.destination_group == destination_group,
    {
        CloneModifier { spawn_period, destination_group }
    }

    /// The phases in which the modifier may run: update only.
    pub fn context(&self) -> (r: ModifierContext)
        ensures
            r == ModifierContext::Update,
    {
        ModifierContext::Update
    }

    /// The attributes that the modifier needs in the particle layout: none.
    pub fn attributes(&self) -> (r: Vec<Attribute>)
        ensures
            r@.len() == 0,
    {
        Vec::new()
    }

    /// Whether the particle is duplicated every frame.
    pub fn every_frame(&self) -> (r: bool)
        ensures
            r == is_non_positive(self.spawn_period),
    {
        let magnitude = self.spawn_period % 0x8000_0000;
        magnitude == 0 || (self.spawn_period >= 0x8000_0000 && magnitude <= 0x7F80_0000)
    }

    /// The key that identifies the generated code.
    pub fn key(&self) -> (r: u64)
        ensures
            r == self.content_key(),
    {
        let magnitude = self.spawn_period % 0x8000_0000;
        let low: u32 = if self.every_frame() {
            0
        } else if magnitude > 0x7F80_0000 {
            0x7FC0_0000
        } else {
            self.spawn_period
        };
        self.destination_group as u64 * 0x1_0000_0000 + low as u64
    }

    /// Generates the code of the modifier: defines the duplication function
    /// once per content key and appends the call site to the main code. The
    /// module is not changed, and no error occurs.
    pub fn apply(&self, module: &mut Module, context: &mut ShaderWriter) -> (r: Result<
        (),
        ExprError,
    >)
        requires
            old(context).wf(),
        ensures
            r is Ok,
            final(context).wf(),
            final(module)@ == old(module)@,
            final(context)@ == self.apply_spec(old(context)@),
    {
        let key = self.key();
        let func = match context.define_function_once(
            "duplicate",
            key,
            "particle: ptr<function, Particle>",
            module,
            self,
        ) {
            Ok(func) => func,
            Err(e) => {
                return Err(e);
            },
        };
        let ghost defined = context@;
        let mut code = String::new();
        if self.every_frame() {
            code.append(func.as_str());
            code.append("(&particle);");
        } else {
            let mut count = owned("multiple_count");
            count.append("_");
            push_hex(&mut count, key, 16);
            assert(count@ =~= function_name("multiple_count"@, key));
            code.append("let ");
            code.append(count.as_str());
            code.append(" = max(0, i32(floor(sim_params.time / ");
            push_lane(&mut code, ScalarType::Float, self.spawn_period);
            code.append(")) - i32(ceil((sim_params.time - sim_params.delta_time) / ");
            push_lane(&mut code, ScalarType::Float, self.spawn_period);
            code.append(")) + 1);\n");
            code.append("for (var i = 0; i < ");
            code.append(count.as_str());
            code.append("; i += 1) {\n    ");
            code.append(func.as_str());
            code.append("(&particle);\n}\n");
        }
        assert(code@ =~= self.call_site());
        context.append_main_code(code.as_str());
        assert(context@.functions =~= self.apply_spec(old(context)@).functions);
        Ok(())
    }

    /// Modifiers with the same destination and the same significant period
    /// have the same key, and only those.
    pub proof fn lemma_key_identifies(self, other: CloneModifier)
        ensures
            self.content_key() == other.content_key() <==> (self.destination_group
                == other.destination_group && significant_period(self.spawn_period)
                == significant_period(other.spawn_period)),
            self.function_name_spec() == other.function_name_spec() <==> self.content_key()
                == other.content_key(),
    {
        if self.function_name_spec() == other.function_name_spec() {
            lemma_function_name_injective("duplicate"@, self.content_key(), other.content_key());
        }
    }
}

/// Duplication functions are defined once per content key.
///
/// Where two modifiers have the same destination and the same significant
/// period, applying the second after the first defines no further function:
/// the phase has one definition, and both call sites name it. Where their
/// destinations differ, their functions have different names, and a context
/// that had neither gains two definitions.
pub proof fn lemma_defined_once(a: CloneModifier, b: CloneModifier, context: WriterView)
    ensures
        ({
            let once = a.apply_spec(context);
            let twice = b.apply_spec(once);
            &&& twice.main_code == context.main_code + a.call_site() + b.call_site()
            &&& !defines(context.functions, a.function_name_spec()) ==> once.functions
                == context.functions.push(a.function_spec(context))
            &&& (a.destination_group == b.destination_group && significant_period(a.spawn_period)
                == significant_period(b.spawn_period)) ==> {
                &&& a.function_name_spec() == b.function_name_spec()
                &&& twice.functions == once.functions
            }
            &&& a.destination_group != b.destination_group ==> {
                &&& a.function_name_spec() != b.function_name_spec()
                &&& (!defines(context.functions, a.function_name_spec()) && !defines(
                    context.functions,
                    b.function_name_spec(),
                )) ==> twice.functions == context.functions.push(a.function_spec(context)).push(
                    b.function_spec(context),
                )
            }
        }),
{
    let once = a.apply_spec(context);
    let twice = b.apply_spec(once);
    a.lemma_key_identifies(b);
    assert(twice.main_code =~= context.main_code + a.call_site() + b.call_site());
    if a.content_key() == b.content_key() {
        if !defines(context.functions, a.function_name_spec()) {
            let n = context.functions.len() as int;
            assert(once.functions[n].name == b.function_name_spec());
        } else {
            assert(defines(once.functions, b.function_name_spec()));
        }
        assert(defines(once.functions, b.function_name_spec()));
    }
    if a.destination_group != b.destination_group {
        if !defines(context.functions, a.function_name_spec()) && !defines(
            context.functions,
            b.function_name_spec(),
        ) {
            assert(!defines(once.functions, b.function_name_spec())) by {
                if defines(once.functions, b.function_name_spec()) {
                    let i = choose|i: int|
                        0 <= i < once.functions.len() && (#[trigger] once.functions[i]).name
                            == b.function_name_spec();
                    if i < context.functions.len() {
                        assert(context.functions[i].name == b.function_name_spec());
                    }
                }
            }
            assert(b.function_spec(once) == b.function_spec(context));
        }
    }
}

impl FunctionBuilder for CloneModifier {
    open spec fn build_spec(&self, nodes: Seq<Expr>, context: WriterView) -> (
        Seq<Expr>,
        Result<Seq<char>, ExprError>,
    ) {
        (nodes, Ok(self.function_spec(context).body))
    }

    fn build(&self, module: &mut Module, context: &ShaderWriter) -> (r: Result<String, ExprError>) {
        let has_age = context.particle_layout().contains(Attribute::AGE);
        let mut group = String::new();
        push_decimal(&mut group, self.destination_group);
        group.append("u");
        assert(group@ =~= decimal_digits(self.destination_group as nat) + "u"@);
        let mut body = owned("    let base_index = particle_groups[");
        body.append(group.as_str());
        body.append("].indirect_index;\n");
        body.append("    let dead_index = atomicSub(&render_group_indirect[");
        body.append(group.as_str());
        body.append("].dead_count, 1u) - 1u;\n");
        body.append("    let index = indirect_buffer.indices[3u * (base_index + dead_index) + 2u];\n");
        body.append("    particle_buffer.particles[index] = *particle;\n");
        if has_age {
            body.append("    particle_buffer.particles[index].");
            body.append(Attribute::AGE.name());
            body.append(" = f32(0);\n");
        }
        body.append("    atomicAdd(&render_group_indirect[");
        body.append(group.as_str());
        body.append("].alive_count, 1u);\n");
        body.append("    let ping = render_effect_indirect.ping;\n");
        body.append("    let indirect_index = atomicAdd(&render_group_indirect[");
        body.append(group.as_str());
        body.append("].instance_count, 1u);\n");
        body.append("    indirect_buffer.indices[3u * (base_index + indirect_index) + ping] = index;\n");
        assert(body@ =~= clone_body(
            self.destination_group,
            has_name(context@.particle_layout.entries, Attribute::Age.name_spec()),
        ));
        Ok(body)
    }
}

} // verus!
