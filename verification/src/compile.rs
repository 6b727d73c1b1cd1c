//! Compilation of an effect: its layouts and the shader source of each
//! phase.

use vstd::prelude::*;
use vstd::string::*;
use crate::asset::{selected, selected_render, AssetView, EffectAsset};
use crate::attribute::Attribute;
use crate::expr::{Expr, ExprError, Module};
use crate::groups::{ModifierContext, MAX_GROUPS};
use crate::layout::{lemma_layout_view_unique, LayoutView};
use crate::modifier::render::{RenderContext, RenderModifier};
use crate::modifier::Modifier;
use crate::particle_layout::{attribute_field, ParticleLayout};
use crate::property::{property_fields, PropertyLayout};
use crate::writer::{definitions_text, ShaderWriter, WriterView};

verus! {

/// The context after `modifiers` have generated their code in order, or the
/// first error that one of them meets.
pub open spec fn apply_all(modifiers: Seq<Modifier>, nodes: Seq<Expr>, context: WriterView) -> Result<
    WriterView,
    ExprError,
>
    decreases modifiers.len(),
{
    if modifiers.len() == 0 {
        Ok(context)
    } else {
        match apply_all(modifiers.drop_last(), nodes, context) {
            Err(e) => Err(e),
            Ok(c) => modifiers.last().apply_spec(nodes, c),
        }
    }
}

/// The context after the update modifiers of particle group `group` have
/// generated their code into `context`, or the first error met.
pub open spec fn update_group(asset: AssetView, context: WriterView, group: u32) -> Result<
    WriterView,
    ExprError,
> {
    apply_all(
        selected(asset.update_modifiers, ModifierContext::Update, Some(group)),
        asset.module,
        context,
    )
}

/// The context without its main code.
pub open spec fn without_code(context: WriterView) -> WriterView {
    WriterView { main_code: Seq::empty(), ..context }
}

/// The main code of the first `count` particle groups of the update phase,
/// and the context after them. Each group starts with empty main code; the
/// functions defined for one group are there for the next.
pub open spec fn update_groups(asset: AssetView, context: WriterView, count: nat) -> Result<
    (Seq<Seq<char>>, WriterView),
    ExprError,
>
    decreases count,
{
    if count == 0 {
        Ok((Seq::empty(), without_code(context)))
    } else {
        match update_groups(asset, context, (count - 1) as nat) {
            Err(e) => Err(e),
            Ok((codes, c)) => match update_group(asset, c, (count - 1) as u32) {
                Err(e) => Err(e),
                Ok(done) => Ok((codes.push(done.main_code), without_code(done))),
            },
        }
    }
}

/// The code that `modifiers` generate in order, for the vertex stage and
/// for the fragment stage.
pub open spec fn render_all(modifiers: Seq<RenderModifier>) -> (Seq<char>, Seq<char>)
    decreases modifiers.len(),
{
    if modifiers.len() == 0 {
        (Seq::empty(), Seq::empty())
    } else {
        let rest = render_all(modifiers.drop_last());
        (rest.0 + modifiers.last().vertex_spec(), rest.1 + modifiers.last().fragment_spec())
    }
}

/// The render code of the first `count` particle groups, for the vertex
/// stage and for the fragment stage.
pub open spec fn render_groups(asset: AssetView, count: nat) -> Seq<(Seq<char>, Seq<char>)>
    decreases count,
{
    if count == 0 {
        Seq::empty()
    } else {
        render_groups(asset, (count - 1) as nat).push(
            render_all(selected_render(asset.render_modifiers, Some((count - 1) as u32))),
        )
    }
}

/// A context of `phase` without code, over the given layouts.
pub open spec fn fresh(phase: ModifierContext, particle_layout: LayoutView, property_layout: LayoutView) -> WriterView {
    WriterView {
        phase,
        particle_layout,
        property_layout,
        main_code: Seq::empty(),
        functions: Seq::empty(),
    }
}

/// The mathematical value of a [`CompiledEffect`].
pub ghost struct CompiledView {
    /// The layout of a particle.
    pub particle_layout: LayoutView,
    /// The layout of the properties.
    pub property_layout: LayoutView,
    /// The main code of the init phase.
    pub init_code: Seq<char>,
    /// The functions of the init phase.
    pub init_functions: Seq<char>,
    /// The main code of the update phase, for each particle group.
    pub update_code: Seq<Seq<char>>,
    /// The functions of the update phase, shared by the groups.
    pub update_functions: Seq<char>,
    /// The code of the render phase for each particle group: that of the
    /// vertex stage, then that of the fragment stage.
    pub render_code: Seq<(Seq<char>, Seq<char>)>,
}

/// The source that compiling `asset` over the given layouts yields, or the
/// first error met: in the init phase, then in the update phase group by
/// group.
pub open spec fn compile_spec(asset: AssetView, particle_layout: LayoutView, property_layout: LayoutView) -> Result<
    CompiledView,
    ExprError,
> {
    let groups = asset.capacities.len();
    match apply_all(
        selected(asset.init_modifiers, ModifierContext::Init, None),
        asset.module,
        fresh(ModifierContext::Init, particle_layout, property_layout),
    ) {
        Err(e) => Err(e),
        Ok(init) => match update_groups(
            asset,
            fresh(ModifierContext::Update, particle_layout, property_layout),
            groups,
        ) {
            Err(e) => Err(e),
            Ok((update_code, update)) => Ok(
                CompiledView {
                    particle_layout,
                    property_layout,
                    init_code: init.main_code,
                    init_functions: definitions_text(init.functions),
                    update_code,
                    update_functions: definitions_text(update.functions),
                    render_code: render_groups(asset, groups),
                },
            ),
        },
    }
}

/// Compilation is deterministic: the layouts of an effect are determined by
/// its content, in whatever order its attributes and properties were laid
/// out, and with them the source or the error.
pub proof fn lemma_compile_deterministic(
    asset: AssetView,
    particle1: LayoutView,
    property1: LayoutView,
    particle2: LayoutView,
    property2: LayoutView,
)
    requires
        particle1.wf(),
        particle2.wf(),
        property1.wf(),
        property2.wf(),
        particle1.fields().to_set() == asset.attributes().map(|a: Attribute| attribute_field(a)),
        particle2.fields().to_set() == asset.attributes().map(|a: Attribute| attribute_field(a)),
        property1.fields().to_set() == property_fields(asset.properties).to_set(),
        property2.fields().to_set() == property_fields(asset.properties).to_set(),
    ensures
        particle1 == particle2,
        property1 == property2,
        compile_spec(asset, particle1, property1) == compile_spec(asset, particle2, property2),
{
    lemma_layout_view_unique(particle1, particle2);
    lemma_layout_view_unique(property1, property2);
}

/// The outcome of compiling an effect: the layouts that the GPU buffers
/// must have, and the source of each phase.
pub struct CompiledEffect {
    particle_layout: ParticleLayout,
    property_layout: PropertyLayout,
    init_code: String,
    init_functions: String,
    update_code: Vec<String>,
    update_functions: String,
    render_code: Vec<(String, String)>,
}

/// The texts of a sequence of strings.
pub open spec fn texts(strings: Seq<String>) -> Seq<Seq<char>> {
    strings.map_values(|s: String| s@)
}

/// The texts of a sequence of pairs of strings.
pub open spec fn text_pairs(strings: Seq<(String, String)>) -> Seq<(Seq<char>, Seq<char>)> {
    strings.map_values(|s: (String, String)| (s.0@, s.1@))
}

impl View for CompiledEffect {
    type V = CompiledView;

    closed spec fn view(&self) -> CompiledView {
        CompiledView {
            particle_layout: self.particle_layout@,
            property_layout: self.property_layout@,
            init_code: self.init_code@,
            init_functions: self.init_functions@,
            update_code: texts(self.update_code@),
            update_functions: self.update_functions@,
            render_code: text_pairs(self.render_code@),
        }
    }
}

impl CompiledEffect {
    /// The layout of a particle.
    pub fn particle_layout(&self) -> (r: &ParticleLayout)
        ensures
            r@ == self@.particle_layout,
    {
        &self.particle_layout
    }

    /// The layout of the properties.
    pub fn property_layout(&self) -> (r: &PropertyLayout)
        ensures
            r@ == self@.property_layout,
    {
        &self.property_layout
    }

    /// The main code of the init phase.
    pub fn init_code(&self) -> (r: &str)
        ensures
            r@ == self@.init_code,
    {
        self.init_code.as_str()
    }

    /// The function definitions of the init phase.
    pub fn init_functions(&self) -> (r: &str)
        ensures
            r@ == self@.init_functions,
    {
        self.init_functions.as_str()
    }

    /// Number of particle groups.
    pub fn group_count(&self) -> (r: usize)
        ensures
            r == self@.update_code.len(),
    {
        self.update_code.len()
    }

    /// The main code of the update phase for group `group`.
    pub fn update_code(&self, group: usize) -> (r: &str)
        requires
            group < self@.update_code.len(),
        ensures
            r@ == self@.update_code[group as int],
    {
        self.update_code[group].as_str()
    }

    /// The function definitions of the update phase.
    pub fn update_functions(&self) -> (r: &str)
        ensures
            r@ == self@.update_functions,
    {
        self.update_functions.as_str()
    }

    /// The code of the vertex stage of the render phase for group `group`.
    pub fn render_vertex_code(&self, group: usize) -> (r: &str)
        requires
            group < self@.render_code.len(),
        ensures
            r@ == self@.render_code[group as int].0,
    {
        self.render_code[group].0.as_str()
    }

    /// The code of the fragment stage of the render phase for group `group`.
    pub fn render_fragment_code(&self, group: usize) -> (r: &str)
        requires
            group < self@.render_code.len(),
        ensures
            r@ == self@.render_code[group as int].1,
    {
        self.render_code[group].1.as_str()
    }
}

/// Whether the first `count` of `modifiers` lead from `start` to `context`
/// and the next one fails there with `e`.
pub open spec fn stopped_at(
    modifiers: Seq<Modifier>,
    nodes: Seq<Expr>,
    start: WriterView,
    count: int,
    context: WriterView,
    e: ExprError,
) -> bool {
    &&& 0 <= count < modifiers.len()
    &&& apply_all(modifiers.take(count), nodes, start) == Ok::<WriterView, ExprError>(context)
    &&& modifiers[count].apply_spec(nodes, context) == Err::<WriterView, ExprError>(e)
}

/// Applies `modifiers` in order, up to the first error. After an error the
/// context holds the code of the modifiers before the one that failed.
pub fn apply_modifiers(modifiers: &Vec<Modifier>, module: &mut Module, context: &mut ShaderWriter) -> (r:
    Result<(), ExprError>)
    requires
        old(context).wf(),
    ensures
        final(context).wf(),
        final(module)@ == old(module)@,
        match apply_all(modifiers@, old(module)@, old(context)@) {
            Ok(view) => r is Ok && final(context)@ == view,
            Err(e) => r == Err::<(), ExprError>(e) && exists|count: int| #[trigger]
                stopped_at(modifiers@, old(module)@, old(context)@, count, final(context)@, e),
        },
{
    let mut i: usize = 0;
    assert(modifiers@.take(0) =~= Seq::<Modifier>::empty());
    while i < modifiers.len()
        invariant
            i <= modifiers.len(),
            context.wf(),
            module@ == old(module)@,
            apply_all(modifiers@.take(i as int), old(module)@, old(context)@) == Ok::<
                WriterView,
                ExprError,
            >(context@),
        decreases modifiers.len() - i,
    {
        proof {
            assert(modifiers@.take(i + 1).drop_last() =~= modifiers@.take(i as int));
            assert(modifiers@.take(i + 1).last() == modifiers@[i as int]);
        }
        match modifiers[i].apply(module, context) {
            Ok(()) => {},
            Err(e) => {
                proof {
                    lemma_apply_all_error(modifiers@, old(module)@, old(context)@, i + 1, e);
                    assert(stopped_at(
                        modifiers@,
                        old(module)@,
                        old(context)@,
                        i as int,
                        context@,
                        e,
                    ));
                }
                return Err(e);
            },
        }
        i += 1;
    }
    assert(modifiers@.take(i as int) =~= modifiers@);
    Ok(())
}

/// An error met by a prefix of the modifiers is the error of them all.
proof fn lemma_apply_all_error(
    modifiers: Seq<Modifier>,
    nodes: Seq<Expr>,
    context: WriterView,
    n: int,
    e: ExprError,
)
    requires
        0 <= n <= modifiers.len(),
        apply_all(modifiers.take(n), nodes, context) == Err::<WriterView, ExprError>(e),
    ensures
        apply_all(modifiers, nodes, context) == Err::<WriterView, ExprError>(e),
    decreases modifiers.len() - n,
{
    if n < modifiers.len() {
        assert(modifiers.take(n + 1).drop_last() =~= modifiers.take(n));
        lemma_apply_all_error(modifiers, nodes, context, n + 1, e);
    } else {
        assert(modifiers.take(n) =~= modifiers);
    }
}

/// An error met by the first groups of the update phase is the error of
/// them all.
proof fn lemma_update_groups_error(
    asset: AssetView,
    context: WriterView,
    n: nat,
    count: nat,
    e: ExprError,
)
    requires
        n <= count,
        update_groups(asset, context, n) == Err::<(Seq<Seq<char>>, WriterView), ExprError>(e),
    ensures
        update_groups(asset, context, count) == Err::<(Seq<Seq<char>>, WriterView), ExprError>(e),
    decreases count,
{
    if n < count {
        lemma_update_groups_error(asset, context, n, (count - 1) as nat, e);
    }
}

/// Whether the first `count` groups of the update phase yield `codes` and
/// leave `context`.
#[verifier::opaque]
spec fn update_reached(
    asset: AssetView,
    start: WriterView,
    count: nat,
    codes: Seq<Seq<char>>,
    context: WriterView,
) -> bool {
    update_groups(asset, start, count) == Ok::<(Seq<Seq<char>>, WriterView), ExprError>(
        (codes, context),
    )
}

/// Before any group, there is no code and the context is as it started.
proof fn lemma_update_start(asset: AssetView, start: WriterView)
    ensures
        update_reached(asset, start, 0, Seq::empty(), without_code(start)),
{
    reveal(update_reached);
}

/// One more group that succeeds adds its code.
proof fn lemma_update_step(
    asset: AssetView,
    start: WriterView,
    count: nat,
    codes: Seq<Seq<char>>,
    context: WriterView,
    done: WriterView,
)
    requires
        count < u32::MAX,
        update_reached(asset, start, count, codes, context),
        update_group(asset, context, count as u32) == Ok::<WriterView, ExprError>(done),
    ensures
        update_reached(asset, start, count + 1, codes.push(done.main_code), without_code(done)),
{
    reveal(update_reached);
}

/// A group that fails makes the update phase fail with its error.
proof fn lemma_update_fail(
    asset: AssetView,
    start: WriterView,
    count: nat,
    codes: Seq<Seq<char>>,
    context: WriterView,
    total: nat,
    e: ExprError,
)
    requires
        count < u32::MAX,
        count < total,
        update_reached(asset, start, count, codes, context),
        update_group(asset, context, count as u32) == Err::<WriterView, ExprError>(e),
    ensures
        update_groups(asset, start, total) == Err::<(Seq<Seq<char>>, WriterView), ExprError>(e),
{
    reveal(update_reached);
    assert(update_groups(asset, start, count + 1) == Err::<
        (Seq<Seq<char>>, WriterView),
        ExprError,
    >(e));
    lemma_update_groups_error(asset, start, count + 1, total, e);
}

impl EffectAsset {
    /// Generates the update code of all particle groups into `context`: the
    /// main code of each group, while the functions gather in `context`.
    fn compile_update(&self, module: &mut Module, context: &mut ShaderWriter) -> (r: Result<
        Vec<String>,
        ExprError,
    >)
        requires
            old(context).wf(),
            old(context)@.main_code == Seq::<char>::empty(),
            old(module)@ == self@.module,
            self@.capacities.len() <= MAX_GROUPS,
        ensures
            final(context).wf(),
            final(module)@ == old(module)@,
            match update_groups(self@, old(context)@, self@.capacities.len()) {
                Ok((codes, done)) => r matches Ok(v) && texts(v@) == codes && final(context)@
                    == done,
                Err(e) => r == Err::<Vec<String>, ExprError>(e),
            },
    {
        let groups = self.capacities().len();
        let ghost start = context@;
        let mut update_code: Vec<String> = Vec::new();
        let mut g: usize = 0;
        proof {
            lemma_update_start(self@, start);
            assert(texts(update_code@) =~= Seq::<Seq<char>>::empty());
            assert(without_code(start) == start);
        }
        while g < groups
            invariant
                g <= groups,
                groups == self@.capacities.len(),
                groups <= MAX_GROUPS,
                context.wf(),
                module@ == self@.module,
                old(module)@ == self@.module,
                start == old(context)@,
                update_code.len() == g,
                update_reached(self@, start, g as nat, texts(update_code@), context@),
            decreases groups - g,
        {
            let ghost codes = texts(update_code@);
            let ghost before = context@;
            match self.compile_update_group(g as u32, module, context) {
                Ok(code) => {
                    update_code.push(code);
                    proof {
                        let done = update_group(self@, before, g as u32)->Ok_0;
                        lemma_update_step(self@, start, g as nat, codes, before, done);
                        assert(texts(update_code@) =~= codes.push(code@));
                    }
                },
                Err(e) => {
                    proof {
                        lemma_update_fail(self@, start, g as nat, codes, before, groups as nat, e);
                    }
                    return Err(e);
                },
            }
            g += 1;
        }
        proof {
            reveal(update_reached);
        }
        Ok(update_code)
    }

    /// Generates the update code of one particle group into `context`, and
    /// hands out the main code; the functions stay in `context`.
    fn compile_update_group(&self, group: u32, module: &mut Module, context: &mut ShaderWriter) -> (r:
        Result<String, ExprError>)
        requires
            old(context).wf(),
            old(module)@ == self@.module,
        ensures
            final(context).wf(),
            final(module)@ == old(module)@,
            match update_group(self@, old(context)@, group) {
                Ok(done) => r matches Ok(code) && code@ == done.main_code && final(context)@
                    == without_code(done),
                Err(e) => r == Err::<String, ExprError>(e),
            },
    {
        let modifiers = self.update_modifiers_for_group(group);
        match apply_modifiers(&modifiers, module, context) {
            Ok(()) => {},
            Err(e) => {
                return Err(e);
            },
        }
        Ok(context.take_main_code())
    }

    /// Compiles the effect: lays out its particles and properties, then
    /// generates the code of each phase by applying the modifiers of the
    /// phase in the order of their registration. Init modifiers apply to
    /// group 0; update and render modifiers to each group they name. The
    /// functions of the update phase are shared by all groups.
    ///
    /// The effect itself is not changed. The outcome depends on the content
    /// of the effect only.
    pub fn compile(&self) -> (r: Result<CompiledEffect, ExprError>)
        requires
            self.wf(),
            self@.capacities.len() <= MAX_GROUPS,
        ensures
            r matches Ok(c) ==> {
                &&& c@.particle_layout.wf()
                &&& c@.property_layout.wf()
                &&& c@.particle_layout.fields().to_set() == self@.attributes().map(
                    |a: Attribute| attribute_field(a),
                )
                &&& c@.property_layout.fields().to_set() == property_fields(
                    self@.properties,
                ).to_set()
                &&& compile_spec(self@, c@.particle_layout, c@.property_layout) == Ok::<
                    CompiledView,
                    ExprError,
                >(c@)
            },
            r matches Err(e) ==> exists|particle_layout: LayoutView, property_layout: LayoutView|
                {
                    &&& particle_layout.wf()
                    &&& property_layout.wf()
                    &&& particle_layout.fields().to_set() == self@.attributes().map(
                        |a: Attribute| attribute_field(a),
                    )
                    &&& property_layout.fields().to_set() == property_fields(
                        self@.properties,
                    ).to_set()
                    &&& #[trigger] compile_spec(self@, particle_layout, property_layout) == Err::<
                        CompiledView,
                        ExprError,
                    >(e)
                },
    {
        let particle_layout = self.particle_layout();
        let property_layout = self.property_layout();
        let mut module = self.module().clone();
        let groups = self.capacities().len();
        let ghost pl = particle_layout@;
        let ghost ql = property_layout@;

        let mut init = ShaderWriter::new(ModifierContext::Init, &property_layout, &particle_layout);
        let init_modifiers = self.init_modifiers();
        match apply_modifiers(&init_modifiers, &mut module, &mut init) {
            Ok(()) => {},
            Err(e) => {
                assert(compile_spec(self@, pl, ql) == Err::<CompiledView, ExprError>(e));
                return Err(e);
            },
        }
        let init_functions = init.function_definitions();
        let init_code = init.take_main_code();

        let mut update = ShaderWriter::new(
            ModifierContext::Update,
            &property_layout,
            &particle_layout,
        );
        let update_code = match self.compile_update(&mut module, &mut update) {
            Ok(code) => code,
            Err(e) => {
                assert(compile_spec(self@, pl, ql) == Err::<CompiledView, ExprError>(e));
                return Err(e);
            },
        };
        let update_functions = update.function_definitions();

        let mut render_code: Vec<(String, String)> = Vec::new();
        let mut h: usize = 0;
        assert(text_pairs(render_code@) =~= render_groups(self@, 0));
        while h < groups
            invariant
                h <= groups,
                groups == self@.capacities.len(),
                groups <= MAX_GROUPS,
                module@ == self@.module,
                render_code.len() == h,
                text_pairs(render_code@) == render_groups(self@, h as nat),
            decreases groups - h,
        {
            let modifiers = self.render_modifiers_for_group(h as u32);
            let mut context = RenderContext::new(&property_layout, &particle_layout);
            let mut k: usize = 0;
            assert(modifiers@.take(0) =~= Seq::<RenderModifier>::empty());
            while k < modifiers.len()
                invariant
                    k <= modifiers.len(),
                    module@ == self@.module,
                    (context@.vertex_code, context@.fragment_code) == render_all(
                        modifiers@.take(k as int),
                    ),
                decreases modifiers.len() - k,
            {
                proof {
                    assert(modifiers@.take(k + 1).drop_last() =~= modifiers@.take(k as int));
                    assert(modifiers@.take(k + 1).last() == modifiers@[k as int]);
                }
                modifiers[k].apply_render(&mut module, &mut context);
                k += 1;
            }
            assert(modifiers@.take(k as int) =~= modifiers@);
            let ghost before = text_pairs(render_code@);
            let vertex = crate::text::owned(context.vertex_code());
            let fragment = crate::text::owned(context.fragment_code());
            render_code.push((vertex, fragment));
            assert(text_pairs(render_code@) =~= before.push(
                (context@.vertex_code, context@.fragment_code),
            ));
            h += 1;
        }

        let r = CompiledEffect {
            particle_layout,
            property_layout,
            init_code,
            init_functions,
            update_code,
            update_functions,
            render_code,
        };
        proof {
            assert(compile_spec(self@, pl, ql) == Ok::<CompiledView, ExprError>(r@));
        }
        Ok(r)
    }
}

} // verus!
