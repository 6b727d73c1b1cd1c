//! The description of a visual effect: capacities, spawner, properties, and
//! the modifiers of each phase.

use vstd::prelude::*;
use vstd::string::*;
use crate::attribute::Attribute;
use crate::attribute_set::{id_set_contents, id_set_insert, id_set_into_vec, id_set_new, AttributeIdSet};
use crate::expr::{Expr, ExprHandle, Module};
use crate::groups::{ModifierContext, ParticleGroupSet};
use crate::layout::{distinct_names, has_name, lemma_layout_names, MAX_ENTRIES};
use crate::modifier::render::RenderModifier;
use crate::modifier::{GroupedModifier, Modifier};
use crate::particle_layout::{attribute_field, ParticleLayout};
use crate::property::{property_fields, Property, PropertyLayout};
use crate::spawner::{CpuValue, Spawner, INFINITY_BITS, ZERO_BITS};
use crate::text::{owned, str_eq};
use crate::value::Value;

verus! {

/// How the motion of particles is integrated.
#[derive(Clone, Copy, Debug, PartialEq, Eq, Structural, Hash)]
pub enum MotionIntegration {
    /// No integration: a particle moves only where a modifier sets its
    /// position.
    NoIntegration,
    /// Euler integration in each update, before the modifiers are applied.
    PreUpdate,
    /// Euler integration in each update, after the modifiers are applied.
    PostUpdate,
}

impl Default for MotionIntegration {
    /// Integration after the modifiers.
    fn default() -> (r: MotionIntegration)
        ensures
            r == MotionIntegration::PostUpdate,
    {
        MotionIntegration::PostUpdate
    }
}

/// When an effect is simulated.
#[derive(Clone, Copy, Debug, PartialEq, Eq, Structural, Hash)]
pub enum SimulationCondition {
    /// Only while the effect is visible.
    WhenVisible,
    /// Always, visible or not.
    Always,
}

impl Default for SimulationCondition {
    /// Simulation while visible.
    fn default() -> (r: SimulationCondition)
        ensures
            r == SimulationCondition::WhenVisible,
    {
        SimulationCondition::WhenVisible
    }
}

/// The space in which particles are simulated.
#[derive(Clone, Copy, Debug, PartialEq, Eq, Structural, Hash)]
pub enum SimulationSpace {
    /// The space of the world: particles stay behind when the emitter moves.
    Global,
    /// The space of the emitter: particles move with it.
    Local,
}

impl Default for SimulationSpace {
    /// The space of the world.
    fn default() -> (r: SimulationSpace)
        ensures
            r == SimulationSpace::Global,
    {
        SimulationSpace::Global
    }
}

/// How the opacity of a particle is used when it is drawn.
#[derive(Clone, Copy, Debug, PartialEq, Eq, Structural, Hash)]
#[non_exhaustive]
pub enum AlphaMode {
    /// The color is blended over what is behind, by its opacity.
    Blend,
    /// A fragment is opaque where its opacity reaches the cutoff that the
    /// expression gives, and discarded elsewhere.
    Mask(ExprHandle),
}

impl Default for AlphaMode {
    /// Blending.
    fn default() -> (r: AlphaMode)
        ensures
            r == AlphaMode::Blend,
    {
        AlphaMode::Blend
    }
}

/// A breach of the contract of a registration function.
#[derive(Clone, Copy, Debug, PartialEq, Eq, Structural, Hash)]
pub enum ContractViolation {
    /// The effect has a property of that name already.
    DuplicateProperty,
    /// The effect has as many properties as a layout can hold.
    TooManyProperties,
    /// The target of a registration is not a single phase.
    MalformedContext,
    /// The render phase was named to a function that registers init and
    /// update modifiers.
    RenderContext,
    /// The modifier may not run in the phase.
    UnsupportedContext,
    /// A particle group has the capacity zero.
    ZeroCapacity,
}

/// Whether a modifier is selected for a phase and, where one is given, for a
/// particle group.
pub open spec fn selects(gm: GroupedModifier, phase: ModifierContext, group: Option<u32>) -> bool {
    gm.modifier.context_spec().includes(phase) && (group matches Some(g) ==> gm.groups.has(g))
}

/// The modifiers of `list` that may run in `phase` and, where `group` is
/// given, apply to that group, in the order of the list.
pub open spec fn selected(list: Seq<GroupedModifier>, phase: ModifierContext, group: Option<u32>) -> Seq<
    Modifier,
>
    decreases list.len(),
{
    if list.len() == 0 {
        Seq::empty()
    } else {
        let rest = selected(list.drop_last(), phase, group);
        if selects(list.last(), phase, group) {
            rest.push(list.last().modifier)
        } else {
            rest
        }
    }
}

/// The render modifiers of `list` that, where `group` is given, apply to
/// that group, in the order of the list.
pub open spec fn selected_render(list: Seq<GroupedModifier>, group: Option<u32>) -> Seq<
    RenderModifier,
>
    decreases list.len(),
{
    if list.len() == 0 {
        Seq::empty()
    } else {
        let rest = selected_render(list.drop_last(), group);
        match list.last().modifier {
            Modifier::Render(m) => if group matches Some(g) ==> list.last().groups.has(g) {
                rest.push(m)
            } else {
                rest
            },
            _ => rest,
        }
    }
}

/// The attributes that the modifiers of `list` need.
pub open spec fn attributes_of(list: Seq<GroupedModifier>) -> Set<Attribute>
    decreases list.len(),
{
    if list.len() == 0 {
        Set::empty()
    } else {
        attributes_of(list.drop_last()) + list.last().modifier.attributes_spec().to_set()
    }
}

/// The mathematical value of an [`EffectAsset`].
pub ghost struct AssetView {
    /// Display name.
    pub name: Seq<char>,
    /// Largest number of particles of each group.
    pub capacities: Seq<u32>,
    /// The spawner.
    pub spawner: Spawner,
    /// Sort key for 2D rendering, as the bits of a float.
    pub z_layer_2d: u32,
    /// Simulation space.
    pub simulation_space: SimulationSpace,
    /// Simulation condition.
    pub simulation_condition: SimulationCondition,
    /// The modifiers registered for the init phase, in order.
    pub init_modifiers: Seq<GroupedModifier>,
    /// The modifiers registered for the update phase, in order.
    pub update_modifiers: Seq<GroupedModifier>,
    /// The modifiers registered for the render phase, in order.
    pub render_modifiers: Seq<GroupedModifier>,
    /// The properties, in the order of their declaration.
    pub properties: Seq<Property>,
    /// Motion integration.
    pub motion_integration: MotionIntegration,
    /// The nodes of the expression module.
    pub module: Seq<Expr>,
    /// Alpha mode.
    pub alpha_mode: AlphaMode,
}

impl AssetView {
    /// The attributes that the modifiers of all phases need.
    pub open spec fn attributes(self) -> Set<Attribute> {
        attributes_of(self.init_modifiers) + attributes_of(self.update_modifiers) + attributes_of(
            self.render_modifiers,
        )
    }

    /// Whether the effect has a property called `name`.
    pub open spec fn has_property(self, name: Seq<char>) -> bool {
        exists|i: int|
            0 <= i < self.properties.len() && (#[trigger] self.properties[i]).name_spec() == name
    }

    /// The breach that adding a property called `name` would be, if any.
    pub open spec fn property_violation(self, name: Seq<char>) -> Option<ContractViolation> {
        if self.has_property(name) {
            Some(ContractViolation::DuplicateProperty)
        } else if self.properties.len() >= MAX_ENTRIES {
            Some(ContractViolation::TooManyProperties)
        } else {
            None
        }
    }

    /// Validity: all capacities are positive, the properties have distinct
    /// names, and there are no more of them than a layout can hold.
    pub open spec fn wf(self) -> bool {
        &&& !has_zero(self.capacities)
        &&& distinct_names(property_fields(self.properties))
        &&& self.properties.len() <= MAX_ENTRIES
    }
}

/// The breach that registering `modifier` for `context` through the
/// functions for init and update modifiers would be, if any: the context
/// must be a single phase, must not be the render phase, and must be one in
/// which the modifier may run.
pub open spec fn modifier_violation(context: ModifierContext, modifier: Modifier) -> Option<
    ContractViolation,
> {
    if !context.is_phase() {
        Some(ContractViolation::MalformedContext)
    } else if context == ModifierContext::Render {
        Some(ContractViolation::RenderContext)
    } else if !modifier.context_spec().includes(context) {
        Some(ContractViolation::UnsupportedContext)
    } else {
        None
    }
}

/// The description of a visual effect.
///
/// It is made once, from capacities, a spawner and an expression module, and
/// then extended with properties and modifiers. The order of the modifiers
/// of a phase is the order in which their code runs.
#[derive(Debug)]
pub struct EffectAsset {
    /// Display name of the effect.
    pub name: String,
    capacities: Vec<u32>,
    /// The spawner.
    pub spawner: Spawner,
    /// For 2D rendering, the Z coordinate used as the sort key, as the bits
    /// of a float.
    pub z_layer_2d: u32,
    /// The space in which the particles are simulated.
    pub simulation_space: SimulationSpace,
    /// When the effect is simulated.
    pub simulation_condition: SimulationCondition,
    init_modifiers: Vec<GroupedModifier>,
    update_modifiers: Vec<GroupedModifier>,
    render_modifiers: Vec<GroupedModifier>,
    properties: Vec<Property>,
    /// How the motion of particles is integrated.
    pub motion_integration: MotionIntegration,
    module: Module,
    /// How opacity is used in drawing.
    pub alpha_mode: AlphaMode,
}

impl View for EffectAsset {
    type V = AssetView;

    closed spec fn view(&self) -> AssetView {
        AssetView {
            name: self.name@,
            capacities: self.capacities@,
            spawner: self.spawner,
            z_layer_2d: self.z_layer_2d,
            simulation_space: self.simulation_space,
            simulation_condition: self.simulation_condition,
            init_modifiers: self.init_modifiers@,
            update_modifiers: self.update_modifiers@,
            render_modifiers: self.render_modifiers@,
            properties: self.properties@,
            motion_integration: self.motion_integration,
            module: self.module@,
            alpha_mode: self.alpha_mode,
        }
    }
}

/// The parts of an effect, as they are stored and exchanged.
pub struct AssetParts {
    /// Display name.
    pub name: String,
    /// Largest number of particles of each group.
    pub capacities: Vec<u32>,
    /// The spawner.
    pub spawner: Spawner,
    /// Sort key for 2D rendering, as the bits of a float.
    pub z_layer_2d: u32,
    /// Simulation space.
    pub simulation_space: SimulationSpace,
    /// Simulation condition.
    pub simulation_condition: SimulationCondition,
    /// The modifiers of the init phase, in order.
    pub init_modifiers: Vec<GroupedModifier>,
    /// The modifiers of the update phase, in order.
    pub update_modifiers: Vec<GroupedModifier>,
    /// The modifiers of the render phase, in order.
    pub render_modifiers: Vec<GroupedModifier>,
    /// The properties, in the order of their declaration.
    pub properties: Vec<Property>,
    /// Motion integration.
    pub motion_integration: MotionIntegration,
    /// The expression module.
    pub module: Module,
    /// Alpha mode.
    pub alpha_mode: AlphaMode,
}

impl View for AssetParts {
    type V = AssetView;

    open spec fn view(&self) -> AssetView {
        AssetView {
            name: self.name@,
            capacities: self.capacities@,
            spawner: self.spawner,
            z_layer_2d: self.z_layer_2d,
            simulation_space: self.simulation_space,
            simulation_condition: self.simulation_condition,
            init_modifiers: self.init_modifiers@,
            update_modifiers: self.update_modifiers@,
            render_modifiers: self.render_modifiers@,
            properties: self.properties@,
            motion_integration: self.motion_integration,
            module: self.module@,
            alpha_mode: self.alpha_mode,
        }
    }
}

/// Whether a capacity is zero.
pub open spec fn has_zero(capacities: Seq<u32>) -> bool {
    exists|i: int| 0 <= i < capacities.len() && capacities[i] == 0
}

/// Why the parts of an effect are not valid, if they are not: a capacity of
/// zero comes first, then too many properties, then a name that two
/// properties share.
pub open spec fn parts_violation(parts: AssetView) -> Option<ContractViolation> {
    if has_zero(parts.capacities) {
        Some(ContractViolation::ZeroCapacity)
    } else if parts.properties.len() > MAX_ENTRIES {
        Some(ContractViolation::TooManyProperties)
    } else if !distinct_names(property_fields(parts.properties)) {
        Some(ContractViolation::DuplicateProperty)
    } else {
        None
    }
}

/// A name can be given to one property only. An effect accepts a property
/// exactly when none of its properties has the name and it has room for one
/// more; once a property of a name is added, a second one of that name is
/// refused as a duplicate, and the names stay distinct.
pub proof fn lemma_duplicate_property_rejected(asset: AssetView, property: Property)
    requires
        asset.wf(),
    ensures
        asset.property_violation(property.name_spec()) is None <==> (!asset.has_property(
            property.name_spec(),
        ) && asset.properties.len() < MAX_ENTRIES),
        asset.has_property(property.name_spec()) ==> asset.property_violation(
            property.name_spec(),
        ) == Some(ContractViolation::DuplicateProperty),
        ({
            let after = AssetView { properties: asset.properties.push(property), ..asset };
            &&& after.property_violation(property.name_spec()) == Some(
                ContractViolation::DuplicateProperty,
            )
            &&& asset.property_violation(property.name_spec()) is None ==> after.wf()
        }),
{
    let name = property.name_spec();
    let after = AssetView { properties: asset.properties.push(property), ..asset };
    assert(after.properties[asset.properties.len() as int].name_spec() == name);
    if asset.property_violation(name) is None {
        let before = property_fields(asset.properties);
        let fields = property_fields(after.properties);
        assert forall|i: int, j: int| 0 <= i < j < fields.len() implies (#[trigger] fields[i]).name
            != (#[trigger] fields[j]).name by {
            if j < before.len() {
                assert(before[i].name != before[j].name);
            } else {
                assert(asset.properties[i].name_spec() != name);
            }
        }
    }
}

/// A modifier is registered only for a phase in which it may run. The
/// functions for init and update modifiers accept a modifier for a context
/// exactly when the context is the init or the update phase and the modifier
/// may run in it. So a modifier that runs in the init phase alone is refused
/// for the update phase, one that runs in the update phase alone is refused
/// for the init phase, and a render modifier is refused for both.
pub proof fn lemma_wrong_phase_rejected(context: ModifierContext, modifier: Modifier)
    ensures
        modifier_violation(context, modifier) is None <==> ((context == ModifierContext::Init
            || context == ModifierContext::Update) && modifier.context_spec().includes(context)),
        modifier.context_spec() == ModifierContext::Init ==> !modifier.context_spec().includes(
            ModifierContext::Update,
        ) && modifier_violation(ModifierContext::Update, modifier) == Some(
            ContractViolation::UnsupportedContext,
        ),
        modifier.context_spec() == ModifierContext::Update ==> !modifier.context_spec().includes(
            ModifierContext::Init,
        ) && modifier_violation(ModifierContext::Init, modifier) == Some(
            ContractViolation::UnsupportedContext,
        ),
        modifier.context_spec() == ModifierContext::Render ==> modifier_violation(
            ModifierContext::Init,
            modifier,
        ) is Some && modifier_violation(ModifierContext::Update, modifier) is Some,
        (modifier is SetPositionSphere || modifier is SetVelocitySphere) ==> modifier.context_spec()
            == ModifierContext::Init,
        (modifier is LinearDrag || modifier is Accel || modifier is ConformToSphere
            || modifier is Clone) ==> modifier.context_spec() == ModifierContext::Update,
        modifier is Render ==> modifier.context_spec() == ModifierContext::Render,
{
}

/// The parts of a valid effect are valid: an effect that is taken apart can
/// be put together again, and is then the same in every part.
pub proof fn lemma_parts_round_trip(asset: AssetView)
    requires
        asset.wf(),
    ensures
        parts_violation(asset) is None,
{
}

/// Whether no capacity is zero.
fn all_positive(capacities: &Vec<u32>) -> (r: bool)
    ensures
        r == !has_zero(capacities@),
{
    let mut i: usize = 0;
    while i < capacities.len()
        invariant
            i <= capacities.len(),
            forall|j: int| 0 <= j < i ==> capacities@[j] != 0,
        decreases capacities.len() - i,
    {
        if capacities[i] == 0 {
            return false;
        }
        i += 1;
    }
    true
}

/// Whether no two properties share a name.
fn names_distinct(properties: &Vec<Property>) -> (r: bool)
    ensures
        r == distinct_names(property_fields(properties@)),
{
    let ghost fields = property_fields(properties@);
    let mut j: usize = 0;
    while j < properties.len()
        invariant
            j <= properties.len(),
            fields == property_fields(properties@),
            forall|a: int, b: int|
                0 <= a < b < j ==> (#[trigger] fields[a]).name != (#[trigger] fields[b]).name,
        decreases properties.len() - j,
    {
        let mut i: usize = 0;
        while i < j
            invariant
                i <= j,
                j < properties.len(),
                fields == property_fields(properties@),
                forall|a: int| 0 <= a < i ==> (#[trigger] fields[a]).name != fields[j as int].name,
            decreases j - i,
        {
            if str_eq(properties[i].name(), properties[j].name()) {
                assert(fields[i as int].name == fields[j as int].name);
                return false;
            }
            i += 1;
        }
        j += 1;
    }
    true
}

/// The modifiers of `list` selected for `phase` and `group`.
fn select(list: &Vec<GroupedModifier>, phase: ModifierContext, group: Option<u32>) -> (r: Vec<
    Modifier,
>)
    ensures
        r@ == selected(list@, phase, group),
{
    let mut r: Vec<Modifier> = Vec::new();
    let mut i: usize = 0;
    assert(list@.take(0) =~= Seq::<GroupedModifier>::empty());
    while i < list.len()
        invariant
            i <= list.len(),
            r@ == selected(list@.take(i as int), phase, group),
        decreases list.len() - i,
    {
        let gm = &list[i];
        proof {
            assert(list@.take(i + 1).drop_last() =~= list@.take(i as int));
            assert(list@.take(i + 1).last() == list@[i as int]);
        }
        let in_group = match group {
            Some(g) => gm.groups.contains(g),
            None => true,
        };
        if in_group && gm.modifier.context().contains(phase) {
            r.push(gm.modifier);
        }
        i += 1;
    }
    assert(list@.take(i as int) =~= list@);
    r
}

/// The render modifiers of `list` selected for `group`.
fn select_render(list: &Vec<GroupedModifier>, group: Option<u32>) -> (r: Vec<RenderModifier>)
    ensures
        r@ == selected_render(list@, group),
{
    let mut r: Vec<RenderModifier> = Vec::new();
    let mut i: usize = 0;
    assert(list@.take(0) =~= Seq::<GroupedModifier>::empty());
    while i < list.len()
        invariant
            i <= list.len(),
            r@ == selected_render(list@.take(i as int), group),
        decreases list.len() - i,
    {
        let gm = &list[i];
        proof {
            assert(list@.take(i + 1).drop_last() =~= list@.take(i as int));
            assert(list@.take(i + 1).last() == list@[i as int]);
        }
        let in_group = match group {
            Some(g) => gm.groups.contains(g),
            None => true,
        };
        if in_group {
            match gm.modifier.as_render() {
                Some(m) => {
                    r.push(*m);
                },
                None => {},
            }
        }
        i += 1;
    }
    assert(list@.take(i as int) =~= list@);
    r
}

/// Whether `set` holds the identifiers of the attributes in `seen`, and no
/// others.
spec fn holds_ids(set: AttributeIdSet, seen: Set<Attribute>) -> bool {
    forall|id: u32|
        #[trigger] id_set_contents(set).contains(id) <==> (Attribute::from_id_spec(id) matches Some(
            a,
        ) && seen.contains(a))
}

/// Adds the identifiers of the attributes that the modifiers of `list` need.
fn collect_attributes(set: &mut AttributeIdSet, list: &Vec<GroupedModifier>, Ghost(seen): Ghost<
    Set<Attribute>,
>)
    requires
        holds_ids(*old(set), seen),
    ensures
        holds_ids(*final(set), seen + attributes_of(list@)),
{
    let mut i: usize = 0;
    proof {
        assert(list@.take(0) =~= Seq::<GroupedModifier>::empty());
        assert(seen + attributes_of(list@.take(0)) =~= seen);
    }
    while i < list.len()
        invariant
            i <= list.len(),
            holds_ids(*set, seen + attributes_of(list@.take(i as int))),
        decreases list.len() - i,
    {
        let attributes = list[i].modifier.attributes();
        let ghost base = seen + attributes_of(list@.take(i as int));
        let mut j: usize = 0;
        proof {
            assert(list@.take(i + 1).drop_last() =~= list@.take(i as int));
            assert(list@.take(i + 1).last() == list@[i as int]);
            assert(attributes@.take(0) =~= Seq::<Attribute>::empty());
            assert(base + attributes@.take(0).to_set() =~= base);
        }
        while j < attributes.len()
            invariant
                j <= attributes.len(),
                holds_ids(*set, base + attributes@.take(j as int).to_set()),
            decreases attributes.len() - j,
        {
            let a = attributes[j];
            let ghost before = base + attributes@.take(j as int).to_set();
            let _ = id_set_insert(set, a.id());
            proof {
                let after = base + attributes@.take(j + 1).to_set();
                assert(attributes@.take(j + 1) =~= attributes@.take(j as int).push(a));
                attributes@.take(j as int).lemma_push_to_set_commute(a);
                assert(after =~= before.insert(a));
                assert forall|id: u32| #[trigger]
                    id_set_contents(*set).contains(id) <==> (Attribute::from_id_spec(
                        id,
                    ) matches Some(b) && after.contains(b)) by {
                    if id == a.id_spec() {
                        assert(Attribute::from_id_spec(id) == Some(a));
                    }
                }
            }
            j += 1;
        }
        proof {
            assert(attributes@.take(j as int) =~= attributes@);
            assert(base + attributes@.to_set() =~= seen + attributes_of(list@.take(i + 1)));
        }
        i += 1;
    }
    proof {
        assert(list@.take(i as int) =~= list@);
    }
}

impl EffectAsset {
    /// Validity: see [`AssetView::wf`].
    pub open spec fn wf(self) -> bool {
        self@.wf()
    }

    /// An effect without properties and modifiers.
    ///
    /// `capacities` gives, for each particle group, the largest number of
    /// particles alive at a time; its length is the number of groups. The
    /// capacities never change afterwards. `module` holds the expressions
    /// that the modifiers to come refer to.
    pub fn new(capacities: Vec<u32>, spawner: Spawner, module: Module) -> (r: EffectAsset)
        requires
            !has_zero(capacities@),
        ensures
            r.wf(),
            r@ == (AssetView {
                name: Seq::<char>::empty(),
                capacities: capacities@,
                spawner,
                z_layer_2d: 0,
                simulation_space: SimulationSpace::Global,
                simulation_condition: SimulationCondition::WhenVisible,
                init_modifiers: Seq::<GroupedModifier>::empty(),
                update_modifiers: Seq::<GroupedModifier>::empty(),
                render_modifiers: Seq::<GroupedModifier>::empty(),
                properties: Seq::<Property>::empty(),
                motion_integration: MotionIntegration::PostUpdate,
                module: module@,
                alpha_mode: AlphaMode::Blend,
            }),
    {
        let r = EffectAsset {
            name: String::new(),
            capacities,
            spawner,
            z_layer_2d: 0,
            simulation_space: SimulationSpace::Global,
            simulation_condition: SimulationCondition::WhenVisible,
            init_modifiers: Vec::new(),
            update_modifiers: Vec::new(),
            render_modifiers: Vec::new(),
            properties: Vec::new(),
            motion_integration: MotionIntegration::PostUpdate,
            module,
            alpha_mode: AlphaMode::Blend,
        };
        assert(r@.init_modifiers =~= Seq::<GroupedModifier>::empty());
        assert(r@.properties =~= Seq::<Property>::empty());
        r
    }

    /// Puts an effect together from its parts, once they are found valid:
    /// all capacities positive, no more properties than a layout can hold,
    /// and no name shared by two properties.
    pub fn from_parts(parts: AssetParts) -> (r: Result<EffectAsset, ContractViolation>)
        ensures
            match parts_violation(parts@) {
                Some(v) => r == Err::<EffectAsset, ContractViolation>(v),
                None => r matches Ok(asset) && asset@ == parts@ && asset.wf(),
            },
    {
        if !all_positive(&parts.capacities) {
            return Err(ContractViolation::ZeroCapacity);
        }
        if parts.properties.len() > MAX_ENTRIES {
            return Err(ContractViolation::TooManyProperties);
        }
        if !names_distinct(&parts.properties) {
            return Err(ContractViolation::DuplicateProperty);
        }
        Ok(
            EffectAsset {
                name: parts.name,
                capacities: parts.capacities,
                spawner: parts.spawner,
                z_layer_2d: parts.z_layer_2d,
                simulation_space: parts.simulation_space,
                simulation_condition: parts.simulation_condition,
                init_modifiers: parts.init_modifiers,
                update_modifiers: parts.update_modifiers,
                render_modifiers: parts.render_modifiers,
                properties: parts.properties,
                motion_integration: parts.motion_integration,
                module: parts.module,
                alpha_mode: parts.alpha_mode,
            },
        )
    }

    /// Takes the effect apart.
    pub fn into_parts(self) -> (r: AssetParts)
        ensures
            r@ == self@,
    {
        AssetParts {
            name: self.name,
            capacities: self.capacities,
            spawner: self.spawner,
            z_layer_2d: self.z_layer_2d,
            simulation_space: self.simulation_space,
            simulation_condition: self.simulation_condition,
            init_modifiers: self.init_modifiers,
            update_modifiers: self.update_modifiers,
            render_modifiers: self.render_modifiers,
            properties: self.properties,
            motion_integration: self.motion_integration,
            module: self.module,
            alpha_mode: self.alpha_mode,
        }
    }

    /// The display name of the effect.
    pub fn name(&self) -> (r: &str)
        ensures
            r@ == self@.name,
    {
        self.name.as_str()
    }

    /// The spawner of the effect.
    pub fn spawner(&self) -> (r: Spawner)
        ensures
            r == self@.spawner,
    {
        self.spawner
    }

    /// The sort key for 2D rendering, as the bits of a float.
    pub fn z_layer_2d(&self) -> (r: u32)
        ensures
            r == self@.z_layer_2d,
    {
        self.z_layer_2d
    }

    /// The space in which the particles are simulated.
    pub fn simulation_space(&self) -> (r: SimulationSpace)
        ensures
            r == self@.simulation_space,
    {
        self.simulation_space
    }

    /// When the effect is simulated.
    pub fn simulation_condition(&self) -> (r: SimulationCondition)
        ensures
            r == self@.simulation_condition,
    {
        self.simulation_condition
    }

    /// How the motion of particles is integrated.
    pub fn motion_integration(&self) -> (r: MotionIntegration)
        ensures
            r == self@.motion_integration,
    {
        self.motion_integration
    }

    /// How opacity is used in drawing.
    pub fn alpha_mode(&self) -> (r: AlphaMode)
        ensures
            r == self@.alpha_mode,
    {
        self.alpha_mode
    }

    /// The largest number of particles of each group.
    pub fn capacities(&self) -> (r: &[u32])
        ensures
            r@ == self@.capacities,
    {
        self.capacities.as_slice()
    }

    /// The expression module of the effect.
    pub fn module(&self) -> (r: &Module)
        ensures
            r@ == self@.module,
    {
        &self.module
    }

    /// The same effect with another name.
    pub fn with_name(self, name: &str) -> (r: EffectAsset)
        ensures
            r@ == (AssetView { name: name@, ..self@ }),
    {
        let mut r = self;
        r.name = owned(name);
        r
    }

    /// The same effect with another simulation condition.
    pub fn with_simulation_condition(self, simulation_condition: SimulationCondition) -> (r:
        EffectAsset)
        ensures
            r@ == (AssetView { simulation_condition, ..self@ }),
    {
        let mut r = self;
        r.simulation_condition = simulation_condition;
        r
    }

    /// The same effect with another simulation space.
    pub fn with_simulation_space(self, simulation_space: SimulationSpace) -> (r: EffectAsset)
        ensures
            r@ == (AssetView { simulation_space, ..self@ }),
    {
        let mut r = self;
        r.simulation_space = simulation_space;
        r
    }

    /// The same effect with another alpha mode.
    pub fn with_alpha_mode(self, alpha_mode: AlphaMode) -> (r: EffectAsset)
        ensures
            r@ == (AssetView { alpha_mode, ..self@ }),
    {
        let mut r = self;
        r.alpha_mode = alpha_mode;
        r
    }

    /// Whether the effect has a property called `name`.
    pub fn has_property(&self, name: &str) -> (r: bool)
        ensures
            r == self@.has_property(name@),
    {
        let mut i: usize = 0;
        while i < self.properties.len()
            invariant
                i <= self.properties.len(),
                forall|j: int| 0 <= j < i ==> (#[trigger] self@.properties[j]).name_spec() != name@,
            decreases self.properties.len() - i,
        {
            if str_eq(self.properties[i].name(), name) {
                assert(self@.properties[i as int].name_spec() == name@);
                return true;
            }
            i += 1;
        }
        false
    }

    /// Tells whether a property called `name` can be added: the breach that
    /// adding it would be, or `Ok`.
    pub fn check_property(&self, name: &str) -> (r: Result<(), ContractViolation>)
        ensures
            match self@.property_violation(name@) {
                Some(v) => r == Err::<(), ContractViolation>(v),
                None => r is Ok,
            },
    {
        if self.has_property(name) {
            Err(ContractViolation::DuplicateProperty)
        } else if self.properties.len() >= MAX_ENTRIES {
            Err(ContractViolation::TooManyProperties)
        } else {
            Ok(())
        }
    }

    /// The same effect with one more property, declared last.
    ///
    /// The name must be new to the effect: see
    /// [`EffectAsset::check_property`].
    pub fn with_property(self, name: &str, default_value: Value) -> (r: EffectAsset)
        requires
            self.wf(),
            self@.property_violation(name@) is None,
        ensures
            r.wf(),
            r@.properties.len() == self@.properties.len() + 1,
            r@.properties.drop_last() == self@.properties,
            r@.properties.last().name_spec() == name@,
            r@.properties.last().default_value_spec() == default_value,
            r@ == (AssetView { properties: r@.properties, ..self@ }),
    {
        let mut r = self;
        r.add_property(name, default_value);
        r
    }

    /// Adds a property, declared last.
    ///
    /// The name must be new to the effect: see
    /// [`EffectAsset::check_property`].
    pub fn add_property(&mut self, name: &str, default_value: Value)
        requires
            old(self).wf(),
            old(self)@.property_violation(name@) is None,
        ensures
            final(self).wf(),
            final(self)@.properties.len() == old(self)@.properties.len() + 1,
            final(self)@.properties.drop_last() == old(self)@.properties,
            final(self)@.properties.last().name_spec() == name@,
            final(self)@.properties.last().default_value_spec() == default_value,
            final(self)@ == (AssetView { properties: final(self)@.properties, ..old(self)@ }),
    {
        let property = Property::new(name, default_value);
        self.properties.push(property);
        proof {
            let before = old(self)@.properties;
            let after = self@.properties;
            assert(after.drop_last() =~= before);
            let fields = property_fields(after);
            assert forall|i: int, j: int| 0 <= i < j < fields.len() implies (
            #[trigger] fields[i]).name != (#[trigger] fields[j]).name by {
                if j < before.len() {
                    assert(property_fields(before)[i].name != property_fields(before)[j].name);
                } else {
                    assert(before[i].name_spec() != name@);
                }
            }
        }
    }

    /// The properties of the effect, in the order of their declaration.
    pub fn properties(&self) -> (r: &[Property])
        ensures
            r@ == self@.properties,
    {
        self.properties.as_slice()
    }

    /// The same effect with one more init modifier, which applies to group 0,
    /// where all particles are spawned.
    ///
    /// The modifier must be one that may run in the init phase.
    pub fn init(self, modifier: Modifier) -> (r: EffectAsset)
        requires
            modifier.context_spec().includes(ModifierContext::Init),
        ensures
            r@ == (AssetView {
                init_modifiers: self@.init_modifiers.push(
                    GroupedModifier { modifier, groups: ParticleGroupSet { mask: 1 } },
                ),
                ..self@
            }),
    {
        let mut r = self;
        let groups = ParticleGroupSet::single(0);
        assert(1u32 << 0u32 == 1u32) by (bit_vector);
        r.init_modifiers.push(GroupedModifier { modifier, groups });
        r
    }

    /// The same effect with one more update modifier, which applies to all
    /// groups.
    ///
    /// The modifier must be one that may run in the update phase.
    pub fn update(self, modifier: Modifier) -> (r: EffectAsset)
        requires
            modifier.context_spec().includes(ModifierContext::Update),
        ensures
            r@ == (AssetView {
                update_modifiers: self@.update_modifiers.push(
                    GroupedModifier { modifier, groups: ParticleGroupSet { mask: 0xFFFF_FFFF } },
                ),
                ..self@
            }),
    {
        let mut r = self;
        r.update_modifiers.push(GroupedModifier { modifier, groups: ParticleGroupSet::all() });
        r
    }

    /// The same effect with one more update modifier, which applies to the
    /// given groups.
    ///
    /// The modifier must be one that may run in the update phase.
    pub fn update_groups(self, modifier: Modifier, groups: ParticleGroupSet) -> (r: EffectAsset)
        requires
            modifier.context_spec().includes(ModifierContext::Update),
        ensures
            r@ == (AssetView {
                update_modifiers: self@.update_modifiers.push(GroupedModifier { modifier, groups }),
                ..self@
            }),
    {
        let mut r = self;
        r.update_modifiers.push(GroupedModifier { modifier, groups });
        r
    }

    /// Tells whether `modifier` can be registered for `context` with
    /// [`EffectAsset::add_modifier`]: the breach that it would be, or `Ok`.
    pub fn check_modifier(context: ModifierContext, modifier: &Modifier) -> (r: Result<
        (),
        ContractViolation,
    >)
        ensures
            match modifier_violation(context, *modifier) {
                Some(v) => r == Err::<(), ContractViolation>(v),
                None => r is Ok,
            },
    {
        if !context.is_single() {
            Err(ContractViolation::MalformedContext)
        } else if context == ModifierContext::Render {
            Err(ContractViolation::RenderContext)
        } else if !modifier.context().contains(context) {
            Err(ContractViolation::UnsupportedContext)
        } else {
            Ok(())
        }
    }

    /// The same effect with one more modifier of the init or update phase,
    /// which applies to all groups.
    ///
    /// `context` must be the init or the update phase, and one in which the
    /// modifier may run: see [`EffectAsset::check_modifier`].
    pub fn add_modifier(self, context: ModifierContext, modifier: Modifier) -> (r: EffectAsset)
        requires
            modifier_violation(context, modifier) is None,
        ensures
            r@ == self@.with_modifier(
                context,
                GroupedModifier { modifier, groups: ParticleGroupSet { mask: 0xFFFF_FFFF } },
            ),
    {
        self.add_modifier_to_groups(context, modifier, ParticleGroupSet::all())
    }

    /// The same effect with one more modifier of the init or update phase,
    /// which applies to the given groups.
    ///
    /// `context` must be the init or the update phase, and one in which the
    /// modifier may run: see [`EffectAsset::check_modifier`].
    pub fn add_modifier_to_groups(
        self,
        context: ModifierContext,
        modifier: Modifier,
        groups: ParticleGroupSet,
    ) -> (r: EffectAsset)
        requires
            modifier_violation(context, modifier) is None,
        ensures
            r@ == self@.with_modifier(context, GroupedModifier { modifier, groups }),
    {
        let mut r = self;
        let grouped_modifier = GroupedModifier { modifier, groups };
        if context == ModifierContext::Init {
            r.init_modifiers.push(grouped_modifier);
        } else {
            r.update_modifiers.push(grouped_modifier);
        }
        r
    }

    /// The same effect with one more render modifier, which applies to all
    /// groups.
    pub fn render(self, modifier: RenderModifier) -> (r: EffectAsset)
        ensures
            r@ == self@.with_render_modifier(modifier, ParticleGroupSet { mask: 0xFFFF_FFFF }),
    {
        self.render_groups(modifier, ParticleGroupSet::all())
    }

    /// The same effect with one more render modifier, which applies to the
    /// given groups.
    pub fn render_groups(self, modifier: RenderModifier, groups: ParticleGroupSet) -> (r:
        EffectAsset)
        ensures
            r@ == self@.with_render_modifier(modifier, groups),
    {
        let mut r = self;
        r.render_modifiers.push(GroupedModifier { modifier: Modifier::Render(modifier), groups });
        r
    }

    /// The same effect with one more render modifier, which applies to all
    /// groups.
    pub fn add_render_modifier(self, modifier: RenderModifier) -> (r: EffectAsset)
        ensures
            r@ == self@.with_render_modifier(modifier, ParticleGroupSet { mask: 0xFFFF_FFFF }),
    {
        self.render_groups(modifier, ParticleGroupSet::all())
    }

    /// The same effect with one more render modifier, which applies to the
    /// given groups.
    pub fn add_render_modifier_to_groups(self, modifier: RenderModifier, groups: ParticleGroupSet) -> (r:
        EffectAsset)
        ensures
            r@ == self@.with_render_modifier(modifier, groups),
    {
        self.render_groups(modifier, groups)
    }

    /// All modifiers of the effect: those of the init phase, then those of
    /// the update phase, then those of the render phase, each in the order of
    /// registration.
    pub fn modifiers(&self) -> (r: Vec<Modifier>)
        ensures
            r@ == self@.all_modifiers(),
    {
        let mut r: Vec<Modifier> = Vec::new();
        let ghost init = self@.init_modifiers.map_values(|gm: GroupedModifier| gm.modifier);
        let ghost update = self@.update_modifiers.map_values(|gm: GroupedModifier| gm.modifier);
        let ghost render = self@.render_modifiers.map_values(|gm: GroupedModifier| gm.modifier);
        let mut i: usize = 0;
        while i < self.init_modifiers.len()
            invariant
                i <= self.init_modifiers.len(),
                init == self@.init_modifiers.map_values(|gm: GroupedModifier| gm.modifier),
                r@ == init.take(i as int),
            decreases self.init_modifiers.len() - i,
        {
            r.push(self.init_modifiers[i].modifier);
            assert(r@ =~= init.take(i + 1));
            i += 1;
        }
        assert(init.take(i as int) =~= init);
        let mut j: usize = 0;
        while j < self.update_modifiers.len()
            invariant
                j <= self.update_modifiers.len(),
                update == self@.update_modifiers.map_values(|gm: GroupedModifier| gm.modifier),
                r@ == init + update.take(j as int),
            decreases self.update_modifiers.len() - j,
        {
            r.push(self.update_modifiers[j].modifier);
            assert(r@ =~= init + update.take(j + 1));
            j += 1;
        }
        assert(update.take(j as int) =~= update);
        let mut k: usize = 0;
        while k < self.render_modifiers.len()
            invariant
                k <= self.render_modifiers.len(),
                render == self@.render_modifiers.map_values(|gm: GroupedModifier| gm.modifier),
                r@ == init + update + render.take(k as int),
            decreases self.render_modifiers.len() - k,
        {
            r.push(self.render_modifiers[k].modifier);
            assert(r@ =~= init + update + render.take(k + 1));
            k += 1;
        }
        assert(render.take(k as int) =~= render);
        r
    }

    /// The modifiers registered for the init phase that may run in it.
    pub fn init_modifiers(&self) -> (r: Vec<Modifier>)
        ensures
            r@ == selected(self@.init_modifiers, ModifierContext::Init, None),
    {
        select(&self.init_modifiers, ModifierContext::Init, None)
    }

    /// The modifiers registered for the update phase that may run in it.
    pub fn update_modifiers(&self) -> (r: Vec<Modifier>)
        ensures
            r@ == selected(self@.update_modifiers, ModifierContext::Update, None),
    {
        select(&self.update_modifiers, ModifierContext::Update, None)
    }

    /// The modifiers registered for the update phase that may run in it and
    /// apply to the group `group_index`.
    pub fn update_modifiers_for_group(&self, group_index: u32) -> (r: Vec<Modifier>)
        ensures
            r@ == selected(self@.update_modifiers, ModifierContext::Update, Some(group_index)),
    {
        select(&self.update_modifiers, ModifierContext::Update, Some(group_index))
    }

    /// The render modifiers registered for the render phase.
    pub fn render_modifiers(&self) -> (r: Vec<RenderModifier>)
        ensures
            r@ == selected_render(self@.render_modifiers, None),
    {
        select_render(&self.render_modifiers, None)
    }

    /// The render modifiers registered for the render phase that apply to
    /// the group `group_index`.
    pub fn render_modifiers_for_group(&self, group_index: u32) -> (r: Vec<RenderModifier>)
        ensures
            r@ == selected_render(self@.render_modifiers, Some(group_index)),
    {
        select_render(&self.render_modifiers, Some(group_index))
    }

    /// The layout of a particle of the effect: it holds the attributes that
    /// the modifiers of all phases need, and no others.
    pub fn particle_layout(&self) -> (r: ParticleLayout)
        ensures
            r@.wf(),
            r@.fields().to_set() == self@.attributes().map(|a: Attribute| attribute_field(a)),
            forall|a: Attribute|
                has_name(r@.entries, #[trigger] a.name_spec()) <==> self@.attributes().contains(
                    a,
                ),
    {
        let mut set = id_set_new();
        let ghost none = Set::<Attribute>::empty();
        collect_attributes(&mut set, &self.init_modifiers, Ghost(none));
        let ghost first = none + attributes_of(self@.init_modifiers);
        collect_attributes(&mut set, &self.update_modifiers, Ghost(first));
        let ghost second = first + attributes_of(self@.update_modifiers);
        collect_attributes(&mut set, &self.render_modifiers, Ghost(second));
        let ghost all = second + attributes_of(self@.render_modifiers);
        assert(all =~= self@.attributes());
        let ghost contents = id_set_contents(set);
        let ids = id_set_into_vec(set);
        let mut layout = ParticleLayout::new();
        let mut i: usize = 0;
        while i < ids.len()
            invariant
                i <= ids.len(),
                ids@.to_set() == contents,
                forall|id: u32|
                    #[trigger] contents.contains(id) <==> (Attribute::from_id_spec(
                        id,
                    ) matches Some(a) && all.contains(a)),
                forall|a: Attribute|
                    #[trigger] layout.attributes().contains(a) <==> (exists|k: int|
                        0 <= k < i && #[trigger] ids@[k] == a.id_spec()),
            decreases ids.len() - i,
        {
            let ghost before = layout.attributes();
            let id = ids[i];
            assert(ids@.to_set().contains(id));
            match Attribute::from_id(id) {
                Some(a) => {
                    layout = layout.append(a);
                    assert forall|b: Attribute| #[trigger]
                        layout.attributes().contains(b) <==> (exists|k: int|
                            0 <= k < i + 1 && #[trigger] ids@[k] == b.id_spec()) by {
                        if b == a {
                            assert(ids@[i as int] == b.id_spec());
                        }
                        if before.contains(b) {
                            let k = choose|k: int| 0 <= k < i && #[trigger] ids@[k] == b.id_spec();
                            assert(0 <= k < i + 1 && ids@[k] == b.id_spec());
                        }
                        if exists|k: int| 0 <= k < i + 1 && #[trigger] ids@[k] == b.id_spec() {
                            let k = choose|k: int|
                                0 <= k < i + 1 && #[trigger] ids@[k] == b.id_spec();
                            if k < i {
                                assert(before.contains(b));
                            }
                        }
                    }
                },
                None => {},
            }
            i += 1;
        }
        proof {
            assert(layout.attributes() =~= all) by {
                assert forall|a: Attribute| layout.attributes().contains(a) <==> all.contains(
                    a,
                ) by {
                    if layout.attributes().contains(a) {
                        let k = choose|k: int| 0 <= k < i && #[trigger] ids@[k] == a.id_spec();
                        assert(ids@.to_set().contains(ids@[k]));
                        assert(contents.contains(a.id_spec()));
                    }
                    if all.contains(a) {
                        assert(Attribute::from_id_spec(a.id_spec()) == Some(a));
                        assert(contents.contains(a.id_spec()));
                        assert(ids@.contains(a.id_spec()));
                        let k = choose|k: int| 0 <= k < ids@.len() && ids@[k] == a.id_spec();
                        assert(0 <= k < i && ids@[k] == a.id_spec());
                    }
                }
            }
        }
        layout.build()
    }

    /// The layout of the properties of the effect.
    pub fn property_layout(&self) -> (r: PropertyLayout)
        requires
            self.wf(),
        ensures
            r@.wf(),
            r@.fields().to_set() == property_fields(self@.properties).to_set(),
            r@.fields().len() == self@.properties.len(),
            forall|name: Seq<char>| #[trigger]
                has_name(r@.entries, name) <==> self@.has_property(name),
    {
        let r = PropertyLayout::new(&self.properties);
        proof {
            let given = property_fields(self@.properties);
            assert forall|name: Seq<char>| #[trigger]
                has_name(r@.entries, name) <==> self@.has_property(name) by {
                lemma_layout_names(r@.entries, given, name);
                if self@.has_property(name) {
                    let i = choose|i: int|
                        0 <= i < self@.properties.len() && (
                        #[trigger] self@.properties[i]).name_spec() == name;
                    assert(given[i].name == name);
                }
                if exists|i: int| 0 <= i < given.len() && (#[trigger] given[i]).name == name {
                    let i = choose|i: int|
                        0 <= i < given.len() && (#[trigger] given[i]).name == name;
                    assert(self@.properties[i].name_spec() == name);
                }
            }
        }
        r
    }
}

impl AssetView {
    /// The effect with one more modifier in the list of the init phase,
    /// where `context` is that phase, in the list of the update phase
    /// otherwise.
    pub open spec fn with_modifier(self, context: ModifierContext, gm: GroupedModifier) -> AssetView {
        if context == ModifierContext::Init {
            AssetView { init_modifiers: self.init_modifiers.push(gm), ..self }
        } else {
            AssetView { update_modifiers: self.update_modifiers.push(gm), ..self }
        }
    }

    /// The effect with one more render modifier.
    pub open spec fn with_render_modifier(
        self,
        modifier: RenderModifier,
        groups: ParticleGroupSet,
    ) -> AssetView {
        AssetView {
            render_modifiers: self.render_modifiers.push(
                GroupedModifier { modifier: Modifier::Render(modifier), groups },
            ),
            ..self
        }
    }

    /// The modifiers of all phases: init, then update, then render.
    pub open spec fn all_modifiers(self) -> Seq<Modifier> {
        self.init_modifiers.map_values(|gm: GroupedModifier| gm.modifier)
            + self.update_modifiers.map_values(|gm: GroupedModifier| gm.modifier)
            + self.render_modifiers.map_values(|gm: GroupedModifier| gm.modifier)
    }
}

/// A copy of a vector of plain values.
fn copy_of<T: Copy>(v: &Vec<T>) -> (r: Vec<T>)
    ensures
        r@ == v@,
{
    let mut r: Vec<T> = Vec::new();
    let mut i: usize = 0;
    while i < v.len()
        invariant
            i <= v.len(),
            r@ == v@.take(i as int),
        decreases v.len() - i,
    {
        r.push(v[i]);
        assert(r@ =~= v@.take(i + 1));
        i += 1;
    }
    assert(v@.take(i as int) =~= v@);
    r
}

impl Clone for EffectAsset {
    fn clone(&self) -> (r: EffectAsset)
        ensures
            r@ == self@,
    {
        let mut properties: Vec<Property> = Vec::new();
        let mut i: usize = 0;
        while i < self.properties.len()
            invariant
                i <= self.properties.len(),
                properties@ == self.properties@.take(i as int),
            decreases self.properties.len() - i,
        {
            properties.push(self.properties[i].clone());
            assert(properties@ =~= self.properties@.take(i + 1));
            i += 1;
        }
        assert(self.properties@.take(i as int) =~= self.properties@);
        EffectAsset {
            name: self.name.clone(),
            capacities: copy_of(&self.capacities),
            spawner: self.spawner,
            z_layer_2d: self.z_layer_2d,
            simulation_space: self.simulation_space,
            simulation_condition: self.simulation_condition,
            init_modifiers: copy_of(&self.init_modifiers),
            update_modifiers: copy_of(&self.update_modifiers),
            render_modifiers: copy_of(&self.render_modifiers),
            properties,
            motion_integration: self.motion_integration,
            module: self.module.clone(),
            alpha_mode: self.alpha_mode,
        }
    }
}

impl Default for EffectAsset {
    /// An effect without groups, properties and modifiers, with a spawner
    /// that emits nothing.
    fn default() -> (r: EffectAsset)
        ensures
            r.wf(),
            r@ == (AssetView {
                name: Seq::<char>::empty(),
                capacities: Seq::<u32>::empty(),
                spawner: Spawner {
                    num_particles: CpuValue::Single(ZERO_BITS),
                    spawn_time: CpuValue::Single(ZERO_BITS),
                    period: CpuValue::Single(INFINITY_BITS),
                    starts_active: false,
                    starts_immediately: false,
                },
                z_layer_2d: 0,
                simulation_space: SimulationSpace::Global,
                simulation_condition: SimulationCondition::WhenVisible,
                init_modifiers: Seq::<GroupedModifier>::empty(),
                update_modifiers: Seq::<GroupedModifier>::empty(),
                render_modifiers: Seq::<GroupedModifier>::empty(),
                properties: Seq::<Property>::empty(),
                motion_integration: MotionIntegration::PostUpdate,
                module: Seq::<Expr>::empty(),
                alpha_mode: AlphaMode::Blend,
            }),
    {
        let r = EffectAsset::new(Vec::new(), Spawner::default(), Module::new());
        assert(r@.capacities =~= Seq::<u32>::empty());
        assert(r@.module =~= Seq::<Expr>::empty());
        r
    }
}

} // verus!
