use hanabi::{
    AccelModifier, AlphaMode, AssetParts, Attribute, CloneModifier, ColorOverLifetimeModifier,
    ConformToSphereModifier, ContractViolation, CpuValue, EffectAsset, ExprError, ExprHandle,
    LinearDragModifier, Modifier, ModifierContext, Module, MotionIntegration, OrientMode,
    OrientModifier, ParticleGroupSet, ParticleLayout, ParticleTextureModifier, Property,
    PropertyLayout, RenderContext, RenderModifier, Rgba, ScalarType, ScalarValue,
    SetAttributeModifier, SetColorModifier, SetPositionSphereModifier,
    SetVelocitySphereModifier, ShaderWriter, ShapeDimension, SimulationCondition,
    SimulationSpace, SizeOverLifetimeModifier, Spawner, Value, VectorValue,
};

fn float(x: f32) -> Value {
    Value::Scalar(ScalarValue::Float(x.to_bits()))
}

fn float3(x: f32, y: f32, z: f32) -> Value {
    Value::Vector(VectorValue::vec3(
        ScalarType::Float,
        x.to_bits(),
        y.to_bits(),
        z.to_bits(),
    ))
}

fn effect() -> EffectAsset {
    EffectAsset::new(
        vec![4096],
        Spawner::rate(CpuValue::Single(30.0_f32.to_bits())),
        Module::default(),
    )
    .with_name("Effect")
}

#[test]
fn property() {
    let mut effect = effect().with_property("my_prop", Value::Scalar(ScalarValue::Uint(345)));

    effect.add_property("other_prop", float3(3., -7.5, 42.42));

    assert!(effect.properties().iter().any(|p| p.name() == "my_prop"));
    assert!(effect.properties().iter().any(|p| p.name() == "other_prop"));
    assert!(!effect
        .properties()
        .iter()
        .any(|p| p.name() == "do_not_exist"));

    // A vector of three components takes 16 bytes, so the scalar follows it.
    let layout = effect.property_layout();
    assert_eq!(layout.size(), 32);
    assert_eq!(layout.align(), 16);
    assert_eq!(layout.offset("my_prop"), Some(16));
    assert_eq!(layout.offset("other_prop"), Some(0));
    assert_eq!(layout.offset("unknown"), None);
}

#[test]
fn add_modifiers() {
    let mut m = Module::default();
    let expr = m.lit(float(3.));

    for modifier_context in [ModifierContext::Init, ModifierContext::Update] {
        let modifier = Modifier::SetAttribute(SetAttributeModifier::new(Attribute::POSITION, expr));
        assert_eq!(EffectAsset::check_modifier(modifier_context, &modifier), Ok(()));
        let effect = EffectAsset::default().add_modifier(modifier_context, modifier);
        assert_eq!(effect.modifiers().len(), 1);
        let m = effect.modifiers()[0];
        assert!(m.context().contains(modifier_context));
    }

    {
        let one = 1.0_f32.to_bits();
        let effect = EffectAsset::default().add_render_modifier(RenderModifier::SetColor(
            SetColorModifier {
                color: Rgba { r: one, g: one, b: one, a: one },
            },
        ));
        assert_eq!(effect.modifiers().len(), 1);
        let m = effect.modifiers()[0];
        assert!(m.context().contains(ModifierContext::Render));
    }
}

#[test]
fn test_apply_modifiers() {
    let mut module = Module::default();
    let origin = module.lit(float3(0., 0., 0.));
    let one = module.lit(float(1.));
    let init_age = SetAttributeModifier::new(Attribute::AGE, one);
    let init_lifetime = SetAttributeModifier::new(Attribute::LIFETIME, one);
    let init_pos_sphere = SetPositionSphereModifier {
        center: module.lit(float3(0., 0., 0.)),
        radius: module.lit(float(1.)),
        dimension: ShapeDimension::Volume,
    };
    let init_vel_sphere = SetVelocitySphereModifier {
        center: module.lit(float3(0., 0., 0.)),
        speed: module.lit(float(1.)),
    };

    let effect = effect()
        .init(Modifier::SetPositionSphere(init_pos_sphere))
        .init(Modifier::SetVelocitySphere(init_vel_sphere))
        .update(Modifier::LinearDrag(LinearDragModifier::new(one)))
        .update(Modifier::ConformToSphere(ConformToSphereModifier::new(
            origin, one, one, one, one,
        )))
        .render(RenderModifier::ParticleTexture(
            ParticleTextureModifier::default(),
        ))
        .render(RenderModifier::ColorOverLifetime(
            ColorOverLifetimeModifier::default(),
        ))
        .render(RenderModifier::SizeOverLifetime(
            SizeOverLifetimeModifier::default(),
        ))
        .render(RenderModifier::Orient(OrientModifier::new(
            OrientMode::ParallelCameraDepthPlane,
        )))
        .render(RenderModifier::Orient(OrientModifier::new(
            OrientMode::FaceCameraPosition,
        )))
        .render(RenderModifier::Orient(OrientModifier::new(
            OrientMode::AlongVelocity,
        )));

    assert_eq!(effect.capacities(), &[4096]);
    assert_eq!(effect.init_modifiers().len(), 2);
    assert_eq!(effect.update_modifiers().len(), 2);
    assert_eq!(effect.render_modifiers().len(), 6);

    let property_layout = PropertyLayout::default();
    let particle_layout = ParticleLayout::default();
    let mut init_context =
        ShaderWriter::new(ModifierContext::Init, &property_layout, &particle_layout);
    assert!(init_pos_sphere
        .apply(&mut module, &mut init_context)
        .is_ok());
    assert!(init_vel_sphere
        .apply(&mut module, &mut init_context)
        .is_ok());
    assert!(init_age.apply(&mut module, &mut init_context).is_ok());
    assert!(init_lifetime.apply(&mut module, &mut init_context).is_ok());
    assert!(init_context.main_code().ends_with(
        "particle.age = bitcast<f32>(0x3F800000u);\nparticle.lifetime = bitcast<f32>(0x3F800000u);\n"
    ));

    let mut module = Module::default();
    let one_bits = 1.0_f32.to_bits();
    let accel_mod = AccelModifier::constant(&mut module, one_bits, one_bits, one_bits);
    let drag_mod = LinearDragModifier::constant(&mut module, 3.5_f32.to_bits());
    let property_layout = PropertyLayout::default();
    let particle_layout = ParticleLayout::default();
    let mut update_context =
        ShaderWriter::new(ModifierContext::Update, &property_layout, &particle_layout);
    assert!(accel_mod.apply(&mut module, &mut update_context).is_ok());
    assert!(drag_mod.apply(&mut module, &mut update_context).is_ok());
    assert!(ConformToSphereModifier::new(origin, one, one, one, one)
        .apply(&mut module, &mut update_context)
        .is_ok());
    assert!(update_context.main_code().starts_with(
        "particle.velocity += (vec3<f32>(bitcast<f32>(0x3F800000u),bitcast<f32>(0x3F800000u),bitcast<f32>(0x3F800000u))) * sim_params.delta_time;\n\
         particle.velocity *= max(0.0, 1.0 - (bitcast<f32>(0x40600000u)) * sim_params.delta_time);\n\
         {\n    let conform_offset = ("
    ));

    let mut module = Module::default();
    let property_layout = PropertyLayout::default();
    let particle_layout = ParticleLayout::default();
    let mut render_context = RenderContext::new(&property_layout, &particle_layout);
    ParticleTextureModifier::default().apply_render(&mut module, &mut render_context);
    ColorOverLifetimeModifier::default().apply_render(&mut module, &mut render_context);
    SizeOverLifetimeModifier::default().apply_render(&mut module, &mut render_context);
    OrientModifier::new(OrientMode::ParallelCameraDepthPlane)
        .apply_render(&mut module, &mut render_context);
    OrientModifier::new(OrientMode::FaceCameraPosition)
        .apply_render(&mut module, &mut render_context);
    OrientModifier::new(OrientMode::AlongVelocity).apply_render(&mut module, &mut render_context);
    let white = "vec4<f32>(bitcast<f32>(0x3F800000u),bitcast<f32>(0x3F800000u),bitcast<f32>(0x3F800000u),bitcast<f32>(0x3F800000u))";
    let unit = "vec2<f32>(bitcast<f32>(0x3F800000u),bitcast<f32>(0x3F800000u))";
    let ratio = "saturate(particle.age / particle.lifetime)";
    assert!(render_context.vertex_code().starts_with(&format!(
        "color = mix({white}, {white}, {ratio});\nsize = mix({unit}, {unit}, {ratio});\naxis_x = view.view[0].xyz;\n"
    )));
    assert!(render_context
        .vertex_code()
        .ends_with("axis_z = cross(axis_x, axis_y);\n"));
    assert_eq!(
        render_context.fragment_code(),
        "color = color * textureSample(particle_texture, particle_texture_sampler, uv);\n"
    );
}

#[test]
fn conform_to_sphere_generates_one_block() {
    let mut module = Module::default();
    let origin = module.lit(float3(0., 0., 0.));
    let one = module.lit(float(1.));
    let two = module.lit(float(2.));
    let property_layout = PropertyLayout::default();
    let particle_layout = ParticleLayout::default();
    let mut context =
        ShaderWriter::new(ModifierContext::Update, &property_layout, &particle_layout);
    let m = ConformToSphereModifier::new(origin, one, two, one, two);
    assert_eq!(Modifier::ConformToSphere(m).context(), ModifierContext::Update);
    assert_eq!(
        Modifier::ConformToSphere(m).attributes(),
        vec![Attribute::POSITION, Attribute::VELOCITY]
    );
    assert_eq!(m.apply(&mut module, &mut context), Ok(()));
    let zero3 = "vec3<f32>(bitcast<f32>(0x00000000u),bitcast<f32>(0x00000000u),bitcast<f32>(0x00000000u))";
    let one = "bitcast<f32>(0x3F800000u)";
    let two = "bitcast<f32>(0x40000000u)";
    assert_eq!(
        context.main_code(),
        format!(
            "{{\n    let conform_offset = ({zero3}) - particle.position;\n    let conform_dir = normalize(conform_offset);\n    let conform_weight = saturate((length(conform_offset) - ({one})) / ({two}));\n    let conform_speed = min(dot(particle.velocity, conform_dir) + ({one}) * conform_weight * sim_params.delta_time, ({two}));\n    particle.velocity += conform_dir * (conform_speed - dot(particle.velocity, conform_dir));\n}}\n"
        )
    );
    // The first expression that fails decides the error.
    let bad = ConformToSphereModifier::new(origin, origin, ExprHandle { index: 9 }, one_handle(), one_handle());
    assert_eq!(bad.apply(&mut module, &mut context), Err(ExprError::TypeError));
    let bad = ConformToSphereModifier::new(origin, one_handle(), ExprHandle { index: 9 }, origin, origin);
    assert_eq!(bad.apply(&mut module, &mut context), Err(ExprError::InvalidHandle));
}

fn one_handle() -> ExprHandle {
    ExprHandle { index: 2 }
}

#[test]
fn modifiers_with_expressions_check_types_and_change_nothing_on_error() {
    let mut module = Module::default();
    let vector = module.lit(float3(1., 2., 3.));
    let scalar = module.lit(float(1.));
    let count = module.lit(Value::Scalar(ScalarValue::Uint(1)));
    let property_layout = PropertyLayout::default();
    let particle_layout = ParticleLayout::default();
    let mut context = ShaderWriter::new(ModifierContext::Init, &property_layout, &particle_layout);
    context.append_main_code("// start\n");

    assert_eq!(
        SetAttributeModifier::new(Attribute::POSITION, scalar).apply(&mut module, &mut context),
        Err(ExprError::TypeError)
    );
    assert_eq!(
        SetAttributeModifier::new(Attribute::AGE, count).apply(&mut module, &mut context),
        Err(ExprError::TypeError)
    );
    assert_eq!(
        SetAttributeModifier::new(Attribute::AGE, ExprHandle { index: 0 })
            .apply(&mut module, &mut context),
        Err(ExprError::InvalidHandle)
    );
    assert_eq!(
        Modifier::LinearDrag(LinearDragModifier::new(vector)).apply(&mut module, &mut context),
        Err(ExprError::TypeError)
    );
    assert_eq!(
        Modifier::Accel(AccelModifier::new(scalar)).apply(&mut module, &mut context),
        Err(ExprError::TypeError)
    );
    let sphere = SetPositionSphereModifier {
        center: scalar,
        radius: ExprHandle { index: 9 },
        dimension: ShapeDimension::Surface,
    };
    assert_eq!(sphere.apply(&mut module, &mut context), Err(ExprError::TypeError));
    let sphere = SetVelocitySphereModifier { center: vector, speed: vector };
    assert_eq!(sphere.apply(&mut module, &mut context), Err(ExprError::TypeError));
    // A render modifier generates nothing into the context of another phase.
    let render = Modifier::Render(RenderModifier::ParticleTexture(ParticleTextureModifier));
    assert_eq!(render.apply(&mut module, &mut context), Err(ExprError::TypeError));
    assert_eq!(context.main_code(), "// start\n");
    assert_eq!(context.function_count(), 0);
    assert_eq!(module.len(), 3);

    let sphere = SetPositionSphereModifier {
        center: vector,
        radius: scalar,
        dimension: ShapeDimension::Surface,
    };
    assert_eq!(Modifier::SetPositionSphere(sphere).apply(&mut module, &mut context), Ok(()));
    let sphere = SetPositionSphereModifier { dimension: ShapeDimension::Volume, ..sphere };
    assert_eq!(sphere.apply(&mut module, &mut context), Ok(()));
    let velocity = SetVelocitySphereModifier { center: vector, speed: scalar };
    assert_eq!(Modifier::SetVelocitySphere(velocity).apply(&mut module, &mut context), Ok(()));
    assert_eq!(
        Modifier::SetAttribute(SetAttributeModifier::new(Attribute::VELOCITY, vector))
            .apply(&mut module, &mut context),
        Ok(())
    );
    let v = "vec3<f32>(bitcast<f32>(0x3F800000u),bitcast<f32>(0x40000000u),bitcast<f32>(0x40400000u))";
    let s = "bitcast<f32>(0x3F800000u)";
    assert_eq!(
        context.main_code(),
        format!(
            "// start\n\
             particle.position = ({v}) + rand_dir3() * ({s});\n\
             particle.position = ({v}) + rand_dir3() * ({s}) * pow(frand(), 1.0 / 3.0);\n\
             particle.velocity = normalize(particle.position - ({v})) * ({s});\n\
             particle.velocity = {v};\n"
        )
    );
}

#[test]
fn render_modifiers_write_to_their_stage() {
    let mut module = Module::default();
    let property_layout = PropertyLayout::default();
    let particle_layout = ParticleLayout::default();
    let mut context = RenderContext::new(&property_layout, &particle_layout);
    let color = SetColorModifier {
        color: Rgba {
            r: 1.0_f32.to_bits(),
            g: 0.5_f32.to_bits(),
            b: 0.0_f32.to_bits(),
            a: 1.0_f32.to_bits(),
        },
    };
    RenderModifier::SetColor(color).apply_render(&mut module, &mut context);
    RenderModifier::SetSize(hanabi::SetSizeModifier {
        width: 2.0_f32.to_bits(),
        height: 0.5_f32.to_bits(),
    })
    .apply_render(&mut module, &mut context);
    context.append_vertex_code("// v\n");
    context.append_fragment_code("// f\n");
    assert_eq!(
        context.vertex_code(),
        "color = vec4<f32>(bitcast<f32>(0x3F800000u),bitcast<f32>(0x3F000000u),bitcast<f32>(0x00000000u),bitcast<f32>(0x3F800000u));\n\
         size = vec2<f32>(bitcast<f32>(0x40000000u),bitcast<f32>(0x3F000000u));\n// v\n"
    );
    assert_eq!(context.fragment_code(), "// f\n");
    assert_eq!(context.particle_layout().size(), 0);
    assert_eq!(context.property_layout().size(), 0);
    assert_eq!(module.len(), 0);
    assert!(RenderModifier::SetColor(color).attributes().is_empty());
    assert_eq!(
        RenderModifier::ColorOverLifetime(ColorOverLifetimeModifier::default()).attributes(),
        vec![Attribute::AGE, Attribute::LIFETIME]
    );
    assert_eq!(
        RenderModifier::SizeOverLifetime(SizeOverLifetimeModifier::default()).attributes(),
        vec![Attribute::AGE, Attribute::LIFETIME]
    );
    assert_eq!(
        RenderModifier::Orient(OrientModifier::new(OrientMode::FaceCameraPosition)).attributes(),
        vec![Attribute::POSITION]
    );
    assert_eq!(
        Modifier::Render(RenderModifier::Orient(OrientModifier::new(OrientMode::AlongVelocity)))
            .attributes(),
        vec![Attribute::POSITION, Attribute::VELOCITY]
    );
    let m = Modifier::Render(RenderModifier::SetColor(color));
    assert_eq!(m.as_render(), Some(&RenderModifier::SetColor(color)));
    assert_eq!(Modifier::Clone(CloneModifier::new(0, 0)).as_render(), None);
}

#[test]
fn parts_are_checked_before_they_become_an_effect() {
    let parts = |capacities: Vec<u32>, names: &[&str]| AssetParts {
        name: "Parts".to_string(),
        capacities,
        spawner: Spawner::default(),
        z_layer_2d: 2.5_f32.to_bits(),
        simulation_space: SimulationSpace::Local,
        simulation_condition: SimulationCondition::Always,
        init_modifiers: vec![],
        update_modifiers: vec![hanabi::GroupedModifier {
            modifier: Modifier::Clone(CloneModifier::new(0, 1)),
            groups: ParticleGroupSet::single(0),
        }],
        render_modifiers: vec![],
        properties: names.iter().map(|n| Property::new(n, float(0.))).collect(),
        motion_integration: MotionIntegration::PreUpdate,
        module: Module::default(),
        alpha_mode: AlphaMode::Blend,
    };
    assert!(matches!(
        EffectAsset::from_parts(parts(vec![4, 0], &["a"])),
        Err(ContractViolation::ZeroCapacity)
    ));
    assert!(matches!(
        EffectAsset::from_parts(parts(vec![0], &["a", "a"])),
        Err(ContractViolation::ZeroCapacity)
    ));
    assert!(matches!(
        EffectAsset::from_parts(parts(vec![4], &["a", "b", "a"])),
        Err(ContractViolation::DuplicateProperty)
    ));
    let effect = EffectAsset::from_parts(parts(vec![4, 8], &["a", "b"])).unwrap();
    assert_eq!(effect.name, "Parts");
    assert_eq!(effect.capacities(), &[4, 8]);
    assert_eq!(effect.z_layer_2d, 2.5_f32.to_bits());
    assert_eq!(effect.simulation_space, SimulationSpace::Local);
    assert_eq!(effect.motion_integration, MotionIntegration::PreUpdate);
    assert_eq!(effect.properties().len(), 2);
    assert_eq!(effect.update_modifiers_for_group(0).len(), 1);
    assert_eq!(effect.update_modifiers_for_group(1).len(), 0);
    let back = effect.into_parts();
    assert_eq!(back.capacities, vec![4, 8]);
    assert_eq!(back.properties[1].name(), "b");
    assert_eq!(back.update_modifiers.len(), 1);
    assert_eq!(back.simulation_condition, SimulationCondition::Always);
}

#[test]
fn new_asset_has_defaults() {
    let effect = EffectAsset::new(vec![256, 512], Spawner::default(), Module::default());
    assert_eq!(effect.name, "");
    assert_eq!(effect.capacities(), &[256, 512]);
    assert_eq!(effect.z_layer_2d, 0);
    assert_eq!(effect.simulation_space, SimulationSpace::Global);
    assert_eq!(effect.simulation_condition, SimulationCondition::WhenVisible);
    assert_eq!(effect.motion_integration, MotionIntegration::PostUpdate);
    assert_eq!(effect.alpha_mode, AlphaMode::Blend);
    assert_eq!(effect.module().len(), 0);
    assert!(effect.properties().is_empty());
    assert!(effect.modifiers().is_empty());
}

#[test]
fn builders_set_one_field() {
    let effect = effect()
        .with_simulation_condition(SimulationCondition::Always)
        .with_simulation_space(SimulationSpace::Local)
        .with_alpha_mode(AlphaMode::Mask(ExprHandle { index: 1 }));
    assert_eq!(effect.name, "Effect");
    assert_eq!(effect.simulation_condition, SimulationCondition::Always);
    assert_eq!(effect.simulation_space, SimulationSpace::Local);
    assert_eq!(effect.alpha_mode, AlphaMode::Mask(ExprHandle { index: 1 }));
    assert_eq!(effect.capacities(), &[4096]);
    assert_eq!(
        effect.spawner,
        Spawner::rate(CpuValue::Single(30.0_f32.to_bits()))
    );
}

#[test]
fn second_property_of_a_name_is_rejected() {
    let effect = effect();
    assert_eq!(effect.check_property("p"), Ok(()));
    assert!(!effect.has_property("p"));
    let effect = effect.with_property("p", float(1.));
    assert!(effect.has_property("p"));
    assert_eq!(
        effect.check_property("p"),
        Err(ContractViolation::DuplicateProperty)
    );
    assert_eq!(effect.check_property("q"), Ok(()));
    assert_eq!(effect.properties().len(), 1);
    assert_eq!(effect.properties()[0].name(), "p");
    assert_eq!(*effect.properties()[0].default_value(), float(1.));
}

#[test]
fn modifier_in_wrong_phase_is_rejected() {
    let handle = ExprHandle { index: 1 };
    let init_only = Modifier::SetPositionSphere(SetPositionSphereModifier {
        center: handle,
        radius: handle,
        dimension: ShapeDimension::Surface,
    });
    let update_only = Modifier::LinearDrag(LinearDragModifier::new(handle));
    let clone = Modifier::Clone(CloneModifier::new(0, 1));
    let both = Modifier::SetAttribute(SetAttributeModifier::new(Attribute::AGE, handle));
    let render = Modifier::Render(RenderModifier::Orient(OrientModifier::new(
        OrientMode::AlongVelocity,
    )));

    assert_eq!(
        EffectAsset::check_modifier(ModifierContext::Update, &init_only),
        Err(ContractViolation::UnsupportedContext)
    );
    assert_eq!(
        EffectAsset::check_modifier(ModifierContext::Init, &update_only),
        Err(ContractViolation::UnsupportedContext)
    );
    assert_eq!(
        EffectAsset::check_modifier(ModifierContext::Init, &clone),
        Err(ContractViolation::UnsupportedContext)
    );
    assert_eq!(EffectAsset::check_modifier(ModifierContext::Init, &init_only), Ok(()));
    assert_eq!(EffectAsset::check_modifier(ModifierContext::Update, &update_only), Ok(()));
    assert_eq!(EffectAsset::check_modifier(ModifierContext::Init, &both), Ok(()));
    assert_eq!(EffectAsset::check_modifier(ModifierContext::Update, &both), Ok(()));
    assert_eq!(
        EffectAsset::check_modifier(ModifierContext::Render, &render),
        Err(ContractViolation::RenderContext)
    );
    assert_eq!(
        EffectAsset::check_modifier(ModifierContext::InitUpdate, &both),
        Err(ContractViolation::MalformedContext)
    );
    assert_eq!(
        EffectAsset::check_modifier(ModifierContext::Empty, &both),
        Err(ContractViolation::MalformedContext)
    );
    assert_eq!(
        EffectAsset::check_modifier(ModifierContext::Init, &render),
        Err(ContractViolation::UnsupportedContext)
    );
}

#[test]
fn modifiers_keep_registration_order_and_groups() {
    let handle = ExprHandle { index: 1 };
    let drag = Modifier::LinearDrag(LinearDragModifier::new(handle));
    let accel = Modifier::Accel(AccelModifier::new(handle));
    let clone = Modifier::Clone(CloneModifier::new(0, 1));
    let age = Modifier::SetAttribute(SetAttributeModifier::new(Attribute::AGE, handle));
    let sphere = Modifier::SetPositionSphere(SetPositionSphereModifier {
        center: handle,
        radius: handle,
        dimension: ShapeDimension::Surface,
    });
    let orient = RenderModifier::Orient(OrientModifier::new(OrientMode::FaceCameraPosition));
    let size = RenderModifier::SetSize(hanabi::SetSizeModifier { width: 1, height: 2 });

    let effect = EffectAsset::new(vec![8, 8], Spawner::default(), Module::default())
        .init(age)
        .update(drag)
        .update_groups(clone, ParticleGroupSet::single(0))
        .update_groups(accel, ParticleGroupSet::single(1))
        .add_modifier_to_groups(ModifierContext::Init, sphere, ParticleGroupSet::single(0))
        .add_modifier_to_groups(ModifierContext::Update, age, ParticleGroupSet::single(1).union(ParticleGroupSet::single(3)))
        .render(orient)
        .render_groups(size, ParticleGroupSet::single(1))
        .add_render_modifier_to_groups(orient, ParticleGroupSet::single(0));

    assert_eq!(
        effect.modifiers(),
        vec![
            age,
            sphere,
            drag,
            clone,
            accel,
            age,
            Modifier::Render(orient),
            Modifier::Render(size),
            Modifier::Render(orient)
        ]
    );
    assert_eq!(effect.init_modifiers(), vec![age, sphere]);
    assert_eq!(effect.update_modifiers(), vec![drag, clone, accel, age]);
    assert_eq!(effect.update_modifiers_for_group(0), vec![drag, clone]);
    assert_eq!(effect.update_modifiers_for_group(1), vec![drag, accel, age]);
    assert_eq!(effect.update_modifiers_for_group(3), vec![drag, age]);
    assert_eq!(effect.update_modifiers_for_group(32), vec![]);
    assert_eq!(effect.render_modifiers(), vec![orient, size, orient]);
    assert_eq!(effect.render_modifiers_for_group(0), vec![orient, orient]);
    assert_eq!(effect.render_modifiers_for_group(1), vec![orient, size]);
    assert_eq!(effect.render_modifiers_for_group(40), vec![]);
}

#[test]
fn particle_layout_holds_the_attributes_of_all_modifiers_once() {
    let handle = ExprHandle { index: 1 };
    let effect = effect()
        .init(Modifier::SetAttribute(SetAttributeModifier::new(Attribute::AGE, handle)))
        .init(Modifier::SetVelocitySphere(SetVelocitySphereModifier {
            center: handle,
            speed: handle,
        }))
        .update(Modifier::LinearDrag(LinearDragModifier::new(handle)))
        .update(Modifier::Clone(CloneModifier::new(0, 0)))
        .render(RenderModifier::Orient(OrientModifier::new(OrientMode::AlongVelocity)));

    let layout = effect.particle_layout();
    assert!(layout.contains(Attribute::AGE));
    assert!(layout.contains(Attribute::POSITION));
    assert!(layout.contains(Attribute::VELOCITY));
    assert!(!layout.contains(Attribute::LIFETIME));
    assert!(!layout.contains(Attribute::COLOR));
    assert_eq!(layout.layout().len(), 3);
    // Two vectors of 16 bytes, by name, then the scalar.
    assert_eq!(layout.offset(Attribute::POSITION), Some(0));
    assert_eq!(layout.offset(Attribute::VELOCITY), Some(16));
    assert_eq!(layout.offset(Attribute::AGE), Some(32));
    assert_eq!(layout.offset(Attribute::SIZE), None);
    assert_eq!(layout.size(), 48);
    assert_eq!(layout.align(), 16);

    let empty = EffectAsset::default().particle_layout();
    assert_eq!(empty.layout().len(), 0);
    assert_eq!(empty.size(), 0);
    assert_eq!(empty.align(), 4);
}

#[test]
fn compile_generates_each_phase_in_order() {
    let mut module = Module::default();
    let one = module.lit(float(1.));
    let up = module.lit(float3(0., 1., 0.));
    let effect = EffectAsset::new(
        vec![32, 16],
        Spawner::rate(CpuValue::Single(5.0_f32.to_bits())),
        module,
    )
    .init(Modifier::SetAttribute(SetAttributeModifier::new(Attribute::AGE, one)))
    .init(Modifier::SetAttribute(SetAttributeModifier::new(Attribute::VELOCITY, up)))
    .update(Modifier::LinearDrag(LinearDragModifier::new(one)))
    .update_groups(
        Modifier::Clone(CloneModifier::new(0, 1)),
        ParticleGroupSet::single(0),
    )
    .update_groups(
        Modifier::Clone(CloneModifier::new(0, 1)),
        ParticleGroupSet::single(1),
    )
    .render_groups(
        RenderModifier::Orient(OrientModifier::new(OrientMode::ParallelCameraDepthPlane)),
        ParticleGroupSet::single(1),
    )
    .render_groups(
        RenderModifier::ParticleTexture(ParticleTextureModifier),
        ParticleGroupSet::single(1),
    );

    let compiled = effect.compile().unwrap();
    assert!(compiled.particle_layout().contains(Attribute::AGE));
    assert!(compiled.particle_layout().contains(Attribute::VELOCITY));
    assert_eq!(compiled.particle_layout().size(), 32);
    assert_eq!(compiled.property_layout().size(), 0);
    assert_eq!(
        compiled.init_code(),
        "particle.age = bitcast<f32>(0x3F800000u);\n\
         particle.velocity = vec3<f32>(bitcast<f32>(0x00000000u),bitcast<f32>(0x3F800000u),bitcast<f32>(0x00000000u));\n"
    );
    assert_eq!(compiled.init_functions(), "");
    assert_eq!(compiled.group_count(), 2);
    let drag = "particle.velocity *= max(0.0, 1.0 - (bitcast<f32>(0x3F800000u)) * sim_params.delta_time);\n";
    let call = "duplicate_0000000100000000(&particle);";
    assert_eq!(compiled.update_code(0), format!("{drag}{call}"));
    assert_eq!(compiled.update_code(1), format!("{drag}{call}"));
    // One definition serves both groups.
    assert_eq!(
        compiled
            .update_functions()
            .matches("fn duplicate_0000000100000000(")
            .count(),
        1
    );
    assert!(compiled
        .update_functions()
        .contains("particle_buffer.particles[index].age = f32(0);\n"));
    assert_eq!(compiled.render_vertex_code(0), "");
    assert_eq!(
        compiled.render_vertex_code(1),
        "axis_x = view.view[0].xyz;\naxis_y = view.view[1].xyz;\naxis_z = view.view[2].xyz;\n"
    );
    assert_eq!(compiled.render_fragment_code(0), "");
    assert_eq!(
        compiled.render_fragment_code(1),
        "color = color * textureSample(particle_texture, particle_texture_sampler, uv);\n"
    );
}

#[test]
fn compile_reports_the_first_error() {
    let mut module = Module::default();
    let one = module.lit(float(1.));
    let effect = EffectAsset::new(vec![32], Spawner::default(), module)
        .init(Modifier::SetAttribute(SetAttributeModifier::new(Attribute::POSITION, one)))
        .update(Modifier::LinearDrag(LinearDragModifier::new(ExprHandle { index: 7 })));
    assert!(matches!(effect.compile(), Err(ExprError::TypeError)));

    let mut module = Module::default();
    let one = module.lit(float(1.));
    let effect = EffectAsset::new(vec![32], Spawner::default(), module)
        .init(Modifier::SetAttribute(SetAttributeModifier::new(Attribute::AGE, one)))
        .update(Modifier::LinearDrag(LinearDragModifier::new(ExprHandle { index: 7 })));
    assert!(matches!(effect.compile(), Err(ExprError::InvalidHandle)));
}

#[test]
fn effect_taken_apart_and_put_together_is_the_same() {
    let mut module = Module::default();
    let one = module.lit(float(1.));
    let two = module.lit(float(2.));
    let sum = module.binary(hanabi::BinaryOperator::Add, one, two);
    let effect = EffectAsset::new(vec![64, 32], Spawner::rate(CpuValue::Single(3)), module)
        .with_name("Round")
        .with_property("my_prop", float3(1.2, -2.3, 55.32))
        .with_alpha_mode(AlphaMode::Mask(sum))
        .init(Modifier::SetAttribute(SetAttributeModifier::new(Attribute::AGE, one)))
        .update(Modifier::LinearDrag(LinearDragModifier::new(sum)))
        .render(RenderModifier::ParticleTexture(ParticleTextureModifier));
    let copy = effect.clone();
    let again = EffectAsset::from_parts(effect.into_parts()).unwrap();
    assert_eq!(again.name, copy.name);
    assert_eq!(again.capacities(), copy.capacities());
    assert_eq!(again.spawner, copy.spawner);
    assert_eq!(again.z_layer_2d, copy.z_layer_2d);
    assert_eq!(again.simulation_space, copy.simulation_space);
    assert_eq!(again.simulation_condition, copy.simulation_condition);
    assert_eq!(again.properties(), copy.properties());
    assert_eq!(again.motion_integration, copy.motion_integration);
    assert_eq!(again.module(), copy.module());
    assert_eq!(again.alpha_mode, copy.alpha_mode);
    assert_eq!(again.modifiers(), copy.modifiers());
    assert_eq!(again.init_modifiers().len(), 1);
    assert_eq!(again.update_modifiers().len(), 1);
    assert_eq!(again.render_modifiers().len(), 1);
    assert_eq!(again.module().len(), 3);
}

#[test]
fn stored_modifiers_of_another_phase_are_not_handed_out() {
    let handle = ExprHandle { index: 1 };
    let drag = Modifier::LinearDrag(LinearDragModifier::new(handle));
    let sphere = Modifier::SetPositionSphere(SetPositionSphereModifier {
        center: handle,
        radius: handle,
        dimension: ShapeDimension::Surface,
    });
    let orient = Modifier::Render(RenderModifier::Orient(OrientModifier::new(
        OrientMode::AlongVelocity,
    )));
    let everywhere = |modifier| hanabi::GroupedModifier {
        modifier,
        groups: ParticleGroupSet::all(),
    };
    // Parts can hold what the registration functions refuse.
    let effect = EffectAsset::from_parts(AssetParts {
        name: String::new(),
        capacities: vec![16],
        spawner: Spawner::default(),
        z_layer_2d: 0,
        simulation_space: SimulationSpace::Global,
        simulation_condition: SimulationCondition::WhenVisible,
        init_modifiers: vec![everywhere(drag), everywhere(sphere)],
        update_modifiers: vec![everywhere(sphere), everywhere(drag), everywhere(orient)],
        render_modifiers: vec![everywhere(drag), everywhere(orient)],
        properties: vec![],
        motion_integration: MotionIntegration::PostUpdate,
        module: Module::default(),
        alpha_mode: AlphaMode::Blend,
    })
    .unwrap();
    assert_eq!(effect.modifiers().len(), 7);
    assert_eq!(effect.init_modifiers(), vec![sphere]);
    assert_eq!(effect.update_modifiers(), vec![drag]);
    assert_eq!(effect.update_modifiers_for_group(5), vec![drag]);
    assert_eq!(effect.render_modifiers().len(), 1);
    assert_eq!(effect.render_modifiers_for_group(0).len(), 1);
}

#[test]
fn getters_read_what_the_builders_set() {
    let effect = effect()
        .with_simulation_condition(SimulationCondition::Always)
        .with_simulation_space(SimulationSpace::Local)
        .with_alpha_mode(AlphaMode::Mask(ExprHandle { index: 4 }));
    assert_eq!(effect.name(), "Effect");
    assert_eq!(
        effect.spawner(),
        Spawner::rate(CpuValue::Single(30.0_f32.to_bits()))
    );
    assert_eq!(effect.z_layer_2d(), 0);
    assert_eq!(effect.simulation_space(), SimulationSpace::Local);
    assert_eq!(effect.simulation_condition(), SimulationCondition::Always);
    assert_eq!(effect.motion_integration(), MotionIntegration::PostUpdate);
    assert_eq!(effect.alpha_mode(), AlphaMode::Mask(ExprHandle { index: 4 }));
    let mut effect = effect;
    effect.z_layer_2d = 2.0_f32.to_bits();
    effect.motion_integration = MotionIntegration::NoIntegration;
    assert_eq!(effect.z_layer_2d(), 0x4000_0000);
    assert_eq!(effect.motion_integration(), MotionIntegration::NoIntegration);
}
