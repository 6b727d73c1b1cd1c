use hanabi::modifier::clone::multiple_count;
use hanabi::{
    Attribute, CloneModifier, Modifier, ModifierContext, Module, ParticleLayout, PropertyLayout,
    ShaderWriter,
};

const BODY: &str = "    let base_index = particle_groups[3u].indirect_index;\n    let dead_index = atomicSub(&render_group_indirect[3u].dead_count, 1u) - 1u;\n    let index = indirect_buffer.indices[3u * (base_index + dead_index) + 2u];\n    particle_buffer.particles[index] = *particle;\n    atomicAdd(&render_group_indirect[3u].alive_count, 1u);\n    let ping = render_effect_indirect.ping;\n    let indirect_index = atomicAdd(&render_group_indirect[3u].instance_count, 1u);\n    indirect_buffer.indices[3u * (base_index + indirect_index) + ping] = index;\n";

#[test]
fn no_duplication_in_a_frame_without_a_multiple() {
    // Period 1 s, time 2.5 s, frame of 16 ms, in milliseconds:
    // floor(2.5) - ceil(2.484) + 1 = 2 - 3 + 1.
    assert_eq!(multiple_count(2500, 16, 1000), 0);
}

#[test]
fn one_duplication_in_a_frame_with_one_multiple() {
    // Period 1 s, time 3 s, frame of 0.5 s: floor(3) - ceil(2.5) + 1 = 3 - 3 + 1.
    assert_eq!(multiple_count(3000, 500, 1000), 1);
}

#[test]
fn duplication_count_covers_the_frame() {
    assert_eq!(multiple_count(0, 0, 7), 1);
    assert_eq!(multiple_count(6, 6, 7), 1);
    assert_eq!(multiple_count(6, 5, 7), 0);
    assert_eq!(multiple_count(7, 0, 7), 1);
    assert_eq!(multiple_count(8, 0, 7), 0);
    assert_eq!(multiple_count(21, 14, 7), 3);
    assert_eq!(multiple_count(20, 14, 7), 2);
    assert_eq!(multiple_count(5000, 3500, 1000), 4);
    // A frame that began before time zero counts the multiples below zero too.
    assert_eq!(multiple_count(3, 10, 5), 2);
    assert_eq!(multiple_count(3, 8, 5), 2);
    assert_eq!(multiple_count(3, 7, 5), 1);
    assert_eq!(multiple_count(u64::MAX, u64::MAX, 1), u64::MAX as u128 + 1);
    assert_eq!(multiple_count(0, u64::MAX, 1), u64::MAX as u128 + 1);
    assert_eq!(multiple_count(u64::MAX, 0, u64::MAX), 1);
    for time in 0..60_u64 {
        for delta in 0..40_u64 {
            for period in 1..9_u64 {
                let counted = (-100_i64..100)
                    .filter(|k| {
                        let m = k * period as i64;
                        time as i64 - delta as i64 <= m && m <= time as i64
                    })
                    .count();
                assert_eq!(multiple_count(time, delta, period), counted as u128);
            }
        }
    }
}

#[test]
fn clone_modifier_runs_in_update_and_needs_no_attribute() {
    let m = CloneModifier::new(1.0_f32.to_bits(), 2);
    assert_eq!(m.spawn_period, 0x3F80_0000);
    assert_eq!(m.destination_group, 2);
    assert_eq!(m.context(), ModifierContext::Update);
    assert!(m.attributes().is_empty());
    assert_eq!(Modifier::Clone(m).context(), ModifierContext::Update);
    assert!(Modifier::Clone(m).attributes().is_empty());
}

#[test]
fn period_decides_between_every_frame_and_counting() {
    for bits in [
        0.0_f32.to_bits(),
        (-0.0_f32).to_bits(),
        (-1.0_f32).to_bits(),
        f32::NEG_INFINITY.to_bits(),
        (-f32::MIN_POSITIVE).to_bits(),
    ] {
        let m = CloneModifier::new(bits, 5);
        assert!(m.every_frame());
        assert_eq!(m.key(), 5 << 32);
    }
    for x in [1.0_f32, 0.5, f32::MIN_POSITIVE, f32::MAX, f32::INFINITY] {
        let m = CloneModifier::new(x.to_bits(), 5);
        assert!(!m.every_frame());
        assert_eq!(m.key(), (5 << 32) | x.to_bits() as u64);
    }
    // Values that are not numbers are neither positive nor negative, and
    // all count as one period.
    for bits in [0x7FC0_0000_u32, 0x7F80_0001, 0xFFC0_0000, 0xFFFF_FFFF] {
        let m = CloneModifier::new(bits, 5);
        assert!(!m.every_frame());
        assert_eq!(m.key(), (5 << 32) | 0x7FC0_0000);
    }
    assert_eq!(CloneModifier::new(0, u32::MAX).key(), 0xFFFF_FFFF_0000_0000);
}

#[test]
fn apply_without_period_calls_the_function_once() {
    let properties = PropertyLayout::default();
    let particles = ParticleLayout::default();
    let mut context = ShaderWriter::new(ModifierContext::Update, &properties, &particles);
    let mut module = Module::default();
    let m = CloneModifier::new(0, 3);
    assert_eq!(m.apply(&mut module, &mut context), Ok(()));
    assert_eq!(module.len(), 0);
    assert_eq!(context.main_code(), "duplicate_0000000300000000(&particle);");
    assert_eq!(context.function_count(), 1);
    let f = context.function(0);
    assert_eq!(f.name(), "duplicate_0000000300000000");
    assert_eq!(f.signature(), "particle: ptr<function, Particle>");
    assert_eq!(f.body(), BODY);
    assert_eq!(
        context.function_definitions(),
        format!("fn duplicate_0000000300000000(particle: ptr<function, Particle>) {{\n{BODY}}}\n")
    );
}

#[test]
fn apply_with_period_counts_the_multiples() {
    let properties = PropertyLayout::default();
    let particles = ParticleLayout::new().append(Attribute::AGE).build();
    let mut context = ShaderWriter::new(ModifierContext::Update, &properties, &particles);
    let mut module = Module::default();
    let m = CloneModifier::new(1.0_f32.to_bits(), 1);
    assert_eq!(Modifier::Clone(m).apply(&mut module, &mut context), Ok(()));
    assert_eq!(
        context.main_code(),
        "let multiple_count_000000013F800000 = max(0, i32(floor(sim_params.time / bitcast<f32>(0x3F800000u))) - i32(ceil((sim_params.time - sim_params.delta_time) / bitcast<f32>(0x3F800000u))) + 1);\n\
         for (var i = 0; i < multiple_count_000000013F800000; i += 1) {\n    duplicate_000000013F800000(&particle);\n}\n"
    );
    assert_eq!(context.function_count(), 1);
    assert_eq!(context.function(0).name(), "duplicate_000000013F800000");
    // The particles have an age, which the copy starts anew.
    assert_eq!(
        context.function(0).body(),
        BODY.replace("3u]", "1u]").replace(
            "= *particle;\n",
            "= *particle;\n    particle_buffer.particles[index].age = f32(0);\n"
        )
    );
}

#[test]
fn equal_modifiers_share_one_function() {
    let properties = PropertyLayout::default();
    let particles = ParticleLayout::default();
    let mut context = ShaderWriter::new(ModifierContext::Update, &properties, &particles);
    let mut module = Module::default();
    let a = CloneModifier::new(2.0_f32.to_bits(), 1);
    let b = CloneModifier::new(2.0_f32.to_bits(), 1);
    // The code path of one particle group, then that of another.
    a.apply(&mut module, &mut context).unwrap();
    let first = context.take_main_code();
    b.apply(&mut module, &mut context).unwrap();
    let second = context.take_main_code();
    assert_eq!(context.function_count(), 1);
    assert_eq!(first, second);
    assert_eq!(first.matches("duplicate_0000000140000000(&particle);").count(), 1);
    assert_eq!(
        context
            .function_definitions()
            .matches("fn duplicate_")
            .count(),
        1
    );
}

#[test]
fn another_destination_gets_another_function() {
    let properties = PropertyLayout::default();
    let particles = ParticleLayout::default();
    let mut context = ShaderWriter::new(ModifierContext::Update, &properties, &particles);
    let mut module = Module::default();
    CloneModifier::new(2.0_f32.to_bits(), 1)
        .apply(&mut module, &mut context)
        .unwrap();
    CloneModifier::new(2.0_f32.to_bits(), 2)
        .apply(&mut module, &mut context)
        .unwrap();
    CloneModifier::new(4.0_f32.to_bits(), 2)
        .apply(&mut module, &mut context)
        .unwrap();
    // Periods that are not positive do not tell functions apart.
    CloneModifier::new(0, 2).apply(&mut module, &mut context).unwrap();
    CloneModifier::new((-3.0_f32).to_bits(), 2)
        .apply(&mut module, &mut context)
        .unwrap();
    assert_eq!(context.function_count(), 4);
    let names: Vec<&str> = (0..4).map(|i| context.function(i).name()).collect();
    assert_eq!(
        names,
        vec![
            "duplicate_0000000140000000",
            "duplicate_0000000240000000",
            "duplicate_0000000240800000",
            "duplicate_0000000200000000"
        ]
    );
    assert!(context.has_function("duplicate_0000000240000000"));
    assert!(!context.has_function("duplicate_0000000340000000"));
    assert!(context.function(0).body().contains("particle_groups[1u]"));
    assert!(context.function(1).body().contains("particle_groups[2u]"));
    assert!(context
        .main_code()
        .ends_with("duplicate_0000000200000000(&particle);duplicate_0000000200000000(&particle);"));
}
