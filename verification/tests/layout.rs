use hanabi::layout::Field;
use hanabi::{
    Attribute, Layout, ParticleLayout, Property, PropertyLayout, ScalarType, ScalarValue, Value,
    ValueType, VectorValue, Width,
};

fn field(name: &str, value_type: ValueType) -> Field {
    Field { name: name.to_string(), value_type }
}

fn scalar() -> ValueType {
    ValueType::Scalar(ScalarType::Float)
}

fn vector(width: Width) -> ValueType {
    ValueType::Vector(ScalarType::Float, width)
}

fn entries(layout: &Layout) -> Vec<(String, u32, u32, u32)> {
    (0..layout.len())
        .map(|i| {
            let e = layout.entry(i);
            (e.name().to_string(), e.offset(), e.size(), e.align())
        })
        .collect()
}

#[test]
fn sizes_and_alignments_follow_the_component_count() {
    assert_eq!((scalar().size(), scalar().align()), (4, 4));
    assert_eq!((vector(Width::Two).size(), vector(Width::Two).align()), (8, 8));
    assert_eq!((vector(Width::Three).size(), vector(Width::Three).align()), (16, 16));
    assert_eq!((vector(Width::Four).size(), vector(Width::Four).align()), (16, 16));
}

#[test]
fn empty_layout_has_no_size_and_the_least_alignment() {
    let layout = Layout::pack(vec![]);
    assert!(layout.is_empty());
    assert_eq!(layout.len(), 0);
    assert_eq!(layout.size(), 0);
    assert_eq!(layout.align(), 4);
    assert_eq!(layout.offset("x"), None);
    let layout = Layout::empty();
    assert_eq!((layout.size(), layout.align()), (0, 4));
    let layout = PropertyLayout::default();
    assert!(layout.is_empty());
    assert_eq!((layout.size(), layout.align()), (0, 4));
    let layout = ParticleLayout::default();
    assert_eq!((layout.size(), layout.align()), (0, 4));
}

#[test]
fn fields_are_placed_by_alignment_then_name() {
    let layout = Layout::pack(vec![
        field("b", scalar()),
        field("d", vector(Width::Two)),
        field("a", scalar()),
        field("c", vector(Width::Four)),
        field("e", vector(Width::Three)),
    ]);
    assert_eq!(
        entries(&layout),
        vec![
            ("c".to_string(), 0, 16, 16),
            ("e".to_string(), 16, 16, 16),
            ("d".to_string(), 32, 8, 8),
            ("a".to_string(), 40, 4, 4),
            ("b".to_string(), 44, 4, 4),
        ]
    );
    assert_eq!(layout.size(), 48);
    assert_eq!(layout.align(), 16);
}

#[test]
fn size_is_rounded_up_to_the_alignment() {
    let layout = Layout::pack(vec![field("v", vector(Width::Two)), field("s", scalar())]);
    assert_eq!(layout.offset("v"), Some(0));
    assert_eq!(layout.offset("s"), Some(8));
    assert_eq!(layout.size(), 16);
    assert_eq!(layout.align(), 8);

    let layout = Layout::pack(vec![field("s", scalar())]);
    assert_eq!((layout.size(), layout.align()), (4, 4));
}

#[test]
fn layout_is_sound_and_independent_of_the_order_of_its_fields() {
    let make = |order: &[usize]| {
        let all = [
            ("position", vector(Width::Three)),
            ("age", scalar()),
            ("size2", vector(Width::Two)),
            ("alpha", scalar()),
            ("hdr_color", vector(Width::Four)),
            ("ab", scalar()),
            ("a", vector(Width::Two)),
        ];
        Layout::pack(order.iter().map(|&i| field(all[i].0, all[i].1)).collect())
    };
    let reference = make(&[0, 1, 2, 3, 4, 5, 6]);
    let listed = entries(&reference);
    let mut end = 0;
    let mut max_align = 0;
    for (_, offset, size, align) in &listed {
        assert_eq!(offset % align, 0);
        assert!(*offset >= end);
        end = offset + size;
        max_align = max_align.max(*align);
    }
    assert!(reference.size() >= end);
    assert_eq!(reference.size() % max_align, 0);
    assert_eq!(reference.align(), max_align);

    for order in [
        [6, 5, 4, 3, 2, 1, 0],
        [3, 0, 6, 1, 5, 2, 4],
        [1, 3, 5, 0, 2, 4, 6],
    ] {
        let other = make(&order);
        assert_eq!(entries(&other), listed);
        assert_eq!(other.size(), reference.size());
        assert_eq!(other.align(), reference.align());
    }
}

#[test]
fn names_are_ordered_by_their_bytes() {
    let layout = Layout::pack(vec![
        field("b", scalar()),
        field("", scalar()),
        field("ab", scalar()),
        field("a", scalar()),
        field("B", scalar()),
        field("é", scalar()),
    ]);
    let names: Vec<String> = entries(&layout).into_iter().map(|e| e.0).collect();
    assert_eq!(names, vec!["", "B", "a", "ab", "b", "é"]);
    assert!(layout.contains("é"));
    assert_eq!(layout.find("ab"), Some(3));
    assert_eq!(layout.find("abc"), None);
    assert_eq!(layout.value_type("b"), Some(scalar()));
    assert_eq!(layout.value_type("c"), None);
}

#[test]
fn property_layout_offsets_are_those_assigned() {
    let properties = vec![
        Property::new("speed", Value::Scalar(ScalarValue::Float(2.0_f32.to_bits()))),
        Property::new(
            "tint",
            Value::Vector(VectorValue::vec4(ScalarType::Float, 0, 0, 0, 0)),
        ),
        Property::new("count", Value::Scalar(ScalarValue::Uint(3))),
        Property::new(
            "scale",
            Value::Vector(VectorValue::vec2(ScalarType::Float, 0, 0)),
        ),
    ];
    let layout = PropertyLayout::new(&properties);
    assert_eq!(layout.offset("tint"), Some(0));
    assert_eq!(layout.offset("scale"), Some(16));
    assert_eq!(layout.offset("count"), Some(24));
    assert_eq!(layout.offset("speed"), Some(28));
    assert_eq!(layout.offset("never_added"), None);
    assert_eq!(layout.offset(""), None);
    assert!(layout.contains("speed"));
    assert!(!layout.contains("Speed"));
    assert_eq!(layout.value_type("count"), Some(ValueType::Scalar(ScalarType::Uint)));
    assert_eq!(layout.size(), 32);
    assert_eq!(layout.align(), 16);
    for p in &properties {
        let i = layout.layout().find(p.name()).unwrap();
        assert_eq!(layout.offset(p.name()), Some(layout.layout().entry(i).offset()));
        assert_eq!(p.size(), layout.layout().entry(i).size());
        assert_eq!(p.value_type(), layout.layout().entry(i).value_type());
    }
    let copy = properties[0].clone();
    assert_eq!(copy, properties[0]);
}

#[test]
fn particle_layout_ignores_order_and_repetition() {
    let a = ParticleLayout::new()
        .append(Attribute::AGE)
        .append(Attribute::POSITION)
        .append(Attribute::SIZE2)
        .append(Attribute::AGE)
        .build();
    let b = ParticleLayout::new()
        .append(Attribute::SIZE2)
        .append(Attribute::POSITION)
        .append(Attribute::POSITION)
        .append(Attribute::AGE)
        .build();
    assert_eq!(entries(a.layout()), entries(b.layout()));
    assert_eq!(
        entries(a.layout()),
        vec![
            ("position".to_string(), 0, 16, 16),
            ("size2".to_string(), 16, 8, 8),
            ("age".to_string(), 24, 4, 4),
        ]
    );
    assert_eq!(a.size(), 32);
    assert_eq!(a.align(), 16);
    assert!(a.contains(Attribute::SIZE2));
    assert!(!a.contains(Attribute::SIZE));
    assert_eq!(a.offset(Attribute::AGE), Some(24));
    assert_eq!(a.offset(Attribute::VELOCITY), None);
}

#[test]
fn attribute_catalog_is_consistent() {
    for id in 0..12 {
        let a = Attribute::from_id(id).unwrap();
        assert_eq!(a.id(), id);
        for other in 0..12 {
            if other != id {
                assert_ne!(Attribute::from_id(other).unwrap().name(), a.name());
            }
        }
    }
    assert_eq!(Attribute::from_id(12), None);
    assert_eq!(Attribute::POSITION.name(), "position");
    assert_eq!(Attribute::HDR_COLOR.name(), "hdr_color");
    assert_eq!(Attribute::AXIS_Z.name(), "axis_z");
    assert_eq!(Attribute::COLOR.value_type(), ValueType::Scalar(ScalarType::Uint));
    assert_eq!(Attribute::VELOCITY.value_type(), vector(Width::Three));
    assert_eq!(Attribute::SIZE2.value_type(), vector(Width::Two));
    assert_eq!(Attribute::LIFETIME.value_type(), scalar());
    assert_eq!(Attribute::ALPHA.value_type(), scalar());
    assert_eq!(Attribute::SIZE.value_type(), scalar());
    assert_eq!(Attribute::AXIS_X.value_type(), vector(Width::Three));
    assert_eq!(Attribute::AXIS_Y.value_type(), vector(Width::Three));
}
