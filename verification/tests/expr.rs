use hanabi::modifier::eval_typed;
use hanabi::{
    Attribute, BinaryOperator, BuiltInOperator, Expr, ExprError, ExprHandle, Module, Property,
    PropertyLayout, ScalarType, ScalarValue, UnaryOperator, Value, ValueType, VectorValue, Width,
};

fn float(x: f32) -> Value {
    Value::Scalar(ScalarValue::Float(x.to_bits()))
}

fn float3(x: f32, y: f32, z: f32) -> Value {
    Value::Vector(VectorValue::vec3(
        ScalarType::Float,
        x.to_bits(),
        y.to_bits(),
        z.to_bits(),
    ))
}

fn eval(module: &Module, handle: ExprHandle) -> Result<String, ExprError> {
    module.eval(handle, &PropertyLayout::default())
}

fn type_of(module: &Module, handle: ExprHandle) -> Result<ValueType, ExprError> {
    module.value_type(handle, &PropertyLayout::default())
}

#[test]
fn handles_count_from_one_and_stay_valid() {
    let mut m = Module::new();
    let a = m.lit(float(1.));
    let b = m.attr(Attribute::AGE);
    assert_eq!(a, ExprHandle { index: 1 });
    assert_eq!(b, ExprHandle { index: 2 });
    let before = eval(&m, a);
    let c = m.binary(BinaryOperator::Add, a, b);
    assert_eq!(c.index, 3);
    assert_eq!(m.len(), 3);
    assert_eq!(eval(&m, a), before);
    assert_eq!(m.get(a), Some(&Expr::Literal(float(1.))));
    assert_eq!(m.get(ExprHandle { index: 0 }), None);
    assert_eq!(m.get(ExprHandle { index: 4 }), None);
    let copy = m.clone();
    assert_eq!(copy, m);
}

#[test]
fn literals_are_written_exactly() {
    let mut m = Module::new();
    let f = m.lit(float(1.5));
    let u = m.lit(Value::Scalar(ScalarValue::Uint(4096)));
    let z = m.lit(Value::Scalar(ScalarValue::Uint(0)));
    let i = m.lit(Value::Scalar(ScalarValue::Int(-2)));
    let t = m.lit(Value::Scalar(ScalarValue::Bool(true)));
    let n = m.lit(Value::Scalar(ScalarValue::Bool(false)));
    let v = m.lit(float3(1.2, -3.45, 87.54485));
    let b = m.lit(Value::Vector(VectorValue::vec2(ScalarType::Bool, 0, 1)));
    let w = m.lit(Value::Vector(VectorValue::vec4(ScalarType::Uint, 1, 20, 300, u32::MAX)));
    let s = m.lit(Value::Vector(VectorValue::vec2(ScalarType::Int, 5, u32::MAX)));
    assert_eq!(eval(&m, f).unwrap(), "bitcast<f32>(0x3FC00000u)");
    assert_eq!(eval(&m, u).unwrap(), "4096u");
    assert_eq!(eval(&m, z).unwrap(), "0u");
    assert_eq!(eval(&m, i).unwrap(), "bitcast<i32>(0xFFFFFFFEu)");
    assert_eq!(eval(&m, t).unwrap(), "true");
    assert_eq!(eval(&m, n).unwrap(), "false");
    assert_eq!(
        eval(&m, v).unwrap(),
        format!(
            "vec3<f32>(bitcast<f32>(0x{:08X}u),bitcast<f32>(0x{:08X}u),bitcast<f32>(0x{:08X}u))",
            1.2_f32.to_bits(),
            (-3.45_f32).to_bits(),
            87.54485_f32.to_bits()
        )
    );
    assert_eq!(eval(&m, b).unwrap(), "vec2<bool>(false,true)");
    assert_eq!(eval(&m, w).unwrap(), "vec4<u32>(1u,20u,300u,4294967295u)");
    assert_eq!(
        eval(&m, s).unwrap(),
        "vec2<i32>(bitcast<i32>(0x00000005u),bitcast<i32>(0xFFFFFFFFu))"
    );
    assert_eq!(type_of(&m, f), Ok(ValueType::Scalar(ScalarType::Float)));
    assert_eq!(type_of(&m, i), Ok(ValueType::Scalar(ScalarType::Int)));
    assert_eq!(type_of(&m, v), Ok(ValueType::Vector(ScalarType::Float, Width::Three)));
    assert_eq!(type_of(&m, b), Ok(ValueType::Vector(ScalarType::Bool, Width::Two)));
}

#[test]
fn operators_combine_the_texts_of_their_operands() {
    let mut m = Module::new();
    let age = m.attr(Attribute::AGE);
    let life = m.attr(Attribute::LIFETIME);
    let time = m.builtin(BuiltInOperator::Time);
    let delta = m.builtin(BuiltInOperator::DeltaTime);
    let pos = m.attr(Attribute::POSITION);
    let ratio = m.binary(BinaryOperator::Div, age, life);
    let sum = m.binary(BinaryOperator::Add, ratio, ratio);
    let least = m.binary(BinaryOperator::Min, time, delta);
    let most = m.binary(BinaryOperator::Max, age, least);
    let less = m.binary(BinaryOperator::LessThan, age, life);
    let scaled = m.binary(BinaryOperator::Mul, pos, age);
    let scaled_left = m.binary(BinaryOperator::Sub, age, pos);
    let dir = m.unary(UnaryOperator::Normalize, scaled);
    let cos = m.unary(UnaryOperator::Cos, time);
    let sin = m.unary(UnaryOperator::Sin, pos);
    let abs = m.unary(UnaryOperator::Abs, age);
    let ge = m.binary(BinaryOperator::GreaterThanOrEqual, pos, pos);
    let all = m.unary(UnaryOperator::All, ge);
    let any = m.unary(UnaryOperator::Any, ge);
    let le = m.binary(BinaryOperator::LessThanOrEqual, age, life);
    let gt = m.binary(BinaryOperator::GreaterThan, age, life);

    assert_eq!(eval(&m, age).unwrap(), "particle.age");
    assert_eq!(eval(&m, time).unwrap(), "sim_params.time");
    assert_eq!(eval(&m, delta).unwrap(), "sim_params.delta_time");
    assert_eq!(eval(&m, ratio).unwrap(), "(particle.age) / (particle.lifetime)");
    assert_eq!(
        eval(&m, sum).unwrap(),
        "((particle.age) / (particle.lifetime)) + ((particle.age) / (particle.lifetime))"
    );
    assert_eq!(
        eval(&m, most).unwrap(),
        "max(particle.age, min(sim_params.time, sim_params.delta_time))"
    );
    assert_eq!(eval(&m, less).unwrap(), "(particle.age) < (particle.lifetime)");
    assert_eq!(eval(&m, le).unwrap(), "(particle.age) <= (particle.lifetime)");
    assert_eq!(eval(&m, gt).unwrap(), "(particle.age) > (particle.lifetime)");
    assert_eq!(eval(&m, scaled).unwrap(), "(particle.position) * (particle.age)");
    assert_eq!(eval(&m, scaled_left).unwrap(), "(particle.age) - (particle.position)");
    assert_eq!(
        eval(&m, dir).unwrap(),
        "normalize((particle.position) * (particle.age))"
    );
    assert_eq!(eval(&m, cos).unwrap(), "cos(sim_params.time)");
    assert_eq!(eval(&m, sin).unwrap(), "sin(particle.position)");
    assert_eq!(eval(&m, abs).unwrap(), "abs(particle.age)");
    assert_eq!(
        eval(&m, all).unwrap(),
        "all((particle.position) >= (particle.position))"
    );
    assert_eq!(
        eval(&m, any).unwrap(),
        "any((particle.position) >= (particle.position))"
    );

    let float = ValueType::Scalar(ScalarType::Float);
    let float3 = ValueType::Vector(ScalarType::Float, Width::Three);
    assert_eq!(type_of(&m, ratio), Ok(float));
    assert_eq!(type_of(&m, less), Ok(ValueType::Scalar(ScalarType::Bool)));
    assert_eq!(type_of(&m, scaled), Ok(float3));
    assert_eq!(type_of(&m, scaled_left), Ok(float3));
    assert_eq!(type_of(&m, ge), Ok(ValueType::Vector(ScalarType::Bool, Width::Three)));
    assert_eq!(type_of(&m, all), Ok(ValueType::Scalar(ScalarType::Bool)));
    assert_eq!(type_of(&m, dir), Ok(float3));
}

#[test]
fn operands_of_unsuitable_type_are_type_errors() {
    let mut m = Module::new();
    let pos = m.lit(float3(1.2, -3.45, 87.54485));
    let flags = m.lit(Value::Vector(VectorValue::vec2(ScalarType::Bool, 0, 1)));
    let count = m.lit(Value::Scalar(ScalarValue::Uint(2)));
    let age = m.attr(Attribute::AGE);
    let size2 = m.attr(Attribute::SIZE2);
    let flag = m.lit(Value::Scalar(ScalarValue::Bool(true)));

    for (op, l, r) in [
        (BinaryOperator::Add, flags, pos),
        (BinaryOperator::Add, pos, count),
        (BinaryOperator::Add, pos, size2),
        (BinaryOperator::Mul, flag, flag),
        (BinaryOperator::LessThan, pos, age),
        (BinaryOperator::Min, age, pos),
        (BinaryOperator::Max, count, age),
    ] {
        let e = m.binary(op, l, r);
        assert_eq!(eval(&m, e), Err(ExprError::TypeError));
        assert_eq!(type_of(&m, e), Err(ExprError::TypeError));
    }
    for (op, x) in [
        (UnaryOperator::Abs, flag),
        (UnaryOperator::All, pos),
        (UnaryOperator::Any, flag),
        (UnaryOperator::Normalize, age),
        (UnaryOperator::Normalize, flags),
        (UnaryOperator::Cos, count),
        (UnaryOperator::Sin, flags),
    ] {
        let e = m.unary(op, x);
        assert_eq!(eval(&m, e), Err(ExprError::TypeError));
    }
    // An error below is the error of the whole.
    let bad = m.binary(BinaryOperator::Add, flags, pos);
    let above = m.unary(UnaryOperator::Abs, bad);
    assert_eq!(eval(&m, above), Err(ExprError::TypeError));
}

#[test]
fn foreign_handles_are_rejected() {
    let mut m = Module::new();
    let a = m.lit(float(1.));
    assert_eq!(eval(&m, ExprHandle { index: 0 }), Err(ExprError::InvalidHandle));
    assert_eq!(eval(&m, ExprHandle { index: 2 }), Err(ExprError::InvalidHandle));
    assert_eq!(type_of(&m, ExprHandle { index: 9 }), Err(ExprError::InvalidHandle));

    let dangling = m.unary(UnaryOperator::Abs, ExprHandle { index: 5 });
    assert_eq!(eval(&m, dangling), Err(ExprError::InvalidHandle));
    let zero = m.binary(BinaryOperator::Add, a, ExprHandle { index: 0 });
    assert_eq!(eval(&m, zero), Err(ExprError::InvalidHandle));
    // A node cannot be its own operand, nor name a later one.
    let own = m.push(Expr::Unary { op: UnaryOperator::Abs, expr: ExprHandle { index: 5 } });
    assert_eq!(own.index, 4);
    let itself = m.push(Expr::Unary { op: UnaryOperator::Abs, expr: ExprHandle { index: 5 } });
    assert_eq!(itself.index, 5);
    assert_eq!(eval(&m, itself), Err(ExprError::InvalidHandle));
    // The left operand is evaluated first.
    let flags = m.lit(Value::Scalar(ScalarValue::Bool(true)));
    let bad_type = m.unary(UnaryOperator::Abs, flags);
    let both = m.binary(BinaryOperator::Add, bad_type, dangling);
    assert_eq!(eval(&m, both), Err(ExprError::TypeError));
    let both = m.binary(BinaryOperator::Add, dangling, bad_type);
    assert_eq!(eval(&m, both), Err(ExprError::InvalidHandle));
}

#[test]
fn properties_are_read_from_the_layout() {
    let properties = vec![
        Property::new("speed", float(2.)),
        Property::new("target", float3(0., 0., 0.)),
    ];
    let layout = PropertyLayout::new(&properties);
    let mut m = Module::new();
    let speed = m.prop("speed");
    let target = m.prop("target");
    let missing = m.prop("missing");
    let scaled = m.binary(BinaryOperator::Mul, target, speed);
    assert_eq!(m.get(speed), Some(&Expr::Property("speed".to_string())));
    assert_eq!(m.eval(speed, &layout).unwrap(), "properties.speed");
    assert_eq!(
        m.value_type(speed, &layout),
        Ok(ValueType::Scalar(ScalarType::Float))
    );
    assert_eq!(
        m.value_type(target, &layout),
        Ok(ValueType::Vector(ScalarType::Float, Width::Three))
    );
    assert_eq!(
        m.eval(scaled, &layout).unwrap(),
        "(properties.target) * (properties.speed)"
    );
    assert_eq!(m.eval(missing, &layout), Err(ExprError::PropertyError));
    assert_eq!(eval(&m, speed), Err(ExprError::PropertyError));
}

#[test]
fn typed_evaluation_checks_the_type() {
    let mut m = Module::new();
    let one = m.lit(float(1.));
    let layout = PropertyLayout::default();
    let float = ValueType::Scalar(ScalarType::Float);
    let uint = ValueType::Scalar(ScalarType::Uint);
    assert_eq!(
        eval_typed(&m, &layout, one, float).unwrap(),
        "bitcast<f32>(0x3F800000u)"
    );
    assert_eq!(eval_typed(&m, &layout, one, uint), Err(ExprError::TypeError));
    assert_eq!(
        eval_typed(&m, &layout, ExprHandle { index: 3 }, float),
        Err(ExprError::InvalidHandle)
    );
}
