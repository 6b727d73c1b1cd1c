//! The expression graph: an append-only arena of nodes referenced by handles,
//! and its evaluation to shader source.

use vstd::prelude::*;
use vstd::string::*;
use crate::attribute::Attribute;
use crate::layout::{has_name, has_type, lemma_layout_name_unique, EntryView};
use crate::property::PropertyLayout;
use crate::text::owned;
use crate::value::{ScalarType, Value, ValueType};

verus! {

/// A reference to a node of a [`Module`]: the position of the node, counted
/// from 1. It means nothing outside the module that issued it.
#[derive(Clone, Copy, Debug, PartialEq, Eq, Structural, Hash)]
pub struct ExprHandle {
    /// Position of the node, counted from 1.
    pub index: u32,
}

/// A value that the simulation provides.
#[derive(Clone, Copy, Debug, PartialEq, Eq, Structural, Hash)]
pub enum BuiltInOperator {
    /// Time since the start of the simulation, in seconds.
    Time,
    /// Time since the previous frame, in seconds.
    DeltaTime,
}

/// An operator with one operand.
#[derive(Clone, Copy, Debug, PartialEq, Eq, Structural, Hash)]
pub enum UnaryOperator {
    /// Absolute value of a number or of each lane of a vector.
    Abs,
    /// Whether all lanes of a boolean vector are true.
    All,
    /// Whether any lane of a boolean vector is true.
    Any,
    /// A float vector scaled to length one.
    Normalize,
    /// Cosine of a float or of each lane.
    Cos,
    /// Sine of a float or of each lane.
    Sin,
}

/// An operator with two operands.
#[derive(Clone, Copy, Debug, PartialEq, Eq, Structural, Hash)]
pub enum BinaryOperator {
    /// Sum.
    Add,
    /// Difference.
    Sub,
    /// Product.
    Mul,
    /// Quotient.
    Div,
    /// Whether the left operand is less than the right one.
    LessThan,
    /// Whether the left operand is at most the right one.
    LessThanOrEqual,
    /// Whether the left operand is greater than the right one.
    GreaterThan,
    /// Whether the left operand is at least the right one.
    GreaterThanOrEqual,
    /// The smaller operand.
    Min,
    /// The larger operand.
    Max,
}

/// A node of the expression graph.
#[allow(inconsistent_fields)]
#[derive(Debug, PartialEq, Eq, Hash)]
pub enum Expr {
    /// A constant.
    Literal(Value),
    /// The value of an attribute of the particle.
    Attribute(Attribute),
    /// The value of a property of the effect, by name.
    Property(String),
    /// A value that the simulation provides.
    BuiltIn(BuiltInOperator),
    /// An operator applied to one earlier node.
    Unary {
        /// The operator.
        op: UnaryOperator,
        /// The operand.
        expr: ExprHandle,
    },
    /// An operator applied to two earlier nodes.
    Binary {
        /// The operator.
        op: BinaryOperator,
        /// The left operand.
        left: ExprHandle,
        /// The right operand.
        right: ExprHandle,
    },
}

impl Clone for Expr {
    fn clone(&self) -> (r: Expr)
        ensures
            r == *self,
    {
        match self {
            Expr::Literal(v) => Expr::Literal(*v),
            Expr::Attribute(a) => Expr::Attribute(*a),
            Expr::Property(name) => Expr::Property(name.clone()),
            Expr::BuiltIn(op) => Expr::BuiltIn(*op),
            Expr::Unary { op, expr } => Expr::Unary { op: *op, expr: *expr },
            Expr::Binary { op, left, right } => Expr::Binary {
                op: *op,
                left: *left,
                right: *right,
            },
        }
    }
}

/// Why an expression cannot be evaluated.
#[derive(Clone, Copy, Debug, PartialEq, Eq, Structural, Hash)]
pub enum ExprError {
    /// A handle does not refer to a node of the module, or an operand does
    /// not refer to an earlier node.
    InvalidHandle,
    /// The type of an operand does not suit the operator.
    TypeError,
    /// The property is not in the property layout.
    PropertyError,
}

impl BuiltInOperator {
    /// The operator in shader source.
    pub open spec fn name_spec(self) -> Seq<char> {
        match self {
            BuiltInOperator::Time => "sim_params.time"@,
            BuiltInOperator::DeltaTime => "sim_params.delta_time"@,
        }
    }

    /// The operator in shader source.
    pub fn name(self) -> (r: &'static str)
        ensures
            r@ == self.name_spec(),
    {
        match self {
            BuiltInOperator::Time => "sim_params.time",
            BuiltInOperator::DeltaTime => "sim_params.delta_time",
        }
    }
}

impl UnaryOperator {
    /// The function that computes the operator in shader source.
    pub open spec fn name_spec(self) -> Seq<char> {
        match self {
            UnaryOperator::Abs => "abs"@,
            UnaryOperator::All => "all"@,
            UnaryOperator::Any => "any"@,
            UnaryOperator::Normalize => "normalize"@,
            UnaryOperator::Cos => "cos"@,
            UnaryOperator::Sin => "sin"@,
        }
    }

    /// The type of the result on an operand of type `t`, or a type error.
    pub open spec fn result_type(self, t: ValueType) -> Result<ValueType, ExprError> {
        match self {
            UnaryOperator::Abs => if t.scalar_spec().is_numeric_spec() {
                Ok(t)
            } else {
                Err(ExprError::TypeError)
            },
            UnaryOperator::All | UnaryOperator::Any => if t is Vector && t.scalar_spec()
                == ScalarType::Bool {
                Ok(ValueType::Scalar(ScalarType::Bool))
            } else {
                Err(ExprError::TypeError)
            },
            UnaryOperator::Normalize => if t is Vector && t.scalar_spec() == ScalarType::Float {
                Ok(t)
            } else {
                Err(ExprError::TypeError)
            },
            UnaryOperator::Cos | UnaryOperator::Sin => if t.scalar_spec() == ScalarType::Float {
                Ok(t)
            } else {
                Err(ExprError::TypeError)
            },
        }
    }

    /// The function that computes the operator in shader source.
    pub fn name(self) -> (r: &'static str)
        ensures
            r@ == self.name_spec(),
    {
        match self {
            UnaryOperator::Abs => "abs",
            UnaryOperator::All => "all",
            UnaryOperator::Any => "any",
            UnaryOperator::Normalize => "normalize",
            UnaryOperator::Cos => "cos",
            UnaryOperator::Sin => "sin",
        }
    }

    /// The type of the result on an operand of type `t`, or a type error.
    pub fn check(self, t: ValueType) -> (r: Result<ValueType, ExprError>)
        ensures
            r == self.result_type(t),
    {
        let ok = match self {
            UnaryOperator::Abs => t.scalar().is_numeric(),
            UnaryOperator::All => !t.is_scalar() && t.scalar() == ScalarType::Bool,
            UnaryOperator::Any => !t.is_scalar() && t.scalar() == ScalarType::Bool,
            UnaryOperator::Normalize => !t.is_scalar() && t.scalar() == ScalarType::Float,
            UnaryOperator::Cos => t.scalar() == ScalarType::Float,
            UnaryOperator::Sin => t.scalar() == ScalarType::Float,
        };
        if !ok {
            return Err(ExprError::TypeError);
        }
        match self {
            UnaryOperator::All => Ok(ValueType::Scalar(ScalarType::Bool)),
            UnaryOperator::Any => Ok(ValueType::Scalar(ScalarType::Bool)),
            _ => Ok(t),
        }
    }
}

impl BinaryOperator {
    /// Whether the operator is one of the four arithmetic operators, which
    /// accept a scalar beside a vector of the same component type.
    pub open spec fn is_arithmetic(self) -> bool {
        self == BinaryOperator::Add || self == BinaryOperator::Sub || self == BinaryOperator::Mul
            || self == BinaryOperator::Div
    }

    /// Whether the operator is a comparison.
    pub open spec fn is_comparison(self) -> bool {
        self == BinaryOperator::LessThan || self == BinaryOperator::LessThanOrEqual || self
            == BinaryOperator::GreaterThan || self == BinaryOperator::GreaterThanOrEqual
    }

    /// Whether the operator is written as a function call; the others stand
    /// between their operands.
    pub open spec fn is_functional(self) -> bool {
        self == BinaryOperator::Min || self == BinaryOperator::Max
    }

    /// The operator in shader source.
    pub open spec fn name_spec(self) -> Seq<char> {
        match self {
            BinaryOperator::Add => "+"@,
            BinaryOperator::Sub => "-"@,
            BinaryOperator::Mul => "*"@,
            BinaryOperator::Div => "/"@,
            BinaryOperator::LessThan => "<"@,
            BinaryOperator::LessThanOrEqual => "<="@,
            BinaryOperator::GreaterThan => ">"@,
            BinaryOperator::GreaterThanOrEqual => ">="@,
            BinaryOperator::Min => "min"@,
            BinaryOperator::Max => "max"@,
        }
    }

    /// The type of the result on operands of types `l` and `r`, or a type
    /// error.
    ///
    /// Operands are numbers or vectors of numbers. They have the same type,
    /// except that an arithmetic operator also takes a scalar beside a vector
    /// of the same component type and applies it to each lane. A comparison
    /// yields booleans of the operands' shape; the others yield the operands'
    /// type, the vector's where the operands differ.
    pub open spec fn result_type(self, l: ValueType, r: ValueType) -> Result<ValueType, ExprError> {
        if !l.scalar_spec().is_numeric_spec() || l.scalar_spec() != r.scalar_spec() {
            Err(ExprError::TypeError)
        } else if l == r {
            if self.is_comparison() {
                Ok(
                    match l {
                        ValueType::Scalar(_) => ValueType::Scalar(ScalarType::Bool),
                        ValueType::Vector(_, w) => ValueType::Vector(ScalarType::Bool, w),
                    },
                )
            } else {
                Ok(l)
            }
        } else if self.is_arithmetic() && l is Scalar {
            Ok(r)
        } else if self.is_arithmetic() && r is Scalar {
            Ok(l)
        } else {
            Err(ExprError::TypeError)
        }
    }

    /// Whether the operator is one of the four arithmetic operators.
    pub fn arithmetic(self) -> (r: bool)
        ensures
            r == self.is_arithmetic(),
    {
        match self {
            BinaryOperator::Add => true,
            BinaryOperator::Sub => true,
            BinaryOperator::Mul => true,
            BinaryOperator::Div => true,
            _ => false,
        }
    }

    /// Whether the operator is a comparison.
    pub fn comparison(self) -> (r: bool)
        ensures
            r == self.is_comparison(),
    {
        match self {
            BinaryOperator::LessThan => true,
            BinaryOperator::LessThanOrEqual => true,
            BinaryOperator::GreaterThan => true,
            BinaryOperator::GreaterThanOrEqual => true,
            _ => false,
        }
    }

    /// Whether the operator is written as a function call.
    pub fn functional(self) -> (r: bool)
        ensures
            r == self.is_functional(),
    {
        match self {
            BinaryOperator::Min => true,
            BinaryOperator::Max => true,
            _ => false,
        }
    }

    /// The operator in shader source.
    pub fn name(self) -> (r: &'static str)
        ensures
            r@ == self.name_spec(),
    {
        match self {
            BinaryOperator::Add => "+",
            BinaryOperator::Sub => "-",
            BinaryOperator::Mul => "*",
            BinaryOperator::Div => "/",
            BinaryOperator::LessThan => "<",
            BinaryOperator::LessThanOrEqual => "<=",
            BinaryOperator::GreaterThan => ">",
            BinaryOperator::GreaterThanOrEqual => ">=",
            BinaryOperator::Min => "min",
            BinaryOperator::Max => "max",
        }
    }

    /// The type of the result on operands of types `l` and `r`, or a type
    /// error.
    pub fn check(self, l: ValueType, r: ValueType) -> (res: Result<ValueType, ExprError>)
        ensures
            res == self.result_type(l, r),
    {
        if !l.scalar().is_numeric() || l.scalar() != r.scalar() {
            Err(ExprError::TypeError)
        } else if l == r {
            if self.comparison() {
                Ok(
                    match l {
                        ValueType::Scalar(_) => ValueType::Scalar(ScalarType::Bool),
                        ValueType::Vector(_, w) => ValueType::Vector(ScalarType::Bool, w),
                    },
                )
            } else {
                Ok(l)
            }
        } else if self.arithmetic() && l.is_scalar() {
            Ok(r)
        } else if self.arithmetic() && r.is_scalar() {
            Ok(l)
        } else {
            Err(ExprError::TypeError)
        }
    }
}

/// The text of a unary operation on an operand with text `x`.
pub open spec fn unary_text(op: UnaryOperator, x: Seq<char>) -> Seq<char> {
    op.name_spec() + "("@ + x + ")"@
}

/// The text of a binary operation on operands with texts `l` and `r`.
pub open spec fn binary_text(op: BinaryOperator, l: Seq<char>, r: Seq<char>) -> Seq<char> {
    if op.is_functional() {
        op.name_spec() + "("@ + l + ", "@ + r + ")"@
    } else {
        "("@ + l + ") "@ + op.name_spec() + " ("@ + r + ")"@
    }
}

/// Whether `handle` refers to one of the first `count` nodes.
pub open spec fn refers_below(handle: ExprHandle, count: int) -> bool {
    1 <= handle.index <= count
}

/// The type that a property has in a layout. It is meaningful where the
/// layout has a property of that name.
pub open spec fn property_type(properties: Seq<EntryView>, name: Seq<char>) -> ValueType {
    choose|t: ValueType| has_type(properties, name, t)
}

/// The type and text of node `i` of `nodes`, or the error that evaluating it
/// meets first.
///
/// Operands are evaluated left to right, and before the operator's types are
/// checked. An operand must be an earlier node.
pub open spec fn eval_node(nodes: Seq<Expr>, properties: Seq<EntryView>, i: int) -> Result<
    (ValueType, Seq<char>),
    ExprError,
>
    decreases i,
{
    if i < 0 || i >= nodes.len() {
        Err(ExprError::InvalidHandle)
    } else {
        match nodes[i] {
            Expr::Literal(v) => Ok((v.value_type_spec(), v.text_spec())),
            Expr::Attribute(a) => Ok((a.value_type_spec(), "particle."@ + a.name_spec())),
            Expr::Property(name) => if has_name(properties, name@) {
                Ok((property_type(properties, name@), "properties."@ + name@))
            } else {
                Err(ExprError::PropertyError)
            },
            Expr::BuiltIn(op) => Ok((ValueType::Scalar(ScalarType::Float), op.name_spec())),
            Expr::Unary { op, expr } => if !refers_below(expr, i) {
                Err(ExprError::InvalidHandle)
            } else {
                match eval_node(nodes, properties, expr.index - 1) {
                    Err(e) => Err(e),
                    Ok((t, x)) => match op.result_type(t) {
                        Err(e) => Err(e),
                        Ok(rt) => Ok((rt, unary_text(op, x))),
                    },
                }
            },
            Expr::Binary { op, left, right } => if !refers_below(left, i) || !refers_below(
                right,
                i,
            ) {
                Err(ExprError::InvalidHandle)
            } else {
                match eval_node(nodes, properties, left.index - 1) {
                    Err(e) => Err(e),
                    Ok((lt, lx)) => match eval_node(nodes, properties, right.index - 1) {
                        Err(e) => Err(e),
                        Ok((rt, rx)) => match op.result_type(lt, rt) {
                            Err(e) => Err(e),
                            Ok(t) => Ok((t, binary_text(op, lx, rx))),
                        },
                    },
                }
            },
        }
    }
}

/// The arena of expression nodes of an effect. Nodes are only ever added,
/// so a handle stays valid once issued.
#[derive(Debug, PartialEq, Eq, Hash)]
pub struct Module {
    expressions: Vec<Expr>,
}

impl View for Module {
    type V = Seq<Expr>;

    closed spec fn view(&self) -> Seq<Expr> {
        self.expressions@
    }
}

impl Module {
    /// The text that `handle` evaluates to, or the error met.
    pub open spec fn eval_spec(self, handle: ExprHandle, properties: Seq<EntryView>) -> Result<
        Seq<char>,
        ExprError,
    > {
        match eval_node(self@, properties, handle.index - 1) {
            Ok((_, text)) => Ok(text),
            Err(e) => Err(e),
        }
    }

    /// The type of the value of `handle`, or the error met.
    pub open spec fn type_spec(self, handle: ExprHandle, properties: Seq<EntryView>) -> Result<
        ValueType,
        ExprError,
    > {
        match eval_node(self@, properties, handle.index - 1) {
            Ok((t, _)) => Ok(t),
            Err(e) => Err(e),
        }
    }

    /// A module without nodes.
    pub fn new() -> (r: Module)
        ensures
            r@.len() == 0,
    {
        Module { expressions: Vec::new() }
    }

    /// Number of nodes.
    pub fn len(&self) -> (r: usize)
        ensures
            r == self@.len(),
    {
        self.expressions.len()
    }

    /// The node that `handle` refers to, or `None` where the handle is not
    /// of this module.
    pub fn get(&self, handle: ExprHandle) -> (r: Option<&Expr>)
        ensures
            r is Some <==> refers_below(handle, self@.len() as int),
            r matches Some(e) ==> *e == self@[handle.index - 1],
    {
        if handle.index >= 1 && handle.index as usize <= self.expressions.len() {
            Some(&self.expressions[handle.index as usize - 1])
        } else {
            None
        }
    }

    /// Adds a node and returns its handle. The nodes already present and
    /// their handles are unchanged.
    pub fn push(&mut self, expr: Expr) -> (r: ExprHandle)
        requires
            old(self)@.len() < u32::MAX,
        ensures
            final(self)@ == old(self)@.push(expr),
            r.index == old(self)@.len() + 1,
    {
        self.expressions.push(expr);
        ExprHandle { index: self.expressions.len() as u32 }
    }

    /// Adds a constant.
    pub fn lit(&mut self, value: Value) -> (r: ExprHandle)
        requires
            old(self)@.len() < u32::MAX,
        ensures
            final(self)@ == old(self)@.push(Expr::Literal(value)),
            r.index == old(self)@.len() + 1,
    {
        self.push(Expr::Literal(value))
    }

    /// Adds a read of an attribute.
    pub fn attr(&mut self, attribute: Attribute) -> (r: ExprHandle)
        requires
            old(self)@.len() < u32::MAX,
        ensures
            final(self)@ == old(self)@.push(Expr::Attribute(attribute)),
            r.index == old(self)@.len() + 1,
    {
        self.push(Expr::Attribute(attribute))
    }

    /// Adds a read of the property called `name`.
    pub fn prop(&mut self, name: &str) -> (r: ExprHandle)
        requires
            old(self)@.len() < u32::MAX,
        ensures
            final(self)@.len() == old(self)@.len() + 1,
            final(self)@.drop_last() == old(self)@,
            final(self)@.last() matches Expr::Property(n) && n@ == name@,
            r.index == old(self)@.len() + 1,
    {
        let r = self.push(Expr::Property(owned(name)));
        assert(self@.drop_last() =~= old(self)@);
        r
    }

    /// Adds a value that the simulation provides.
    pub fn builtin(&mut self, op: BuiltInOperator) -> (r: ExprHandle)
        requires
            old(self)@.len() < u32::MAX,
        ensures
            final(self)@ == old(self)@.push(Expr::BuiltIn(op)),
            r.index == old(self)@.len() + 1,
    {
        self.push(Expr::BuiltIn(op))
    }

    /// Adds a unary operation.
    pub fn unary(&mut self, op: UnaryOperator, expr: ExprHandle) -> (r: ExprHandle)
        requires
            old(self)@.len() < u32::MAX,
        ensures
            final(self)@ == old(self)@.push(Expr::Unary { op, expr }),
            r.index == old(self)@.len() + 1,
    {
        self.push(Expr::Unary { op, expr })
    }

    /// Adds a binary operation.
    pub fn binary(&mut self, op: BinaryOperator, left: ExprHandle, right: ExprHandle) -> (r:
        ExprHandle)
        requires
            old(self)@.len() < u32::MAX,
        ensures
            final(self)@ == old(self)@.push(Expr::Binary { op, left, right }),
            r.index == old(self)@.len() + 1,
    {
        self.push(Expr::Binary { op, left, right })
    }

    /// Evaluates node `i`: its type and its text in shader source.
    fn eval_at(&self, i: usize, properties: &PropertyLayout) -> (r: Result<
        (ValueType, String),
        ExprError,
    >)
        requires
            i < self@.len(),
        ensures
            match eval_node(self@, properties@.entries, i as int) {
                Ok((t, x)) => r matches Ok((rt, rx)) && rt == t && rx@ == x,
                Err(e) => r == Err::<(ValueType, String), ExprError>(e),
            },
        decreases i,
    {
        match &self.expressions[i] {
            Expr::Literal(v) => {
                let mut text = String::new();
                v.push_text(&mut text);
                assert(text@ =~= v.text_spec());
                Ok((v.value_type(), text))
            },
            Expr::Attribute(a) => {
                let mut text = owned("particle.");
                text.append(a.name());
                Ok((a.value_type(), text))
            },
            Expr::Property(name) => {
                match properties.value_type(name.as_str()) {
                    Some(t) => {
                        let _ = properties.layout();
                        proof {
                            let entries = properties@.entries;
                            let pt = property_type(entries, name@);
                            assert(has_type(entries, name@, t));
                            assert(has_type(entries, name@, pt));
                            let a = choose|a: int|
                                0 <= a < entries.len() && (#[trigger] entries[a]).name == name@
                                    && entries[a].value_type == t;
                            let b = choose|b: int|
                                0 <= b < entries.len() && (#[trigger] entries[b]).name == name@
                                    && entries[b].value_type == pt;
                            lemma_layout_name_unique(
                                entries,
                                properties@.size,
                                properties@.align,
                                a,
                                b,
                            );
                        }
                        let mut text = owned("properties.");
                        text.append(name.as_str());
                        Ok((t, text))
                    },
                    None => Err(ExprError::PropertyError),
                }
            },
            Expr::BuiltIn(op) => Ok((ValueType::Scalar(ScalarType::Float), owned(op.name()))),
            Expr::Unary { op, expr } => {
                if expr.index < 1 || expr.index as usize > i {
                    return Err(ExprError::InvalidHandle);
                }
                let (t, x) = match self.eval_at(expr.index as usize - 1, properties) {
                    Ok(v) => v,
                    Err(e) => {
                        return Err(e);
                    },
                };
                let rt = match op.check(t) {
                    Ok(rt) => rt,
                    Err(e) => {
                        return Err(e);
                    },
                };
                let mut text = owned(op.name());
                text.append("(");
                text.append(x.as_str());
                text.append(")");
                assert(text@ =~= unary_text(*op, x@));
                Ok((rt, text))
            },
            Expr::Binary { op, left, right } => {
                if left.index < 1 || left.index as usize > i || right.index < 1
                    || right.index as usize > i {
                    return Err(ExprError::InvalidHandle);
                }
                let (lt, lx) = match self.eval_at(left.index as usize - 1, properties) {
                    Ok(v) => v,
                    Err(e) => {
                        return Err(e);
                    },
                };
                let (rt, rx) = match self.eval_at(right.index as usize - 1, properties) {
                    Ok(v) => v,
                    Err(e) => {
                        return Err(e);
                    },
                };
                let t = match op.check(lt, rt) {
                    Ok(t) => t,
                    Err(e) => {
                        return Err(e);
                    },
                };
                let mut text = String::new();
                if op.functional() {
                    text.append(op.name());
                    text.append("(");
                    text.append(lx.as_str());
                    text.append(", ");
                    text.append(rx.as_str());
                    text.append(")");
                } else {
                    text.append("(");
                    text.append(lx.as_str());
                    text.append(") ");
                    text.append(op.name());
                    text.append(" (");
                    text.append(rx.as_str());
                    text.append(")");
                }
                assert(text@ =~= binary_text(*op, lx@, rx@));
                Ok((t, text))
            },
        }
    }

    /// Evaluates an expression to shader source.
    ///
    /// Fails with [`ExprError::InvalidHandle`] where `handle`, or an operand
    /// met on the way, is not of this module; with [`ExprError::TypeError`]
    /// where an operand does not suit its operator; with
    /// [`ExprError::PropertyError`] where a property is not in `properties`.
    pub fn eval(&self, handle: ExprHandle, properties: &PropertyLayout) -> (r: Result<
        String,
        ExprError,
    >)
        ensures
            match self.eval_spec(handle, properties@.entries) {
                Ok(x) => r matches Ok(rx) && rx@ == x,
                Err(e) => r == Err::<String, ExprError>(e),
            },
    {
        if handle.index < 1 || handle.index as usize > self.expressions.len() {
            return Err(ExprError::InvalidHandle);
        }
        match self.eval_at(handle.index as usize - 1, properties) {
            Ok((_, x)) => Ok(x),
            Err(e) => Err(e),
        }
    }

    /// The type of the value of an expression; it fails as [`Module::eval`]
    /// does.
    pub fn value_type(&self, handle: ExprHandle, properties: &PropertyLayout) -> (r: Result<
        ValueType,
        ExprError,
    >)
        ensures
            r == self.type_spec(handle, properties@.entries),
    {
        if handle.index < 1 || handle.index as usize > self.expressions.len() {
            return Err(ExprError::InvalidHandle);
        }
        match self.eval_at(handle.index as usize - 1, properties) {
            Ok((t, _)) => Ok(t),
            Err(e) => Err(e),
        }
    }
}

impl Clone for Module {
    fn clone(&self) -> (r: Module)
        ensures
            r@ == self@,
    {
        let mut expressions: Vec<Expr> = Vec::new();
        let mut i: usize = 0;
        while i < self.expressions.len()
            invariant
                i <= self.expressions.len(),
                expressions@ == self.expressions@.take(i as int),
            decreases self.expressions.len() - i,
        {
            expressions.push(self.expressions[i].clone());
            assert(expressions@ =~= self.expressions@.take(i + 1));
            i += 1;
        }
        assert(self.expressions@.take(i as int) =~= self.expressions@);
        Module { expressions }
    }
}

impl Default for Module {
    /// A module without nodes.
    fn default() -> (r: Module)
        ensures
            r@.len() == 0,
    {
        Module::new()
    }
}

/// Adding a node changes the value of no expression that was valid before:
/// handles are stable once issued.
pub proof fn lemma_push_preserves(nodes: Seq<Expr>, added: Expr, properties: Seq<EntryView>, i: int)
    requires
        0 <= i < nodes.len(),
    ensures
        eval_node(nodes.push(added), properties, i) == eval_node(nodes, properties, i),
    decreases i,
{
    let more = nodes.push(added);
    assert(more[i] == nodes[i]);
    match nodes[i] {
        Expr::Unary { op, expr } => {
            if refers_below(expr, i) {
                lemma_push_preserves(nodes, added, properties, expr.index - 1);
            }
        },
        Expr::Binary { op, left, right } => {
            if refers_below(left, i) && refers_below(right, i) {
                lemma_push_preserves(nodes, added, properties, left.index - 1);
                lemma_push_preserves(nodes, added, properties, right.index - 1);
            }
        },
        _ => {},
    }
}

} // verus!
