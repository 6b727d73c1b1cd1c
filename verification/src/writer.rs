//! The code generation context of one phase: the main code that modifiers
//! append to, and the functions they define, each once.

use vstd::prelude::*;
use vstd::string::*;
use crate::expr::{Expr, ExprError, Module};
use crate::groups::ModifierContext;
use crate::layout::LayoutView;
use crate::particle_layout::ParticleLayout;
use crate::property::PropertyLayout;
use crate::text::{hex_digits, lemma_concat_cancel, lemma_hex_digits_injective, owned, pow16, push_hex, str_eq};

verus! {

/// A function that a modifier has defined.
pub struct GeneratedFunction {
    name: String,
    signature: String,
    body: String,
}

/// The mathematical value of a [`GeneratedFunction`].
pub ghost struct FunctionView {
    /// Name of the function.
    pub name: Seq<char>,
    /// The parameter list, as written between the parentheses.
    pub signature: Seq<char>,
    /// The statements of the function.
    pub body: Seq<char>,
}

impl View for GeneratedFunction {
    type V = FunctionView;

    closed spec fn view(&self) -> FunctionView {
        FunctionView { name: self.name@, signature: self.signature@, body: self.body@ }
    }
}

impl GeneratedFunction {
    /// Name of the function.
    pub fn name(&self) -> (r: &str)
        ensures
            r@ == self@.name,
    {
        self.name.as_str()
    }

    /// The parameter list of the function.
    pub fn signature(&self) -> (r: &str)
        ensures
            r@ == self@.signature,
    {
        self.signature.as_str()
    }

    /// The statements of the function.
    pub fn body(&self) -> (r: &str)
        ensures
            r@ == self@.body,
    {
        self.body.as_str()
    }
}

/// The mathematical value of a [`ShaderWriter`].
pub ghost struct WriterView {
    /// The phase that code is generated for.
    pub phase: ModifierContext,
    /// The layout of the particles.
    pub particle_layout: LayoutView,
    /// The layout of the properties.
    pub property_layout: LayoutView,
    /// The main code appended so far.
    pub main_code: Seq<char>,
    /// The functions defined so far, in the order of their definition.
    pub functions: Seq<FunctionView>,
}

/// The name of the function that a modifier kind `prefix` defines for the
/// content key `key`: the prefix, an underscore, and the key as 16
/// hexadecimal digits.
pub open spec fn function_name(prefix: Seq<char>, key: u64) -> Seq<char> {
    prefix + "_"@ + hex_digits(key as nat, 16)
}

/// Whether a function called `name` is among `functions`.
pub open spec fn defines(functions: Seq<FunctionView>, name: Seq<char>) -> bool {
    exists|i: int| 0 <= i < functions.len() && (#[trigger] functions[i]).name == name
}

/// Whether no two of `functions` share a name.
pub open spec fn distinct_functions(functions: Seq<FunctionView>) -> bool {
    forall|i: int, j: int|
        0 <= i < j < functions.len() ==> (#[trigger] functions[i]).name != (
        #[trigger] functions[j]).name
}

/// The source of one function definition.
pub open spec fn definition_text(f: FunctionView) -> Seq<char> {
    "fn "@ + f.name + "("@ + f.signature + ") {\n"@ + f.body + "}\n"@
}

/// The source of the definitions of `functions`, in order.
pub open spec fn definitions_text(functions: Seq<FunctionView>) -> Seq<char>
    decreases functions.len(),
{
    if functions.len() == 0 {
        Seq::empty()
    } else {
        definitions_text(functions.drop_last()) + definition_text(functions.last())
    }
}

/// Whether an outcome holds the text, or the error, of `expected`.
pub open spec fn holds_text(
    outcome: Result<String, ExprError>,
    expected: Result<Seq<char>, ExprError>,
) -> bool {
    match expected {
        Ok(text) => outcome matches Ok(s) && s@ == text,
        Err(e) => outcome == Err::<String, ExprError>(e),
    }
}

/// Different content keys give different function names under one prefix.
pub proof fn lemma_function_name_injective(prefix: Seq<char>, a: u64, b: u64)
    requires
        function_name(prefix, a) == function_name(prefix, b),
    ensures
        a == b,
{
    let p = prefix + "_"@;
    lemma_concat_cancel(p, hex_digits(a as nat, 16), hex_digits(b as nat, 16));
    assert(pow16(16) == 0x1_0000_0000_0000_0000) by {
        reveal_with_fuel(pow16, 17);
    }
    lemma_hex_digits_injective(a as nat, b as nat, 16);
}

/// What builds the body of a generated function. It is run at most once for
/// each function name of a phase.
pub trait FunctionBuilder {
    /// The module after the body has been built, and the body or the error
    /// that building it meets.
    spec fn build_spec(&self, nodes: Seq<Expr>, context: WriterView) -> (
        Seq<Expr>,
        Result<Seq<char>, ExprError>,
    );

    /// Builds the statements of the function. It may add nodes to `module`
    /// and read the layouts of `context`.
    fn build(&self, module: &mut Module, context: &ShaderWriter) -> (r: Result<String, ExprError>)
        ensures
            final(module)@ == self.build_spec(old(module)@, context@).0,
            holds_text(r, self.build_spec(old(module)@, context@).1),
    ;
}

/// The code generation context of one phase.
pub struct ShaderWriter<'a> {
    phase: ModifierContext,
    property_layout: &'a PropertyLayout,
    particle_layout: &'a ParticleLayout,
    main_code: String,
    functions: Vec<GeneratedFunction>,
}

impl<'a> View for ShaderWriter<'a> {
    type V = WriterView;

    closed spec fn view(&self) -> WriterView {
        WriterView {
            phase: self.phase,
            particle_layout: self.particle_layout@,
            property_layout: self.property_layout@,
            main_code: self.main_code@,
            functions: self.functions@.map_values(|f: GeneratedFunction| f@),
        }
    }
}

impl<'a> ShaderWriter<'a> {
    /// Validity: the context is for a single phase, and no two of its
    /// functions share a name.
    pub open spec fn wf(self) -> bool {
        distinct_functions(self@.functions) && self@.phase.is_phase()
    }

    /// A context for `phase` without code.
    pub fn new(
        phase: ModifierContext,
        property_layout: &'a PropertyLayout,
        particle_layout: &'a ParticleLayout,
    ) -> (r: ShaderWriter<'a>)
        requires
            phase.is_phase(),
        ensures
            r.wf(),
            r@.phase == phase,
            r@.particle_layout == particle_layout@,
            r@.property_layout == property_layout@,
            r@.main_code == Seq::<char>::empty(),
            r@.functions == Seq::<FunctionView>::empty(),
    {
        let r = ShaderWriter {
            phase,
            property_layout,
            particle_layout,
            main_code: String::new(),
            functions: Vec::new(),
        };
        assert(r@.functions =~= Seq::<FunctionView>::empty());
        r
    }

    /// The phase that code is generated for.
    pub fn modifier_context(&self) -> (r: ModifierContext)
        ensures
            r == self@.phase,
    {
        self.phase
    }

    /// The layout of the particles.
    pub fn particle_layout(&self) -> (r: &ParticleLayout)
        ensures
            r@ == self@.particle_layout,
    {
        self.particle_layout
    }

    /// The layout of the properties.
    pub fn property_layout(&self) -> (r: &PropertyLayout)
        ensures
            r@ == self@.property_layout,
    {
        self.property_layout
    }

    /// The main code appended so far.
    pub fn main_code(&self) -> (r: &str)
        ensures
            r@ == self@.main_code,
    {
        self.main_code.as_str()
    }

    /// Number of functions defined so far.
    pub fn function_count(&self) -> (r: usize)
        ensures
            r == self@.functions.len(),
    {
        self.functions.len()
    }

    /// The function defined at position `i`.
    pub fn function(&self, i: usize) -> (r: &GeneratedFunction)
        requires
            i < self@.functions.len(),
        ensures
            r@ == self@.functions[i as int],
    {
        &self.functions[i]
    }

    /// Appends `text` to the main code, as it is.
    pub fn append_main_code(&mut self, text: &str)
        ensures
            final(self)@ == (WriterView { main_code: old(self)@.main_code + text@, ..old(self)@ }),
            old(self).wf() ==> final(self).wf(),
    {
        self.main_code.append(text);
    }

    /// Hands out the main code and starts it anew; the functions stay, so
    /// that code for another particle group can share them.
    pub fn take_main_code(&mut self) -> (r: String)
        ensures
            r@ == old(self)@.main_code,
            final(self)@ == (WriterView { main_code: Seq::<char>::empty(), ..old(self)@ }),
            old(self).wf() ==> final(self).wf(),
    {
        let mut code = String::new();
        std::mem::swap(&mut self.main_code, &mut code);
        code
    }

    /// Whether a function called `name` has been defined.
    pub fn has_function(&self, name: &str) -> (r: bool)
        ensures
            r == defines(self@.functions, name@),
    {
        let mut i: usize = 0;
        while i < self.functions.len()
            invariant
                i <= self.functions.len(),
                forall|j: int| 0 <= j < i ==> (#[trigger] self@.functions[j]).name != name@,
            decreases self.functions.len() - i,
        {
            if str_eq(self.functions[i].name.as_str(), name) {
                assert(self@.functions[i as int].name == name@);
                return true;
            }
            i += 1;
        }
        false
    }

    /// Defines the function of a modifier kind for a content key, unless the
    /// phase has it already, and returns its name for the call sites.
    ///
    /// The name is [`function_name`] of `prefix` and `key`. Where a function
    /// of that name exists, nothing is built or changed. Otherwise `builder`
    /// is run once: on success the function is added after those present; on
    /// failure the error is returned and no function is added.
    pub fn define_function_once<B: FunctionBuilder>(
        &mut self,
        prefix: &str,
        key: u64,
        signature: &str,
        module: &mut Module,
        builder: &B,
    ) -> (r: Result<String, ExprError>)
        requires
            old(self).wf(),
        ensures
            final(self).wf(),
            defines(old(self)@.functions, function_name(prefix@, key)) ==> {
                &&& holds_text(r, Ok(function_name(prefix@, key)))
                &&& final(self)@ == old(self)@
                &&& final(module)@ == old(module)@
            },
            !defines(old(self)@.functions, function_name(prefix@, key)) ==> {
                let built = builder.build_spec(old(module)@, old(self)@);
                &&& final(module)@ == built.0
                &&& match built.1 {
                    Ok(body) => {
                        &&& holds_text(r, Ok(function_name(prefix@, key)))
                        &&& final(self)@ == (WriterView {
                            functions: old(self)@.functions.push(
                                FunctionView {
                                    name: function_name(prefix@, key),
                                    signature: signature@,
                                    body,
                                },
                            ),
                            ..old(self)@
                        })
                    },
                    Err(e) => r == Err::<String, ExprError>(e) && final(self)@ == old(self)@,
                }
            },
    {
        let mut name = owned(prefix);
        name.append("_");
        push_hex(&mut name, key, 16);
        assert(name@ =~= function_name(prefix@, key));
        if self.has_function(name.as_str()) {
            return Ok(name);
        }
        let body = match builder.build(module, &*self) {
            Ok(body) => body,
            Err(e) => {
                return Err(e);
            },
        };
        let ghost before = self@.functions;
        let ghost added = FunctionView { name: name@, signature: signature@, body: body@ };
        self.functions.push(GeneratedFunction { name: name.clone(), signature: owned(signature), body });
        proof {
            assert(self@.functions =~= before.push(added));
            assert forall|i: int, j: int| 0 <= i < j < self@.functions.len() implies (
            #[trigger] self@.functions[i]).name != (#[trigger] self@.functions[j]).name by {
                if j < before.len() {
                    assert(before[i].name != before[j].name);
                } else {
                    assert(before[i].name != name@);
                }
            }
        }
        Ok(name)
    }

    /// The source of all function definitions, in the order in which the
    /// functions were defined.
    pub fn function_definitions(&self) -> (r: String)
        ensures
            r@ == definitions_text(self@.functions),
    {
        let mut out = String::new();
        let mut i: usize = 0;
        let ghost functions = self@.functions;
        assert(functions.take(0) =~= Seq::<FunctionView>::empty());
        while i < self.functions.len()
            invariant
                i <= self.functions.len(),
                functions == self@.functions,
                out@ == definitions_text(functions.take(i as int)),
            decreases self.functions.len() - i,
        {
            let f = &self.functions[i];
            let ghost start = out@;
            out.append("fn ");
            out.append(f.name.as_str());
            out.append("(");
            out.append(f.signature.as_str());
            out.append(") {\n");
            out.append(f.body.as_str());
            out.append("}\n");
            proof {
                assert(f@ == functions[i as int]);
                assert(out@ =~= start + definition_text(f@));
                assert(functions.take(i + 1).drop_last() =~= functions.take(i as int));
                assert(functions.take(i + 1).last() == functions[i as int]);
            }
            i += 1;
        }
        assert(functions.take(i as int) =~= functions);
        out
    }
}

} // verus!
