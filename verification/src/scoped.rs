//! The synthesis of a scoped function: a function of no arguments that loads a value
//! for every parameter of the declaration, calls the declared body with them, saves
//! every value again and hands the body's result on as the mode asks.

use vstd::prelude::*;
use crate::binding::{classified, classify, views, BindingView, ParameterBinding};
use crate::diagnostic::{viewed, Diagnostic, DiagnosticView};
use crate::mode::{selected, Mode};
use crate::output::{derive_return_type, derived, result_like, result_segment};
use crate::signature::{DeclaredReturn, OriginalSignature, Parameter, TypedParameter};
use crate::text::{occurs_at, occurs_in};
use crate::tokens::{lexed_from, tokens_of};
use proc_macro2::TokenStream;

verus! {

/// The bindings of a parameter list, in declaration order. Receivers are passed
/// over; the first parameter that cannot be classified is the refusal of the list.
pub open spec fn gathered(parameters: Seq<Parameter>) -> Result<Seq<BindingView>, DiagnosticView>
    decreases parameters.len(),
{
    if parameters.len() == 0 {
        Ok(Seq::empty())
    } else {
        match gathered(parameters.drop_last()) {
            Err(diagnostic) => Err(diagnostic),
            Ok(bindings) => match parameters.last() {
                Parameter::Receiver => Ok(bindings),
                Parameter::Typed(parameter) => match classified(parameter) {
                    Ok(binding) => Ok(bindings.push(binding)),
                    Err(diagnostic) => Err(diagnostic),
                },
            },
        }
    }
}

/// What the analysis of a declaration yields under a mode: its bindings and the
/// derived return type. A refused parameter is reported before a refused return type.
pub open spec fn analysed(mode: Mode, declaration: OriginalSignature) -> Result<
    (Seq<BindingView>, Seq<char>),
    DiagnosticView,
> {
    match gathered(declaration.parameters@) {
        Err(diagnostic) => Err(diagnostic),
        Ok(bindings) => match derived(mode, declaration.output) {
            Err(diagnostic) => Err(diagnostic),
            Ok(output) => Ok((bindings, output)),
        },
    }
}

/// The name under which the declared function is kept inside the synthesized one.
pub open spec fn inner_name(name: Seq<char>) -> Seq<char> {
    name + "_inner"@
}

/// The message with which `Expect` aborts when a step fails for a binding: it names
/// the binding and the step, `load` or `save`.
pub open spec fn expect_message(name: Seq<char>, step: Seq<char>) -> Seq<char> {
    name + " data should "@ + step + " successfully"@
}

/// The statement that declares a binding and loads its value. Under `Expect` a
/// failure aborts with the message of the binding's load; under every other mode it
/// returns early through `?`.
pub open spec fn load_statement(mode: Mode, binding: BindingView) -> Seq<char> {
    if mode == Mode::Expect {
        binding.declaration() + " = ::qeap::Qeap::load().expect(\""@ + expect_message(
            binding.name,
            "load"@,
        ) + "\");"@
    } else {
        binding.declaration() + " = ::qeap::Qeap::load()?;"@
    }
}

/// The statement that saves a binding's value. Under `Expect` a failure aborts with
/// the message of the binding's save; under every other mode it returns early
/// through `?`.
pub open spec fn save_statement(mode: Mode, binding: BindingView) -> Seq<char> {
    if mode == Mode::Expect {
        "::qeap::Qeap::save(&"@ + binding.name + ").expect(\""@ + expect_message(
            binding.name,
            "save"@,
        ) + "\");"@
    } else {
        "::qeap::Qeap::save(&"@ + binding.name + ")?;"@
    }
}

/// The use sites of the bindings in order, separated by commas.
pub open spec fn arguments(bindings: Seq<BindingView>) -> Seq<char>
    decreases bindings.len(),
{
    if bindings.len() == 0 {
        Seq::empty()
    } else if bindings.len() == 1 {
        bindings[0].use_site()
    } else {
        arguments(bindings.drop_last()) + ", "@ + bindings.last().use_site()
    }
}

/// The one call of the declared function, under its inner name.
pub open spec fn call(name: Seq<char>, bindings: Seq<BindingView>) -> Seq<char> {
    inner_name(name) + "("@ + arguments(bindings) + ")"@
}

/// Whether the body's error is boxed before it is flattened: under `FlattenErased`,
/// where the declared return type is result-like.
pub open spec fn erases(mode: Mode, output: DeclaredReturn) -> bool {
    &&& mode == Mode::FlattenErased
    &&& output matches DeclaredReturn::Type(ty)
    &&& result_like(ty)
}

/// The statement that calls the body and binds what it returns to `result`. The
/// flattening modes pass the call through the flattening adapter, after boxing the
/// body's error where `erase` holds.
pub open spec fn invocation(mode: Mode, erase: bool, name: Seq<char>, bindings: Seq<BindingView>) -> Seq<char> {
    match mode {
        Mode::Flatten | Mode::FlattenErased => if erase {
            "let result = ::qeap::transform::IntoFlattenedResult::into_flattened("@ + call(
                name,
                bindings,
            ) + ".map_err(::std::boxed::Box::<dyn ::std::error::Error>::from));"@
        } else {
            "let result = ::qeap::transform::IntoFlattenedResult::into_flattened("@ + call(
                name,
                bindings,
            ) + ");"@
        },
        _ => "let result = "@ + call(name, bindings) + ";"@,
    }
}

/// The final expression: `Nested` wraps the result in `Ok`, every other mode hands it
/// on as it is.
pub open spec fn adaptation(mode: Mode) -> Seq<char> {
    if mode == Mode::Nested {
        "Ok(result)"@
    } else {
        "result"@
    }
}

/// The parts, each after a space.
pub open spec fn spaced(parts: Seq<Seq<char>>) -> Seq<char>
    decreases parts.len(),
{
    if parts.len() == 0 {
        Seq::empty()
    } else {
        spaced(parts.drop_last()) + " "@ + parts.last()
    }
}

/// A declaration that has been analysed under a mode.
#[derive(Clone, Debug, PartialEq, Eq)]
pub struct ScopedFn {
    pub mode: Mode,
    /// One binding for each parameter, in declaration order.
    pub bindings: Vec<ParameterBinding>,
    /// The return type of the synthesized function.
    pub output: String,
    pub declaration: OriginalSignature,
}

/// The synthesized function in its parts.
#[derive(Clone, Debug, PartialEq, Eq)]
pub struct SynthesizedFunction {
    /// The name of the declared function.
    pub name: String,
    pub return_type: String,
    /// The declared function as written, under its inner name.
    pub inner: String,
    /// One load for each binding, in declaration order.
    pub loads: Vec<String>,
    pub invocation: String,
    /// One save for each binding, in declaration order.
    pub saves: Vec<String>,
    pub adaptation: String,
}

/// A [`SynthesizedFunction`] with the characters of its texts.
pub struct SynthesizedView {
    pub name: Seq<char>,
    pub return_type: Seq<char>,
    pub inner: Seq<char>,
    pub loads: Seq<Seq<char>>,
    pub invocation: Seq<char>,
    pub saves: Seq<Seq<char>>,
    pub adaptation: Seq<char>,
}

impl View for SynthesizedFunction {
    type V = SynthesizedView;

    open spec fn view(&self) -> SynthesizedView {
        SynthesizedView {
            name: self.name@,
            return_type: self.return_type@,
            inner: self.inner@,
            loads: self.loads.deep_view(),
            invocation: self.invocation@,
            saves: self.saves.deep_view(),
            adaptation: self.adaptation@,
        }
    }
}

impl SynthesizedView {
    /// The function as text: a function of no arguments under the declared name
    /// whose body holds the declared function, the loads, the call, the saves and the
    /// final expression, in this order.
    pub open spec fn rendered(self) -> Seq<char> {
        "fn "@ + self.name + "() -> "@ + self.return_type + " { "@ + self.inner + spaced(
            self.loads,
        ) + " "@ + self.invocation + spaced(self.saves) + " "@ + self.adaptation + " }"@
    }
}

/// The function synthesized for a declaration under a mode, from its bindings and its
/// derived return type.
pub open spec fn synthesized(
    mode: Mode,
    declaration: OriginalSignature,
    bindings: Seq<BindingView>,
    output: Seq<char>,
) -> SynthesizedView {
    SynthesizedView {
        name: declaration.name@,
        return_type: output,
        inner: declaration.prefix@ + " "@ + inner_name(declaration.name@) + " "@
            + declaration.suffix@,
        loads: bindings.map_values(|b: BindingView| load_statement(mode, b)),
        invocation: invocation(
            mode,
            erases(mode, declaration.output),
            declaration.name@,
            bindings,
        ),
        saves: bindings.map_values(|b: BindingView| save_statement(mode, b)),
        adaptation: adaptation(mode),
    }
}

/// The text that `scoped` puts in the place of a declaration, for an optional mode
/// token. A refused token is reported before anything in the declaration.
pub open spec fn expansion(token: Option<Seq<char>>, declaration: OriginalSignature) -> Result<
    Seq<char>,
    DiagnosticView,
> {
    match selected(token) {
        Err(diagnostic) => Err(diagnostic),
        Ok(mode) => match analysed(mode, declaration) {
            Err(diagnostic) => Err(diagnostic),
            Ok((bindings, output)) => Ok(
                synthesized(mode, declaration, bindings, output).rendered(),
            ),
        },
    }
}

/// The parameters of a list that have a pattern and a type, in declaration order.
pub open spec fn typed(parameters: Seq<Parameter>) -> Seq<TypedParameter>
    decreases parameters.len(),
{
    if parameters.len() == 0 {
        Seq::empty()
    } else {
        match parameters.last() {
            Parameter::Receiver => typed(parameters.drop_last()),
            Parameter::Typed(parameter) => typed(parameters.drop_last()).push(parameter),
        }
    }
}

/// A comma and a space where one is wanted, nothing otherwise.
pub open spec fn comma(wanted: bool) -> Seq<char> {
    if wanted {
        ", "@
    } else {
        Seq::empty()
    }
}

/// The bindings follow the declaration: a list that is accepted has one binding for
/// each typed parameter, in the order of the parameters, and a list that is refused
/// is refused for the first typed parameter that cannot be classified.
pub proof fn lemma_bindings_follow_declaration(parameters: Seq<Parameter>)
    ensures
        match gathered(parameters) {
            Ok(bindings) => {
                &&& bindings.len() == typed(parameters).len()
                &&& forall|i: int|
                    0 <= i < bindings.len() ==> classified(typed(parameters)[i]) == Ok::<
                        _,
                        DiagnosticView,
                    >(#[trigger] bindings[i])
            },
            Err(diagnostic) => exists|k: int|
                {
                    &&& 0 <= k < typed(parameters).len()
                    &&& classified(#[trigger] typed(parameters)[k]) == Err::<BindingView, _>(
                        diagnostic,
                    )
                    &&& forall|j: int|
                        0 <= j < k ==> classified(#[trigger] typed(parameters)[j]) is Ok
                },
        },
    decreases parameters.len(),
{
    if parameters.len() > 0 {
        let front = parameters.drop_last();
        lemma_bindings_follow_declaration(front);
        match gathered(front) {
            Err(diagnostic) => {
                let k = choose|k: int|
                    {
                        &&& 0 <= k < typed(front).len()
                        &&& classified(#[trigger] typed(front)[k]) == Err::<BindingView, _>(
                            diagnostic,
                        )
                        &&& forall|j: int|
                            0 <= j < k ==> classified(#[trigger] typed(front)[j]) is Ok
                    };
                assert(typed(parameters)[k] == typed(front)[k]);
            },
            Ok(bindings) => match parameters.last() {
                Parameter::Receiver => {},
                Parameter::Typed(parameter) => match classified(parameter) {
                    Ok(binding) => {},
                    Err(diagnostic) => {
                        let k = typed(front).len() as int;
                        assert(typed(parameters)[k] == parameter);
                        assert forall|j: int| 0 <= j < k implies classified(
                            #[trigger] typed(parameters)[j],
                        ) is Ok by {
                            assert(classified(typed(front)[j]) == Ok::<_, DiagnosticView>(
                                bindings[j],
                            ));
                        }
                    },
                },
            },
        }
    }
}

/// The call lists the use sites in the order of the bindings: the use site of any
/// binding stands after those of the bindings before it and before those of the
/// bindings after it.
pub proof fn lemma_arguments_in_order(bindings: Seq<BindingView>, i: int)
    requires
        0 <= i < bindings.len(),
    ensures
        arguments(bindings) == arguments(bindings.take(i)) + comma(0 < i)
            + bindings[i].use_site() + comma(i + 1 < bindings.len()) + arguments(
            bindings.skip(i + 1),
        ),
    decreases bindings.len(),
{
    if i + 1 < bindings.len() {
        let front = bindings.drop_last();
        let rest = bindings.skip(i + 1);
        lemma_arguments_in_order(front, i);
        assert(front.take(i) =~= bindings.take(i));
        assert(rest.drop_last() =~= front.skip(i + 1));
        assert(arguments(bindings) =~= arguments(bindings.take(i)) + comma(0 < i)
            + bindings[i].use_site() + comma(i + 1 < bindings.len()) + arguments(rest));
    }
}

/// Loading, calling and saving keep the order of the bindings: the synthesized
/// function has one load and one save for each binding, and the load and the save at
/// any position are those of the binding at that position. With
/// [`lemma_arguments_in_order`] the same holds of the arguments of the call.
pub proof fn lemma_order_preserved(
    mode: Mode,
    declaration: OriginalSignature,
    bindings: Seq<BindingView>,
    output: Seq<char>,
    i: int,
)
    requires
        0 <= i < bindings.len(),
    ensures
        synthesized(mode, declaration, bindings, output).loads.len() == bindings.len(),
        synthesized(mode, declaration, bindings, output).saves.len() == bindings.len(),
        synthesized(mode, declaration, bindings, output).loads[i] == load_statement(
            mode,
            bindings[i],
        ),
        synthesized(mode, declaration, bindings, output).saves[i] == save_statement(
            mode,
            bindings[i],
        ),
        synthesized(mode, declaration, bindings, output).invocation == invocation(
            mode,
            erases(mode, declaration.output),
            declaration.name@,
            bindings,
        ),
{
}

/// The message with which `Expect` aborts names both the binding and the step that
/// failed.
pub proof fn lemma_expect_message_names_binding_and_step(name: Seq<char>, step: Seq<char>)
    ensures
        occurs_in(name, expect_message(name, step)),
        occurs_in(step, expect_message(name, step)),
{
    let message = expect_message(name, step);
    assert(message.subrange(0, name.len() as int) =~= name);
    assert(occurs_at(name, message, 0));
    let at = (name + " data should "@).len() as int;
    assert(message.subrange(at, at + step.len()) =~= step);
    assert(occurs_at(step, message, at));
}

/// A refusal among the first parameters is the refusal of the whole list.
proof fn lemma_refusal_stands(parameters: Seq<Parameter>, k: int)
    requires
        0 <= k <= parameters.len(),
        gathered(parameters.take(k)) is Err,
    ensures
        gathered(parameters) == gathered(parameters.take(k)),
    decreases parameters.len(),
{
    if k == parameters.len() {
        assert(parameters.take(k) =~= parameters);
    } else {
        assert(parameters.drop_last().take(k) =~= parameters.take(k));
        lemma_refusal_stands(parameters.drop_last(), k);
    }
}

/// Classifies every parameter of a declaration, in declaration order. Receivers are
/// passed over. The first parameter that is not bound by a plain name is refused,
/// and nothing is returned for the others.
pub fn gather_bindings(declaration: &OriginalSignature) -> (r: Result<
    Vec<ParameterBinding>,
    Diagnostic,
>)
    ensures
        match r {
            Ok(bindings) => gathered(declaration.parameters@) == Ok::<_, DiagnosticView>(
                views(bindings@),
            ),
            Err(diagnostic) => gathered(declaration.parameters@) == Err::<Seq<BindingView>, _>(
                diagnostic@,
            ),
        },
{
    let mut bindings: Vec<ParameterBinding> = Vec::new();
    let mut i: usize = 0;
    assert(views(bindings@) =~= Seq::empty());
    while i < declaration.parameters.len()
        invariant
            i <= declaration.parameters.len(),
            gathered(declaration.parameters@.take(i as int)) == Ok::<_, DiagnosticView>(
                views(bindings@),
            ),
        decreases declaration.parameters.len() - i,
    {
        let ghost before = views(bindings@);
        let ghost next = declaration.parameters@.take(i + 1);
        assert(next.drop_last() =~= declaration.parameters@.take(i as int));
        match &declaration.parameters[i] {
            Parameter::Receiver => {},
            Parameter::Typed(parameter) => match classify(parameter) {
                Ok(binding) => {
                    bindings.push(binding);
                    assert(views(bindings@) =~= before.push(binding@));
                },
                Err(diagnostic) => {
                    proof {
                        lemma_refusal_stands(declaration.parameters@, i + 1);
                    }
                    return Err(diagnostic);
                },
            },
        }
        i = i + 1;
    }
    assert(declaration.parameters@.take(i as int) =~= declaration.parameters@);
    Ok(bindings)
}

impl ScopedFn {
    /// Whether the bindings and the return type are those that the analysis of the
    /// declaration yields under the mode.
    pub open spec fn wf(&self) -> bool {
        analysed(self.mode, self.declaration) == Ok::<_, DiagnosticView>(
            (views(self.bindings@), self.output@),
        )
    }

    /// The function that is synthesized from this analysis.
    pub open spec fn synthesized(&self) -> SynthesizedView {
        synthesized(self.mode, self.declaration, views(self.bindings@), self.output@)
    }
}

/// Analyses a declaration under a mode: classifies its parameters and derives the
/// return type. A refused parameter is reported before a refused return type.
pub fn create_scoped_fn(mode: Mode, declaration: OriginalSignature) -> (r: Result<
    ScopedFn,
    Diagnostic,
>)
    ensures
        match r {
            Ok(scoped) => scoped.wf() && scoped.mode == mode && scoped.declaration == declaration,
            Err(diagnostic) => analysed(mode, declaration) == Err::<
                (Seq<BindingView>, Seq<char>),
                _,
            >(diagnostic@),
        },
{
    let bindings = match gather_bindings(&declaration) {
        Ok(bindings) => bindings,
        Err(diagnostic) => { return Err(diagnostic); },
    };
    let output = match derive_return_type(mode, &declaration.output) {
        Ok(output) => output,
        Err(diagnostic) => { return Err(diagnostic); },
    };
    Ok(ScopedFn { mode, bindings, output, declaration })
}

/// The message with which `Expect` aborts when `step` fails for the binding `name`.
fn emit_expect_message(name: &str, step: &str) -> (r: String)
    ensures
        r@ == expect_message(name@, step@),
{
    let mut out = String::from_str(name);
    out.append(" data should ");
    out.append(step);
    out.append(" successfully");
    out
}

/// The statement that declares a binding and loads its value.
fn emit_load(mode: Mode, binding: &ParameterBinding) -> (r: String)
    ensures
        r@ == load_statement(mode, binding@),
{
    let mut out = binding.declaration();
    match mode {
        Mode::Expect => {
            let message = emit_expect_message(binding.name.as_str(), "load");
            out.append(" = ::qeap::Qeap::load().expect(\"");
            out.append(message.as_str());
            out.append("\");");
        },
        _ => {
            out.append(" = ::qeap::Qeap::load()?;");
        },
    }
    out
}

/// The statement that saves a binding's value.
fn emit_save(mode: Mode, binding: &ParameterBinding) -> (r: String)
    ensures
        r@ == save_statement(mode, binding@),
{
    let mut out = String::from_str("::qeap::Qeap::save(&");
    out.append(binding.name.as_str());
    match mode {
        Mode::Expect => {
            let message = emit_expect_message(binding.name.as_str(), "save");
            out.append(").expect(\"");
            out.append(message.as_str());
            out.append("\");");
        },
        _ => {
            out.append(")?;");
        },
    }
    out
}

/// The call of the declared function under its inner name, with one use site for
/// each binding, in declaration order.
fn emit_call(name: &str, bindings: &Vec<ParameterBinding>) -> (r: String)
    ensures
        r@ == call(name@, views(bindings@)),
{
    let mut list = String::new();
    let mut i: usize = 0;
    while i < bindings.len()
        invariant
            i <= bindings.len(),
            list@ == arguments(views(bindings@).take(i as int)),
        decreases bindings.len() - i,
    {
        let ghost next = views(bindings@).take(i + 1);
        assert(next.drop_last() =~= views(bindings@).take(i as int));
        if i > 0 {
            list.append(", ");
        }
        let site = bindings[i].use_site();
        list.append(site.as_str());
        i = i + 1;
    }
    assert(views(bindings@).take(i as int) =~= views(bindings@));
    let mut out = String::from_str(name);
    out.append("_inner");
    out.append("(");
    out.append(list.as_str());
    out.append(")");
    out
}

/// The statement that calls the body and binds what it returns to `result`.
fn emit_invocation(mode: Mode, erase: bool, name: &str, bindings: &Vec<ParameterBinding>) -> (r:
    String)
    ensures
        r@ == invocation(mode, erase, name@, views(bindings@)),
{
    let called = emit_call(name, bindings);
    match mode {
        Mode::Flatten | Mode::FlattenErased => {
            let mut out = String::from_str(
                "let result = ::qeap::transform::IntoFlattenedResult::into_flattened(",
            );
            out.append(called.as_str());
            if erase {
                out.append(".map_err(::std::boxed::Box::<dyn ::std::error::Error>::from));");
            } else {
                out.append(");");
            }
            out
        },
        _ => {
            let mut out = String::from_str("let result = ");
            out.append(called.as_str());
            out.append(";");
            out
        },
    }
}

/// Appends every part to `out`, each after a space.
fn append_spaced(out: &mut String, parts: &Vec<String>)
    ensures
        final(out)@ == old(out)@ + spaced(parts.deep_view()),
{
    let mut i: usize = 0;
    while i < parts.len()
        invariant
            i <= parts.len(),
            out@ == old(out)@ + spaced(parts.deep_view().take(i as int)),
        decreases parts.len() - i,
    {
        let ghost next = parts.deep_view().take(i + 1);
        assert(next.drop_last() =~= parts.deep_view().take(i as int));
        out.append(" ");
        out.append(parts[i].as_str());
        i = i + 1;
    }
    assert(parts.deep_view().take(i as int) =~= parts.deep_view());
}

impl ScopedFn {
    /// Whether the body's error is to be boxed before it is flattened.
    fn erases(&self) -> (r: bool)
        ensures
            r == erases(self.mode, self.declaration.output),
    {
        match self.mode {
            Mode::FlattenErased => match &self.declaration.output {
                DeclaredReturn::Type(ty) => result_segment(ty).is_some(),
                DeclaredReturn::Absent => false,
            },
            _ => false,
        }
    }

    /// Synthesizes the function in its parts: the declared function under its inner
    /// name, one load for each binding, the one call of the body with one use site
    /// for each binding, one save for each binding, and the final expression. Loads,
    /// use sites and saves stand in the order of the bindings.
    pub fn synthesize(&self) -> (r: SynthesizedFunction)
        ensures
            r@ == self.synthesized(),
    {
        let mut inner = self.declaration.prefix.clone();
        inner.append(" ");
        inner.append(self.declaration.name.as_str());
        inner.append("_inner");
        inner.append(" ");
        inner.append(self.declaration.suffix.as_str());

        let mut loads: Vec<String> = Vec::new();
        let mut saves: Vec<String> = Vec::new();
        let mut i: usize = 0;
        while i < self.bindings.len()
            invariant
                i <= self.bindings.len(),
                loads@.len() == i,
                saves@.len() == i,
                forall|j: int|
                    0 <= j < i ==> (#[trigger] loads@[j])@ == load_statement(
                        self.mode,
                        self.bindings@[j]@,
                    ),
                forall|j: int|
                    0 <= j < i ==> (#[trigger] saves@[j])@ == save_statement(
                        self.mode,
                        self.bindings@[j]@,
                    ),
            decreases self.bindings.len() - i,
        {
            loads.push(emit_load(self.mode, &self.bindings[i]));
            saves.push(emit_save(self.mode, &self.bindings[i]));
            i = i + 1;
        }
        let invocation = emit_invocation(
            self.mode,
            self.erases(),
            self.declaration.name.as_str(),
            &self.bindings,
        );
        let adaptation = match self.mode {
            Mode::Nested => String::from_str("Ok(result)"),
            _ => String::from_str("result"),
        };
        let r = SynthesizedFunction {
            name: self.declaration.name.clone(),
            return_type: self.output.clone(),
            inner,
            loads,
            invocation,
            saves,
            adaptation,
        };
        assert(r@.inner =~= self.synthesized().inner);
        assert(r@.loads =~= self.synthesized().loads);
        assert(r@.saves =~= self.synthesized().saves);
        r
    }

    /// Appends the text of the synthesized function to `tokens`.
    pub fn to_tokens(&self, tokens: &mut String)
        ensures
            final(tokens)@ == old(tokens)@ + self.synthesized().rendered(),
    {
        let text = self.synthesize().render();
        tokens.append(text.as_str());
    }
}

impl SynthesizedFunction {
    /// Writes the function out as text.
    pub fn render(&self) -> (r: String)
        ensures
            r@ == self@.rendered(),
    {
        let mut out = String::from_str("fn ");
        out.append(self.name.as_str());
        out.append("() -> ");
        out.append(self.return_type.as_str());
        out.append(" { ");
        out.append(self.inner.as_str());
        append_spaced(&mut out, &self.loads);
        out.append(" ");
        out.append(self.invocation.as_str());
        append_spaced(&mut out, &self.saves);
        out.append(" ");
        out.append(self.adaptation.as_str());
        out.append(" }");
        out
    }
}

/// Turns a declaration into the text of its scoped function, for an optional mode
/// token. The token is read first, then the parameters, then the return type; the
/// first refusal is returned and nothing is synthesized.
pub fn expand(attr: Option<&str>, item: OriginalSignature) -> (r: Result<String, Diagnostic>)
    ensures
        viewed(r) == expansion(
            match attr {
                Some(token) => Some(token@),
                None => None,
            },
            item,
        ),
{
    let mode = match Mode::parse(attr) {
        Ok(mode) => mode,
        Err(diagnostic) => { return Err(diagnostic); },
    };
    let scoped_fn = match create_scoped_fn(mode, item) {
        Ok(scoped_fn) => scoped_fn,
        Err(diagnostic) => { return Err(diagnostic); },
    };
    let mut out = String::new();
    scoped_fn.to_tokens(&mut out);
    Ok(out)
}

/// Turns a declaration into the tokens of its scoped function, for an optional mode
/// token: the text that [`expand`] yields, lexed. A refusal of the token or of the
/// declaration is returned as it is, and a declaration whose text the lexer does not
/// accept is refused as malformed.
pub fn scoped(attr: Option<&str>, item: OriginalSignature) -> (r: Result<TokenStream, Diagnostic>)
    ensures
        lexed_from(
            expansion(
                match attr {
                    Some(token) => Some(token@),
                    None => None,
                },
                item,
            ),
            r,
        ),
{
    tokens_of(expand(attr, item))
}

} // verus!
