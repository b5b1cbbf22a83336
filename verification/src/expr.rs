//! Trusted boundary around the `evalexpr` expression engine.
//!
//! Everything the engine computes is reached through the two
//! `external_body` wrappers below; the rest of the crate reasons about their
//! results only through the named spec functions `expr_parses` and `eval_of`.

use vstd::prelude::*;

verus! {

#[verifier::external_type_specification]
#[verifier::external_body]
pub struct ExNode(evalexpr::Node);

#[verifier::external_type_specification]
#[verifier::external_body]
pub struct ExEvalexprError(evalexpr::EvalexprError);

/// Whether `evalexpr::build_operator_tree` accepts the expression source
/// `src`. Parsing is a function of the source text alone.
pub uninterp spec fn expr_parses(src: Seq<char>) -> bool;

/// The string that evaluating the expression parsed from `src` yields in a
/// context whose variables are exactly the string bindings `env`, with the
/// engine's builtin functions disabled, or `None` when evaluation fails (an
/// unbound name, a function call, or a non-string result). Evaluation is a
/// function of the source and the bindings alone.
pub uninterp spec fn eval_of(src: Seq<char>, env: Map<Seq<char>, Seq<char>>) -> Option<Seq<char>>;

/// The variable bindings described by a list of (name, value) pairs; a later
/// pair for the same name overrides an earlier one.
pub open spec fn env_of_pairs(pairs: Seq<(Seq<char>, Seq<char>)>) -> Map<Seq<char>, Seq<char>>
    decreases pairs.len(),
{
    if pairs.len() == 0 {
        Map::empty()
    } else {
        env_of_pairs(pairs.drop_last()).insert(pairs.last().0, pairs.last().1)
    }
}

/// A precompiled template expression, paired with the source text it was
/// parsed from. Values are only created by `build_tree`, so the stored source
/// always describes the held operator tree. The view of a `CompiledExpr` is
/// its source text.
pub struct CompiledExpr {
    node: evalexpr::Node,
    text: String,
}

impl View for CompiledExpr {
    type V = Seq<char>;

    closed spec fn view(&self) -> Seq<char> {
        self.text@
    }
}

/// Relies on `evalexpr::build_operator_tree`: parses an expression from its
/// source text; whether parsing succeeds depends on the text alone.
#[verifier::external_body]
pub fn build_tree(src: &str) -> (r: Result<CompiledExpr, evalexpr::EvalexprError>)
    ensures
        r is Ok <==> expr_parses(src@),
        r matches Ok(c) ==> c@ == src@,
{
    match evalexpr::build_operator_tree(src) {
        Ok(node) => Ok(CompiledExpr { node, text: src.to_owned() }),
        Err(e) => Err(e),
    }
}

/// Relies on `evalexpr::EvalexprError`'s `Display` implementation: the
/// engine's own description of a parse or evaluation error. Nothing is
/// claimed of the text; callers may only append it to their own messages.
#[verifier::external_body]
pub fn error_text(e: &evalexpr::EvalexprError) -> String {
    format!("{}", e)
}

/// Relies on `evalexpr::HashMapContext::new`, on its
/// `ContextWithMutableVariables::set_value` (setting a string variable over a
/// string variable cannot fail, and a later binding overrides an earlier
/// one), and on `evalexpr::Node::eval_string_with_context`: in a context
/// holding exactly the given string variables and no functions, the result is
/// a function of the expression source and those variables alone. The
/// engine's builtin functions are disabled before evaluating: the template
/// grammar needs only names, literals and `+` (whose operators use checked
/// arithmetic and return errors), while some builtins reach unchecked
/// arithmetic that could panic; with them disabled a function call simply
/// evaluates to an error.
#[verifier::external_body]
pub fn eval_with_pairs(expr: &CompiledExpr, pairs: &Vec<(String, String)>) -> (r: Option<String>)
    ensures
        r is Some <==> eval_of(expr@, env_of_pairs(pairs.deep_view())) is Some,
        r matches Some(s) ==> eval_of(expr@, env_of_pairs(pairs.deep_view())) == Some(s@),
{
    let mut ctx = evalexpr::HashMapContext::new();
    let _ = evalexpr::Context::set_builtin_functions_disabled(&mut ctx, true);
    for (k, v) in pairs.iter() {
        let _ = evalexpr::ContextWithMutableVariables::set_value(
            &mut ctx,
            k.clone(),
            evalexpr::Value::String(v.clone()),
        );
    }
    match expr.node.eval_string_with_context(&ctx) {
        Ok(s) => Some(s),
        Err(_) => None,
    }
}

} // verus!
