//! Hierarchical key-to-value expansion scopes and precompiled string
//! templates.
//!
//! A scope holds its own bindings and an optional shared parent; lookup walks
//! child to parent, first hit wins. A template is literal text interspersed
//! with `{{ EXPR }}` holes; precompilation rewrites it into one expression
//! source (quoted literals and hole bodies joined by `+`) and parses it once.

use vstd::prelude::*;

use crate::errors::MqttVerifyError;
use crate::expr::CompiledExpr;
use crate::expr::build_tree;
use crate::expr::env_of_pairs;
use crate::expr::eval_of;
use crate::expr::eval_with_pairs;
use crate::expr::expr_parses;
use std::rc::Rc;

verus! {

/// The bindings `base` after binding each pair in `pairs` in order; a later
/// pair for the same name overrides an earlier one.
pub open spec fn extended(
    base: Map<Seq<char>, Seq<char>>,
    pairs: Seq<(Seq<char>, Seq<char>)>,
) -> Map<Seq<char>, Seq<char>>
    decreases pairs.len(),
{
    if pairs.len() == 0 {
        base
    } else {
        extended(base, pairs.drop_last()).insert(pairs.last().0, pairs.last().1)
    }
}

/// The value of the last pair binding `k`, if any.
pub open spec fn last_binding(pairs: Seq<(Seq<char>, Seq<char>)>, k: Seq<char>) -> Option<
    Seq<char>,
>
    decreases pairs.len(),
{
    if pairs.len() == 0 {
        None
    } else if pairs.last().0 == k {
        Some(pairs.last().1)
    } else {
        last_binding(pairs.drop_last(), k)
    }
}

pub proof fn lemma_extended_empty(pairs: Seq<(Seq<char>, Seq<char>)>)
    ensures
        extended(Map::empty(), pairs) == env_of_pairs(pairs),
    decreases pairs.len(),
{
    if pairs.len() != 0 {
        lemma_extended_empty(pairs.drop_last());
    }
}

/// Looking a name up in `extended(base, pairs)` finds the last pair binding
/// it, and falls back to `base` when no pair does.
pub proof fn lemma_extended_lookup(
    base: Map<Seq<char>, Seq<char>>,
    pairs: Seq<(Seq<char>, Seq<char>)>,
    k: Seq<char>,
)
    ensures
        (match last_binding(pairs, k) {
            Some(v) => extended(base, pairs).contains_key(k) && extended(base, pairs)[k] == v,
            None => extended(base, pairs).contains_key(k) == base.contains_key(k) && (
            base.contains_key(k) ==> extended(base, pairs)[k] == base[k]),
        }),
    decreases pairs.len(),
{
    if pairs.len() != 0 && pairs.last().0 != k {
        lemma_extended_lookup(base, pairs.drop_last(), k);
    }
}

/// The position of the first `cc` character pair at or after `from`.
pub open spec fn find_pair(s: Seq<char>, c: char, from: nat) -> Option<nat>
    decreases s.len() - from,
{
    if from + 1 >= s.len() {
        None
    } else if s[from as int] == c && s[from as int + 1] == c {
        Some(from)
    } else {
        find_pair(s, c, from + 1)
    }
}

pub proof fn lemma_find_pair_bounds(s: Seq<char>, c: char, from: nat)
    ensures
        (match find_pair(s, c, from) {
            Some(i) => from <= i && i + 1 < s.len(),
            None => true,
        }),
    decreases s.len() - from,
{
    if from + 1 >= s.len() {
    } else if s[from as int] == c && s[from as int + 1] == c {
    } else {
        lemma_find_pair_bounds(s, c, from + 1);
    }
}

/// A literal template segment as an expression token: the text in double
/// quotes, exactly as the scanner emits it (no escaping).
pub open spec fn quoted(lit: Seq<char>) -> Seq<char> {
    seq!['"'] + lit + seq!['"']
}

/// The token list for a literal segment: empty segments produce no token.
pub open spec fn maybe_lit(lit: Seq<char>) -> Seq<Seq<char>> {
    if lit.len() == 0 {
        seq![]
    } else {
        seq![quoted(lit)]
    }
}

/// The expression tokens of the template tail starting at `from`: quoted
/// literal segments and raw `{{ }}` hole bodies, in order. `None` when a
/// `{{` is not followed by a matching `}}`.
pub open spec fn template_tokens(s: Seq<char>, from: nat) -> Option<Seq<Seq<char>>>
    decreases s.len() - from,
    via template_tokens_dec
{
    if from >= s.len() {
        Some(seq![])
    } else {
        match find_pair(s, '{', from) {
            None => Some(maybe_lit(s.subrange(from as int, s.len() as int))),
            Some(start) => match find_pair(s, '}', (start + 2) as nat) {
                None => None,
                Some(stop) => match template_tokens(s, (stop + 2) as nat) {
                    None => None,
                    Some(rest) => Some(
                        maybe_lit(s.subrange(from as int, start as int)) + seq![
                            s.subrange(start as int + 2, stop as int),
                        ] + rest,
                    ),
                },
            },
        }
    }
}

#[via_fn]
proof fn template_tokens_dec(s: Seq<char>, from: nat) {
    lemma_find_pair_bounds(s, '{', from);
    match find_pair(s, '{', from) {
        Some(start) => {
            lemma_find_pair_bounds(s, '}', (start + 2) as nat);
        },
        None => {},
    }
}

/// Tokens joined into one expression source with `+`.
pub open spec fn joined(tokens: Seq<Seq<char>>) -> Seq<char>
    decreases tokens.len(),
{
    if tokens.len() == 0 {
        seq![]
    } else if tokens.len() == 1 {
        tokens[0]
    } else {
        joined(tokens.drop_last()) + seq!['+'] + tokens.last()
    }
}

/// The expression source a template precompiles to, or `None` when the
/// template holds an unmatched `{{`.
pub open spec fn template_src(t: Seq<char>) -> Option<Seq<char>> {
    match template_tokens(t, 0) {
        None => None,
        Some(tokens) => Some(joined(tokens)),
    }
}

/// A node in a tree of expansion scopes: an optional shared parent and this
/// scope's own bindings, later inserts overriding earlier ones.
pub struct OverlayContext {
    pub parent: Option<Rc<OverlayContext>>,
    pub map: Vec<(String, String)>,
}

impl OverlayContext {
    /// The bindings the parent scope exposes, or none at a root.
    pub open spec fn parent_env(self) -> Map<Seq<char>, Seq<char>>
        decreases self, 0int,
    {
        match self.parent {
            None => Map::empty(),
            Some(p) => p.env(),
        }
    }

    /// The bindings this scope exposes: its parent's, overridden by its own.
    pub open spec fn env(self) -> Map<Seq<char>, Seq<char>>
        decreases self, 1int,
    {
        extended(self.parent_env(), self.map.deep_view())
    }

    /// A new empty root scope.
    pub fn root() -> (r: OverlayContext)
        ensures
            r.env() == Map::<Seq<char>, Seq<char>>::empty(),
            r.parent is None,
    {
        let r = OverlayContext { parent: None, map: Vec::new() };
        proof {
            assert(r.map.deep_view() =~= Seq::<(Seq<char>, Seq<char>)>::empty());
        }
        r
    }

    /// A new empty scope under `parent`: it exposes exactly the parent's
    /// bindings until something is inserted.
    pub fn subcontext(parent: Rc<OverlayContext>) -> (r: OverlayContext)
        ensures
            r.env() == parent.env(),
            r.parent == Some(parent),
    {
        let r = OverlayContext { parent: Some(parent), map: Vec::new() };
        proof {
            assert(r.map.deep_view() =~= Seq::<(Seq<char>, Seq<char>)>::empty());
        }
        r
    }

    /// Binds `key` to `val` in this scope alone; parent and sibling scopes
    /// are not affected.
    pub fn insert(&mut self, key: String, val: String)
        ensures
            final(self).env() == old(self).env().insert(key@, val@),
            final(self).parent == old(self).parent,
    {
        let ghost prior = self.map.deep_view();
        self.map.push((key, val));
        proof {
            assert(self.map.deep_view().drop_last() =~= prior);
        }
    }

    /// The value bound to `key` here or in the nearest ancestor binding it.
    pub fn get_value(&self, key: &str) -> (r: Option<&String>)
        ensures
            (match r {
                Some(v) => self.env().contains_key(key@) && v@ == self.env()[key@],
                None => !self.env().contains_key(key@),
            }),
        decreases *self,
    {
        let ghost base = self.parent_env();
        proof {
            assert(self.map.deep_view().take(self.map.len() as int) =~= self.map.deep_view());
        }
        let mut i = self.map.len();
        while i > 0
            invariant
                i <= self.map.len(),
                base == self.parent_env(),
                last_binding(self.map.deep_view(), key@) == last_binding(
                    self.map.deep_view().take(i as int),
                    key@,
                ),
            decreases i,
        {
            i = i - 1;
            proof {
                assert(self.map.deep_view().take(i + 1).drop_last() =~= self.map.deep_view().take(
                    i as int,
                ));
                assert(self.map.deep_view().take(i + 1).last() == self.map.deep_view()[i as int]);
            }
            if crate::text::str_eq(self.map[i].0.as_str(), key) {
                proof {
                    assert(self.map.deep_view()[i as int].0 == self.map@[i as int].0@);
                    assert(self.map.deep_view()[i as int].1 == self.map@[i as int].1@);
                    assert(last_binding(self.map.deep_view().take(i + 1), key@) == Some(
                        self.map.deep_view()[i as int].1,
                    ));
                    assert(self.env() == extended(base, self.map.deep_view()));
                    lemma_extended_lookup(base, self.map.deep_view(), key@);
                }
                return Some(&self.map[i].1);
            }
        }
        proof {
            assert(self.map.deep_view().take(0) =~= Seq::<(Seq<char>, Seq<char>)>::empty());
            lemma_extended_lookup(base, self.map.deep_view(), key@);
        }
        match &self.parent {
            Some(p) => p.get_value(key),
            None => None,
        }
    }
}

/// All bindings a scope exposes, flattened root first so that a child's
/// binding overrides its ancestors'.
pub fn collect_bindings(scope: &OverlayContext) -> (r: Vec<(String, String)>)
    ensures
        env_of_pairs(r.deep_view()) == scope.env(),
    decreases *scope,
{
    let mut out = (match &scope.parent {
        Some(p) => collect_bindings(&**p),
        None => Vec::new(),
    });
    let ghost base = scope.parent_env();
    proof {
        lemma_extended_empty(out.deep_view());
        if scope.parent is None {
            assert(out.deep_view() =~= Seq::<(Seq<char>, Seq<char>)>::empty());
        }
        assert(scope.map.deep_view().take(0) =~= Seq::<(Seq<char>, Seq<char>)>::empty());
    }
    let mut i: usize = 0;
    while i < scope.map.len()
        invariant
            i <= scope.map.len(),
            env_of_pairs(out.deep_view()) == extended(base, scope.map.deep_view().take(i as int)),
        decreases scope.map.len() - i,
    {
        let ghost prior = out.deep_view();
        out.push((scope.map[i].0.clone(), scope.map[i].1.clone()));
        proof {
            assert(out.deep_view().drop_last() =~= prior);
            assert(scope.map.deep_view().take(i + 1).drop_last() =~= scope.map.deep_view().take(
                i as int,
            ));
        }
        i = i + 1;
    }
    proof {
        assert(scope.map.deep_view().take(scope.map.len() as int) =~= scope.map.deep_view());
    }
    out
}

/// The position of the first `cc` character pair at or after `from`, by a
/// linear scan.
fn find_double(s: &str, c: char, from: usize) -> (r: Option<usize>)
    requires
        from <= s@.len(),
    ensures
        (match r {
            Some(i) => from <= i && i + 1 < s@.len() && find_pair(s@, c, from as nat) == Some(
                i as nat,
            ),
            None => find_pair(s@, c, from as nat) is None,
        }),
{
    let n = s.unicode_len();
    let mut i = from;
    while n - i > 1
        invariant
            from <= i <= n,
            n == s@.len(),
            find_pair(s@, c, from as nat) == find_pair(s@, c, i as nat),
        decreases n - i,
    {
        if s.get_char(i) == c && s.get_char(i + 1) == c {
            return Some(i);
        }
        i += 1;
    }
    None
}

/// Pushes a literal segment as a quoted expression token; an empty segment
/// is dropped.
pub fn maybe_push_str(parts: &mut Vec<String>, part: &str)
    ensures
        final(parts).deep_view() == old(parts).deep_view() + maybe_lit(part@),
{
    if !part.is_empty() {
        let mut q = String::new();
        q.append("\"");
        q.append(part);
        q.append("\"");
        proof {
            reveal_strlit("\"");
            assert(q@ =~= quoted(part@));
        }
        let ghost prior = parts.deep_view();
        parts.push(q);
        proof {
            assert(parts.deep_view() =~= prior + maybe_lit(part@));
        }
    } else {
        proof {
            assert(parts.deep_view() =~= parts.deep_view() + maybe_lit(part@));
        }
    }
}

/// Joins expression tokens with `+` into one expression source.
fn join_plus(parts: &Vec<String>) -> (r: String)
    ensures
        r@ == joined(parts.deep_view()),
{
    let mut s = String::new();
    let mut i: usize = 0;
    while i < parts.len()
        invariant
            i <= parts.len(),
            s@ == joined(parts.deep_view().take(i as int)),
        decreases parts.len() - i,
    {
        if i > 0 {
            s.append("+");
        }
        s.append(parts[i].as_str());
        proof {
            reveal_strlit("+");
            assert(parts.deep_view().take(i + 1).drop_last() =~= parts.deep_view().take(i as int));
            assert(parts.deep_view().take(i + 1).last() == parts.deep_view()[i as int]);
            if i == 0 {
                assert(s@ =~= joined(parts.deep_view().take(i + 1)));
            } else {
                assert(s@ =~= joined(parts.deep_view().take(i as int)) + seq!['+']
                    + parts.deep_view()[i as int]);
            }
        }
        i += 1;
    }
    proof {
        assert(parts.deep_view().take(parts.len() as int) =~= parts.deep_view());
    }
    s
}

/// Rewrites a template into one precompiled expression: literal segments are
/// quoted, `{{ }}` hole bodies are kept verbatim, and the pieces are joined
/// with `+` and parsed. Fails with `MalformedValue` on an unmatched `{{` and
/// with `MalformedExpression` when the joined source does not parse.
pub fn precompile(value: &str) -> (r: Result<CompiledExpr, MqttVerifyError>)
    ensures
        (match r {
            Ok(c) => template_src(value@) == Some(c@) && expr_parses(c@),
            Err(MqttVerifyError::MalformedValue { value: v }) => v@ == value@ && template_src(
                value@,
            ) is None,
            Err(MqttVerifyError::MalformedExpression { value: v, source: _ }) => v@ == value@ && (
            match template_src(value@) {
                Some(src) => !expr_parses(src),
                None => false,
            }),
            Err(_) => false,
        }),
{
    let n = value.unicode_len();
    let mut parts: Vec<String> = Vec::new();
    let mut cursor: usize = 0;
    proof {
        match template_tokens(value@, 0) {
            Some(t) => {
                assert(Seq::<Seq<char>>::empty() + t =~= t);
            },
            None => {},
        }
    }
    loop
        invariant_except_break
            (match template_tokens(value@, cursor as nat) {
                None => template_tokens(value@, 0) is None,
                Some(rest) => template_tokens(value@, 0) == Some(parts.deep_view() + rest),
            }),
        invariant
            cursor <= n,
            n == value@.len(),
        ensures
            template_tokens(value@, 0) == Some(parts.deep_view()),
        decreases n - cursor,
    {
        match find_double(value, '{', cursor) {
            None => {
                let ghost parts0 = parts.deep_view();
                let ghost cur0 = cursor as nat;
                maybe_push_str(&mut parts, value.substring_char(cursor, n));
                proof {
                    if cur0 < n as nat {
                        assert(template_tokens(value@, cur0) == Some(
                            maybe_lit(value@.subrange(cur0 as int, n as int)),
                        ));
                    } else {
                        assert(value@.subrange(cur0 as int, n as int) =~= Seq::<char>::empty());
                        assert(template_tokens(value@, cur0) == Some(Seq::<Seq<char>>::empty()));
                        assert(parts.deep_view() =~= parts0);
                    }
                    assert(parts0 + maybe_lit(value@.subrange(cur0 as int, n as int))
                        =~= parts.deep_view());
                }
                break ;
            },
            Some(start) => {
                let ghost parts0 = parts.deep_view();
                let ghost cur0 = cursor as nat;
                maybe_push_str(&mut parts, value.substring_char(cursor, start));
                match find_double(value, '}', start + 2) {
                    None => {
                        proof {
                            assert(template_tokens(value@, cur0) is None);
                        }
                        return Err(MqttVerifyError::MalformedValue { value: value.to_owned() });
                    },
                    Some(stop) => {
                        parts.push(value.substring_char(start + 2, stop).to_owned());
                        proof {
                            let seg = value@.subrange(cur0 as int, start as int);
                            let expr = value@.subrange(start as int + 2, stop as int);
                            assert(parts.deep_view() =~= parts0 + maybe_lit(seg) + seq![expr]);
                            match template_tokens(value@, (stop + 2) as nat) {
                                Some(rest) => {
                                    assert(template_tokens(value@, cur0) == Some(
                                        maybe_lit(seg) + seq![expr] + rest,
                                    ));
                                    assert(parts0 + (maybe_lit(seg) + seq![expr] + rest) =~= (parts0
                                        + maybe_lit(seg) + seq![expr]) + rest);
                                },
                                None => {
                                    assert(template_tokens(value@, cur0) is None);
                                },
                            }
                        }
                        cursor = stop + 2;
                    },
                }
            },
        }
    }
    let source = join_plus(&parts);
    match build_tree(source.as_str()) {
        Ok(c) => Ok(c),
        Err(e) => Err(
            MqttVerifyError::MalformedExpression { value: value.to_owned(), source: e },
        ),
    }
}

/// A precompiled template bound to the scope it will be evaluated in.
pub struct ContextualValue {
    pub value: CompiledExpr,
    pub context: Rc<OverlayContext>,
}

impl ContextualValue {
    pub fn new(value: CompiledExpr, context: Rc<OverlayContext>) -> (r: ContextualValue)
        ensures
            r.value == value,
            r.context == context,
    {
        ContextualValue { value, context }
    }

    /// Evaluates the template against the bindings its scope exposes; `None`
    /// when evaluation fails (an unbound name, or a non-string result).
    pub fn value(&self) -> (r: Option<String>)
        ensures
            r is Some <==> eval_of(self.value@, self.context.env()) is Some,
            (r matches Some(s) ==> eval_of(self.value@, self.context.env()) == Some(s@)),
    {
        let pairs = collect_bindings(&*self.context);
        eval_with_pairs(&self.value, &pairs)
    }
}

impl OverlayContext {
    /// Precompiles `val` and binds it to the scope `context`.
    pub fn value_for(context: Rc<OverlayContext>, val: &str) -> (r: Result<
        ContextualValue,
        MqttVerifyError,
    >)
        ensures
            (match r {
                Ok(cv) => template_src(val@) == Some(cv.value@) && expr_parses(cv.value@)
                    && cv.context == context,
                Err(MqttVerifyError::MalformedValue { value: v }) => v@ == val@ && template_src(
                    val@,
                ) is None,
                Err(MqttVerifyError::MalformedExpression { value: v, source: _ }) => v@ == val@
                    && (match template_src(val@) {
                    Some(src) => !expr_parses(src),
                    None => false,
                }),
                Err(_) => false,
            }),
    {
        match precompile(val) {
            Ok(c) => Ok(ContextualValue::new(c, context)),
            Err(e) => Err(e),
        }
    }
}

/// Law: looking a name up in a scope yields the scope's own binding when it
/// has one, and otherwise whatever the parent scope exposes (nothing at a
/// root).
pub proof fn lemma_scope_lookup(scope: OverlayContext, k: Seq<char>)
    ensures
        (match last_binding(scope.map.deep_view(), k) {
            Some(v) => scope.env().contains_key(k) && scope.env()[k] == v,
            None => scope.env().contains_key(k) == scope.parent_env().contains_key(k) && (
            scope.parent_env().contains_key(k) ==> scope.env()[k] == scope.parent_env()[k]),
        }),
{
    lemma_extended_lookup(scope.parent_env(), scope.map.deep_view(), k);
}

} // verus!
