//! The code the guard macros expand to.
use vstd::prelude::*;
use crate::token::{Delim, Spacing, Tok, TokKind, TokV, toks_view, push_tok, push_all, decimal, push_decimal};
use crate::syntax::{Action, ActionV, Arg, ArgV, Export, MacroError, MacroErrorV, MacroInput, MacroInputV, args_view, parse_input, parse_action, word_at, law_options_read_in_both_actions,
    input_result_view, captures_at, punct_at,
};

verus! {

// ---------------------------------------------------------------------------
// Token vocabulary.
// ---------------------------------------------------------------------------

/// The identifier `w`, made by the expansion.
pub open spec fn word(w: Seq<char>) -> TokV {
    TokV::Ident(w, None)
}

/// The name of capture `a`, as it was written.
pub open spec fn arg_name(a: ArgV) -> TokV {
    TokV::Ident(a.ident, a.ident_origin)
}

/// The `mut` of capture `a`, as it was written, or nothing.
pub open spec fn arg_mut(a: ArgV) -> Seq<TokV> {
    mut_opt(a.mut_token, a.mut_origin)
}

/// The punctuation character `c`, not glued to what follows.
pub open spec fn alone(c: char) -> TokV {
    TokV::Punct(c, Spacing::Alone, None)
}

/// A group delimited by `d` around `inner`.
pub open spec fn group(d: Delim, inner: Seq<TokV>) -> Seq<TokV> {
    seq![TokV::Open(d, None)] + inner + seq![TokV::Close(d, None)]
}

/// The items separated by single commas, without a trailing comma.
pub open spec fn comma_list(items: Seq<Seq<TokV>>) -> Seq<TokV>
    decreases items.len(),
{
    if items.len() == 0 {
        Seq::empty()
    } else if items.len() == 1 {
        items[0]
    } else {
        comma_list(items.drop_last()) + seq![alone(',')] + items.last()
    }
}

/// `mut` (from input token `o`, if any) when `b`, nothing otherwise.
pub open spec fn mut_opt(b: bool, o: Option<usize>) -> Seq<TokV> {
    if b {
        seq![TokV::Ident("mut"@, o)]
    } else {
        Seq::empty()
    }
}

/// `move` (from input token `o`, if any) when `b`, nothing otherwise.
pub open spec fn move_opt(b: bool, o: Option<usize>) -> Seq<TokV> {
    if b {
        seq![TokV::Ident("move"@, o)]
    } else {
        Seq::empty()
    }
}

/// The name of the type parameter of the `i`-th field of the context struct.
pub open spec fn field_type_name(i: nat) -> Seq<char> {
    "__gCtxFieldType"@ + decimal(i)
}

/// `guarden::guard::ContextGuard::<SYNC, ASYNC, _, _>::new`, with `true,
/// false` for a synchronous guard and `false, _` otherwise.
pub open spec fn new_path(sync: bool) -> Seq<TokV> {
    seq![
        word("guarden"@),
        TokV::Punct(':', Spacing::Joint, None),
        alone(':'),
        word("guard"@),
        TokV::Punct(':', Spacing::Joint, None),
        alone(':'),
        word("ContextGuard"@),
        TokV::Punct(':', Spacing::Joint, None),
        alone(':'),
        alone('<'),
        word(if sync { "true"@ } else { "false"@ }),
        alone(','),
        word(if sync { "false"@ } else { "_"@ }),
        alone(','),
        word("_"@),
        alone(','),
        word("_"@),
        alone('>'),
        TokV::Punct(':', Spacing::Joint, None),
        alone(':'),
        word("new"@),
    ]
}

/// `#[allow(unused_mut)]`
pub open spec fn allow_unused_mut() -> Seq<TokV> {
    seq![
        alone('#'),
        TokV::Open(Delim::Bracket, None),
        word("allow"@),
        TokV::Open(Delim::Paren, None),
        word("unused_mut"@),
        TokV::Close(Delim::Paren, None),
        TokV::Close(Delim::Bracket, None),
    ]
}

/// `#[allow(unused_parens, unused_mut)]`
pub open spec fn allow_closure_lints() -> Seq<TokV> {
    seq![
        alone('#'),
        TokV::Open(Delim::Bracket, None),
        word("allow"@),
        TokV::Open(Delim::Paren, None),
        word("unused_parens"@),
        alone(','),
        word("unused_mut"@),
        TokV::Close(Delim::Paren, None),
        TokV::Close(Delim::Bracket, None),
    ]
}

/// `#[allow(unused_parens, unused_variables, clippy::toplevel_ref_arg)]`
pub open spec fn allow_export_lints() -> Seq<TokV> {
    seq![
        alone('#'),
        TokV::Open(Delim::Bracket, None),
        word("allow"@),
        TokV::Open(Delim::Paren, None),
        word("unused_parens"@),
        alone(','),
        word("unused_variables"@),
        alone(','),
        word("clippy"@),
        TokV::Punct(':', Spacing::Joint, None),
        alone(':'),
        word("toplevel_ref_arg"@),
        TokV::Close(Delim::Paren, None),
        TokV::Close(Delim::Bracket, None),
    ]
}

/// `#[derive(Debug)] #[allow(non_snake_case, non_camel_case_types)] struct __gCtx <`
pub open spec fn context_struct_head() -> Seq<TokV> {
    seq![
        alone('#'),
        TokV::Open(Delim::Bracket, None),
        word("derive"@),
        TokV::Open(Delim::Paren, None),
        word("Debug"@),
        TokV::Close(Delim::Paren, None),
        TokV::Close(Delim::Bracket, None),
        alone('#'),
        TokV::Open(Delim::Bracket, None),
        word("allow"@),
        TokV::Open(Delim::Paren, None),
        word("non_snake_case"@),
        alone(','),
        word("non_camel_case_types"@),
        TokV::Close(Delim::Paren, None),
        TokV::Close(Delim::Bracket, None),
        word("struct"@),
        word("__gCtx"@),
        alone('<'),
    ]
}

/// `#[allow(non_shorthand_field_patterns)]`
pub open spec fn allow_field_patterns() -> Seq<TokV> {
    seq![
        alone('#'),
        TokV::Open(Delim::Bracket, None),
        word("allow"@),
        TokV::Open(Delim::Paren, None),
        word("non_shorthand_field_patterns"@),
        TokV::Close(Delim::Paren, None),
        TokV::Close(Delim::Bracket, None),
    ]
}

// ---------------------------------------------------------------------------
// Per-capture pieces.
// ---------------------------------------------------------------------------

/// The pieces that a capture contributes to the lists of the expansion.
#[derive(Clone, Copy, PartialEq, Eq, Debug, Structural)]
pub enum Part {
    /// The value stored: the initializer, or the captured name itself.
    Init,
    /// The closure's binding: `[mut] name`.
    Var,
    /// An exported reference: `ref [mut] name`.
    ExportAll,
    /// As `ExportAll` for a shorthand capture; `_` for an initialized one.
    ExportDefault,
    /// The type parameter of its context field.
    FieldType,
    /// Its context field: `name: __gCtxFieldTypeI`.
    FieldDecl,
    /// Its context field value: `name: init`.
    FieldInit,
    /// Its context field pattern: `name: [mut] name`.
    FieldVar,
}

/// The value a capture stores.
pub open spec fn init_toks(a: ArgV) -> Seq<TokV> {
    match a.init {
        Some(e) => e,
        None => seq![arg_name(a)],
    }
}

/// The piece `p` of capture `a`, the `i`-th of its list.
pub open spec fn part(p: Part, a: ArgV, i: nat) -> Seq<TokV> {
    match p {
        Part::Init => init_toks(a),
        Part::Var => arg_mut(a) + seq![arg_name(a)],
        Part::ExportAll => seq![word("ref"@)] + arg_mut(a) + seq![arg_name(a)],
        Part::ExportDefault => if a.init is None {
            seq![word("ref"@)] + arg_mut(a) + seq![arg_name(a)]
        } else {
            seq![word("_"@)]
        },
        Part::FieldType => seq![word(field_type_name(i))],
        Part::FieldDecl => seq![arg_name(a), alone(':'), word(field_type_name(i))],
        Part::FieldInit => seq![arg_name(a), alone(':')] + init_toks(a),
        Part::FieldVar => seq![arg_name(a), alone(':')] + arg_mut(a) + seq![arg_name(a)],
    }
}

/// The piece `p` of every capture, in order.
pub open spec fn parts(p: Part, args: Seq<ArgV>) -> Seq<Seq<TokV>> {
    Seq::new(args.len(), |i: int| part(p, args[i], i as nat))
}

// ---------------------------------------------------------------------------
// The expansion.
// ---------------------------------------------------------------------------

/// The arguments of the guard constructor when the captures are gathered in
/// a struct: `__gCtx {name: init, ..}, [move] |__gCtx {name: [mut] name, ..}| { body }`.
pub open spec fn wrapped_call_args(m: MacroInputV) -> Seq<TokV> {
    seq![word("__gCtx"@)] + group(Delim::Brace, comma_list(parts(Part::FieldInit, m.args)))
        + seq![alone(',')] + move_opt(m.move_token, m.move_origin) + seq![alone('|')] + seq![word("__gCtx"@)]
        + group(Delim::Brace, comma_list(parts(Part::FieldVar, m.args))) + seq![alone('|')]
        + group(Delim::Brace, m.body)
}

/// The guard expression when the captures are gathered in a struct:
/// `{ #[..] struct __gCtx<..> {..} #[..] new(..) }`.
pub open spec fn wrapped_guard_expr(m: MacroInputV) -> Seq<TokV> {
    group(
        Delim::Brace,
        context_struct_head() + comma_list(parts(Part::FieldType, m.args)) + seq![alone('>')]
            + group(Delim::Brace, comma_list(parts(Part::FieldDecl, m.args)))
            + allow_field_patterns() + new_path(m.sync_token) + group(
            Delim::Paren,
            wrapped_call_args(m),
        ),
    )
}

/// The arguments of the guard constructor when the captures are gathered in
/// a tuple: `(inits), [move] |#[allow(..)] (vars)| { body }`.  With one
/// capture the "tuple" is a parenthesized value.
pub open spec fn tuple_call_args(m: MacroInputV) -> Seq<TokV> {
    group(Delim::Paren, comma_list(parts(Part::Init, m.args))) + seq![alone(',')] + move_opt(
        m.move_token,
        m.move_origin,
    ) + seq![alone('|')] + allow_closure_lints() + group(
        Delim::Paren,
        comma_list(parts(Part::Var, m.args)),
    ) + seq![alone('|')] + group(Delim::Brace, m.body)
}

/// The guard expression when the captures are gathered in a tuple.
pub open spec fn tuple_guard_expr(m: MacroInputV) -> Seq<TokV> {
    new_path(m.sync_token) + group(Delim::Paren, tuple_call_args(m))
}

/// The expression that builds the guard.
pub open spec fn guard_expr(m: MacroInputV) -> Seq<TokV> {
    if m.export == Export::Wrapped {
        wrapped_guard_expr(m)
    } else {
        tuple_guard_expr(m)
    }
}

/// Whether the guard binding of a statement must be mutable: it was written
/// `mut`, or some capture exposed by reference is `mut`.
pub open spec fn binding_is_mut(user_mut: bool, export: Export, args: Seq<ArgV>) -> bool {
    user_mut || match export {
        Export::All => exists|k: int| 0 <= k < args.len() && (#[trigger] args[k]).mut_token,
        Export::Default => exists|k: int|
            0 <= k < args.len() && (#[trigger] args[k]).mut_token && args[k].init is None,
        Export::Wrapped => false,
    }
}

/// The name of the guard binding: the one written (from input token `o`),
/// or `__guard`.
pub open spec fn guard_name(g: Option<Seq<char>>, o: Option<usize>) -> TokV {
    match g {
        Some(n) => TokV::Ident(n, o),
        None => word("__guard"@),
    }
}

/// The references exported after a statement, one per capture.
pub open spec fn export_list(m: MacroInputV) -> Seq<TokV> {
    if m.export == Export::All {
        comma_list(parts(Part::ExportAll, m.args))
    } else {
        comma_list(parts(Part::ExportDefault, m.args))
    }
}

/// `let [mut] name = <guard expression>;`, with the `mut` that was written
/// (from input token `mut_origin`), or one the expansion adds.
pub open spec fn binding(m: MacroInputV, user_mut: bool, mut_origin: Option<usize>, name: TokV) -> Seq<
    TokV,
> {
    seq![word("let"@)] + mut_opt(
        binding_is_mut(user_mut, m.export, m.args),
        if user_mut {
            mut_origin
        } else {
            None
        },
    ) + seq![name]
        + seq![alone('=')] + guard_expr(m) + seq![alone(';')]
}

/// The whole expansion of a parsed invocation.
pub open spec fn expansion(m: MacroInputV) -> Seq<TokV> {
    match m.action {
        ActionV::Expr => guard_expr(m),
        ActionV::Stmt { mut_token, guard, mut_origin, guard_origin } => {
            let name = guard_name(guard, guard_origin);
            if m.export == Export::Wrapped {
                (if mut_token {
                    Seq::empty()
                } else {
                    allow_unused_mut()
                }) + binding(m, mut_token, mut_origin, name)
            } else {
                binding(m, mut_token, mut_origin, name) + allow_export_lints() + seq![word("let"@)]
                    + group(Delim::Paren, export_list(m)) + seq![alone('=')] + seq![alone('*')]
                    + seq![name] + seq![alone(';')]
            }
        },
    }
}

/// What an invocation expands to: the expansion of its parse, or the parse
/// error.
pub open spec fn expand_tokens(t: Seq<TokV>, answers: spec_fn(int, int) -> bool) -> Result<
    Seq<TokV>,
    MacroErrorV,
> {
    match parse_input(t, answers) {
        Ok(m) => Ok(expansion(m)),
        Err(e) => Err(e),
    }
}

/// With one capture gathered in a tuple, the context is that capture's value
/// alone (parenthesized, not a one-element tuple), and the closure binds it
/// directly.
pub proof fn law_single_capture_is_scalar(args: Seq<ArgV>)
    requires
        args.len() == 1,
    ensures
        comma_list(parts(Part::Init, args)) == init_toks(args[0]),
        comma_list(parts(Part::Var, args)) == arg_mut(args[0]) + seq![arg_name(args[0])],
{
}

/// Under the default export, a shorthand capture is exposed by reference
/// under its own name, and a capture with an initializer is not exposed.
pub proof fn law_default_export_exposes_shorthand_only(args: Seq<ArgV>, k: int)
    requires
        0 <= k < args.len(),
    ensures
        args[k].init is None ==> parts(Part::ExportDefault, args)[k] == seq![word("ref"@)]
            + arg_mut(args[k]) + seq![arg_name(args[k])],
        args[k].init is Some ==> parts(Part::ExportDefault, args)[k] == seq![word("_"@)],
{
}

/// `export(all)` exposes every capture by reference under its own name.
pub proof fn law_export_all_exposes_every_capture(args: Seq<ArgV>, k: int)
    requires
        0 <= k < args.len(),
    ensures
        parts(Part::ExportAll, args)[k] == seq![word("ref"@)] + arg_mut(args[k]) + seq![
            arg_name(args[k]),
        ],
{
}

/// `small` stands in `big` from position `k` on.
pub open spec fn occurs_at(big: Seq<TokV>, small: Seq<TokV>, k: int) -> bool {
    0 <= k && k + small.len() <= big.len() && big.subrange(k, k + small.len()) == small
}

/// `small` stands somewhere in `big`.
pub open spec fn occurs_in(big: Seq<TokV>, small: Seq<TokV>) -> bool {
    exists|k: int| #[trigger] occurs_at(big, small, k)
}

/// A sequence stands in itself.
pub proof fn lemma_occurs_self(x: Seq<TokV>)
    ensures
        occurs_in(x, x),
{
    assert(x.subrange(0, x.len() as int) =~= x);
    assert(occurs_at(x, x, 0));
}

/// What stands in `x` stands in `p + x`.
pub proof fn lemma_occurs_after(p: Seq<TokV>, x: Seq<TokV>, s: Seq<TokV>)
    requires
        occurs_in(x, s),
    ensures
        occurs_in(p + x, s),
{
    let k = choose|k: int| #[trigger] occurs_at(x, s, k);
    assert((p + x).subrange(p.len() + k, p.len() + k + s.len()) =~= x.subrange(k, k + s.len()));
    assert(occurs_at(p + x, s, p.len() + k));
}

/// What stands in `x` stands in `x + q`.
pub proof fn lemma_occurs_before(x: Seq<TokV>, q: Seq<TokV>, s: Seq<TokV>)
    requires
        occurs_in(x, s),
    ensures
        occurs_in(x + q, s),
{
    let k = choose|k: int| #[trigger] occurs_at(x, s, k);
    assert((x + q).subrange(k, k + s.len()) =~= x.subrange(k, k + s.len()));
    assert(occurs_at(x + q, s, k));
}

/// Concatenation is associative.
pub proof fn lemma_assoc(a: Seq<TokV>, b: Seq<TokV>, c: Seq<TokV>)
    ensures
        a + (b + c) == a + b + c,
{
    assert(a + (b + c) =~= a + b + c);
}

/// What stands in `x` stands in a group around it.
pub proof fn lemma_occurs_in_group(d: Delim, x: Seq<TokV>, s: Seq<TokV>)
    requires
        occurs_in(x, s),
    ensures
        occurs_in(group(d, x), s),
{
    lemma_occurs_after(seq![TokV::Open(d, None)], x, s);
    lemma_occurs_before(seq![TokV::Open(d, None)] + x, seq![TokV::Close(d, None)], s);
}

/// What stands in the guard expression stands in the whole expansion.
pub proof fn lemma_guard_expr_in_expansion(m: MacroInputV, s: Seq<TokV>)
    requires
        occurs_in(guard_expr(m), s),
    ensures
        occurs_in(expansion(m), s),
{
    match m.action {
        ActionV::Expr => {},
        ActionV::Stmt { mut_token, guard, mut_origin, guard_origin } => {
            let name = guard_name(guard, guard_origin);
            let ge = guard_expr(m);
            let pre = seq![word("let"@)] + mut_opt(
                binding_is_mut(mut_token, m.export, m.args),
                if mut_token {
                    mut_origin
                } else {
                    None
                },
            ) + seq![name] + seq![alone('=')];
            let b = binding(m, mut_token, mut_origin, name);
            assert(b == pre + ge + seq![alone(';')]);
            lemma_occurs_after(pre, ge, s);
            lemma_occurs_before(pre + ge, seq![alone(';')], s);
            if m.export == Export::Wrapped {
                let lead: Seq<TokV> = if mut_token {
                    Seq::empty()
                } else {
                    allow_unused_mut()
                };
                assert(expansion(m) == lead + b);
                lemma_occurs_after(lead, b, s);
            } else {
                let rest = allow_export_lints() + seq![word("let"@)] + group(Delim::Paren, export_list(m))
                    + seq![alone('=')] + seq![alone('*')] + seq![name] + seq![alone(';')];
                assert(expansion(m) =~= b + rest);
                lemma_occurs_before(b, rest, s);
            }
        },
    }
}

/// What stands in the arguments of the guard constructor stands in the
/// guard expression.
pub proof fn lemma_call_args_in_guard_expr(m: MacroInputV, s: Seq<TokV>)
    requires
        m.export == Export::Wrapped ==> occurs_in(wrapped_call_args(m), s),
        m.export != Export::Wrapped ==> occurs_in(tuple_call_args(m), s),
    ensures
        occurs_in(guard_expr(m), s),
{
    if m.export == Export::Wrapped {
        let args = group(Delim::Paren, wrapped_call_args(m));
        lemma_occurs_in_group(Delim::Paren, wrapped_call_args(m), s);
        let front = context_struct_head() + comma_list(parts(Part::FieldType, m.args)) + seq![alone('>')]
            + group(Delim::Brace, comma_list(parts(Part::FieldDecl, m.args)))
            + allow_field_patterns() + new_path(m.sync_token);
        lemma_occurs_after(front, args, s);
        lemma_occurs_in_group(Delim::Brace, front + args, s);
    } else {
        let args = group(Delim::Paren, tuple_call_args(m));
        lemma_occurs_in_group(Delim::Paren, tuple_call_args(m), s);
        lemma_occurs_after(new_path(m.sync_token), args, s);
    }
}

/// The guard is built by `ContextGuard::<true, false, _, _>::new` when
/// `sync` was written and by `ContextGuard::<false, _, _, _>::new`
/// otherwise, in every export mode and in both actions.
pub proof fn law_constructor_follows_sync(m: MacroInputV)
    ensures
        occurs_in(expansion(m), new_path(m.sync_token)),
{
    let np = new_path(m.sync_token);
    lemma_occurs_self(np);
    if m.export == Export::Wrapped {
        let before = context_struct_head() + comma_list(parts(Part::FieldType, m.args)) + seq![alone('>')]
            + group(Delim::Brace, comma_list(parts(Part::FieldDecl, m.args)))
            + allow_field_patterns();
        let args = group(Delim::Paren, wrapped_call_args(m));
        lemma_occurs_after(before, np, np);
        lemma_occurs_before(before + np, args, np);
        lemma_occurs_in_group(Delim::Brace, before + np + args, np);
    } else {
        lemma_occurs_before(np, group(Delim::Paren, tuple_call_args(m)), np);
    }
    lemma_guard_expr_in_expansion(m, np);
}

/// When `move` is written, the guard's closure is a `move` closure in every
/// export mode: the written `move` stands right before the closure's
/// opening `|`.
pub proof fn law_move_precedes_closure(m: MacroInputV)
    requires
        m.move_token,
    ensures
        occurs_in(expansion(m), seq![TokV::Ident("move"@, m.move_origin), alone('|')]),
{
    let pair = seq![TokV::Ident("move"@, m.move_origin), alone('|')];
    let mo = move_opt(m.move_token, m.move_origin);
    let bar = seq![alone('|')];
    assert(mo + bar =~= pair);
    lemma_occurs_self(pair);
    if m.export == Export::Wrapped {
        let p = seq![word("__gCtx"@)] + group(Delim::Brace, comma_list(parts(Part::FieldInit, m.args)))
            + seq![alone(',')];
        lemma_occurs_after(p, mo + bar, pair);
        lemma_assoc(p, mo, bar);
        let x1 = p + mo + bar;
        lemma_occurs_before(x1, seq![word("__gCtx"@)], pair);
        let x2 = x1 + seq![word("__gCtx"@)];
        let g2 = group(Delim::Brace, comma_list(parts(Part::FieldVar, m.args)));
        lemma_occurs_before(x2, g2, pair);
        lemma_occurs_before(x2 + g2, bar, pair);
        lemma_occurs_before(x2 + g2 + bar, group(Delim::Brace, m.body), pair);
    } else {
        let p = group(Delim::Paren, comma_list(parts(Part::Init, m.args))) + seq![alone(',')];
        lemma_occurs_after(p, mo + bar, pair);
        lemma_assoc(p, mo, bar);
        let x1 = p + mo + bar;
        lemma_occurs_before(x1, allow_closure_lints(), pair);
        let x2 = x1 + allow_closure_lints();
        let g2 = group(Delim::Paren, comma_list(parts(Part::Var, m.args)));
        lemma_occurs_before(x2, g2, pair);
        lemma_occurs_before(x2 + g2, bar, pair);
        lemma_occurs_before(x2 + g2 + bar, group(Delim::Brace, m.body), pair);
    }
    lemma_call_args_in_guard_expr(m, pair);
    lemma_guard_expr_in_expansion(m, pair);
}

/// Writing `sync` after the action selects the synchronous constructor, in
/// both actions and every export mode: the expansion of a parsed invocation
/// holds `ContextGuard::<true, false, _, _>::new` when the word `sync`
/// follows the action, and `ContextGuard::<false, _, _, _>::new` otherwise.
pub proof fn law_written_sync_selects_constructor(
    t: Seq<TokV>,
    answers: spec_fn(int, int) -> bool,
    action: ActionV,
    i: int,
)
    requires
        punct_at(t, 0, '@'),
        parse_action(t, 1) == Ok::<(ActionV, int), MacroErrorV>((action, i)),
        expand_tokens(t, answers) is Ok,
    ensures
        occurs_in(expand_tokens(t, answers)->Ok_0, new_path(word_at(t, i, "sync"@))),
{
    law_options_read_in_both_actions(t, answers, action, i);
    law_constructor_follows_sync(parse_input(t, answers)->Ok_0);
}

/// A statement written `mut name =>` (or `mut` alone) binds the guard with
/// the `mut` it was written with, in every export mode: the expansion starts
/// `let mut`.
pub proof fn law_written_mut_binding_kept(m: MacroInputV)
    requires
        m.action matches ActionV::Stmt { mut_token, .. } && mut_token,
    ensures
        expansion(m).len() >= 2,
        expansion(m)[0] == word("let"@),
        expansion(m)[1] == TokV::Ident("mut"@, m.action->mut_origin),
{
    if let ActionV::Stmt { mut_token, guard, mut_origin, guard_origin } = m.action {
        let b = binding(m, mut_token, mut_origin, guard_name(guard, guard_origin));
        assert(b[0] == word("let"@));
        assert(b[1] == TokV::Ident("mut"@, mut_origin));
        if m.export == Export::Wrapped {
            assert(expansion(m) =~= Seq::<TokV>::empty() + b);
        }
    }
}

/// Under `export(all)` every capture is exported as `ref [mut] name`, so a
/// statement binds the guard mutably as soon as some capture is written
/// `mut`, with or without an initializer.
pub proof fn law_export_all_mut_capture_binds_mut(m: MacroInputV, k: int)
    requires
        m.action is Stmt,
        m.export == Export::All,
        0 <= k < m.args.len(),
        m.args[k].mut_token,
    ensures
        expansion(m).len() >= 2,
        expansion(m)[0] == word("let"@),
        expansion(m)[1] matches TokV::Ident(w, _) && w == "mut"@,
{
}

/// A statement binds the guard mutably only when it must: without a written
/// `mut`, and with no capture exported as `ref mut` (any `mut` capture under
/// `export(all)`, a `mut` shorthand capture by default, none when wrapped),
/// the expansion binds `let name` directly; when wrapped it is first told
/// not to warn about an unused `mut`.
pub proof fn law_binding_not_mut_unless_needed(m: MacroInputV)
    requires
        m.action matches ActionV::Stmt { mut_token, .. } && !mut_token,
        m.export != Export::Wrapped ==> forall|k: int|
            0 <= k < m.args.len() ==> !(#[trigger] m.args[k]).mut_token || (m.export
                == Export::Default && m.args[k].init is Some),
    ensures
        m.export != Export::Wrapped ==> expansion(m).len() >= 2 && expansion(m)[0] == word("let"@)
            && expansion(m)[1] == guard_name(m.action->guard, m.action->guard_origin),
        m.export == Export::Wrapped ==> expansion(m).len() >= allow_unused_mut().len() + 2
            && expansion(m).subrange(0, allow_unused_mut().len() as int) == allow_unused_mut()
            && expansion(m)[allow_unused_mut().len() as int] == word("let"@)
            && expansion(m)[allow_unused_mut().len() + 1int] == guard_name(m.action->guard, m.action->guard_origin),
{
    if let ActionV::Stmt { mut_token, guard, mut_origin, guard_origin } = m.action {
        let name = guard_name(guard, guard_origin);
        let b = binding(m, mut_token, mut_origin, name);
        assert(!binding_is_mut(mut_token, m.export, m.args));
        assert(b[0] == word("let"@));
        assert(b[1] == name);
        if m.export == Export::Wrapped {
            let lead = allow_unused_mut();
            assert(expansion(m) == lead + b);
            assert((lead + b).subrange(0, lead.len() as int) =~= lead);
        }
    }
}

/// Under the default export, a statement binds the guard mutably as soon
/// as some shorthand capture is written `mut`.
pub proof fn law_default_mut_shorthand_binds_mut(m: MacroInputV, k: int)
    requires
        m.action is Stmt,
        m.export == Export::Default,
        0 <= k < m.args.len(),
        m.args[k].mut_token,
        m.args[k].init is None,
    ensures
        expansion(m).len() >= 2,
        expansion(m)[0] == word("let"@),
        expansion(m)[1] matches TokV::Ident(w, _) && w == "mut"@,
{
}

// ---------------------------------------------------------------------------
// Building the expansion.
// ---------------------------------------------------------------------------

fn push_word(out: &mut Vec<Tok>, w: &str)
    ensures
        toks_view(final(out)@) == toks_view(old(out)@) + seq![word(w@)],
{
    let ghost start = toks_view(out@);
    push_tok(out, Tok::made(TokKind::Ident(w.to_owned())));
    assert(toks_view(out@) =~= start + seq![word(w@)]);
}

/// Appends the identifier `name`, copied from input token `origin` (or made,
/// with none).
fn push_name(out: &mut Vec<Tok>, name: &String, origin: Option<usize>)
    ensures
        toks_view(final(out)@) == toks_view(old(out)@) + seq![TokV::Ident(name@, origin)],
{
    let ghost start = toks_view(out@);
    push_tok(out, Tok { kind: TokKind::Ident(name.clone()), origin });
    assert(toks_view(out@) =~= start + seq![TokV::Ident(name@, origin)]);
}

fn push_alone(out: &mut Vec<Tok>, c: char)
    ensures
        toks_view(final(out)@) == toks_view(old(out)@) + seq![alone(c)],
{
    let ghost start = toks_view(out@);
    push_tok(out, Tok::made(TokKind::Punct(c, Spacing::Alone)));
    assert(toks_view(out@) =~= start + seq![alone(c)]);
}

fn push_punct(out: &mut Vec<Tok>, c: char, sp: Spacing)
    ensures
        toks_view(final(out)@) == toks_view(old(out)@).push(TokV::Punct(c, sp, None)),
{
    push_tok(out, Tok::made(TokKind::Punct(c, sp)));
}

fn push_open(out: &mut Vec<Tok>, d: Delim)
    ensures
        toks_view(final(out)@) == toks_view(old(out)@).push(TokV::Open(d, None)),
{
    push_tok(out, Tok::made(TokKind::Open(d)));
}

fn push_close(out: &mut Vec<Tok>, d: Delim)
    ensures
        toks_view(final(out)@) == toks_view(old(out)@).push(TokV::Close(d, None)),
{
    push_tok(out, Tok::made(TokKind::Close(d)));
}

/// Appends the group delimited by `d` around `inner`.
fn push_group(out: &mut Vec<Tok>, d: Delim, inner: &Vec<Tok>)
    ensures
        toks_view(final(out)@) == toks_view(old(out)@) + group(d, toks_view(inner@)),
{
    let ghost start = toks_view(out@);
    push_open(out, d);
    push_all(out, inner);
    push_close(out, d);
    assert(toks_view(out@) =~= start + group(d, toks_view(inner@)));
}

fn push_new_path(out: &mut Vec<Tok>, sync: bool)
    ensures
        toks_view(final(out)@) == toks_view(old(out)@) + new_path(sync),
{
    let ghost start = toks_view(out@);
    push_tok(out, Tok::made(TokKind::Ident("guarden".to_owned())));
    push_punct(out, ':', Spacing::Joint);
    push_punct(out, ':', Spacing::Alone);
    push_tok(out, Tok::made(TokKind::Ident("guard".to_owned())));
    push_punct(out, ':', Spacing::Joint);
    push_punct(out, ':', Spacing::Alone);
    push_tok(out, Tok::made(TokKind::Ident("ContextGuard".to_owned())));
    push_punct(out, ':', Spacing::Joint);
    push_punct(out, ':', Spacing::Alone);
    push_punct(out, '<', Spacing::Alone);
    push_tok(out, Tok::made(TokKind::Ident(if sync { "true" } else { "false" }.to_owned())));
    push_punct(out, ',', Spacing::Alone);
    push_tok(out, Tok::made(TokKind::Ident(if sync { "false" } else { "_" }.to_owned())));
    push_punct(out, ',', Spacing::Alone);
    push_tok(out, Tok::made(TokKind::Ident("_".to_owned())));
    push_punct(out, ',', Spacing::Alone);
    push_tok(out, Tok::made(TokKind::Ident("_".to_owned())));
    push_punct(out, '>', Spacing::Alone);
    push_punct(out, ':', Spacing::Joint);
    push_punct(out, ':', Spacing::Alone);
    push_tok(out, Tok::made(TokKind::Ident("new".to_owned())));
    assert(toks_view(out@) =~= start + new_path(sync));
}

fn push_attr_words(out: &mut Vec<Tok>, outer: &str, a: &str)
    ensures
        toks_view(final(out)@) == toks_view(old(out)@) + seq![
            alone('#'),
            TokV::Open(Delim::Bracket, None),
            word(outer@),
            TokV::Open(Delim::Paren, None),
            word(a@),
            TokV::Close(Delim::Paren, None),
            TokV::Close(Delim::Bracket, None),
        ],
{
    let ghost start = toks_view(out@);
    push_punct(out, '#', Spacing::Alone);
    push_open(out, Delim::Bracket);
    push_tok(out, Tok::made(TokKind::Ident(outer.to_owned())));
    push_open(out, Delim::Paren);
    push_tok(out, Tok::made(TokKind::Ident(a.to_owned())));
    push_close(out, Delim::Paren);
    push_close(out, Delim::Bracket);
    assert(toks_view(out@) =~= start + seq![
        alone('#'),
        TokV::Open(Delim::Bracket, None),
        word(outer@),
        TokV::Open(Delim::Paren, None),
        word(a@),
        TokV::Close(Delim::Paren, None),
        TokV::Close(Delim::Bracket, None),
    ]);
}

fn push_attr_two(out: &mut Vec<Tok>, a: &str, b: &str)
    ensures
        toks_view(final(out)@) == toks_view(old(out)@) + seq![
            alone('#'),
            TokV::Open(Delim::Bracket, None),
            word("allow"@),
            TokV::Open(Delim::Paren, None),
            word(a@),
            alone(','),
            word(b@),
            TokV::Close(Delim::Paren, None),
            TokV::Close(Delim::Bracket, None),
        ],
{
    let ghost start = toks_view(out@);
    push_punct(out, '#', Spacing::Alone);
    push_open(out, Delim::Bracket);
    push_tok(out, Tok::made(TokKind::Ident("allow".to_owned())));
    push_open(out, Delim::Paren);
    push_tok(out, Tok::made(TokKind::Ident(a.to_owned())));
    push_punct(out, ',', Spacing::Alone);
    push_tok(out, Tok::made(TokKind::Ident(b.to_owned())));
    push_close(out, Delim::Paren);
    push_close(out, Delim::Bracket);
    assert(toks_view(out@) =~= start + seq![
        alone('#'),
        TokV::Open(Delim::Bracket, None),
        word("allow"@),
        TokV::Open(Delim::Paren, None),
        word(a@),
        alone(','),
        word(b@),
        TokV::Close(Delim::Paren, None),
        TokV::Close(Delim::Bracket, None),
    ]);
}

fn push_allow_export_lints(out: &mut Vec<Tok>)
    ensures
        toks_view(final(out)@) == toks_view(old(out)@) + allow_export_lints(),
{
    let ghost start = toks_view(out@);
    push_punct(out, '#', Spacing::Alone);
    push_open(out, Delim::Bracket);
    push_tok(out, Tok::made(TokKind::Ident("allow".to_owned())));
    push_open(out, Delim::Paren);
    push_tok(out, Tok::made(TokKind::Ident("unused_parens".to_owned())));
    push_punct(out, ',', Spacing::Alone);
    push_tok(out, Tok::made(TokKind::Ident("unused_variables".to_owned())));
    push_punct(out, ',', Spacing::Alone);
    push_tok(out, Tok::made(TokKind::Ident("clippy".to_owned())));
    push_punct(out, ':', Spacing::Joint);
    push_punct(out, ':', Spacing::Alone);
    push_tok(out, Tok::made(TokKind::Ident("toplevel_ref_arg".to_owned())));
    push_close(out, Delim::Paren);
    push_close(out, Delim::Bracket);
    assert(toks_view(out@) =~= start + allow_export_lints());
}

fn push_context_struct_head(out: &mut Vec<Tok>)
    ensures
        toks_view(final(out)@) == toks_view(old(out)@) + context_struct_head(),
{
    let ghost start = toks_view(out@);
    push_attr_words(out, "derive", "Debug");
    push_attr_two(out, "non_snake_case", "non_camel_case_types");
    push_tok(out, Tok::made(TokKind::Ident("struct".to_owned())));
    push_tok(out, Tok::made(TokKind::Ident("__gCtx".to_owned())));
    push_punct(out, '<', Spacing::Alone);
    assert(toks_view(out@) =~= start + context_struct_head());
}

fn push_mut_opt(out: &mut Vec<Tok>, b: bool, o: Option<usize>)
    ensures
        toks_view(final(out)@) == toks_view(old(out)@) + mut_opt(b, o),
{
    let ghost start = toks_view(out@);
    if b {
        push_tok(out, Tok { kind: TokKind::Ident("mut".to_owned()), origin: o });
    }
    assert(toks_view(out@) =~= start + mut_opt(b, o));
}

fn push_move_opt(out: &mut Vec<Tok>, b: bool, o: Option<usize>)
    ensures
        toks_view(final(out)@) == toks_view(old(out)@) + move_opt(b, o),
{
    let ghost start = toks_view(out@);
    if b {
        push_tok(out, Tok { kind: TokKind::Ident("move".to_owned()), origin: o });
    }
    assert(toks_view(out@) =~= start + move_opt(b, o));
}

/// The name of the `i`-th type parameter of the context struct.
pub fn field_type_ident(i: usize) -> (r: String)
    ensures
        r@ == field_type_name(i as nat),
{
    let mut s = "__gCtxFieldType".to_owned();
    push_decimal(&mut s, i);
    s
}

fn push_init(out: &mut Vec<Tok>, a: &Arg)
    ensures
        toks_view(final(out)@) == toks_view(old(out)@) + init_toks(a@),
{
    match &a.init {
        Some(v) => {
            push_all(out, v);
        },
        None => {
            push_name(out, &a.ident, a.ident_origin);
        },
    }
}

fn push_part(out: &mut Vec<Tok>, p: Part, a: &Arg, i: usize)
    ensures
        toks_view(final(out)@) == toks_view(old(out)@) + part(p, a@, i as nat),
{
    let ghost start = toks_view(out@);
    match p {
        Part::Init => {
            push_init(out, a);
        },
        Part::Var => {
            push_mut_opt(out, a.mut_token, a.mut_origin);
            push_name(out, &a.ident, a.ident_origin);
        },
        Part::ExportAll => {
            push_word(out, "ref");
            push_mut_opt(out, a.mut_token, a.mut_origin);
            push_name(out, &a.ident, a.ident_origin);
        },
        Part::ExportDefault => {
            if a.init.is_none() {
                push_word(out, "ref");
                push_mut_opt(out, a.mut_token, a.mut_origin);
                push_name(out, &a.ident, a.ident_origin);
            } else {
                push_word(out, "_");
            }
        },
        Part::FieldType => {
            let n = field_type_ident(i);
            push_name(out, &n, None);
        },
        Part::FieldDecl => {
            push_name(out, &a.ident, a.ident_origin);
            push_alone(out, ':');
            let n = field_type_ident(i);
            push_name(out, &n, None);
        },
        Part::FieldInit => {
            push_name(out, &a.ident, a.ident_origin);
            push_alone(out, ':');
            push_init(out, a);
        },
        Part::FieldVar => {
            push_name(out, &a.ident, a.ident_origin);
            push_alone(out, ':');
            push_mut_opt(out, a.mut_token, a.mut_origin);
            push_name(out, &a.ident, a.ident_origin);
        },
    }
    assert(toks_view(out@) =~= start + part(p, a@, i as nat));
}

/// Extending a comma list by one item adds a comma (unless it was empty)
/// and the item.
pub proof fn lemma_comma_list_step(items: Seq<Seq<TokV>>, i: int)
    requires
        0 <= i < items.len(),
    ensures
        comma_list(items.take(i + 1)) == comma_list(items.take(i)) + (if i == 0 {
            Seq::<TokV>::empty()
        } else {
            seq![alone(',')]
        }) + items[i],
{
    let s = items.take(i + 1);
    assert(s.drop_last() =~= items.take(i));
    assert(s.last() == items[i]);
    if i == 0 {
        assert(items.take(0) =~= Seq::<Seq<TokV>>::empty());
        assert(Seq::<TokV>::empty() + Seq::<TokV>::empty() + items[0] =~= items[0]);
    }
}

fn push_list(out: &mut Vec<Tok>, p: Part, args: &Vec<Arg>)
    ensures
        toks_view(final(out)@) == toks_view(old(out)@) + comma_list(parts(p, args_view(args@))),
{
    let ghost start = toks_view(out@);
    let ghost items = parts(p, args_view(args@));
    let mut i: usize = 0;
    assert(items.take(0) =~= Seq::<Seq<TokV>>::empty());
    assert(start + comma_list(items.take(0)) =~= start);
    while i < args.len()
        invariant
            i <= args.len(),
            items == parts(p, args_view(args@)),
            toks_view(out@) == start + comma_list(items.take(i as int)),
        decreases args.len() - i,
    {
        let ghost mid = toks_view(out@);
        if i > 0 {
            push_alone(out, ',');
        }
        let ghost sep = toks_view(out@);
        push_part(out, p, &args[i], i);
        proof {
            lemma_comma_list_step(items, i as int);
            assert(items[i as int] == part(p, args@[i as int]@, i as nat));
            if i > 0 {
                assert(sep =~= mid + seq![alone(',')]);
            } else {
                assert(sep =~= mid + Seq::<TokV>::empty());
            }
        }
        assert(toks_view(out@) =~= start + comma_list(items.take(i + 1)));
        i = i + 1;
    }
    assert(items.take(args.len() as int) =~= items);
}

/// A fresh vector holding the comma list of piece `p` of every capture.
fn list_vec(p: Part, args: &Vec<Arg>) -> (r: Vec<Tok>)
    ensures
        toks_view(r@) == comma_list(parts(p, args_view(args@))),
{
    let mut r: Vec<Tok> = Vec::new();
    assert(toks_view(r@) =~= Seq::<TokV>::empty());
    push_list(&mut r, p, args);
    assert(Seq::<TokV>::empty() + comma_list(parts(p, args_view(args@))) =~= comma_list(
        parts(p, args_view(args@)),
    ));
    r
}

fn empty_toks() -> (r: Vec<Tok>)
    ensures
        toks_view(r@) == Seq::<TokV>::empty(),
{
    let r: Vec<Tok> = Vec::new();
    assert(toks_view(r@) =~= Seq::<TokV>::empty());
    r
}

fn wrapped_call_args_vec(m: &MacroInput) -> (r: Vec<Tok>)
    ensures
        toks_view(r@) == wrapped_call_args(m@),
{
    let mut out = empty_toks();
    push_word(&mut out, "__gCtx");
    assert(toks_view(out@) =~= seq![word("__gCtx"@)]);
    let inits = list_vec(Part::FieldInit, &m.args);
    push_group(&mut out, Delim::Brace, &inits);
    push_alone(&mut out, ',');
    push_move_opt(&mut out, m.move_token, m.move_origin);
    push_alone(&mut out, '|');
    push_word(&mut out, "__gCtx");
    let vars = list_vec(Part::FieldVar, &m.args);
    push_group(&mut out, Delim::Brace, &vars);
    push_alone(&mut out, '|');
    push_group(&mut out, Delim::Brace, &m.body);
    out
}

fn wrapped_guard_expr_vec(m: &MacroInput) -> (r: Vec<Tok>)
    ensures
        toks_view(r@) == wrapped_guard_expr(m@),
{
    let mut inner = empty_toks();
    push_context_struct_head(&mut inner);
    assert(toks_view(inner@) =~= context_struct_head());
    push_list(&mut inner, Part::FieldType, &m.args);
    push_alone(&mut inner, '>');
    let decls = list_vec(Part::FieldDecl, &m.args);
    push_group(&mut inner, Delim::Brace, &decls);
    push_attr_words(&mut inner, "allow", "non_shorthand_field_patterns");
    assert(seq![
        alone('#'),
        TokV::Open(Delim::Bracket, None),
        word("allow"@),
        TokV::Open(Delim::Paren, None),
        word("non_shorthand_field_patterns"@),
        TokV::Close(Delim::Paren, None),
        TokV::Close(Delim::Bracket, None),
    ] == allow_field_patterns());
    push_new_path(&mut inner, m.sync_token);
    let call = wrapped_call_args_vec(m);
    push_group(&mut inner, Delim::Paren, &call);
    let mut out = empty_toks();
    push_group(&mut out, Delim::Brace, &inner);
    assert(Seq::<TokV>::empty() + wrapped_guard_expr(m@) =~= wrapped_guard_expr(m@));
    out
}

fn tuple_call_args_vec(m: &MacroInput) -> (r: Vec<Tok>)
    ensures
        toks_view(r@) == tuple_call_args(m@),
{
    let mut out = empty_toks();
    let inits = list_vec(Part::Init, &m.args);
    push_group(&mut out, Delim::Paren, &inits);
    let ghost g = group(Delim::Paren, comma_list(parts(Part::Init, args_view(m.args@))));
    assert(Seq::<TokV>::empty() + g =~= g);
    push_alone(&mut out, ',');
    push_move_opt(&mut out, m.move_token, m.move_origin);
    push_alone(&mut out, '|');
    push_attr_two(&mut out, "unused_parens", "unused_mut");
    assert(seq![
        alone('#'),
        TokV::Open(Delim::Bracket, None),
        word("allow"@),
        TokV::Open(Delim::Paren, None),
        word("unused_parens"@),
        alone(','),
        word("unused_mut"@),
        TokV::Close(Delim::Paren, None),
        TokV::Close(Delim::Bracket, None),
    ] == allow_closure_lints());
    let vars = list_vec(Part::Var, &m.args);
    push_group(&mut out, Delim::Paren, &vars);
    push_alone(&mut out, '|');
    push_group(&mut out, Delim::Brace, &m.body);
    out
}

fn tuple_guard_expr_vec(m: &MacroInput) -> (r: Vec<Tok>)
    ensures
        toks_view(r@) == tuple_guard_expr(m@),
{
    let mut out = empty_toks();
    push_new_path(&mut out, m.sync_token);
    assert(Seq::<TokV>::empty() + new_path(m.sync_token) =~= new_path(m.sync_token));
    let call = tuple_call_args_vec(m);
    push_group(&mut out, Delim::Paren, &call);
    out
}

fn guard_expr_vec(m: &MacroInput) -> (r: Vec<Tok>)
    ensures
        toks_view(r@) == guard_expr(m@),
{
    if m.export == Export::Wrapped {
        wrapped_guard_expr_vec(m)
    } else {
        tuple_guard_expr_vec(m)
    }
}

/// Whether the guard binding of a statement must be mutable.
pub fn binding_mut(user_mut: bool, export: Export, args: &Vec<Arg>) -> (r: bool)
    ensures
        r == binding_is_mut(user_mut, export, args_view(args@)),
{
    if user_mut {
        return true;
    }
    let shorthand_only = match export {
        Export::Wrapped => {
            return false;
        },
        Export::All => false,
        Export::Default => true,
    };
    let ghost av = args_view(args@);
    let mut i: usize = 0;
    while i < args.len()
        invariant
            i <= args.len(),
            av == args_view(args@),
            shorthand_only == (export == Export::Default),
            export != Export::Wrapped,
            forall|k: int|
                0 <= k < i ==> !((#[trigger] av[k]).mut_token && (!shorthand_only || av[k].init
                    is None)),
        decreases args.len() - i,
    {
        if args[i].mut_token && (!shorthand_only || args[i].init.is_none()) {
            assert(av[i as int].mut_token && (!shorthand_only || av[i as int].init is None));
            return true;
        }
        i = i + 1;
    }
    false
}

fn binding_vec(
    m: &MacroInput,
    user_mut: bool,
    mut_origin: Option<usize>,
    name: &String,
    name_origin: Option<usize>,
) -> (r: Vec<Tok>)
    ensures
        toks_view(r@) == binding(m@, user_mut, mut_origin, TokV::Ident(name@, name_origin)),
{
    let mut out = empty_toks();
    push_word(&mut out, "let");
    assert(toks_view(out@) =~= seq![word("let"@)]);
    let bind_mut = binding_mut(user_mut, m.export, &m.args);
    let o = if user_mut {
        mut_origin
    } else {
        None
    };
    push_mut_opt(&mut out, bind_mut, o);
    push_name(&mut out, name, name_origin);
    push_alone(&mut out, '=');
    let e = guard_expr_vec(m);
    push_all(&mut out, &e);
    push_alone(&mut out, ';');
    out
}

/// Expands a parsed invocation.
pub fn expand(m: &MacroInput) -> (r: Vec<Tok>)
    ensures
        toks_view(r@) == expansion(m@),
{
    match &m.action {
        Action::Expr => guard_expr_vec(m),
        Action::Stmt { mut_token, guard, mut_origin, guard_origin } => {
            let (name, name_origin) = match guard {
                Some(g) => (g.clone(), *guard_origin),
                None => ("__guard".to_owned(), None),
            };
            let b = binding_vec(m, *mut_token, *mut_origin, &name, name_origin);
            if m.export == Export::Wrapped {
                let mut out = empty_toks();
                if !*mut_token {
                    push_attr_words(&mut out, "allow", "unused_mut");
                }
                assert(toks_view(out@) =~= (if *mut_token {
                    Seq::empty()
                } else {
                    allow_unused_mut()
                }));
                push_all(&mut out, &b);
                out
            } else {
                let mut out = b;
                push_allow_export_lints(&mut out);
                push_word(&mut out, "let");
                let exports = if m.export == Export::All {
                    list_vec(Part::ExportAll, &m.args)
                } else {
                    list_vec(Part::ExportDefault, &m.args)
                };
                push_group(&mut out, Delim::Paren, &exports);
                push_alone(&mut out, '=');
                push_alone(&mut out, '*');
                push_name(&mut out, &name, name_origin);
                push_alone(&mut out, ';');
                out
            }
        },
    }
}

pub open spec fn tokens_result_view(r: Result<Vec<Tok>, MacroError>) -> Result<Seq<TokV>, MacroErrorV> {
    match r {
        Ok(v) => Ok(toks_view(v@)),
        Err(e) => Err(e@),
    }
}

/// Expands an invocation of the guard macros: the tokens after the macro
/// name, from `@` on, to the code that builds (and, in statement mode,
/// binds) the guard.  Whatever `syn` answered about the initializers, the
/// result is the expansion for some answers; when the capture list holds no
/// `=`, it is the expansion for every answer.
pub fn proc(input: &Vec<Tok>) -> (r: Result<Vec<Tok>, MacroError>)
    ensures
        exists|answers: spec_fn(int, int) -> bool|
            tokens_result_view(r) == #[trigger] expand_tokens(toks_view(input@), answers),
        (forall|i: int| !#[trigger] punct_at(captures_at(toks_view(input@)), i, '=')) ==> forall|
            answers: spec_fn(int, int) -> bool,
        | tokens_result_view(r) == #[trigger] expand_tokens(toks_view(input@), answers),
{
    let ghost tv = toks_view(input@);
    let res = MacroInput::parse(input);
    let ghost w = choose|answers: spec_fn(int, int) -> bool|
        input_result_view(res) == #[trigger] parse_input(tv, answers);
    let r = match res {
        Ok(m) => Ok(expand(&m)),
        Err(e) => Err(e),
    };
    assert(tokens_result_view(r) == expand_tokens(tv, w));
    proof {
        if forall|i: int| !#[trigger] punct_at(captures_at(tv), i, '=') {
            assert forall|answers: spec_fn(int, int) -> bool| tokens_result_view(r) == #[trigger] expand_tokens(tv, answers) by {
                assert(input_result_view(res) == parse_input(tv, answers));
            }
        }
    }
    r
}

} // verus!
