//! The input grammar of the guard macros.
//!
//! An invocation reads
//! `@ stmt ; [mut] [name =>] [sync] [move] [export(all|wrapped)] [captures] body`
//! or `@ expr ; [sync] [move] [export(wrapped)] [captures] body`, where the
//! captures are a bracketed, comma-separated list of `[mut] name [= expr]`.
//!
//! Keywords are matched by their identifier text; an invisible group (from
//! a substituted macro fragment) counts as one group, not as its contents.
use vstd::prelude::*;
use crate::token::{
    Delim, Spacing, Tok, TokKind, TokV, toks_view, syn_reserved_word, word_is, is_plain_ident_name,
    render_range, push_range,
};
use crate::outside::parses_as_expr;
use crate::outside::push_char;

verus! {

/// Why an invocation was refused.
#[derive(PartialEq, Eq, Debug)]
pub enum MacroError {
    /// The invocation does not start with `@`.
    ExpectedAt,
    /// Neither `stmt` nor `expr` follows the `@`.
    ExpectedAction,
    /// The action keyword is not followed by `;`.
    ExpectedSemicolon,
    /// `export` is not followed by a parenthesized group.
    ExpectedParens,
    /// The export group does not start with `all` or `wrapped`.
    ExpectedExportMode,
    /// An expression-mode invocation names an export mode other than `wrapped`.
    ExportOutsideWrapped,
    /// A capture does not start with an identifier.
    ExpectedIdent,
    /// A capture is named by the keyword given (or `_`), which `syn` does
    /// not take as an identifier.
    KeywordAsIdent(String),
    /// A capture's initializer is not an expression.
    ExpectedExpr,
    /// A capture, or the expression of its initializer, is followed by
    /// something other than `,`.
    ExpectedComma,
    /// The export group holds more than its mode.
    UnexpectedToken,
}

/// The value of a [`MacroError`].
pub enum MacroErrorV {
    ExpectedAt,
    ExpectedAction,
    ExpectedSemicolon,
    ExpectedParens,
    ExpectedExportMode,
    ExportOutsideWrapped,
    ExpectedIdent,
    KeywordAsIdent(Seq<char>),
    ExpectedExpr,
    ExpectedComma,
    UnexpectedToken,
}

impl View for MacroError {
    type V = MacroErrorV;

    open spec fn view(&self) -> MacroErrorV {
        match self {
            MacroError::ExpectedAt => MacroErrorV::ExpectedAt,
            MacroError::ExpectedAction => MacroErrorV::ExpectedAction,
            MacroError::ExpectedSemicolon => MacroErrorV::ExpectedSemicolon,
            MacroError::ExpectedParens => MacroErrorV::ExpectedParens,
            MacroError::ExpectedExportMode => MacroErrorV::ExpectedExportMode,
            MacroError::ExportOutsideWrapped => MacroErrorV::ExportOutsideWrapped,
            MacroError::ExpectedIdent => MacroErrorV::ExpectedIdent,
            MacroError::KeywordAsIdent(w) => MacroErrorV::KeywordAsIdent(w@),
            MacroError::ExpectedExpr => MacroErrorV::ExpectedExpr,
            MacroError::ExpectedComma => MacroErrorV::ExpectedComma,
            MacroError::UnexpectedToken => MacroErrorV::UnexpectedToken,
        }
    }
}

/// The diagnostic reported for an error.
pub open spec fn error_message(e: MacroErrorV) -> Seq<char> {
    match e {
        MacroErrorV::ExpectedAt => "expected `@`"@,
        MacroErrorV::ExpectedAction => "expected `stmt` or `expr`"@,
        MacroErrorV::ExpectedSemicolon => "expected `;`"@,
        MacroErrorV::ExpectedParens => "expected parentheses"@,
        MacroErrorV::ExpectedExportMode => "expected `all` or `wrapped`"@,
        MacroErrorV::ExportOutsideWrapped => "Only `export(wrapped)` is allowed in expression mode"@,
        MacroErrorV::ExpectedIdent => "expected identifier"@,
        MacroErrorV::KeywordAsIdent(w) => "expected identifier, found keyword `"@ + w + "`"@,
        MacroErrorV::ExpectedExpr => "expected an expression"@,
        MacroErrorV::ExpectedComma => "expected `,`"@,
        MacroErrorV::UnexpectedToken => "unexpected token"@,
    }
}

impl MacroError {
    /// The diagnostic reported for this error.
    pub fn message(&self) -> (m: String)
        ensures
            m@ == error_message(self@),
    {
        let s = match self {
            MacroError::ExpectedAt => "expected `@`",
            MacroError::ExpectedAction => "expected `stmt` or `expr`",
            MacroError::ExpectedSemicolon => "expected `;`",
            MacroError::ExpectedParens => "expected parentheses",
            MacroError::ExpectedExportMode => "expected `all` or `wrapped`",
            MacroError::ExportOutsideWrapped => "Only `export(wrapped)` is allowed in expression mode",
            MacroError::ExpectedIdent => "expected identifier",
            MacroError::KeywordAsIdent(w) => {
                let mut m = "expected identifier, found keyword `".to_owned();
                m.append(w.as_str());
                push_char(&mut m, '`');
                proof {
                    reveal_strlit("`");
                    assert("`"@ =~= seq!['`']);
                }
                return m;
            },
            MacroError::ExpectedExpr => "expected an expression",
            MacroError::ExpectedComma => "expected `,`",
            MacroError::UnexpectedToken => "unexpected token",
        };
        s.to_owned()
    }
}

/// How the captures are reachable after a statement-mode invocation.
#[derive(Clone, Copy, PartialEq, Eq, Debug, Structural)]
pub enum Export {
    /// Every capture is exposed by reference under its name.
    All,
    /// The captures are fields of the named guard.
    Wrapped,
    /// Shorthand captures are exposed by reference; initialized ones are not.
    Default,
}

/// One entry of the capture list.
#[derive(Debug)]
pub struct Arg {
    pub mut_token: bool,
    /// Where the `mut` was written, when it was.
    pub mut_origin: Option<usize>,
    pub ident: String,
    /// Where the name was written.
    pub ident_origin: Option<usize>,
    pub init: Option<Vec<Tok>>,
}

/// The value of an [`Arg`].
pub struct ArgV {
    pub mut_token: bool,
    pub mut_origin: Option<usize>,
    pub ident: Seq<char>,
    pub ident_origin: Option<usize>,
    pub init: Option<Seq<TokV>>,
}

impl View for Arg {
    type V = ArgV;

    open spec fn view(&self) -> ArgV {
        ArgV {
            mut_token: self.mut_token,
            mut_origin: self.mut_origin,
            ident: self.ident@,
            ident_origin: self.ident_origin,
            init: match self.init {
                Some(v) => Some(toks_view(v@)),
                None => None,
            },
        }
    }
}

pub open spec fn args_view(s: Seq<Arg>) -> Seq<ArgV> {
    s.map_values(|a: Arg| a@)
}

/// What the invocation produces.
#[derive(Debug)]
pub enum Action {
    /// A `let` statement binding the guard, under `guard` or a default name;
    /// with where the `mut` and the name were written.
    Stmt {
        mut_token: bool,
        guard: Option<String>,
        mut_origin: Option<usize>,
        guard_origin: Option<usize>,
    },
    /// The guard as an expression.
    Expr,
}

/// The value of an [`Action`].
pub enum ActionV {
    Stmt {
        mut_token: bool,
        guard: Option<Seq<char>>,
        mut_origin: Option<usize>,
        guard_origin: Option<usize>,
    },
    Expr,
}

impl View for Action {
    type V = ActionV;

    open spec fn view(&self) -> ActionV {
        match self {
            Action::Stmt { mut_token, guard, mut_origin, guard_origin } => ActionV::Stmt {
                mut_token: *mut_token,
                guard: match guard {
                    Some(g) => Some(g@),
                    None => None,
                },
                mut_origin: *mut_origin,
                guard_origin: *guard_origin,
            },
            Action::Expr => ActionV::Expr,
        }
    }
}

/// A parsed invocation.
#[derive(Debug)]
pub struct MacroInput {
    pub action: Action,
    pub sync_token: bool,
    pub move_token: bool,
    /// Where the `move` was written, when it was.
    pub move_origin: Option<usize>,
    pub export: Export,
    pub args: Vec<Arg>,
    pub body: Vec<Tok>,
}

/// The value of a [`MacroInput`].
pub struct MacroInputV {
    pub action: ActionV,
    pub sync_token: bool,
    pub move_token: bool,
    pub move_origin: Option<usize>,
    pub export: Export,
    pub args: Seq<ArgV>,
    pub body: Seq<TokV>,
}

impl View for MacroInput {
    type V = MacroInputV;

    open spec fn view(&self) -> MacroInputV {
        MacroInputV {
            action: self.action@,
            sync_token: self.sync_token,
            move_token: self.move_token,
            move_origin: self.move_origin,
            export: self.export,
            args: args_view(self.args@),
            body: toks_view(self.body@),
        }
    }
}

// ---------------------------------------------------------------------------
// The grammar, stated over token values.
// ---------------------------------------------------------------------------

/// Token `i` is the word `w`.
pub open spec fn word_at(t: Seq<TokV>, i: int, w: Seq<char>) -> bool {
    0 <= i < t.len() && (t[i] matches TokV::Ident(s, _) && s == w)
}

/// Token `i` is the punctuation character `c`, whatever its spacing.
pub open spec fn punct_at(t: Seq<TokV>, i: int, c: char) -> bool {
    0 <= i < t.len() && (t[i] matches TokV::Punct(ch, _, _) && ch == c)
}

/// Token `i` is an identifier that `syn` accepts as a plain name.
pub open spec fn plain_ident_at(t: Seq<TokV>, i: int) -> bool {
    0 <= i < t.len() && (t[i] matches TokV::Ident(s, _) && !syn_reserved_word(s))
}

/// The text of identifier token `i`.
pub open spec fn ident_text(t: Seq<TokV>, i: int) -> Seq<char> {
    match t[i] {
        TokV::Ident(s, _) => s,
        _ => Seq::empty(),
    }
}

/// The input token that identifier token `i` was copied from.
pub open spec fn ident_origin(t: Seq<TokV>, i: int) -> Option<usize> {
    match t[i] {
        TokV::Ident(_, o) => o,
        _ => None,
    }
}

/// Tokens `i` and `i + 1` form `=>`.
pub open spec fn fat_arrow_at(t: Seq<TokV>, i: int) -> bool {
    0 <= i && i + 1 < t.len() && (t[i] matches TokV::Punct('=', Spacing::Joint, _)) && punct_at(t, i + 1, '>')
}

/// Token `i` opens a group delimited by `d`.
pub open spec fn open_at(t: Seq<TokV>, i: int, d: Delim) -> bool {
    0 <= i < t.len() && (t[i] matches TokV::Open(d2, _) && d2 == d)
}

/// Scanning from `j` inside `depth` open groups, the index of the marker that
/// closes the outermost one, or the length if there is none.
pub open spec fn scan_close(t: Seq<TokV>, j: int, depth: nat) -> int
    decreases t.len() - j,
{
    if j < 0 || j >= t.len() {
        t.len() as int
    } else {
        match t[j] {
            TokV::Open(..) => scan_close(t, j + 1, depth + 1),
            TokV::Close(..) => if depth <= 1 {
                j
            } else {
                scan_close(t, j + 1, (depth - 1) as nat)
            },
            _ => scan_close(t, j + 1, depth),
        }
    }
}

/// The index of the marker closing the group opened at `i`.
pub open spec fn group_close(t: Seq<TokV>, i: int) -> int {
    scan_close(t, i + 1, 1)
}

/// The position after the marker at `c`.
pub open spec fn after(t: Seq<TokV>, c: int) -> int {
    if c < t.len() {
        c + 1
    } else {
        t.len() as int
    }
}

/// How a token changes the nesting depth.
pub open spec fn depth_delta(t: TokV) -> int {
    match t {
        TokV::Open(..) => 1,
        TokV::Close(..) => -1,
        _ => 0,
    }
}

/// `c[s..e]` is a nonempty run of tokens that `syn` accepted as an
/// expression.  `answers(s, e)` is what `syn` said when it was handed the
/// rendered text of `c[s..e]`; what it says depends on where the macro runs
/// (with the compiler's lexer or its own), so the grammar takes the answers
/// as given.
pub open spec fn expr_span(c: Seq<TokV>, s: int, e: int, answers: spec_fn(int, int) -> bool) -> bool {
    s < e && answers(s, e)
}

/// No answer from `syn` at all: every run is refused.
pub open spec fn no_answers() -> spec_fn(int, int) -> bool {
    |x: int, e: int| false
}

/// The end of the initializer that starts at `s`: the first position `e`,
/// scanning from `e` at nesting `depth`, that is the end of `c` or holds a
/// comma outside every group, such that `c[s..e]` is an expression.
///
/// An initializer is thus the shortest run of tokens ending before a
/// top-level comma (or at the end) that `syn` accepts as a whole expression;
/// commas inside closure parameters or generic arguments do not end it,
/// since the runs before them are not whole expressions.
pub open spec fn expr_end(
    c: Seq<TokV>,
    s: int,
    e: int,
    depth: int,
    answers: spec_fn(int, int) -> bool,
) -> Option<int>
    decreases c.len() - e,
{
    if e >= c.len() {
        if expr_span(c, s, c.len() as int, answers) {
            Some(c.len() as int)
        } else {
            None
        }
    } else if depth == 0 && punct_at(c, e, ',') && expr_span(c, s, e, answers) {
        Some(e)
    } else {
        expr_end(c, s, e + 1, depth + depth_delta(c[e]), answers)
    }
}

/// Some run `c[s..e]` that ends outside every group, before the end of `c`,
/// was accepted as an expression; scanning from `e` at nesting `depth`.
/// When no initializer end is found, such a run means that an expression was
/// read and something other than a comma followed it.
pub open spec fn accepted_prefix(
    c: Seq<TokV>,
    s: int,
    e: int,
    depth: int,
    answers: spec_fn(int, int) -> bool,
) -> bool
    decreases c.len() - e,
{
    if e >= c.len() {
        false
    } else {
        (depth == 0 && expr_span(c, s, e, answers)) || accepted_prefix(
            c,
            s,
            e + 1,
            depth + depth_delta(c[e]),
            answers,
        )
    }
}

/// The nesting depth at `e` of a scan that starts at `s` outside every group.
pub open spec fn depth_between(c: Seq<TokV>, s: int, e: int) -> int
    decreases e - s,
{
    if e <= s {
        0
    } else {
        depth_between(c, s, e - 1) + depth_delta(c[e - 1])
    }
}

/// The position of the name of the capture that starts at `k`.
pub open spec fn arg_name_pos(c: Seq<TokV>, k: int) -> int {
    if word_at(c, k, "mut"@) {
        k + 1
    } else {
        k
    }
}

/// The capture at `k` has an initializer, so parsing it asks `syn`, about
/// runs starting at `arg_name_pos(c, k) + 2`.
pub open spec fn has_initializer(c: Seq<TokV>, k: int) -> bool {
    plain_ident_at(c, arg_name_pos(c, k)) && punct_at(c, arg_name_pos(c, k) + 1, '=')
}

/// Why no capture name can be read at `j`: a keyword (or `_`) stands there,
/// or no identifier at all.
pub open spec fn name_error(c: Seq<TokV>, j: int) -> MacroErrorV {
    if 0 <= j < c.len() && (c[j] matches TokV::Ident(_, _)) {
        MacroErrorV::KeywordAsIdent(ident_text(c, j))
    } else {
        MacroErrorV::ExpectedIdent
    }
}

/// The capture at `k` with initializer `init`: its `mut` and name, with
/// where they were written.
pub open spec fn arg_value(c: Seq<TokV>, k: int, init: Option<Seq<TokV>>) -> ArgV {
    let m = word_at(c, k, "mut"@);
    let j = arg_name_pos(c, k);
    ArgV {
        mut_token: m,
        mut_origin: if m {
            ident_origin(c, k)
        } else {
            None
        },
        ident: ident_text(c, j),
        ident_origin: ident_origin(c, j),
        init,
    }
}

/// One capture, `[mut] name [= expr]`, starting at `k`; with the position
/// after it.
pub open spec fn parse_arg(c: Seq<TokV>, k: int, answers: spec_fn(int, int) -> bool) -> Result<
    (ArgV, int),
    MacroErrorV,
> {
    let m = word_at(c, k, "mut"@);
    let j = if m {
        k + 1
    } else {
        k
    };
    if !plain_ident_at(c, j) {
        Err(name_error(c, j))
    } else if punct_at(c, j + 1, '=') {
        match expr_end(c, j + 2, j + 2, 0, answers) {
            Some(e) => Ok((arg_value(c, k, Some(c.subrange(j + 2, e))), e)),
            None => if accepted_prefix(c, j + 2, j + 2, 0, answers) {
                Err(MacroErrorV::ExpectedComma)
            } else {
                Err(MacroErrorV::ExpectedExpr)
            },
        }
    } else {
        Ok((arg_value(c, k, None), j + 1))
    }
}

/// The comma-separated captures of `c` from `k` on; a trailing comma is
/// allowed.
pub open spec fn parse_args_from(c: Seq<TokV>, k: int, answers: spec_fn(int, int) -> bool) -> Result<
    Seq<ArgV>,
    MacroErrorV,
>
    decreases c.len() - k,
{
    if k < 0 || k >= c.len() {
        Ok(Seq::empty())
    } else {
        match parse_arg(c, k, answers) {
            Err(e) => Err(e),
            Ok((a, k2)) => if k2 >= c.len() {
                Ok(seq![a])
            } else if punct_at(c, k2, ',') {
                proof {
                    lemma_parse_arg_advances(c, k, answers);
                }
                match parse_args_from(c, k2 + 1, answers) {
                    Ok(rest) => Ok(seq![a] + rest),
                    Err(e) => Err(e),
                }
            } else {
                Err(MacroErrorV::ExpectedComma)
            },
        }
    }
}

/// An initializer found from `s` ends past `s`, and no further than the end.
pub proof fn lemma_expr_end_bounds(
    c: Seq<TokV>,
    s: int,
    e: int,
    depth: int,
    answers: spec_fn(int, int) -> bool,
)
    requires
        s <= e,
    ensures
        expr_end(c, s, e, depth, answers) matches Some(x) ==> s < x <= c.len(),
    decreases c.len() - e,
{
    if e < c.len() && !(depth == 0 && punct_at(c, e, ',') && expr_span(c, s, e, answers)) {
        lemma_expr_end_bounds(c, s, e + 1, depth + depth_delta(c[e]), answers);
    }
}

/// The end of an initializer starting at `s` depends only on what `syn`
/// said of the runs starting at `s`.
pub proof fn lemma_expr_end_frame(
    c: Seq<TokV>,
    s: int,
    e: int,
    depth: int,
    a1: spec_fn(int, int) -> bool,
    a2: spec_fn(int, int) -> bool,
)
    requires
        forall|x: int| #[trigger] a1(s, x) == a2(s, x),
    ensures
        expr_end(c, s, e, depth, a1) == expr_end(c, s, e, depth, a2),
    decreases c.len() - e,
{
    if e < c.len() {
        lemma_expr_end_frame(c, s, e + 1, depth + depth_delta(c[e]), a1, a2);
    }
}

/// Whether some run starting at `s` was accepted depends only on what `syn`
/// said of the runs starting at `s`.
pub proof fn lemma_accepted_prefix_frame(
    c: Seq<TokV>,
    s: int,
    e: int,
    depth: int,
    a1: spec_fn(int, int) -> bool,
    a2: spec_fn(int, int) -> bool,
)
    requires
        forall|x: int| #[trigger] a1(s, x) == a2(s, x),
    ensures
        accepted_prefix(c, s, e, depth, a1) == accepted_prefix(c, s, e, depth, a2),
    decreases c.len() - e,
{
    if e < c.len() {
        lemma_accepted_prefix_frame(c, s, e + 1, depth + depth_delta(c[e]), a1, a2);
    }
}

/// A capture's parse depends only on what `syn` said of the runs starting
/// where its initializer starts, and on nothing when it has none.
pub proof fn lemma_parse_arg_frame(
    c: Seq<TokV>,
    k: int,
    a1: spec_fn(int, int) -> bool,
    a2: spec_fn(int, int) -> bool,
)
    requires
        has_initializer(c, k) ==> forall|x: int| #[trigger] a1(arg_name_pos(c, k) + 2, x) == a2(arg_name_pos(c, k) + 2, x),
    ensures
        parse_arg(c, k, a1) == parse_arg(c, k, a2),
{
    if has_initializer(c, k) {
        let j = arg_name_pos(c, k);
        lemma_expr_end_frame(c, j + 2, j + 2, 0, a1, a2);
        lemma_accepted_prefix_frame(c, j + 2, j + 2, 0, a1, a2);
    }
}

/// A capture list with no `=` in it holds no initializer, and its parse
/// does not depend on `syn` at all.
pub proof fn lemma_args_without_equals(
    c: Seq<TokV>,
    k: int,
    a1: spec_fn(int, int) -> bool,
    a2: spec_fn(int, int) -> bool,
)
    requires
        forall|i: int| !#[trigger] punct_at(c, i, '='),
    ensures
        parse_args_from(c, k, a1) == parse_args_from(c, k, a2),
    decreases c.len() - k,
{
    if 0 <= k < c.len() {
        assert(!punct_at(c, arg_name_pos(c, k) + 1, '='));
        lemma_parse_arg_frame(c, k, a1, a2);
        lemma_parse_arg_advances(c, k, a1);
        if let Ok((_, k2)) = parse_arg(c, k, a1) {
            if k2 < c.len() {
                lemma_args_without_equals(c, k2 + 1, a1, a2);
            }
        }
    }
}

/// A capture parsed at `k` ends past `k`.
pub proof fn lemma_parse_arg_advances(c: Seq<TokV>, k: int, answers: spec_fn(int, int) -> bool)
    requires
        0 <= k,
    ensures
        parse_arg(c, k, answers) matches Ok((_, k2)) ==> k < k2 <= c.len(),
        has_initializer(c, k) ==> (parse_arg(c, k, answers) matches Ok((_, k2)) ==> arg_name_pos(c, k) + 2 < k2),
{
    let j = arg_name_pos(c, k);
    lemma_expr_end_bounds(c, j + 2, j + 2, 0, answers);
}

/// The action part after `@`, starting at `i`; with the position after it.
pub open spec fn parse_action(t: Seq<TokV>, i: int) -> Result<(ActionV, int), MacroErrorV> {
    if word_at(t, i, "stmt"@) {
        if !punct_at(t, i + 1, ';') {
            Err(MacroErrorV::ExpectedSemicolon)
        } else {
            let m = word_at(t, i + 2, "mut"@);
            let j = if m {
                i + 3
            } else {
                i + 2
            };
            let mo = if m {
                ident_origin(t, i + 2)
            } else {
                None
            };
            if plain_ident_at(t, j) && fat_arrow_at(t, j + 1) {
                Ok(
                    (
                        ActionV::Stmt {
                            mut_token: m,
                            guard: Some(ident_text(t, j)),
                            mut_origin: mo,
                            guard_origin: ident_origin(t, j),
                        },
                        j + 3,
                    ),
                )
            } else {
                Ok((ActionV::Stmt { mut_token: m, guard: None, mut_origin: mo, guard_origin: None }, j))
            }
        }
    } else if word_at(t, i, "expr"@) {
        if !punct_at(t, i + 1, ';') {
            Err(MacroErrorV::ExpectedSemicolon)
        } else {
            Ok((ActionV::Expr, i + 2))
        }
    } else {
        Err(MacroErrorV::ExpectedAction)
    }
}

/// The optional `export(..)` at `i`: the mode, whether its group holds more
/// than the mode, and the position after it.
pub open spec fn parse_export(t: Seq<TokV>, i: int, action: ActionV) -> Result<
    (Export, bool, int),
    MacroErrorV,
> {
    if !word_at(t, i, "export"@) {
        Ok((Export::Default, false, i))
    } else if !open_at(t, i + 1, Delim::Paren) {
        Err(MacroErrorV::ExpectedParens)
    } else {
        let c = group_close(t, i + 1);
        let content = t.subrange(i + 2, c);
        if word_at(content, 0, "all"@) || word_at(content, 0, "wrapped"@) {
            let mode = if word_at(content, 0, "all"@) {
                Export::All
            } else {
                Export::Wrapped
            };
            if action is Expr && mode != Export::Wrapped {
                Err(MacroErrorV::ExportOutsideWrapped)
            } else {
                Ok((mode, content.len() > 1, after(t, c)))
            }
        } else {
            Err(MacroErrorV::ExpectedExportMode)
        }
    }
}

/// The optional bracketed capture list at `i`, with the position after it.
pub open spec fn parse_captures(t: Seq<TokV>, i: int, answers: spec_fn(int, int) -> bool) -> Result<
    (Seq<ArgV>, int),
    MacroErrorV,
> {
    if !open_at(t, i, Delim::Bracket) {
        Ok((Seq::empty(), i))
    } else {
        let c = group_close(t, i);
        match parse_args_from(t.subrange(i + 1, c), 0, answers) {
            Ok(a) => Ok((a, after(t, c))),
            Err(e) => Err(e),
        }
    }
}

/// A whole invocation.  Errors come in the order in which they are met,
/// except that surplus tokens in the export group are reported only when
/// nothing else is wrong.
pub open spec fn parse_input(t: Seq<TokV>, answers: spec_fn(int, int) -> bool) -> Result<
    MacroInputV,
    MacroErrorV,
> {
    if !punct_at(t, 0, '@') {
        Err(MacroErrorV::ExpectedAt)
    } else {
        match parse_action(t, 1) {
            Err(e) => Err(e),
            Ok((action, i)) => {
                let sync = word_at(t, i, "sync"@);
                let i1 = if sync {
                    i + 1
                } else {
                    i
                };
                let mv = word_at(t, i1, "move"@);
                let i2 = if mv {
                    i1 + 1
                } else {
                    i1
                };
                match parse_export(t, i2, action) {
                    Err(e) => Err(e),
                    Ok((export, surplus, i3)) => match parse_captures(t, i3, answers) {
                        Err(e) => Err(e),
                        Ok((args, i4)) => if surplus {
                            Err(MacroErrorV::UnexpectedToken)
                        } else {
                            Ok(
                                MacroInputV {
                                    action,
                                    sync_token: sync,
                                    move_token: mv,
                                    move_origin: if mv {
                                        ident_origin(t, i1)
                                    } else {
                                        None
                                    },
                                    export,
                                    args,
                                    body: t.subrange(i4, t.len() as int),
                                },
                            )
                        },
                    },
                }
            },
        }
    }
}


/// In expression mode the only export mode that may be written is
/// `wrapped`: a parsed expression-mode invocation never exports by
/// reference.
pub proof fn law_expression_mode_exports_wrapped_only(t: Seq<TokV>, answers: spec_fn(int, int) -> bool)
    ensures
        parse_input(t, answers) matches Ok(m) ==> (m.action is Expr ==> m.export != Export::All),
{
}

/// The position after the optional `sync` and `move` that follow the action
/// ending at `i`.
pub open spec fn after_options(t: Seq<TokV>, i: int) -> int {
    let i1 = if word_at(t, i, "sync"@) {
        i + 1
    } else {
        i
    };
    if word_at(t, i1, "move"@) {
        i1 + 1
    } else {
        i1
    }
}

/// An expression-mode invocation that writes `export(all)` is refused.
pub proof fn law_expression_mode_refuses_export_all(
    t: Seq<TokV>,
    i: int,
    answers: spec_fn(int, int) -> bool,
)
    requires
        punct_at(t, 0, '@'),
        parse_action(t, 1) == Ok::<(ActionV, int), MacroErrorV>((ActionV::Expr, i)),
        word_at(t, after_options(t, i), "export"@),
        open_at(t, after_options(t, i) + 1, Delim::Paren),
        word_at(
            t.subrange(after_options(t, i) + 2, group_close(t, after_options(t, i) + 1)),
            0,
            "all"@,
        ),
    ensures
        parse_input(t, answers) == Err::<MacroInputV, MacroErrorV>(MacroErrorV::ExportOutsideWrapped),
{
}

/// `sync` and `move` are read after the action (and the guard name) in
/// both actions: a parsed invocation is synchronous exactly when the word
/// `sync` stands there, and moves its captures exactly when `move` follows.
pub proof fn law_options_read_in_both_actions(
    t: Seq<TokV>,
    answers: spec_fn(int, int) -> bool,
    action: ActionV,
    i: int,
)
    requires
        punct_at(t, 0, '@'),
        parse_action(t, 1) == Ok::<(ActionV, int), MacroErrorV>((action, i)),
        parse_input(t, answers) is Ok,
    ensures
        parse_input(t, answers)->Ok_0.action == action,
        parse_input(t, answers)->Ok_0.sync_token == word_at(t, i, "sync"@),
        parse_input(t, answers)->Ok_0.move_token == word_at(
            t,
            if word_at(t, i, "sync"@) {
                i + 1
            } else {
                i
            },
            "move"@,
        ),
{
}

/// The capture list that `parse_input` reads: the contents of the bracket
/// group after the options, or nothing.
pub open spec fn captures_at(t: Seq<TokV>) -> Seq<TokV> {
    if !punct_at(t, 0, '@') {
        Seq::empty()
    } else {
        match parse_action(t, 1) {
            Err(_) => Seq::empty(),
            Ok((action, i)) => match parse_export(t, after_options(t, i), action) {
                Err(_) => Seq::empty(),
                Ok((_, _, i3)) => if open_at(t, i3, Delim::Bracket) {
                    t.subrange(i3 + 1, group_close(t, i3))
                } else {
                    Seq::empty()
                },
            },
        }
    }
}

/// An invocation whose capture list holds no `=`, so no initializer, is
/// parsed without asking `syn` anything: its parse is the same whatever
/// `syn` would answer.
pub proof fn law_input_without_initializers_ignores_syn(
    t: Seq<TokV>,
    a1: spec_fn(int, int) -> bool,
    a2: spec_fn(int, int) -> bool,
)
    requires
        forall|i: int| !#[trigger] punct_at(captures_at(t), i, '='),
    ensures
        parse_input(t, a1) == parse_input(t, a2),
{
    lemma_args_without_equals(captures_at(t), 0, a1, a2);
}

// ---------------------------------------------------------------------------
// The parser.
// ---------------------------------------------------------------------------

fn word_at_x(t: &Vec<Tok>, i: usize, w: &str) -> (b: bool)
    ensures
        b == word_at(toks_view(t@), i as int, w@),
{
    if i < t.len() {
        match &t[i].kind {
            TokKind::Ident(s) => word_is(s, w),
            _ => false,
        }
    } else {
        false
    }
}

fn punct_at_x(t: &Vec<Tok>, i: usize, c: char) -> (b: bool)
    ensures
        b == punct_at(toks_view(t@), i as int, c),
{
    if i < t.len() {
        match &t[i].kind {
            TokKind::Punct(ch, _) => *ch == c,
            _ => false,
        }
    } else {
        false
    }
}

fn plain_ident_at_x(t: &Vec<Tok>, i: usize) -> (b: bool)
    ensures
        b == plain_ident_at(toks_view(t@), i as int),
{
    if i < t.len() {
        match &t[i].kind {
            TokKind::Ident(s) => is_plain_ident_name(s),
            _ => false,
        }
    } else {
        false
    }
}

fn fat_arrow_at_x(t: &Vec<Tok>, i: usize) -> (b: bool)
    ensures
        b == fat_arrow_at(toks_view(t@), i as int),
{
    if i < t.len() && i + 1 < t.len() {
        let first = match &t[i].kind {
            TokKind::Punct(c, Spacing::Joint) => *c == '=',
            _ => false,
        };
        first && punct_at_x(t, i + 1, '>')
    } else {
        false
    }
}

fn open_at_x(t: &Vec<Tok>, i: usize, d: Delim) -> (b: bool)
    ensures
        b == open_at(toks_view(t@), i as int, d),
{
    if i < t.len() {
        match &t[i].kind {
            TokKind::Open(d2) => *d2 == d,
            _ => false,
        }
    } else {
        false
    }
}

fn origin_at(t: &Vec<Tok>, i: usize) -> (r: Option<usize>)
    requires
        i < t.len(),
    ensures
        r == ident_origin(toks_view(t@), i as int),
{
    match &t[i].kind {
        TokKind::Ident(_) => t[i].origin,
        _ => None,
    }
}

fn ident_string(t: &Vec<Tok>, i: usize) -> (r: String)
    requires
        plain_ident_at(toks_view(t@), i as int),
    ensures
        r@ == ident_text(toks_view(t@), i as int),
{
    match &t[i].kind {
        TokKind::Ident(s) => s.clone(),
        _ => String::new(),
    }
}

/// The index of the marker that closes the group opened at `i`, or the
/// length if the group is never closed.
pub fn find_group_close(t: &Vec<Tok>, i: usize) -> (r: usize)
    requires
        i < t.len(),
    ensures
        r as int == group_close(toks_view(t@), i as int),
        i < r <= t.len(),
{
    let ghost tv = toks_view(t@);
    let mut j = i + 1;
    let mut depth: usize = 1;
    while j < t.len()
        invariant
            i < t.len(),
            i + 1 <= j <= t.len(),
            1 <= depth <= j - i,
            tv == toks_view(t@),
            scan_close(tv, j as int, depth as nat) == scan_close(tv, i + 1, 1),
        decreases t.len() - j,
    {
        match &t[j].kind {
            TokKind::Open(_) => {
                depth = depth + 1;
            },
            TokKind::Close(_) => {
                if depth <= 1 {
                    return j;
                }
                depth = depth - 1;
            },
            _ => {},
        }
        j = j + 1;
    }
    j
}

fn delta(t: &Tok) -> (d: i128)
    ensures
        d as int == depth_delta(t@),
{
    match &t.kind {
        TokKind::Open(_) => 1,
        TokKind::Close(_) => -1,
        _ => 0,
    }
}

/// Hands `syn` the rendered text of `c[s..e]` and returns its answer.
fn syn_accepts_span(c: &Vec<Tok>, s: usize, e: usize) -> bool
    requires
        s <= e <= c.len(),
{
    let text = render_range(c, s, e);
    parses_as_expr(text.as_str())
}

/// The answers recorded by end position: `accepted[e]` is what `syn` said of
/// the run ending at `e`.
pub open spec fn answers_by_end(accepted: Seq<bool>) -> spec_fn(int, int) -> bool {
    |x: int, e: int| 0 <= e < accepted.len() && accepted[e]
}

pub open spec fn opt_pos(r: Option<usize>) -> Option<int> {
    match r {
        Some(e) => Some(e as int),
        None => None,
    }
}

/// The end of the initializer starting at `s`, given what `syn` said of each
/// run `c[s..e]` (`accepted[e]`): the first comma outside every group, or the
/// end, before which `syn` accepted the tokens.
pub fn find_expr_end_given(c: &Vec<Tok>, s: usize, accepted: &Vec<bool>) -> (r: Option<usize>)
    requires
        s <= c.len(),
        accepted.len() == c.len() + 1,
    ensures
        opt_pos(r) == expr_end(toks_view(c@), s as int, s as int, 0, answers_by_end(accepted@)),
{
    let ghost cv = toks_view(c@);
    let ghost an = answers_by_end(accepted@);
    let mut e = s;
    let mut depth: i128 = 0;
    while e < c.len()
        invariant
            s <= e <= c.len(),
            accepted.len() == c.len() + 1,
            -(e as int) <= depth <= e as int,
            cv == toks_view(c@),
            an == answers_by_end(accepted@),
            expr_end(cv, s as int, e as int, depth as int, an) == expr_end(cv, s as int, s as int, 0, an),
        decreases c.len() - e,
    {
        if depth == 0 && punct_at_x(c, e, ',') && s < e && accepted[e] {
            return Some(e);
        }
        depth = depth + delta(&c[e]);
        e = e + 1;
    }
    if s < c.len() && accepted[c.len()] {
        Some(c.len())
    } else {
        None
    }
}

/// Whether `syn` was asked only about runs `c[s..e]` that end outside every
/// group, after `s`: every other answer in `accepted` is `false`.
pub open spec fn asked_at_top_level(c: Seq<TokV>, s: int, accepted: Seq<bool>) -> bool {
    &&& accepted.len() == c.len() + 1
    &&& forall|e: int| 0 <= e < accepted.len() && #[trigger] accepted[e] ==> s < e && depth_between(c, s, e) == 0
}

/// What `syn` says of each run `c[s..e]`: it is handed the rendered text of
/// every run that ends outside every group (before a token or at the end)
/// and is not empty; the answer for every other end is `false`.
pub fn syn_answers(c: &Vec<Tok>, s: usize) -> (r: Vec<bool>)
    requires
        s <= c.len(),
    ensures
        asked_at_top_level(toks_view(c@), s as int, r@),
{
    let ghost cv = toks_view(c@);
    let mut accepted: Vec<bool> = Vec::new();
    let mut e: usize = 0;
    let mut depth: i128 = 0;
    while e < c.len()
        invariant
            e <= c.len(),
            s <= c.len(),
            cv == toks_view(c@),
            accepted.len() == e,
            -(e as int) <= depth <= e as int,
            depth == depth_between(cv, s as int, e as int),
            forall|i: int| 0 <= i < e && #[trigger] accepted@[i] ==> s < i && depth_between(cv, s as int, i) == 0,
        decreases c.len() - e,
    {
        let b = if s < e && depth == 0 {
            syn_accepts_span(c, s, e)
        } else {
            false
        };
        accepted.push(b);
        if s <= e {
            depth = depth + delta(&c[e]);
        }
        e = e + 1;
    }
    let last = if s < c.len() && depth == 0 {
        syn_accepts_span(c, s, c.len())
    } else {
        false
    };
    accepted.push(last);
    accepted
}

/// The end of the initializer starting at `s`: `find_expr_end_given` over
/// what `syn` answered (`syn_answers`).  Whatever it answered, the result is
/// the grammar's end for answers that hold only of runs ending outside every
/// group.
pub fn find_expr_end(c: &Vec<Tok>, s: usize) -> (r: Option<usize>)
    requires
        s <= c.len(),
    ensures
        exists|accepted: Seq<bool>|
            asked_at_top_level(toks_view(c@), s as int, accepted) && opt_pos(r) == #[trigger] expr_end(
                toks_view(c@),
                s as int,
                s as int,
                0,
                answers_by_end(accepted),
            ),
{
    let accepted = syn_answers(c, s);
    let r = find_expr_end_given(c, s, &accepted);
    assert(opt_pos(r) == expr_end(toks_view(c@), s as int, s as int, 0, answers_by_end(accepted@)));
    r
}

/// Whether, by the answers `accepted`, some run `c[s..e]` ending outside
/// every group before the end of `c` is an expression.
pub fn expr_prefix_accepted_given(c: &Vec<Tok>, s: usize, accepted: &Vec<bool>) -> (b: bool)
    requires
        s <= c.len(),
        accepted.len() == c.len() + 1,
    ensures
        b == accepted_prefix(toks_view(c@), s as int, s as int, 0, answers_by_end(accepted@)),
{
    let ghost cv = toks_view(c@);
    let ghost an = answers_by_end(accepted@);
    let mut e = s;
    let mut depth: i128 = 0;
    while e < c.len()
        invariant
            s <= e <= c.len(),
            accepted.len() == c.len() + 1,
            -(e as int) <= depth <= e as int,
            cv == toks_view(c@),
            an == answers_by_end(accepted@),
            accepted_prefix(cv, s as int, e as int, depth as int, an) == accepted_prefix(cv, s as int, s as int, 0, an),
        decreases c.len() - e,
    {
        if depth == 0 && s < e && accepted[e] {
            return true;
        }
        depth = depth + delta(&c[e]);
        e = e + 1;
    }
    false
}

pub open spec fn arg_result_view(r: Result<(Arg, usize), MacroError>) -> Result<(ArgV, int), MacroErrorV> {
    match r {
        Ok((a, k)) => Ok((a@, k as int)),
        Err(e) => Err(e@),
    }
}

impl Arg {
    /// Parses one capture, `[mut] name [= expr]`, starting at `k`.  A name
    /// that is not a plain identifier is refused before anything else, as a
    /// keyword used as a name or as no identifier at all; a capture without
    /// an initializer is parsed without asking `syn`; one with an initializer
    /// ends where `find_expr_end_given` says over `syn_answers`, and when it
    /// finds no end is refused with `ExpectedComma` if a shorter run was an
    /// expression and with `ExpectedExpr` otherwise.
    pub fn parse(c: &Vec<Tok>, k: usize) -> (r: Result<(Arg, usize), MacroError>)
        requires
            k <= c.len(),
        ensures
            exists|answers: spec_fn(int, int) -> bool|
                arg_result_view(r) == #[trigger] parse_arg(toks_view(c@), k as int, answers),
            !plain_ident_at(toks_view(c@), arg_name_pos(toks_view(c@), k as int)) ==> arg_result_view(r)
                == Err::<(ArgV, int), MacroErrorV>(
                name_error(toks_view(c@), arg_name_pos(toks_view(c@), k as int)),
            ),
            !has_initializer(toks_view(c@), k as int) ==> forall|answers: spec_fn(int, int) -> bool|
                arg_result_view(r) == #[trigger] parse_arg(toks_view(c@), k as int, answers),
            r matches Ok((_, k2)) ==> k < k2 <= c.len(),
    {
        let ghost cv = toks_view(c@);
        let m = word_at_x(c, k, "mut");
        let j = if m {
            k + 1
        } else {
            k
        };
        if !plain_ident_at_x(c, j) {
            let e = if j < c.len() {
                match &c[j].kind {
                    TokKind::Ident(w) => MacroError::KeywordAsIdent(w.clone()),
                    _ => MacroError::ExpectedIdent,
                }
            } else {
                MacroError::ExpectedIdent
            };
            let r = Err(e);
            assert(arg_result_view(r) == parse_arg(cv, k as int, no_answers()));
            return r;
        }
        let ident = ident_string(c, j);
        let ident_origin = origin_at(c, j);
        let mut_origin = if m {
            origin_at(c, k)
        } else {
            None
        };
        if punct_at_x(c, j + 1, '=') {
            let accepted = syn_answers(c, j + 2);
            let ghost an = answers_by_end(accepted@);
            match find_expr_end_given(c, j + 2, &accepted) {
                Some(e) => {
                    proof {
                        lemma_expr_end_bounds(cv, j + 2, j + 2, 0, an);
                    }
                    let mut init: Vec<Tok> = Vec::new();
                    push_range(&mut init, c, j + 2, e);
                    assert(toks_view(init@) =~= cv.subrange(j + 2, e as int));
                    let r = Ok(
                        (Arg { mut_token: m, mut_origin, ident, ident_origin, init: Some(init) }, e),
                    );
                    assert(arg_result_view(r) == parse_arg(cv, k as int, an));
                    r
                },
                None => {
                    let r = if expr_prefix_accepted_given(c, j + 2, &accepted) {
                        Err(MacroError::ExpectedComma)
                    } else {
                        Err(MacroError::ExpectedExpr)
                    };
                    assert(arg_result_view(r) == parse_arg(cv, k as int, an));
                    r
                },
            }
        } else {
            let r = Ok((Arg { mut_token: m, mut_origin, ident, ident_origin, init: None }, j + 1));
            assert(arg_result_view(r) == parse_arg(cv, k as int, no_answers()));
            r
        }
    }
}

/// `acc` followed by the captures of `r`, or the error of `r`.
pub open spec fn after_prefix(acc: Seq<ArgV>, r: Result<Seq<ArgV>, MacroErrorV>) -> Result<
    Seq<ArgV>,
    MacroErrorV,
> {
    match r {
        Ok(s) => Ok(acc + s),
        Err(e) => Err(e),
    }
}

pub open spec fn args_result_view(r: Result<Vec<Arg>, MacroError>) -> Result<Seq<ArgV>, MacroErrorV> {
    match r {
        Ok(v) => Ok(args_view(v@)),
        Err(e) => Err(e@),
    }
}

/// `a` and `b` say the same of every run starting before `k`.
pub open spec fn agree_below(a: spec_fn(int, int) -> bool, b: spec_fn(int, int) -> bool, k: int) -> bool {
    forall|x: int, e: int| x < k ==> #[trigger] a(x, e) == b(x, e)
}

/// `g` with the answers about runs starting at `row` taken from `a`.
pub open spec fn with_row(g: spec_fn(int, int) -> bool, row: int, a: spec_fn(int, int) -> bool) -> spec_fn(int, int) -> bool {
    |x: int, e: int| if x == row {
        a(x, e)
    } else {
        g(x, e)
    }
}

/// Parses the contents of the capture brackets, for some answers of `syn`.
fn parse_args_answered(c: &Vec<Tok>) -> (r: Result<Vec<Arg>, MacroError>)
    ensures
        exists|answers: spec_fn(int, int) -> bool|
            args_result_view(r) == #[trigger] parse_args_from(toks_view(c@), 0, answers),
{
    let ghost cv = toks_view(c@);
    let ghost mut g: spec_fn(int, int) -> bool = no_answers();
    let mut acc: Vec<Arg> = Vec::new();
    let mut k: usize = 0;
    assert forall|a: spec_fn(int, int) -> bool| agree_below(a, g, 0) implies #[trigger] after_prefix(
        args_view(acc@),
        parse_args_from(cv, 0, a),
    ) == parse_args_from(cv, 0, a) by {
        match parse_args_from(cv, 0, a) {
            Ok(s) => {
                assert(args_view(acc@) + s =~= s);
            },
            Err(_) => {},
        }
    }
    while k < c.len()
        invariant
            k <= c.len(),
            cv == toks_view(c@),
            forall|a: spec_fn(int, int) -> bool| agree_below(a, g, k as int) ==> #[trigger] after_prefix(
                args_view(acc@),
                parse_args_from(cv, k as int, a),
            ) == parse_args_from(cv, 0, a),
        decreases c.len() - k,
    {
        let ghost before = args_view(acc@);
        let res = Arg::parse(c, k);
        let ghost a1 = choose|a: spec_fn(int, int) -> bool| arg_result_view(res) == #[trigger] parse_arg(cv, k as int, a);
        let ghost row = arg_name_pos(cv, k as int) + 2;
        let ghost g2 = with_row(g, row, a1);
        proof {
            lemma_parse_arg_frame(cv, k as int, g2, a1);
            assert(agree_below(g2, g, k as int));
            assert(after_prefix(before, parse_args_from(cv, k as int, g2)) == parse_args_from(cv, 0, g2));
        }
        match res {
            Err(e) => {
                return Err(e);
            },
            Ok((a, k2)) => {
                let ghost av = a@;
                acc.push(a);
                assert(args_view(acc@) =~= before.push(av));
                if k2 >= c.len() {
                    assert(before + seq![av] =~= before.push(av));
                    return Ok(acc);
                } else if punct_at_x(c, k2, ',') {
                    proof {
                        lemma_parse_arg_advances(cv, k as int, g2);
                        assert forall|a: spec_fn(int, int) -> bool| agree_below(a, g2, k2 + 1) implies #[trigger] after_prefix(
                            args_view(acc@),
                            parse_args_from(cv, k2 + 1, a),
                        ) == parse_args_from(cv, 0, a) by {
                            assert(agree_below(a, g, k as int)) by {
                                assert forall|x: int, e: int| x < k implies #[trigger] a(x, e) == g(x, e) by {
                                    assert(a(x, e) == g2(x, e));
                                }
                            }
                            if has_initializer(cv, k as int) {
                                assert forall|x: int| #[trigger] a(row, x) == g2(row, x) by {}
                            }
                            lemma_parse_arg_frame(cv, k as int, a, g2);
                            assert(after_prefix(before, parse_args_from(cv, k as int, a)) == parse_args_from(cv, 0, a));
                            match parse_args_from(cv, k2 + 1, a) {
                                Ok(s) => {
                                    assert(before + (seq![av] + s) =~= before.push(av) + s);
                                },
                                Err(_) => {},
                            }
                        }
                        g = g2;
                    }
                    k = k2 + 1;
                } else {
                    return Err(MacroError::ExpectedComma);
                }
            },
        }
    }
    proof {
        assert(agree_below(g, g, k as int));
        assert(after_prefix(args_view(acc@), parse_args_from(cv, k as int, g)) == parse_args_from(cv, 0, g));
        assert(args_view(acc@) + Seq::<ArgV>::empty() =~= args_view(acc@));
    }
    Ok(acc)
}

/// Parses the contents of the capture brackets.  Whatever `syn` answered
/// about the initializers, the result is the grammar's for some answers;
/// without a `=` in the list, it is the grammar's for every answer.
pub fn parse_args(c: &Vec<Tok>) -> (r: Result<Vec<Arg>, MacroError>)
    ensures
        exists|answers: spec_fn(int, int) -> bool|
            args_result_view(r) == #[trigger] parse_args_from(toks_view(c@), 0, answers),
        (forall|i: int| !#[trigger] punct_at(toks_view(c@), i, '=')) ==> forall|
            answers: spec_fn(int, int) -> bool,
        | args_result_view(r) == #[trigger] parse_args_from(toks_view(c@), 0, answers),
{
    let ghost cv = toks_view(c@);
    let r = parse_args_answered(c);
    proof {
        if forall|i: int| !#[trigger] punct_at(cv, i, '=') {
            let w = choose|answers: spec_fn(int, int) -> bool|
                args_result_view(r) == #[trigger] parse_args_from(cv, 0, answers);
            assert forall|answers: spec_fn(int, int) -> bool| args_result_view(r) == #[trigger] parse_args_from(cv, 0, answers) by {
                lemma_args_without_equals(cv, 0, answers, w);
            }
        }
    }
    r
}

pub open spec fn action_result_view(r: Result<(Action, usize), MacroError>) -> Result<(ActionV, int), MacroErrorV> {
    match r {
        Ok((a, i)) => Ok((a@, i as int)),
        Err(e) => Err(e@),
    }
}

impl Action {
    /// Parses `stmt; [mut] [name =>]` or `expr;` starting at `i`.
    pub fn parse(t: &Vec<Tok>, i: usize) -> (r: Result<(Action, usize), MacroError>)
        requires
            i <= t.len(),
        ensures
            action_result_view(r) == parse_action(toks_view(t@), i as int),
            r matches Ok((_, j)) ==> i < j <= t.len(),
    {
        if word_at_x(t, i, "stmt") {
            if !punct_at_x(t, i + 1, ';') {
                return Err(MacroError::ExpectedSemicolon);
            }
            let m = word_at_x(t, i + 2, "mut");
            let j = if m {
                i + 3
            } else {
                i + 2
            };
            let mut_origin = if m {
                origin_at(t, i + 2)
            } else {
                None
            };
            if plain_ident_at_x(t, j) && fat_arrow_at_x(t, j + 1) {
                let name = ident_string(t, j);
                let guard_origin = origin_at(t, j);
                Ok(
                    (
                        Action::Stmt { mut_token: m, guard: Some(name), mut_origin, guard_origin },
                        j + 3,
                    ),
                )
            } else {
                Ok((Action::Stmt { mut_token: m, guard: None, mut_origin, guard_origin: None }, j))
            }
        } else if word_at_x(t, i, "expr") {
            if !punct_at_x(t, i + 1, ';') {
                return Err(MacroError::ExpectedSemicolon);
            }
            Ok((Action::Expr, i + 2))
        } else {
            Err(MacroError::ExpectedAction)
        }
    }
}

impl Export {
    /// Parses the contents of an `export(..)` group: its first token must be
    /// `all` or `wrapped`.
    pub fn parse(content: &Vec<Tok>) -> (r: Result<Export, MacroError>)
        ensures
            r == (if word_at(toks_view(content@), 0, "all"@) {
                Ok(Export::All)
            } else if word_at(toks_view(content@), 0, "wrapped"@) {
                Ok(Export::Wrapped)
            } else {
                Err(MacroError::ExpectedExportMode)
            }),
    {
        if word_at_x(content, 0, "all") {
            Ok(Export::All)
        } else if word_at_x(content, 0, "wrapped") {
            Ok(Export::Wrapped)
        } else {
            Err(MacroError::ExpectedExportMode)
        }
    }
}

/// Copies `t[from..to]` into a new vector.
fn copy_range(t: &Vec<Tok>, from: usize, to: usize) -> (r: Vec<Tok>)
    requires
        from <= to <= t.len(),
    ensures
        toks_view(r@) == toks_view(t@).subrange(from as int, to as int),
{
    let mut r: Vec<Tok> = Vec::new();
    push_range(&mut r, t, from, to);
    assert(toks_view(r@) =~= toks_view(t@).subrange(from as int, to as int));
    r
}

fn parse_export_at(t: &Vec<Tok>, i: usize, expr_mode: bool) -> (r: Result<(Export, bool, usize), MacroError>)
    requires
        i <= t.len(),
    ensures
        match r {
            Ok((m, surplus, j)) => {
                &&& i <= j <= t.len()
                &&& forall|a: ActionV| (a is Expr == expr_mode) ==> parse_export(toks_view(t@), i as int, a) == Ok::<(Export, bool, int), MacroErrorV>((m, surplus, j as int))
            },
            Err(e) => forall|a: ActionV| (a is Expr == expr_mode) ==> parse_export(toks_view(t@), i as int, a) == Err::<(Export, bool, int), MacroErrorV>(e@),
        },
{
    if !word_at_x(t, i, "export") {
        return Ok((Export::Default, false, i));
    }
    if !open_at_x(t, i + 1, Delim::Paren) {
        return Err(MacroError::ExpectedParens);
    }
    let c = find_group_close(t, i + 1);
    let content = copy_range(t, i + 2, c);
    let mode = Export::parse(&content)?;
    if expr_mode && mode != Export::Wrapped {
        return Err(MacroError::ExportOutsideWrapped);
    }
    let next = if c < t.len() {
        c + 1
    } else {
        t.len()
    };
    Ok((mode, content.len() > 1, next))
}

fn parse_captures_at(t: &Vec<Tok>, i: usize) -> (r: Result<(Vec<Arg>, usize), MacroError>)
    requires
        i <= t.len(),
    ensures
        r matches Ok((_, j)) ==> i <= j <= t.len(),
        exists|answers: spec_fn(int, int) -> bool| #[trigger] parse_captures(toks_view(t@), i as int, answers) == match r {
            Ok((a, j)) => Ok::<(Seq<ArgV>, int), MacroErrorV>((args_view(a@), j as int)),
            Err(e) => Err::<(Seq<ArgV>, int), MacroErrorV>(e@),
        },
{
    let ghost tv = toks_view(t@);
    if !open_at_x(t, i, Delim::Bracket) {
        let v: Vec<Arg> = Vec::new();
        assert(args_view(v@) =~= Seq::<ArgV>::empty());
        assert(parse_captures(tv, i as int, no_answers()) == Ok::<(Seq<ArgV>, int), MacroErrorV>((args_view(v@), i as int)));
        return Ok((v, i));
    }
    let c = find_group_close(t, i);
    let content = copy_range(t, i + 1, c);
    let res = parse_args(&content);
    let ghost an = choose|an: spec_fn(int, int) -> bool|
        args_result_view(res) == #[trigger] parse_args_from(toks_view(content@), 0, an);
    let next = if c < t.len() {
        c + 1
    } else {
        t.len()
    };
    match res {
        Ok(args) => {
            let r = Ok((args, next));
            assert(parse_captures(tv, i as int, an) == Ok::<(Seq<ArgV>, int), MacroErrorV>((args_view(args@), next as int)));
            r
        },
        Err(e) => {
            assert(parse_captures(tv, i as int, an) == Err::<(Seq<ArgV>, int), MacroErrorV>(e@));
            Err(e)
        },
    }
}

pub open spec fn input_result_view(r: Result<MacroInput, MacroError>) -> Result<MacroInputV, MacroErrorV> {
    match r {
        Ok(m) => Ok(m@),
        Err(e) => Err(e@),
    }
}

impl MacroInput {
    /// Parses a whole invocation.  Whatever `syn` answered about the
    /// initializers, the result is the grammar's for some answers; the errors
    /// met before the capture list do not depend on `syn` at all.
    pub fn parse(t: &Vec<Tok>) -> (r: Result<MacroInput, MacroError>)
        ensures
            exists|answers: spec_fn(int, int) -> bool|
                input_result_view(r) == #[trigger] parse_input(toks_view(t@), answers),
            (forall|i: int| !#[trigger] punct_at(captures_at(toks_view(t@)), i, '=')) ==> forall|
                answers: spec_fn(int, int) -> bool,
            | input_result_view(r) == #[trigger] parse_input(toks_view(t@), answers),
    {
        let ghost tv = toks_view(t@);
        let r = MacroInput::parse_answered(t);
        proof {
            if forall|i: int| !#[trigger] punct_at(captures_at(tv), i, '=') {
                let w = choose|answers: spec_fn(int, int) -> bool|
                    input_result_view(r) == #[trigger] parse_input(tv, answers);
                assert forall|answers: spec_fn(int, int) -> bool| input_result_view(r) == #[trigger] parse_input(tv, answers) by {
                    law_input_without_initializers_ignores_syn(tv, answers, w);
                }
            }
        }
        r
    }

    fn parse_answered(t: &Vec<Tok>) -> (r: Result<MacroInput, MacroError>)
        ensures
            exists|answers: spec_fn(int, int) -> bool|
                input_result_view(r) == #[trigger] parse_input(toks_view(t@), answers),
    {
        let ghost tv = toks_view(t@);
        let ghost none = no_answers();
        if !punct_at_x(t, 0, '@') {
            assert(parse_input(tv, none) == Err::<MacroInputV, MacroErrorV>(MacroErrorV::ExpectedAt));
            return Err(MacroError::ExpectedAt);
        }
        let (action, i) = match Action::parse(t, 1) {
            Ok(p) => p,
            Err(e) => {
                assert(parse_input(tv, none) == Err::<MacroInputV, MacroErrorV>(e@));
                return Err(e);
            },
        };
        let expr_mode = match action {
            Action::Expr => true,
            _ => false,
        };
        let sync_token = word_at_x(t, i, "sync");
        let i1 = if sync_token {
            i + 1
        } else {
            i
        };
        let move_token = word_at_x(t, i1, "move");
        let move_origin = if move_token {
            origin_at(t, i1)
        } else {
            None
        };
        let i2 = if move_token {
            i1 + 1
        } else {
            i1
        };
        let (export, surplus, i3) = match parse_export_at(t, i2, expr_mode) {
            Ok(p) => p,
            Err(e) => {
                assert(parse_input(tv, none) == Err::<MacroInputV, MacroErrorV>(e@));
                return Err(e);
            },
        };
        let res = parse_captures_at(t, i3);
        let ghost an = choose|an: spec_fn(int, int) -> bool| #[trigger] parse_captures(tv, i3 as int, an) == match res {
            Ok((a, j)) => Ok::<(Seq<ArgV>, int), MacroErrorV>((args_view(a@), j as int)),
            Err(e) => Err::<(Seq<ArgV>, int), MacroErrorV>(e@),
        };
        let (args, i4) = match res {
            Ok(p) => p,
            Err(e) => {
                assert(parse_input(tv, an) == Err::<MacroInputV, MacroErrorV>(e@));
                return Err(e);
            },
        };
        if surplus {
            assert(parse_input(tv, an) == Err::<MacroInputV, MacroErrorV>(MacroErrorV::UnexpectedToken));
            return Err(MacroError::UnexpectedToken);
        }
        let body = copy_range(t, i4, t.len());
        let r = Ok(MacroInput { action, sync_token, move_token, move_origin, export, args, body });
        assert(input_result_view(r) == parse_input(tv, an));
        r
    }
}

} // verus!
