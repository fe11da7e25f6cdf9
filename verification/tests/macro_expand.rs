use guarden::expand::proc;
use guarden::syntax::{Export, MacroError, MacroInput};
use guarden::token::{render_range, Delim, Spacing, Tok, TokKind};
use proc_macro2::{Delimiter, TokenStream, TokenTree};

fn flatten(ts: TokenStream, out: &mut Vec<Tok>) {
    for tt in ts {
        let origin = Some(out.len());
        let mut push = |kind| out.push(Tok { kind, origin });
        match tt {
            TokenTree::Ident(i) => push(TokKind::Ident(i.to_string())),
            TokenTree::Literal(l) => push(TokKind::Literal(l.to_string())),
            TokenTree::Punct(p) => {
                let sp = match p.spacing() {
                    proc_macro2::Spacing::Joint => Spacing::Joint,
                    proc_macro2::Spacing::Alone => Spacing::Alone,
                };
                push(TokKind::Punct(p.as_char(), sp));
            }
            TokenTree::Group(g) => {
                let d = match g.delimiter() {
                    Delimiter::Parenthesis => Delim::Paren,
                    Delimiter::Bracket => Delim::Bracket,
                    Delimiter::Brace => Delim::Brace,
                    Delimiter::None => Delim::Invisible,
                };
                push(TokKind::Open(d));
                flatten(g.stream(), out);
                let origin = Some(out.len());
                out.push(Tok { kind: TokKind::Close(d), origin });
            }
        }
    }
}

fn toks(src: &str) -> Vec<Tok> {
    let ts: TokenStream = src.parse().unwrap();
    let mut out = Vec::new();
    flatten(ts, &mut out);
    out
}

fn text(v: &Vec<Tok>) -> String {
    render_range(v, 0, v.len())
}

fn expand_text(src: &str) -> Result<String, MacroError> {
    proc(&toks(src)).map(|v| text(&v))
}

const NEW: &str = "guarden :: guard :: ContextGuard :: < false , _ , _ , _ > :: new ";
const NEW_SYNC: &str = "guarden :: guard :: ContextGuard :: < true , false , _ , _ > :: new ";
const CLOSURE_LINTS: &str = "# [ allow ( unused_parens , unused_mut ) ] ";
const EXPORT_LINTS: &str =
    "# [ allow ( unused_parens , unused_variables , clippy :: toplevel_ref_arg ) ] ";
const CTX_HEAD: &str =
    "# [ derive ( Debug ) ] # [ allow ( non_snake_case , non_camel_case_types ) ] struct __gCtx < ";
const FIELD_LINTS: &str = "# [ allow ( non_shorthand_field_patterns ) ] ";

#[test]
fn expression_without_captures() {
    let expected = format!("{NEW}( ( ) , | {CLOSURE_LINTS}( ) | {{ {{ 42 }} }} ) ");
    assert_eq!(expand_text("@expr; { 42 }").unwrap(), expected);
}

#[test]
fn scope_exit_cleanup_statement() {
    let got = expand_text(r#"@stmt; [events = &mut events] { events.push("scope exited"); }"#)
        .unwrap();
    let expected = format!(
        "let __guard = {NEW}( ( & mut events ) , | {CLOSURE_LINTS}( events ) | \
         {{ {{ events . push ( \"scope exited\" ) ; }} }} ) ; {EXPORT_LINTS}let ( _ ) = * __guard ; "
    );
    assert_eq!(got, expected);
}

#[test]
fn wrapped_expression_with_mutable_capture() {
    let got = expand_text(
        r#"@expr; export(wrapped) [mut message = String::from("Hello")] { message.push(','); }"#,
    )
    .unwrap();
    let expected = format!(
        "{{ {CTX_HEAD}__gCtxFieldType0 > {{ message : __gCtxFieldType0 }} {FIELD_LINTS}{NEW}\
         ( __gCtx {{ message : String :: from ( \"Hello\" ) }} , | __gCtx {{ message : mut message }} | \
         {{ {{ message . push ( ',' ) ; }} }} ) }} "
    );
    assert_eq!(got, expected);
}

#[test]
fn wrapped_statement_allows_unused_mut() {
    let got = expand_text("@stmt; export(wrapped) [a, b] {}").unwrap();
    let expected = format!(
        "# [ allow ( unused_mut ) ] let __guard = {{ {CTX_HEAD}__gCtxFieldType0 , __gCtxFieldType1 > \
         {{ a : __gCtxFieldType0 , b : __gCtxFieldType1 }} {FIELD_LINTS}{NEW}\
         ( __gCtx {{ a : a , b : b }} , | __gCtx {{ a : a , b : b }} | {{ {{ }} }} ) }} ; "
    );
    assert_eq!(got, expected);
}

#[test]
fn named_mutable_statement_exports_shorthand_only() {
    let got = expand_text("@stmt; mut g => [mut a, b = 1] {}").unwrap();
    let expected = format!(
        "let mut g = {NEW}( ( a , 1 ) , | {CLOSURE_LINTS}( mut a , b ) | {{ {{ }} }} ) ; \
         {EXPORT_LINTS}let ( ref mut a , _ ) = * g ; "
    );
    assert_eq!(got, expected);
}

#[test]
fn export_all_exposes_every_capture() {
    let got = expand_text("@stmt; export(all) [mut a, b = 1] {}").unwrap();
    let expected = format!(
        "let mut __guard = {NEW}( ( a , 1 ) , | {CLOSURE_LINTS}( mut a , b ) | {{ {{ }} }} ) ; \
         {EXPORT_LINTS}let ( ref mut a , ref b ) = * __guard ; "
    );
    assert_eq!(got, expected);
}

#[test]
fn default_export_binding_mut_only_for_shorthand() {
    // An initialized `mut` capture is not exported, so the binding stays immutable.
    let got = expand_text("@stmt; [mut a = 1] {}").unwrap();
    let expected = format!(
        "let __guard = {NEW}( ( 1 ) , | {CLOSURE_LINTS}( mut a ) | {{ {{ }} }} ) ; \
         {EXPORT_LINTS}let ( _ ) = * __guard ; "
    );
    assert_eq!(got, expected);
}

#[test]
fn sync_move_expression() {
    let got = expand_text("@expr; sync move [a] { a }").unwrap();
    let expected = format!("{NEW_SYNC}( ( a ) , move | {CLOSURE_LINTS}( a ) | {{ {{ a }} }} ) ");
    assert_eq!(got, expected);
}

#[test]
fn closure_initializer_keeps_its_commas() {
    let m = MacroInput::parse(&toks("@expr; [f = |a, b| a + b, c] {}")).unwrap();
    assert_eq!(m.args.len(), 2);
    let init = m.args[0].init.as_ref().unwrap();
    assert_eq!(text(init), "| a , b | a + b ");
    assert!(m.args[1].init.is_none());
    assert_eq!(m.args[1].ident, "c");
}

#[test]
fn turbofish_initializer_and_trailing_comma() {
    let m = MacroInput::parse(&toks("@stmt; [v = Vec::<u8>::new(), w,] {}")).unwrap();
    assert_eq!(m.args.len(), 2);
    assert_eq!(text(m.args[0].init.as_ref().unwrap()), "Vec ::< u8 >:: new ( ) ");
    assert_eq!(m.export, Export::Default);
}

#[test]
fn errors_are_reported_by_kind() {
    assert_eq!(expand_text("stmt; {}"), Err(MacroError::ExpectedAt));
    assert_eq!(expand_text("@foo; {}"), Err(MacroError::ExpectedAction));
    assert_eq!(expand_text("@stmt [a] {}"), Err(MacroError::ExpectedSemicolon));
    assert_eq!(expand_text("@expr; export wrapped {}"), Err(MacroError::ExpectedParens));
    assert_eq!(expand_text("@stmt; export(some) {}"), Err(MacroError::ExpectedExportMode));
    assert_eq!(expand_text("@stmt; export() {}"), Err(MacroError::ExpectedExportMode));
    assert_eq!(expand_text("@expr; export(all) [a] {}"), Err(MacroError::ExportOutsideWrapped));
    assert_eq!(expand_text("@stmt; [1] {}"), Err(MacroError::ExpectedIdent));
    assert_eq!(expand_text("@stmt; [fn] {}"), Err(MacroError::KeywordAsIdent("fn".to_string())));
    assert_eq!(expand_text("@stmt; [mut _] {}"), Err(MacroError::KeywordAsIdent("_".to_string())));
    assert_eq!(expand_text("@stmt; [a = ] {}"), Err(MacroError::ExpectedExpr));
    assert_eq!(expand_text("@stmt; [a = +] {}"), Err(MacroError::ExpectedExpr));
    assert_eq!(expand_text("@stmt; [a b] {}"), Err(MacroError::ExpectedComma));
    // An expression followed by more tokens: a `,` was expected after it.
    assert_eq!(expand_text("@stmt; [a = 1 2] {}"), Err(MacroError::ExpectedComma));
    assert_eq!(expand_text("@stmt; [a = 1 2, b] {}"), Err(MacroError::ExpectedComma));
    assert_eq!(expand_text("@stmt; export(all extra) [a] {}"), Err(MacroError::UnexpectedToken));
}

#[test]
fn surplus_export_tokens_reported_last() {
    assert_eq!(expand_text("@stmt; export(all extra) [1] {}"), Err(MacroError::ExpectedIdent));
}

#[test]
fn expression_mode_accepts_wrapped_and_default() {
    assert!(expand_text("@expr; export(wrapped) [a] {}").is_ok());
    assert!(expand_text("@expr; [a] {}").is_ok());
}

#[test]
fn error_messages() {
    assert_eq!(MacroError::ExpectedAt.message(), "expected `@`");
    assert_eq!(
        MacroError::ExportOutsideWrapped.message(),
        "Only `export(wrapped)` is allowed in expression mode"
    );
    assert_eq!(MacroError::UnexpectedToken.message(), "unexpected token");
    assert_eq!(
        MacroError::KeywordAsIdent("fn".to_string()).message(),
        "expected identifier, found keyword `fn`"
    );
}

#[test]
fn options_out_of_order_are_left_to_the_body() {
    let m = MacroInput::parse(&toks("@expr; move sync [a] {}")).unwrap();
    assert!(m.move_token);
    assert!(!m.sync_token);
    assert!(m.args.is_empty());
    assert_eq!(text(&m.body), "sync [ a ] { } ");
}

#[test]
fn guard_name_requires_fat_arrow() {
    let m = MacroInput::parse(&toks("@stmt; g => [a] {}")).unwrap();
    match &m.action {
        guarden::syntax::Action::Stmt { mut_token, guard, .. } => {
            assert!(!mut_token);
            assert_eq!(guard.as_deref(), Some("g"));
        }
        _ => panic!("statement expected"),
    }
    // Without `=>` the word is the body, and the default name is used.
    let got = expand_text("@stmt; g").unwrap();
    assert_eq!(
        got,
        format!("let __guard = {NEW}( ( ) , | {CLOSURE_LINTS}( ) | {{ g }} ) ; {EXPORT_LINTS}let ( ) = * __guard ; ")
    );
}

#[test]
fn copied_tokens_keep_their_origin() {
    let input = toks("@stmt; [a = 1] { x }");
    let out = proc(&input).unwrap();
    // The initializer `1` is input token 6; the body `x` is input token 9.
    assert!(out.iter().any(|t| t.origin == Some(6) && matches!(&t.kind, TokKind::Literal(l) if l == "1")));
    assert!(out.iter().any(|t| t.origin == Some(9) && matches!(&t.kind, TokKind::Ident(i) if i == "x")));
    // Tokens made by the expansion have no origin.
    assert!(out.iter().any(|t| t.origin.is_none() && matches!(&t.kind, TokKind::Ident(i) if i == "guarden")));
}

#[test]
fn copied_names_keep_their_origin() {
    // Tokens: @ stmt ; mut g = > move [ mut a ] { }
    //         0 1    2 3   4 5 6 7    8 9   10 11 12 13
    let input = toks("@stmt; mut g => move [mut a] {}");
    assert!(matches!(&input[4].kind, TokKind::Ident(i) if i == "g"));
    let out = proc(&input).unwrap();
    let named = |name: &str| -> Vec<Option<usize>> {
        out.iter()
            .filter(|t| matches!(&t.kind, TokKind::Ident(i) if i == name))
            .map(|t| t.origin)
            .collect()
    };
    // The capture `a` is written three times (value, binding, export), each
    // time as the input token.
    assert_eq!(named("a"), vec![Some(10), Some(10), Some(10)]);
    // The guard name is bound and dereferenced as the input token.
    assert_eq!(named("g"), vec![Some(4), Some(4)]);
    assert_eq!(named("move"), vec![Some(7)]);
    // `mut` of the binding (token 3), of the closure pattern and of the
    // export (token 9).
    assert_eq!(named("mut"), vec![Some(3), Some(9), Some(9)]);
}

#[test]
fn added_binding_mut_and_default_name_are_made() {
    let out = proc(&toks("@stmt; [mut a] {}")).unwrap();
    let first = &out[1];
    assert!(matches!(&first.kind, TokKind::Ident(i) if i == "mut"));
    assert_eq!(first.origin, None);
    assert!(out
        .iter()
        .filter(|t| matches!(&t.kind, TokKind::Ident(i) if i == "__guard"))
        .all(|t| t.origin.is_none()));
}
