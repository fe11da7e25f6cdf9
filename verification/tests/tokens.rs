use guarden::expand::field_type_ident;
use guarden::syntax::{
    expr_prefix_accepted_given, find_expr_end, find_expr_end_given, find_group_close, parse_args,
    syn_answers, Export,
};
use guarden::token::{
    is_plain_ident_name, push_decimal, render_range, word_is, Delim, Spacing, Tok, TokKind,
};

fn tok(kind: TokKind) -> Tok {
    Tok { kind, origin: None }
}

fn ident(s: &str) -> Tok {
    tok(TokKind::Ident(s.to_string()))
}

fn punct(c: char) -> Tok {
    tok(TokKind::Punct(c, Spacing::Alone))
}

#[test]
fn reserved_words_are_not_plain_identifiers() {
    for w in ["_", "fn", "mut", "move", "self", "Self", "yield", "async", "try"] {
        assert!(!is_plain_ident_name(&w.to_string()), "{w}");
    }
    for w in ["value", "stmt", "sync", "export", "r#fn", "union"] {
        assert!(is_plain_ident_name(&w.to_string()), "{w}");
    }
}

#[test]
fn word_comparison() {
    assert!(word_is(&"wrapped".to_string(), "wrapped"));
    assert!(!word_is(&"wrap".to_string(), "wrapped"));
}

#[test]
fn decimal_names() {
    assert_eq!(field_type_ident(0), "__gCtxFieldType0");
    assert_eq!(field_type_ident(12), "__gCtxFieldType12");
    let mut s = String::from("n=");
    push_decimal(&mut s, 1090);
    assert_eq!(s, "n=1090");
}

#[test]
fn rendering_glues_joint_punctuation() {
    let v = vec![
        tok(TokKind::Punct('\'', Spacing::Joint)),
        ident("a"),
        tok(TokKind::Punct('=', Spacing::Joint)),
        tok(TokKind::Punct('>', Spacing::Alone)),
        tok(TokKind::Literal("\"x\"".to_string())),
        tok(TokKind::Open(Delim::Invisible)),
        ident("y"),
        tok(TokKind::Close(Delim::Invisible)),
    ];
    assert_eq!(render_range(&v, 0, v.len()), "'a => \"x\" ( y ) ");
    assert_eq!(render_range(&v, 2, 4), "=> ");
}

#[test]
fn group_close_matches_nesting() {
    let v = vec![
        tok(TokKind::Open(Delim::Bracket)),
        tok(TokKind::Open(Delim::Paren)),
        ident("a"),
        tok(TokKind::Close(Delim::Paren)),
        tok(TokKind::Close(Delim::Bracket)),
        ident("b"),
    ];
    assert_eq!(find_group_close(&v, 0), 4);
    assert_eq!(find_group_close(&v, 1), 3);
    let open_only = vec![tok(TokKind::Open(Delim::Brace)), ident("a")];
    assert_eq!(find_group_close(&open_only, 0), 2);
}

#[test]
fn expression_end_skips_inner_commas() {
    // f(1, 2), x
    let v = vec![
        ident("f"),
        tok(TokKind::Open(Delim::Paren)),
        tok(TokKind::Literal("1".to_string())),
        punct(','),
        tok(TokKind::Literal("2".to_string())),
        tok(TokKind::Close(Delim::Paren)),
        punct(','),
        ident("x"),
    ];
    assert_eq!(find_expr_end(&v, 0), Some(6));
    assert_eq!(find_expr_end(&v, 7), Some(8));
    assert_eq!(find_expr_end(&v, 6), None);
    assert_eq!(find_expr_end(&v, 8), None);
}

#[test]
fn capture_list_contents() {
    // mut a, b = 1,
    let v = vec![
        ident("mut"),
        ident("a"),
        punct(','),
        ident("b"),
        punct('='),
        tok(TokKind::Literal("1".to_string())),
        punct(','),
    ];
    let args = parse_args(&v).unwrap();
    assert_eq!(args.len(), 2);
    assert!(args[0].mut_token && args[0].init.is_none() && args[0].ident == "a");
    assert!(!args[1].mut_token && args[1].ident == "b");
    assert_eq!(args[1].init.as_ref().unwrap().len(), 1);
    assert!(parse_args(&vec![]).unwrap().is_empty());
    assert_eq!(Export::Default, Export::Default);
}

#[test]
fn initializer_end_follows_the_answers() {
    // a , b , c
    let v = vec![ident("a"), punct(','), ident("b"), punct(','), ident("c")];
    // `syn` accepts the run ending at the second comma only.
    let mut accepted = vec![false; v.len() + 1];
    accepted[3] = true;
    assert_eq!(find_expr_end_given(&v, 0, &accepted), Some(3));
    // Accepted at the first comma too: the first wins.
    accepted[1] = true;
    assert_eq!(find_expr_end_given(&v, 0, &accepted), Some(1));
    // Only the whole run: the end.
    let mut only_end = vec![false; v.len() + 1];
    only_end[5] = true;
    assert_eq!(find_expr_end_given(&v, 0, &only_end), Some(5));
    // Nothing accepted: no initializer.
    assert_eq!(find_expr_end_given(&v, 0, &vec![false; v.len() + 1]), None);
    // An answer at a position that is not a top-level comma is not consulted.
    let mut inside = vec![false; v.len() + 1];
    inside[2] = true;
    assert_eq!(find_expr_end_given(&v, 0, &inside), None);
}

#[test]
fn syn_is_asked_only_at_top_level() {
    // f ( 1 , 2 ) , x
    let v = vec![
        ident("f"),
        tok(TokKind::Open(Delim::Paren)),
        tok(TokKind::Literal("1".to_string())),
        punct(','),
        tok(TokKind::Literal("2".to_string())),
        tok(TokKind::Close(Delim::Paren)),
        punct(','),
        ident("x"),
    ];
    let a = syn_answers(&v, 0);
    assert_eq!(a.len(), v.len() + 1);
    // `f` and `f (1, 2)` are expressions; nothing inside the group is asked.
    assert_eq!(a, vec![false, true, false, false, false, false, true, false, false]);
}

#[test]
fn shorter_expression_followed_by_more_tokens() {
    // 1 2
    let v = vec![tok(TokKind::Literal("1".to_string())), tok(TokKind::Literal("2".to_string()))];
    let a = syn_answers(&v, 0);
    assert_eq!(a, vec![false, true, false]);
    assert_eq!(find_expr_end_given(&v, 0, &a), None);
    assert!(expr_prefix_accepted_given(&v, 0, &a));
    assert!(!expr_prefix_accepted_given(&v, 0, &vec![false, false, false]));
}
