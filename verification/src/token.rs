//! A flat model of a macro token stream.
//!
//! A delimited group is written as an `Open` marker, its contents, and a
//! `Close` marker, so a token stream is a plain sequence.
use vstd::prelude::*;
use crate::outside::push_char;

verus! {

/// The delimiter of a token group.
#[derive(Clone, Copy, PartialEq, Eq, Debug, Structural)]
pub enum Delim {
    Paren,
    Bracket,
    Brace,
    /// An invisible group, as produced when a macro fragment is substituted.
    Invisible,
}

/// Whether a punctuation character is glued to the next one.
#[derive(Clone, Copy, PartialEq, Eq, Debug, Structural)]
pub enum Spacing {
    Alone,
    Joint,
}

/// What a token is.
#[derive(Debug)]
pub enum TokKind {
    Ident(String),
    Punct(char, Spacing),
    Literal(String),
    Open(Delim),
    Close(Delim),
}

/// One token of a flat token stream, with the index of the input token it
/// was copied from (none for a token made by the expansion), so that a
/// caller can give it back its source location.
#[derive(Debug)]
pub struct Tok {
    pub kind: TokKind,
    pub origin: Option<usize>,
}

/// The mathematical value of a [`Tok`]: what it is, and the index of the
/// input token it was copied from (none for a token the expansion made).
pub enum TokV {
    Ident(Seq<char>, Option<usize>),
    Punct(char, Spacing, Option<usize>),
    Literal(Seq<char>, Option<usize>),
    Open(Delim, Option<usize>),
    Close(Delim, Option<usize>),
}

impl View for Tok {
    type V = TokV;

    open spec fn view(&self) -> TokV {
        match &self.kind {
            TokKind::Ident(s) => TokV::Ident(s@, self.origin),
            TokKind::Punct(c, sp) => TokV::Punct(*c, *sp, self.origin),
            TokKind::Literal(s) => TokV::Literal(s@, self.origin),
            TokKind::Open(d) => TokV::Open(*d, self.origin),
            TokKind::Close(d) => TokV::Close(*d, self.origin),
        }
    }
}

/// The values of a sequence of tokens.
pub open spec fn toks_view(s: Seq<Tok>) -> Seq<TokV> {
    s.map_values(|t: Tok| t@)
}

impl Tok {
    /// A token made by the expansion, with no input token behind it.
    pub fn made(kind: TokKind) -> (r: Tok)
        ensures
            r.kind == kind,
            r.origin is None,
    {
        Tok { kind, origin: None }
    }

    /// A copy of this token with the same value and origin.
    pub fn duplicate(&self) -> (r: Tok)
        ensures
            r@ == self@,
            r.origin == self.origin,
    {
        let kind = match &self.kind {
            TokKind::Ident(s) => TokKind::Ident(s.clone()),
            TokKind::Punct(c, sp) => TokKind::Punct(*c, *sp),
            TokKind::Literal(s) => TokKind::Literal(s.clone()),
            TokKind::Open(d) => TokKind::Open(*d),
            TokKind::Close(d) => TokKind::Close(*d),
        };
        Tok { kind, origin: self.origin }
    }
}

/// Whether the identifier text is exactly `w`.
pub fn word_is(name: &String, w: &str) -> (b: bool)
    ensures
        b == (name@ == w@),
{
    let owned = w.to_owned();
    *name == owned
}

/// The words that `syn` refuses as an identifier: `_` and the Rust keywords
/// (strict and reserved) of its `accept_as_ident` list.
pub open spec fn syn_reserved_word(s: Seq<char>) -> bool {
    ||| s == "_"@
    ||| s == "abstract"@
    ||| s == "as"@
    ||| s == "async"@
    ||| s == "await"@
    ||| s == "become"@
    ||| s == "box"@
    ||| s == "break"@
    ||| s == "const"@
    ||| s == "continue"@
    ||| s == "crate"@
    ||| s == "do"@
    ||| s == "dyn"@
    ||| s == "else"@
    ||| s == "enum"@
    ||| s == "extern"@
    ||| s == "false"@
    ||| s == "final"@
    ||| s == "fn"@
    ||| s == "for"@
    ||| s == "if"@
    ||| s == "impl"@
    ||| s == "in"@
    ||| s == "let"@
    ||| s == "loop"@
    ||| s == "macro"@
    ||| s == "match"@
    ||| s == "mod"@
    ||| s == "move"@
    ||| s == "mut"@
    ||| s == "override"@
    ||| s == "priv"@
    ||| s == "pub"@
    ||| s == "ref"@
    ||| s == "return"@
    ||| s == "Self"@
    ||| s == "self"@
    ||| s == "static"@
    ||| s == "struct"@
    ||| s == "super"@
    ||| s == "trait"@
    ||| s == "true"@
    ||| s == "try"@
    ||| s == "type"@
    ||| s == "typeof"@
    ||| s == "unsafe"@
    ||| s == "unsized"@
    ||| s == "use"@
    ||| s == "virtual"@
    ||| s == "where"@
    ||| s == "while"@
    ||| s == "yield"@
}

/// Whether the identifier text names a plain identifier for `syn`, that is,
/// is not one of its reserved words.
pub fn is_plain_ident_name(name: &String) -> (b: bool)
    ensures
        b == !syn_reserved_word(name@),
{
    !(false
        || word_is(name, "_")
        || word_is(name, "abstract")
        || word_is(name, "as")
        || word_is(name, "async")
        || word_is(name, "await")
        || word_is(name, "become")
        || word_is(name, "box")
        || word_is(name, "break")
        || word_is(name, "const")
        || word_is(name, "continue")
        || word_is(name, "crate")
        || word_is(name, "do")
        || word_is(name, "dyn")
        || word_is(name, "else")
        || word_is(name, "enum")
        || word_is(name, "extern")
        || word_is(name, "false")
        || word_is(name, "final")
        || word_is(name, "fn")
        || word_is(name, "for")
        || word_is(name, "if")
        || word_is(name, "impl")
        || word_is(name, "in")
        || word_is(name, "let")
        || word_is(name, "loop")
        || word_is(name, "macro")
        || word_is(name, "match")
        || word_is(name, "mod")
        || word_is(name, "move")
        || word_is(name, "mut")
        || word_is(name, "override")
        || word_is(name, "priv")
        || word_is(name, "pub")
        || word_is(name, "ref")
        || word_is(name, "return")
        || word_is(name, "Self")
        || word_is(name, "self")
        || word_is(name, "static")
        || word_is(name, "struct")
        || word_is(name, "super")
        || word_is(name, "trait")
        || word_is(name, "true")
        || word_is(name, "try")
        || word_is(name, "type")
        || word_is(name, "typeof")
        || word_is(name, "unsafe")
        || word_is(name, "unsized")
        || word_is(name, "use")
        || word_is(name, "virtual")
        || word_is(name, "where")
        || word_is(name, "while")
        || word_is(name, "yield"))
}

/// The text of one token when a stream is written out as source: words and
/// literals are followed by a space, a joint punctuation character is glued
/// to what follows, and a delimiter is written with a space after it.  An
/// invisible group is written with parentheses.
pub open spec fn tok_text(t: TokV) -> Seq<char> {
    match t {
        TokV::Ident(s, _) => s.push(' '),
        TokV::Literal(s, _) => s.push(' '),
        TokV::Punct(c, Spacing::Joint, _) => seq![c],
        TokV::Punct(c, Spacing::Alone, _) => seq![c, ' '],
        TokV::Open(d, _) => seq![open_char(d), ' '],
        TokV::Close(d, _) => seq![close_char(d), ' '],
    }
}

pub open spec fn open_char(d: Delim) -> char {
    match d {
        Delim::Paren => '(',
        Delim::Bracket => '[',
        Delim::Brace => '{',
        Delim::Invisible => '(',
    }
}

pub open spec fn close_char(d: Delim) -> char {
    match d {
        Delim::Paren => ')',
        Delim::Bracket => ']',
        Delim::Brace => '}',
        Delim::Invisible => ')',
    }
}

/// The source text of a token sequence.
pub open spec fn render(s: Seq<TokV>) -> Seq<char>
    decreases s.len(),
{
    if s.len() == 0 {
        Seq::empty()
    } else {
        render(s.drop_last()) + tok_text(s.last())
    }
}

fn delim_chars(d: Delim) -> (r: (char, char))
    ensures
        r.0 == open_char(d),
        r.1 == close_char(d),
{
    match d {
        Delim::Paren => ('(', ')'),
        Delim::Bracket => ('[', ']'),
        Delim::Brace => ('{', '}'),
        Delim::Invisible => ('(', ')'),
    }
}

/// Appends the source text of one token.
fn push_tok_text(out: &mut String, t: &Tok)
    ensures
        final(out)@ == old(out)@ + tok_text(t@),
{
    let ghost before = out@;
    match &t.kind {
        TokKind::Ident(s) => {
            out.append(s.as_str());
            push_char(out, ' ');
        },
        TokKind::Literal(s) => {
            out.append(s.as_str());
            push_char(out, ' ');
        },
        TokKind::Punct(c, sp) => {
            push_char(out, *c);
            if let Spacing::Alone = sp {
                push_char(out, ' ');
            }
        },
        TokKind::Open(d) => {
            let (o, _) = delim_chars(*d);
            push_char(out, o);
            push_char(out, ' ');
        },
        TokKind::Close(d) => {
            let (_, c) = delim_chars(*d);
            push_char(out, c);
            push_char(out, ' ');
        },
    }
    assert(out@ =~= before + tok_text(t@));
}

/// Writes `toks[from..to]` out as source text.
pub fn render_range(toks: &Vec<Tok>, from: usize, to: usize) -> (r: String)
    requires
        from <= to <= toks.len(),
    ensures
        r@ == render(toks_view(toks@).subrange(from as int, to as int)),
{
    let mut out = String::new();
    let mut i = from;
    while i < to
        invariant
            from <= i <= to <= toks.len(),
            out@ == render(toks_view(toks@).subrange(from as int, i as int)),
        decreases to - i,
    {
        push_tok_text(&mut out, &toks[i]);
        let ghost next = toks_view(toks@).subrange(from as int, i + 1);
        assert(next.drop_last() =~= toks_view(toks@).subrange(from as int, i as int));
        i = i + 1;
    }
    out
}

/// The decimal digit character of `d`.
pub open spec fn digit_char(d: nat) -> char {
    if d == 0 { '0' } else if d == 1 { '1' } else if d == 2 { '2' } else if d == 3 { '3' }
    else if d == 4 { '4' } else if d == 5 { '5' } else if d == 6 { '6' } else if d == 7 { '7' }
    else if d == 8 { '8' } else { '9' }
}

/// The decimal notation of `n`, without leading zeros.
pub open spec fn decimal(n: nat) -> Seq<char>
    decreases n,
{
    if n < 10 {
        seq![digit_char(n)]
    } else {
        decimal(n / 10).push(digit_char(n % 10))
    }
}

fn digit(d: usize) -> (c: char)
    requires
        d < 10,
    ensures
        c == digit_char(d as nat),
{
    if d == 0 { '0' } else if d == 1 { '1' } else if d == 2 { '2' } else if d == 3 { '3' }
    else if d == 4 { '4' } else if d == 5 { '5' } else if d == 6 { '6' } else if d == 7 { '7' }
    else if d == 8 { '8' } else { '9' }
}

/// Appends the decimal notation of `n`.
pub fn push_decimal(out: &mut String, n: usize)
    ensures
        final(out)@ == old(out)@ + decimal(n as nat),
    decreases n,
{
    let ghost before = out@;
    if n >= 10 {
        push_decimal(out, n / 10);
    }
    push_char(out, digit(n % 10));
    assert(out@ =~= before + decimal(n as nat));
}

/// Appends one token to `out`.
pub fn push_tok(out: &mut Vec<Tok>, t: Tok)
    ensures
        toks_view(final(out)@) == toks_view(old(out)@).push(t@),
{
    let ghost before = out@;
    out.push(t);
    assert(toks_view(out@) =~= toks_view(before).push(t@));
}

/// Appends copies of `src[from..to]` to `out`.
pub fn push_range(out: &mut Vec<Tok>, src: &Vec<Tok>, from: usize, to: usize)
    requires
        from <= to <= src.len(),
    ensures
        toks_view(final(out)@) == toks_view(old(out)@) + toks_view(src@).subrange(
            from as int,
            to as int,
        ),
{
    let ghost start = toks_view(out@);
    let mut i = from;
    while i < to
        invariant
            from <= i <= to <= src.len(),
            toks_view(out@) == start + toks_view(src@).subrange(from as int, i as int),
        decreases to - i,
    {
        let t = src[i].duplicate();
        push_tok(out, t);
        assert(toks_view(src@).subrange(from as int, i + 1) =~= toks_view(src@).subrange(
            from as int,
            i as int,
        ).push(t@));
        i = i + 1;
    }
}

/// Appends copies of all of `src` to `out`.
pub fn push_all(out: &mut Vec<Tok>, src: &Vec<Tok>)
    ensures
        toks_view(final(out)@) == toks_view(old(out)@) + toks_view(src@),
{
    push_range(out, src, 0, src.len());
    assert(toks_view(src@).subrange(0, src@.len() as int) =~= toks_view(src@));
}

} // verus!
