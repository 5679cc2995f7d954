//! The unification of all the passes into a single high-level API.
//!
//! A source file comes with the errors of the passes before type checking
//! and with its lowered form: `SourceFile::from_text` lexes, parses and
//! lowers a text.

pub mod input;

use crate::hir::{Arenas, Idx, Nodes, StrDecIdx};
use crate::statics::basis::{is_basis, minimal};
use crate::statics::env::{extended, Cx, Env};
use crate::statics::error::ErrorKind;
use crate::statics::display::error_text;
use crate::statics::st::{St, StView};
use crate::statics::top_dec::{get_str_dec, str_dec_spec};
use crate::statics::types::Entries;
use crate::statics::sym::SymsView;
use crate::text::TextRange;
use vstd::prelude::*;

verus! {

/// How many nested steps the type checker may take on one declaration.
pub const FUEL: u64 = 0xffff_ffff_ffff_ffff;

/// Which standard basis the analysis starts from.
#[derive(Debug, Clone, Copy, PartialEq, Eq, Structural)]
pub enum StdBasis {
    /// The built-in types and the overloaded operators only.
    Minimal,
    /// The same: the rest of the basis is declared in source files, which
    /// the caller puts in a group that the other groups depend on.
    Full,
}

/// The number of a file known to the analysis.
#[derive(Debug, Clone, Copy, PartialEq, Eq, Structural, Hash)]
pub struct PathId {
    pub raw: u32,
}

/// An error.
#[derive(Debug)]
pub struct Error {
    /// The range of the error.
    pub range: TextRange,
    /// The message of the error.
    pub message: String,
    /// The code of the error: a number that stays the same for one kind of
    /// error.
    pub code: u16,
}

/// An error, apart from how its text is stored.
pub struct ErrorKey {
    pub range: TextRange,
    pub message: Seq<char>,
    pub code: u16,
}

impl View for Error {
    type V = ErrorKey;

    open spec fn view(&self) -> ErrorKey {
        ErrorKey { range: self.range, message: self.message@, code: self.code }
    }
}

/// The code of an error of the type checker.
pub open spec fn code_of(kind: ErrorKind) -> u16 {
    match kind {
        ErrorKind::Unsupported => 5999,
        ErrorKind::Undefined => 5001,
        ErrorKind::Redefined => 5002,
        ErrorKind::Circularity(_, _) => 5003,
        ErrorKind::MismatchedTypes(_, _) => 5004,
        ErrorKind::MissingField(_, _, _) => 5005,
        ErrorKind::ExtraFields(_, _) => 5006,
        ErrorKind::DuplicateLab(_) => 5007,
        ErrorKind::RealPat => 5008,
        ErrorKind::UnreachablePattern => 5009,
        ErrorKind::NonExhaustiveMatch => 5010,
        ErrorKind::NonExhaustiveBinding => 5011,
        ErrorKind::PatValIdStatus => 5012,
        ErrorKind::PatMustNotHaveArg => 5013,
        ErrorKind::PatMustHaveArg => 5014,
        ErrorKind::OverloadMismatch(_, _, _) => 5015,
        ErrorKind::TyNameEscape => 5016,
        ErrorKind::ValRecExpNotFn => 5017,
        ErrorKind::NotEquality(_, _) => 5018,
    }
}

/// The code of an error of the type checker.
pub fn error_code(kind: &ErrorKind) -> (r: u16)
    ensures
        r == code_of(*kind),
{
    match kind {
        ErrorKind::Unsupported => 5999,
        ErrorKind::Undefined => 5001,
        ErrorKind::Redefined => 5002,
        ErrorKind::Circularity(_, _) => 5003,
        ErrorKind::MismatchedTypes(_, _) => 5004,
        ErrorKind::MissingField(_, _, _) => 5005,
        ErrorKind::ExtraFields(_, _) => 5006,
        ErrorKind::DuplicateLab(_) => 5007,
        ErrorKind::RealPat => 5008,
        ErrorKind::UnreachablePattern => 5009,
        ErrorKind::NonExhaustiveMatch => 5010,
        ErrorKind::NonExhaustiveBinding => 5011,
        ErrorKind::PatValIdStatus => 5012,
        ErrorKind::PatMustNotHaveArg => 5013,
        ErrorKind::PatMustHaveArg => 5014,
        ErrorKind::OverloadMismatch(_, _, _) => 5015,
        ErrorKind::TyNameEscape => 5016,
        ErrorKind::ValRecExpNotFn => 5017,
        ErrorKind::NotEquality(_, _) => 5018,
    }
}

/// What each error of a sequence says.
pub open spec fn error_keys(es: Seq<Error>) -> Seq<ErrorKey> {
    Seq::new(es.len(), |i: int| es[i]@)
}

/// A lowered file: the arenas, the top-level declarations in order, and the
/// range of the syntax that each node came from.
pub struct Lowered {
    pub arenas: Arenas,
    pub top_decs: Vec<StrDecIdx>,
    pub ptrs: Vec<(Idx, TextRange)>,
}

/// A source file after lexing, parsing and lowering: the errors of those
/// passes, in that order, and the lowered file.
pub struct SourceFile {
    pub syntax_errors: Vec<Error>,
    pub lowered: Lowered,
}

/// What the errors of the lexer say as errors of analysis, in order.
pub open spec fn lex_error_keys(errors: Seq<crate::lex::Error>) -> Seq<ErrorKey> {
    Seq::new(
        errors.len(),
        |i: int|
            ErrorKey {
                range: errors[i].range,
                message: crate::lex::error_text(errors[i].kind),
                code: crate::lex::code_of(errors[i].kind),
            },
    )
}

fn lex_errors_of(errors: &Vec<crate::lex::Error>) -> (r: Vec<Error>)
    ensures
        error_keys(r@) == lex_error_keys(errors@),
{
    let mut out: Vec<Error> = Vec::new();
    let mut i: usize = 0;
    while i < errors.len()
        invariant
            i <= errors.len(),
            error_keys(out@) == lex_error_keys(errors@).take(i as int),
        decreases errors.len() - i,
    {
        let e = errors[i];
        let ghost before = error_keys(out@);
        out.push(Error { range: e.range, message: e.kind.message(), code: e.kind.code() });
        assert(error_keys(out@) =~= before.push(lex_error_keys(errors@)[i as int]));
        assert(lex_error_keys(errors@).take(i + 1) =~= lex_error_keys(errors@).take(
            i as int,
        ).push(lex_error_keys(errors@)[i as int]));
        i += 1;
    }
    assert(lex_error_keys(errors@).take(i as int) =~= lex_error_keys(errors@));
    out
}

/// The errors of lexing a text, as errors of analysis.
pub fn lex_errors(text: &str) -> (r: Vec<Error>)
    requires
        vstd::utf8::encode_utf8(text@).len() <= u32::MAX,
    ensures
        error_keys(r@) == lex_error_keys(crate::lex::lex_spec(vstd::utf8::encode_utf8(text@)).1),
{
    let lexed = crate::lex::get(text);
    lex_errors_of(&lexed.errors)
}

/// The range of every error of lexing lies within the text.
pub proof fn law_lex_ranges_within(bytes: Seq<u8>)
    requires
        bytes.len() <= u32::MAX,
    ensures
        all_within(lex_error_keys(crate::lex::lex_spec(bytes).1), bytes.len()),
{
    crate::lex::law_errors_within(bytes);
    let errors = crate::lex::lex_spec(bytes).1;
    assert forall|i: int| 0 <= i < errors.len() implies (#[trigger] lex_error_keys(
        errors,
    )[i]).range.within(bytes.len()) by {
        assert(errors[i].range.start <= errors[i].range.end <= bytes.len());
    }
}

/// The bytes from the first token of a span to its last token; the start
/// of the text for a piece of syntax without tokens, and for a span that is
/// none of the tokens.
pub open spec fn span_range(tokens: Seq<crate::lex::Token>, span: crate::lower::low::Span) -> TextRange {
    match span {
        Some((a, b)) => if a <= b < tokens.len() {
            TextRange { start: tokens[a as int].range.start, end: tokens[b as int].range.end }
        } else {
            TextRange { start: 0, end: 0 }
        },
        None => TextRange { start: 0, end: 0 },
    }
}

/// The pointers of lowering, each with the bytes of its tokens.
pub open spec fn ranged_ptrs(
    ptrs: Seq<(Idx, crate::lower::low::Span)>,
    tokens: Seq<crate::lex::Token>,
) -> Seq<(Idx, TextRange)> {
    Seq::new(ptrs.len(), |i: int| (ptrs[i].0, span_range(tokens, ptrs[i].1)))
}

/// What the errors of the parser say as errors of analysis, in order.
pub open spec fn parse_error_keys(errors: Seq<crate::syntax::Error>) -> Seq<ErrorKey> {
    Seq::new(
        errors.len(),
        |i: int|
            ErrorKey {
                range: errors[i].range,
                message: crate::syntax::error_text(errors[i].expected),
                code: crate::syntax::ERROR_CODE,
            },
    )
}

/// What the errors of lowering say as errors of analysis, in order, each
/// with the bytes of its tokens.
pub open spec fn lower_error_keys(
    errors: Seq<crate::lower::low::Error>,
    tokens: Seq<crate::lex::Token>,
) -> Seq<ErrorKey> {
    Seq::new(
        errors.len(),
        |i: int|
            ErrorKey {
                range: span_range(tokens, errors[i].span),
                message: crate::lower::low::error_text(errors[i].kind),
                code: crate::lower::low::code_of(errors[i].kind),
            },
    )
}

fn range_of_span(tokens: &Vec<crate::lex::Token>, span: crate::lower::low::Span) -> (r: TextRange)
    ensures
        r == span_range(tokens@, span),
{
    match span {
        Some((a, b)) => if a <= b && b < tokens.len() {
            TextRange { start: tokens[a].range.start, end: tokens[b].range.end }
        } else {
            TextRange { start: 0, end: 0 }
        },
        None => TextRange { start: 0, end: 0 },
    }
}

fn ptrs_of(ptrs: &Vec<(Idx, crate::lower::low::Span)>, tokens: &Vec<crate::lex::Token>) -> (r: Vec<
    (Idx, TextRange),
>)
    ensures
        r@ == ranged_ptrs(ptrs@, tokens@),
{
    let mut out: Vec<(Idx, TextRange)> = Vec::new();
    let mut i: usize = 0;
    while i < ptrs.len()
        invariant
            i <= ptrs.len(),
            out@ == ranged_ptrs(ptrs@, tokens@).take(i as int),
        decreases ptrs.len() - i,
    {
        out.push((ptrs[i].0, range_of_span(tokens, ptrs[i].1)));
        assert(ranged_ptrs(ptrs@, tokens@).take(i + 1) =~= ranged_ptrs(ptrs@, tokens@).take(
            i as int,
        ).push(ranged_ptrs(ptrs@, tokens@)[i as int]));
        i += 1;
    }
    assert(ranged_ptrs(ptrs@, tokens@).take(i as int) =~= ranged_ptrs(ptrs@, tokens@));
    out
}

fn parse_errors(errors: &Vec<crate::syntax::Error>) -> (r: Vec<Error>)
    ensures
        error_keys(r@) == parse_error_keys(errors@),
{
    let mut out: Vec<Error> = Vec::new();
    let mut i: usize = 0;
    while i < errors.len()
        invariant
            i <= errors.len(),
            error_keys(out@) == parse_error_keys(errors@).take(i as int),
        decreases errors.len() - i,
    {
        let e = errors[i];
        let ghost before = error_keys(out@);
        out.push(Error { range: e.range, message: e.message(), code: crate::syntax::ERROR_CODE });
        assert(error_keys(out@) =~= before.push(parse_error_keys(errors@)[i as int]));
        assert(parse_error_keys(errors@).take(i + 1) =~= parse_error_keys(errors@).take(
            i as int,
        ).push(parse_error_keys(errors@)[i as int]));
        i += 1;
    }
    assert(parse_error_keys(errors@).take(i as int) =~= parse_error_keys(errors@));
    out
}

fn lower_errors(errors: &Vec<crate::lower::low::Error>, tokens: &Vec<crate::lex::Token>) -> (r: Vec<
    Error,
>)
    ensures
        error_keys(r@) == lower_error_keys(errors@, tokens@),
{
    let mut out: Vec<Error> = Vec::new();
    let mut i: usize = 0;
    while i < errors.len()
        invariant
            i <= errors.len(),
            error_keys(out@) == lower_error_keys(errors@, tokens@).take(i as int),
        decreases errors.len() - i,
    {
        let e = errors[i];
        let ghost before = error_keys(out@);
        out.push(
            Error {
                range: range_of_span(tokens, e.span),
                message: e.kind.message(),
                code: e.kind.code(),
            },
        );
        assert(error_keys(out@) =~= before.push(lower_error_keys(errors@, tokens@)[i as int]));
        assert(lower_error_keys(errors@, tokens@).take(i + 1) =~= lower_error_keys(
            errors@,
            tokens@,
        ).take(i as int).push(lower_error_keys(errors@, tokens@)[i as int]));
        i += 1;
    }
    assert(lower_error_keys(errors@, tokens@).take(i as int) =~= lower_error_keys(
        errors@,
        tokens@,
    ));
    out
}

/// What the passes before type checking make of a text: the tokens, the
/// tokens without blanks and comments, the events of the parser, the
/// syntax trees, and what lowering writes.
pub struct Front {
    pub tokens: Seq<crate::lex::Token>,
    pub errors: Seq<crate::lex::Error>,
    pub significant: Seq<crate::lex::Token>,
    pub events: Seq<crate::parse::Event>,
    pub trees: crate::list::List<crate::syntax::Syntax>,
    pub out: crate::lower::spec::Out,
}

/// The passes before type checking, one after the other: the lexer, the
/// parser on the tokens without blanks and comments, the syntax trees of
/// its events, and lowering.
pub open spec fn front_spec(bytes: Seq<u8>) -> Front {
    let lexed = crate::lex::lex_spec(bytes);
    let significant = crate::parse::without_trivia(lexed.0, lexed.0.len() as int);
    let events = crate::parse::item_spec(
        crate::parse::State { tokens: significant, pos: 0, events: Seq::empty() },
        crate::parse::Item::Root,
        crate::parse::FUEL as nat,
    ).events;
    let trees = crate::syntax::trees_spec(events);
    Front {
        tokens: lexed.0,
        errors: lexed.1,
        significant,
        events,
        trees,
        out: crate::lower::spec::get(
            crate::lower::spec::Src { tokens: significant, text: bytes },
            trees,
        ),
    }
}

/// The errors of the passes before type checking: those of the lexer,
/// then those of the parser, then those of lowering.
pub open spec fn front_errors(bytes: Seq<u8>) -> Seq<ErrorKey> {
    let f = front_spec(bytes);
    lex_error_keys(f.errors) + parse_error_keys(
        crate::syntax::errors_spec(
            f.events,
            f.events.len() as int,
            f.significant,
            bytes.len() as u32,
        ),
    ) + lower_error_keys(f.out.errors, f.significant)
}

/// The pointers of the lowered file of a text: those of lowering, each with
/// the bytes of its tokens.
pub open spec fn front_ptrs(bytes: Seq<u8>) -> Seq<(Idx, TextRange)> {
    ranged_ptrs(front_spec(bytes).out.ptrs, front_spec(bytes).significant)
}

/// Whether a lowered file holds what lowering wrote: the nodes of every
/// arena, the top-level declarations, and the pointers `ptrs`.
pub open spec fn lowered_as(l: Lowered, out: crate::lower::spec::Out, ptrs: Seq<(Idx, TextRange)>) -> bool {
    &&& crate::lower::model::exps_v(crate::hir::exp_items(l.arenas.exp)) == out.exps
    &&& crate::lower::model::pats_v(crate::hir::pat_items(l.arenas.pat)) == out.pats
    &&& crate::lower::model::tys_v(crate::hir::ty_items(l.arenas.ty)) == out.tys
    &&& crate::lower::model::decs_v(crate::hir::dec_items(l.arenas.dec)) == out.decs
    &&& crate::lower::model::str_decs_v(crate::hir::str_dec_items(l.arenas.str_dec))
        == out.str_decs
    &&& crate::hir::str_exp_items(l.arenas.str_exp) == out.str_exps
    &&& crate::hir::sig_exp_items(l.arenas.sig_exp) == out.sig_exps
    &&& crate::hir::spec_items(l.arenas.spec) == out.specs
    &&& l.top_decs@ == out.top_decs
    &&& l.ptrs@ == ptrs
}

/// Whether the tokens follow each other in a text of `len` bytes: none is
/// empty, none ends behind the text, and each ends no later than the next
/// one starts.
pub open spec fn chained(tokens: Seq<crate::lex::Token>, len: int) -> bool {
    &&& forall|k: int|
        0 <= k < tokens.len() ==> (#[trigger] tokens[k]).range.start < tokens[k].range.end <= len
    &&& forall|i: int, j: int|
        0 <= i < j < tokens.len() ==> (#[trigger] tokens[i]).range.end <= (
        #[trigger] tokens[j]).range.start
}

/// Tokens that tile a text follow each other in it.
pub proof fn lemma_tiles_chained(tokens: Seq<crate::lex::Token>, from: int, to: int)
    requires
        crate::lex::tiles(tokens, from, to),
        0 <= from,
    ensures
        chained(tokens, to),
        from <= to,
        forall|k: int| 0 <= k < tokens.len() ==> from <= (#[trigger] tokens[k]).range.start,
    decreases tokens.len(),
{
    if tokens.len() > 0 {
        let last = tokens.last();
        let rest = tokens.drop_last();
        lemma_tiles_chained(rest, from, last.range.start as int);
        assert forall|k: int| 0 <= k < tokens.len() implies (#[trigger] tokens[k]).range.start
            < tokens[k].range.end <= to && from <= tokens[k].range.start by {
            if k < rest.len() {
                assert(tokens[k] == rest[k]);
            }
        }
        assert forall|i: int, j: int| 0 <= i < j < tokens.len() implies (
        #[trigger] tokens[i]).range.end <= (#[trigger] tokens[j]).range.start by {
            assert(tokens[i] == rest[i]);
            if j < rest.len() {
                assert(tokens[j] == rest[j]);
            }
        }
    }
}

/// Where the tokens `tokens[..upto]` end.
pub open spec fn end_of(tokens: Seq<crate::lex::Token>, upto: int) -> int {
    if upto <= 0 {
        0
    } else {
        tokens[upto - 1].range.end as int
    }
}

/// Tokens that follow each other still do so without the blanks and the
/// comments.
pub proof fn lemma_significant_chained(tokens: Seq<crate::lex::Token>, upto: int, len: int)
    requires
        chained(tokens, len),
        0 <= upto <= tokens.len(),
    ensures
        chained(crate::parse::without_trivia(tokens, upto), len),
        forall|k: int|
            0 <= k < crate::parse::without_trivia(tokens, upto).len() ==> (
            #[trigger] crate::parse::without_trivia(tokens, upto)[k]).range.end <= end_of(
                tokens,
                upto,
            ),
    decreases upto,
{
    if upto > 0 {
        lemma_significant_chained(tokens, upto - 1, len);
        let w = crate::parse::without_trivia(tokens, upto - 1);
        let t = tokens[upto - 1];
        let r = crate::parse::without_trivia(tokens, upto);
        assert(end_of(tokens, upto - 1) <= t.range.start) by {
            if upto - 1 > 0 {
                assert(tokens[upto - 2].range.end <= tokens[upto - 1].range.start);
            }
        }
        assert(t.range.start < t.range.end <= len);
        if !crate::parse::is_trivia(t.kind) {
            assert(r == w.push(t));
            assert forall|k: int| 0 <= k < r.len() implies (#[trigger] r[k]).range.start
                < r[k].range.end <= len && r[k].range.end <= end_of(tokens, upto) by {
                if k < w.len() {
                    assert(r[k] == w[k]);
                }
            }
            assert forall|i: int, j: int| 0 <= i < j < r.len() implies (
            #[trigger] r[i]).range.end <= (#[trigger] r[j]).range.start by {
                assert(r[i] == w[i]);
                if j < w.len() {
                    assert(r[j] == w[j]);
                }
            }
        }
    }
}

/// The bytes of a span of tokens that follow each other in a text lie
/// within the text.
pub proof fn lemma_span_range_within(
    tokens: Seq<crate::lex::Token>,
    span: crate::lower::low::Span,
    len: nat,
)
    requires
        chained(tokens, len as int),
    ensures
        span_range(tokens, span).within(len),
{
    match span {
        Some((a, b)) => {
            if a <= b < tokens.len() {
                assert(tokens[a as int].range.start < tokens[a as int].range.end);
                assert(tokens[b as int].range.end <= len);
                if a < b {
                    assert(tokens[a as int].range.end <= tokens[b as int].range.start);
                    assert(tokens[b as int].range.start < tokens[b as int].range.end);
                }
            }
        },
        None => {},
    }
}

/// The errors of the parser are about tokens, or about the end of the
/// text.
pub proof fn lemma_parse_errors_within(
    events: Seq<crate::parse::Event>,
    upto: int,
    tokens: Seq<crate::lex::Token>,
    len: u32,
)
    requires
        chained(tokens, len as int),
        0 <= upto <= events.len(),
    ensures
        forall|k: int|
            0 <= k < crate::syntax::errors_spec(events, upto, tokens, len).len() ==> (
            #[trigger] crate::syntax::errors_spec(events, upto, tokens, len)[k]).range.within(
                len as nat,
            ),
    decreases upto,
{
    if upto > 0 {
        lemma_parse_errors_within(events, upto - 1, tokens, len);
        let before = crate::syntax::errors_spec(events, upto - 1, tokens, len);
        let r = crate::syntax::errors_spec(events, upto, tokens, len);
        assert forall|k: int| 0 <= k < r.len() implies (#[trigger] r[k]).range.within(
            len as nat,
        ) by {
            if k < before.len() {
                assert(r[k] == before[k]);
            } else {
                match events[upto - 1] {
                    crate::parse::Event::Error(at, expected) => {
                        if 0 <= at < tokens.len() {
                            assert(tokens[at as int].range.start < tokens[at as int].range.end);
                        }
                    },
                    _ => {},
                }
            }
        }
    }
}

/// The range of every error of the passes before type checking lies within
/// the text, and so does the range of every pointer of the lowered file:
/// the tokens of the lexer tile the text, and every error and every pointer
/// is about tokens.
pub proof fn law_front_ranges_within(bytes: Seq<u8>)
    requires
        bytes.len() <= u32::MAX,
    ensures
        all_within(front_errors(bytes), bytes.len()),
        ptrs_within(front_ptrs(bytes), bytes.len()),
{
    law_lex_ranges_within(bytes);
    crate::lex::law_tokens_tile(bytes);
    let f = front_spec(bytes);
    lemma_tiles_chained(f.tokens, 0, bytes.len() as int);
    lemma_significant_chained(f.tokens, f.tokens.len() as int, bytes.len() as int);
    lemma_parse_errors_within(f.events, f.events.len() as int, f.significant, bytes.len() as u32);
    let a = lex_error_keys(f.errors);
    let found = crate::syntax::errors_spec(
        f.events,
        f.events.len() as int,
        f.significant,
        bytes.len() as u32,
    );
    let b = parse_error_keys(found);
    let c = lower_error_keys(f.out.errors, f.significant);
    assert forall|i: int| 0 <= i < (a + b + c).len() implies (#[trigger] (a + b + c)[i]).range.within(
        bytes.len(),
    ) by {
        if i < a.len() {
            assert((a + b + c)[i] == a[i]);
        } else if i < a.len() + b.len() {
            assert((a + b + c)[i] == b[i - a.len()]);
            assert(b[i - a.len()].range == found[i - a.len()].range);
        } else {
            assert((a + b + c)[i] == c[i - a.len() - b.len()]);
            lemma_span_range_within(
                f.significant,
                f.out.errors[i - a.len() - b.len()].span,
                bytes.len(),
            );
        }
    }
    let p = front_ptrs(bytes);
    assert forall|i: int| 0 <= i < p.len() implies (#[trigger] p[i]).1.within(bytes.len()) by {
        lemma_span_range_within(f.significant, f.out.ptrs[i].1, bytes.len());
    }
}

/// Every error that the analysis of a text emits has a range within the
/// text, whatever the state and the environment that type checking starts
/// from.
pub proof fn law_text_ranges_within(bytes: Seq<u8>, st: StView, env: Env, n: Nodes, top_decs: Seq<StrDecIdx>)
    requires
        bytes.len() <= u32::MAX,
    ensures
        all_within(
            file_spec(st, env, front_errors(bytes), n, top_decs, front_ptrs(bytes)).2,
            bytes.len(),
        ),
{
    law_front_ranges_within(bytes);
    law_ranges_within(st, env, front_errors(bytes), n, top_decs, front_ptrs(bytes), bytes.len());
}

/// Lowering is deterministic: two lowered files of one text hold the same
/// nodes in every arena, the same top-level declarations and the same
/// pointers.
pub proof fn law_lowering_deterministic(bytes: Seq<u8>, a: Lowered, b: Lowered)
    requires
        lowered_as(a, front_spec(bytes).out, front_ptrs(bytes)),
        lowered_as(b, front_spec(bytes).out, front_ptrs(bytes)),
    ensures
        crate::lower::model::exps_v(crate::hir::exp_items(a.arenas.exp))
            == crate::lower::model::exps_v(crate::hir::exp_items(b.arenas.exp)),
        crate::lower::model::pats_v(crate::hir::pat_items(a.arenas.pat))
            == crate::lower::model::pats_v(crate::hir::pat_items(b.arenas.pat)),
        crate::lower::model::tys_v(crate::hir::ty_items(a.arenas.ty)) == crate::lower::model::tys_v(
            crate::hir::ty_items(b.arenas.ty),
        ),
        crate::lower::model::decs_v(crate::hir::dec_items(a.arenas.dec))
            == crate::lower::model::decs_v(crate::hir::dec_items(b.arenas.dec)),
        crate::lower::model::str_decs_v(crate::hir::str_dec_items(a.arenas.str_dec))
            == crate::lower::model::str_decs_v(crate::hir::str_dec_items(b.arenas.str_dec)),
        crate::hir::str_exp_items(a.arenas.str_exp) == crate::hir::str_exp_items(b.arenas.str_exp),
        crate::hir::sig_exp_items(a.arenas.sig_exp) == crate::hir::sig_exp_items(b.arenas.sig_exp),
        crate::hir::spec_items(a.arenas.spec) == crate::hir::spec_items(b.arenas.spec),
        a.top_decs@ == b.top_decs@,
        a.ptrs@ == b.ptrs@,
{
}

impl SourceFile {
    /// The source file of a text: the text is lexed, parsed and lowered.
    pub fn from_text(text: &str) -> (r: SourceFile)
        requires
            vstd::utf8::encode_utf8(text@).len() <= u32::MAX,
        ensures
            error_keys(r.syntax_errors@) == front_errors(vstd::utf8::encode_utf8(text@)),
            lowered_as(
                r.lowered,
                front_spec(vstd::utf8::encode_utf8(text@)).out,
                front_ptrs(vstd::utf8::encode_utf8(text@)),
            ),
    {
        let bytes = text.as_bytes();
        let lexed = crate::lex::get_bytes(bytes);
        let mut p = crate::parse::Parser::new(&lexed.tokens);
        crate::parse::item(&mut p, crate::parse::Item::Root, crate::parse::FUEL);
        let trees = crate::syntax::trees(p.events());
        let found = crate::syntax::errors(p.events(), p.tokens(), bytes.len() as u32);
        let cx = crate::lower::node::Cx { tokens: p.tokens(), text: bytes };
        let st = crate::lower::tree::get(&cx, &trees);
        let mut syntax_errors = lex_errors_of(&lexed.errors);
        let mut more = parse_errors(&found);
        let ghost a = error_keys(syntax_errors@);
        let ghost b = error_keys(more@);
        syntax_errors.append(&mut more);
        assert(error_keys(syntax_errors@) =~= a + b);
        let mut last = lower_errors(&st.errors, p.tokens());
        let ghost c = error_keys(last@);
        syntax_errors.append(&mut last);
        assert(error_keys(syntax_errors@) =~= a + b + c);
        SourceFile {
            syntax_errors,
            lowered: Lowered {
                arenas: st.arenas,
                top_decs: st.top_decs,
                ptrs: ptrs_of(&st.ptrs, p.tokens()),
            },
        }
    }

    /// A source file with its text: the errors of lexing the text come
    /// first, then the errors of parsing and lowering.
    pub fn new(text: &str, errors: Vec<Error>, lowered: Lowered) -> (r: SourceFile)
        requires
            vstd::utf8::encode_utf8(text@).len() <= u32::MAX,
        ensures
            error_keys(r.syntax_errors@) == lex_error_keys(
                crate::lex::lex_spec(vstd::utf8::encode_utf8(text@)).1,
            ) + error_keys(errors@),
            r.lowered == lowered,
    {
        let mut syntax_errors = lex_errors(text);
        let ghost front = error_keys(syntax_errors@);
        let mut errors = errors;
        let ghost back = error_keys(errors@);
        syntax_errors.append(&mut errors);
        assert(error_keys(syntax_errors@) =~= front + back);
        SourceFile { syntax_errors, lowered }
    }
}

/// A group of source files.
#[derive(Debug)]
pub struct Group {
    /// The source file paths, in order.
    pub source_files: Vec<PathId>,
    /// The dependencies of this group on other groups.
    pub dependencies: Vec<PathId>,
}

/// The input to analysis.
pub struct Input {
    /// The source files with their contents. Of two entries for one file
    /// the first counts.
    pub sources: Vec<(PathId, SourceFile)>,
    /// The groups. Of two entries for one group the first counts.
    pub groups: Vec<(PathId, Group)>,
}

/// The groups depend on each other in a cycle.
#[derive(Debug, Clone, Copy, PartialEq, Eq, Structural)]
pub struct CycleError {}

/// Performs analysis.
#[derive(Debug)]
pub struct Analysis {
    std_basis: StdBasis,
}

/// The range of the first pointer for a node, if there is one.
pub open spec fn ptr_range(ptrs: Seq<(Idx, TextRange)>, idx: Idx, from: int) -> Option<TextRange>
    decreases ptrs.len() - from,
{
    if from < 0 || from >= ptrs.len() {
        None
    } else if ptrs[from].0 == idx {
        Some(ptrs[from].1)
    } else {
        ptr_range(ptrs, idx, from + 1)
    }
}

/// The errors of the type checker `errors[from..]` as errors of a file,
/// behind `acc`: each gets the range of the syntax that its node came from
/// and its message; one whose node has no range is left out.
pub open spec fn statics_errors_spec(
    errors: Seq<crate::statics::error::Error>,
    from: int,
    ptrs: Seq<(Idx, TextRange)>,
    s: Entries,
    syms: SymsView,
    acc: Seq<ErrorKey>,
) -> Seq<ErrorKey>
    decreases errors.len() - from,
{
    if from < 0 || from >= errors.len() {
        acc
    } else {
        statics_errors_spec(
            errors,
            from + 1,
            ptrs,
            s,
            syms,
            match ptr_range(ptrs, errors[from].idx, 0) {
                None => acc,
                Some(range) => acc.push(
                    ErrorKey {
                        range,
                        message: error_text(s, syms, errors[from].kind),
                        code: code_of(errors[from].kind),
                    },
                ),
            },
        )
    }
}

/// Where an error that starts at `start` goes among the first `j` errors
/// of `acc`: behind every error that starts no later.
pub open spec fn place(acc: Seq<ErrorKey>, start: u32, j: int) -> int
    decreases j,
{
    if 0 < j <= acc.len() && acc[j - 1].range.start > start {
        place(acc, start, j - 1)
    } else {
        j
    }
}

/// The errors with one more: it goes behind every error that starts no
/// later than it does.
pub open spec fn put(acc: Seq<ErrorKey>, e: ErrorKey) -> Seq<ErrorKey> {
    acc.insert(place(acc, e.range.start, acc.len() as int), e)
}

/// The errors `es[..upto]` in the order of the text: by where they start;
/// of two that start at the same place, the one that came first stays
/// first.
pub open spec fn by_start_upto(es: Seq<ErrorKey>, upto: int) -> Seq<ErrorKey>
    decreases upto,
{
    if upto <= 0 {
        Seq::empty()
    } else {
        put(by_start_upto(es, upto - 1), es[upto - 1])
    }
}

/// The errors in the order of the text.
pub open spec fn by_start(es: Seq<ErrorKey>) -> Seq<ErrorKey> {
    by_start_upto(es, es.len() as int)
}

/// Whether no error starts before an error in front of it.
pub open spec fn in_order(es: Seq<ErrorKey>) -> bool {
    forall|i: int, j: int|
        0 <= i < j < es.len() ==> (#[trigger] es[i]).range.start <= (#[trigger] es[j]).range.start
}

/// `place` is a place among the first `j` errors; every error from there
/// up to `j` starts later than `start`, and the error in front of it, if
/// there is one, starts no later.
pub proof fn lemma_place(acc: Seq<ErrorKey>, start: u32, j: int)
    requires
        0 <= j <= acc.len(),
    ensures
        0 <= place(acc, start, j) <= j,
        forall|k: int| place(acc, start, j) <= k < j ==> (#[trigger] acc[k]).range.start > start,
        place(acc, start, j) > 0 ==> acc[place(acc, start, j) - 1].range.start <= start,
    decreases j,
{
    if 0 < j && acc[j - 1].range.start > start {
        lemma_place(acc, start, j - 1);
    }
}

/// Putting an error among errors that are in order keeps them in order,
/// and adds the error and nothing else.
pub proof fn lemma_put(acc: Seq<ErrorKey>, e: ErrorKey)
    requires
        in_order(acc),
    ensures
        in_order(put(acc, e)),
        put(acc, e).len() == acc.len() + 1,
        put(acc, e).to_multiset() == acc.to_multiset().insert(e),
{
    let p = place(acc, e.range.start, acc.len() as int);
    lemma_place(acc, e.range.start, acc.len() as int);
    vstd::seq_lib::to_multiset_insert(acc, p, e);
    let r = put(acc, e);
    assert forall|i: int, j: int| 0 <= i < j < r.len() implies (#[trigger] r[i]).range.start <= (
    #[trigger] r[j]).range.start by {
        if j < p {
            assert(r[i] == acc[i] && r[j] == acc[j]);
        } else if j == p {
            assert(r[i] == acc[i]);
            if p > 0 {
                assert(acc[p - 1].range.start <= e.range.start);
                if i < p - 1 {
                    assert(acc[i].range.start <= acc[p - 1].range.start);
                }
            }
        } else if i < p {
            assert(r[i] == acc[i] && r[j] == acc[j - 1]);
            if i < j - 1 {
                assert(acc[i].range.start <= acc[j - 1].range.start);
            }
        } else if i == p {
            assert(r[j] == acc[j - 1]);
            assert(acc[j - 1].range.start > e.range.start);
        } else {
            assert(r[i] == acc[i - 1] && r[j] == acc[j - 1]);
        }
    }
}

/// The errors in the order of the text are in order, and are the same
/// errors, each as often as before.
pub proof fn law_by_start(es: Seq<ErrorKey>, upto: int)
    requires
        0 <= upto <= es.len(),
    ensures
        in_order(by_start_upto(es, upto)),
        by_start_upto(es, upto).len() == upto,
        by_start_upto(es, upto).to_multiset() == es.take(upto).to_multiset(),
    decreases upto,
{
    broadcast use vstd::seq_lib::group_to_multiset_ensures;

    if upto > 0 {
        law_by_start(es, upto - 1);
        lemma_put(by_start_upto(es, upto - 1), es[upto - 1]);
        assert(es.take(upto) =~= es.take(upto - 1).push(es[upto - 1]));
    } else {
        assert(es.take(0) =~= Seq::<ErrorKey>::empty());
    }
}

/// Putting the errors in the order of the text keeps every range within
/// the text.
pub proof fn lemma_by_start_within(es: Seq<ErrorKey>, upto: int, len: nat)
    requires
        0 <= upto <= es.len(),
        all_within(es, len),
    ensures
        all_within(by_start_upto(es, upto), len),
    decreases upto,
{
    if upto > 0 {
        lemma_by_start_within(es, upto - 1, len);
        let acc = by_start_upto(es, upto - 1);
        let e = es[upto - 1];
        law_by_start(es, upto - 1);
        lemma_place(acc, e.range.start, acc.len() as int);
        let p = place(acc, e.range.start, acc.len() as int);
        let r = put(acc, e);
        assert forall|i: int| 0 <= i < r.len() implies (#[trigger] r[i]).range.within(len) by {
            if i < p {
                assert(r[i] == acc[i]);
            } else if i == p {
                assert(r[i] == e);
            } else {
                assert(r[i] == acc[i - 1]);
            }
        }
    }
}

/// The top-level declarations `decs[from..]` in order: each sees the names
/// of those before it, and adds its own to the environment.
pub open spec fn tops_spec(n: Nodes, st: StView, env: Env, decs: Seq<StrDecIdx>, from: int) -> (
    StView,
    Env,
)
    decreases decs.len() - from,
{
    if from < 0 || from >= decs.len() {
        (st, env)
    } else {
        let (st1, more) = str_dec_spec(n, st, env, decs[from], FUEL as nat);
        tops_spec(n, st1, extended(env, more), decs, from + 1)
    }
}

/// What a state holds once its errors were taken out.
pub open spec fn without_errors(st: StView) -> StView {
    StView { errors: Seq::empty(), ..st }
}

/// The analysis of one file in a state and an environment: the state
/// afterwards, without errors, the environment with the names of the file,
/// and the errors of the file in the order of the text: by where they
/// start; of two that start at the same place, the one of the earlier pass
/// comes first: lexing, parsing, lowering, type checking.
pub open spec fn file_spec(
    st: StView,
    env: Env,
    syntax_errors: Seq<ErrorKey>,
    n: Nodes,
    top_decs: Seq<StrDecIdx>,
    ptrs: Seq<(Idx, TextRange)>,
) -> (StView, Env, Seq<ErrorKey>) {
    let (st1, env1) = tops_spec(n, st, env, top_decs, 0);
    (
        without_errors(st1),
        env1,
        by_start(statics_errors_spec(st1.errors, 0, ptrs, st1.subst, st1.syms, syntax_errors)),
    )
}

impl SourceFile {
    /// The errors of a file when it is analysed in a state and an
    /// environment.
    pub open spec fn analysed(self, st: StView, env: Env) -> (StView, Env, Seq<ErrorKey>) {
        file_spec(
            st,
            env,
            error_keys(self.syntax_errors@),
            self.lowered.arenas.nodes(),
            self.lowered.top_decs@,
            self.lowered.ptrs@,
        )
    }
}

/// Every range of the errors lies within a text of `len` bytes.
pub open spec fn all_within(errors: Seq<ErrorKey>, len: nat) -> bool {
    forall|i: int| 0 <= i < errors.len() ==> (#[trigger] errors[i]).range.within(len)
}

/// Every range of the pointers lies within a text of `len` bytes.
pub open spec fn ptrs_within(ptrs: Seq<(Idx, TextRange)>, len: nat) -> bool {
    forall|i: int| 0 <= i < ptrs.len() ==> (#[trigger] ptrs[i]).1.within(len)
}

proof fn lemma_ptr_range_within(ptrs: Seq<(Idx, TextRange)>, idx: Idx, from: int, len: nat)
    requires
        ptrs_within(ptrs, len),
    ensures
        ptr_range(ptrs, idx, from) matches Some(r) ==> r.within(len),
    decreases ptrs.len() - from,
{
    if 0 <= from < ptrs.len() {
        assert(ptrs[from].1.within(len));
        lemma_ptr_range_within(ptrs, idx, from + 1, len);
    }
}

proof fn lemma_statics_errors_within(
    errors: Seq<crate::statics::error::Error>,
    from: int,
    ptrs: Seq<(Idx, TextRange)>,
    s: Entries,
    syms: SymsView,
    acc: Seq<ErrorKey>,
    len: nat,
)
    requires
        ptrs_within(ptrs, len),
        all_within(acc, len),
    ensures
        all_within(statics_errors_spec(errors, from, ptrs, s, syms, acc), len),
    decreases errors.len() - from,
{
    if 0 <= from < errors.len() {
        lemma_ptr_range_within(ptrs, errors[from].idx, 0, len);
        let acc2 = match ptr_range(ptrs, errors[from].idx, 0) {
            None => acc,
            Some(range) => acc.push(
                ErrorKey {
                    range,
                    message: error_text(s, syms, errors[from].kind),
                    code: code_of(errors[from].kind),
                },
            ),
        };
        assert(all_within(acc2, len));
        lemma_statics_errors_within(errors, from + 1, ptrs, s, syms, acc2, len);
    }
}

/// The range of every error that the analysis of a file emits lies within
/// the text of the file, when the ranges that come with the file do: those
/// of its errors of lexing, parsing and lowering, and those of the syntax
/// that its nodes came from.
pub proof fn law_ranges_within(
    st: StView,
    env: Env,
    syntax_errors: Seq<ErrorKey>,
    n: Nodes,
    top_decs: Seq<StrDecIdx>,
    ptrs: Seq<(Idx, TextRange)>,
    len: nat,
)
    requires
        all_within(syntax_errors, len),
        ptrs_within(ptrs, len),
    ensures
        all_within(file_spec(st, env, syntax_errors, n, top_decs, ptrs).2, len),
{
    let (st1, env1) = tops_spec(n, st, env, top_decs, 0);
    lemma_statics_errors_within(st1.errors, 0, ptrs, st1.subst, st1.syms, syntax_errors, len);
    let es = statics_errors_spec(st1.errors, 0, ptrs, st1.subst, st1.syms, syntax_errors);
    lemma_by_start_within(es, es.len() as int, len);
}

/// Whether the groups hold a group with the id.
pub open spec fn is_group(groups: Seq<(PathId, Group)>, id: PathId) -> bool {
    exists|i: int| 0 <= i < groups.len() && (#[trigger] groups[i]).0 == id
}

/// Whether every dependency of `deps[from..]` that is a group is placed.
pub open spec fn deps_placed(
    groups: Seq<(PathId, Group)>,
    deps: Seq<PathId>,
    from: int,
    placed: Seq<PathId>,
) -> bool
    decreases deps.len() - from,
{
    if from < 0 || from >= deps.len() {
        true
    } else {
        (!is_group(groups, deps[from]) || placed.contains(deps[from])) && deps_placed(
            groups,
            deps,
            from + 1,
            placed,
        )
    }
}

/// Whether the group at position `i` can be placed next: it is not placed,
/// and its dependencies are.
pub open spec fn ready(groups: Seq<(PathId, Group)>, i: int, placed: Seq<PathId>) -> bool {
    !placed.contains(groups[i].0) && deps_placed(groups, groups[i].1.dependencies@, 0, placed)
}

/// The group of `groups[from..]` with the smallest id that can be placed
/// next, if it is smaller than `best`; else `best`.
pub open spec fn min_ready(
    groups: Seq<(PathId, Group)>,
    from: int,
    placed: Seq<PathId>,
    best: Option<PathId>,
) -> Option<PathId>
    decreases groups.len() - from,
{
    if from < 0 || from >= groups.len() {
        best
    } else {
        min_ready(
            groups,
            from + 1,
            placed,
            if ready(groups, from, placed) && (best is None || groups[from].0.raw < best->0.raw) {
                Some(groups[from].0)
            } else {
                best
            },
        )
    }
}

/// Whether every group of `groups[from..]` is placed.
pub open spec fn all_placed(groups: Seq<(PathId, Group)>, from: int, placed: Seq<PathId>) -> bool
    decreases groups.len() - from,
{
    if from < 0 || from >= groups.len() {
        true
    } else {
        placed.contains(groups[from].0) && all_placed(groups, from + 1, placed)
    }
}

/// The order in which the groups are analysed, in at most `rounds` more
/// rounds: in each round the group with the smallest id whose dependencies
/// are placed comes next. When groups are left and none can come next, the
/// groups depend on each other in a cycle.
pub open spec fn order_spec(groups: Seq<(PathId, Group)>, placed: Seq<PathId>, rounds: nat) -> Result<
    Seq<PathId>,
    CycleError,
>
    decreases rounds,
{
    match min_ready(groups, 0, placed, None) {
        Some(id) => if rounds == 0 {
            Err(CycleError {  })
        } else {
            order_spec(groups, placed.push(id), (rounds - 1) as nat)
        },
        None => if all_placed(groups, 0, placed) {
            Ok(placed)
        } else {
            Err(CycleError {  })
        },
    }
}

/// Whether every group of the order comes behind its dependencies: each
/// dependency that is a group stands further to the front.
pub open spec fn respects_deps(groups: Seq<(PathId, Group)>, order: Seq<PathId>) -> bool {
    forall|p: int, i: int, d: int|
        0 <= p < order.len() && 0 <= i < groups.len() && (#[trigger] groups[i]).0 == (
        #[trigger] order[p]) && 0 <= d < groups[i].1.dependencies@.len() && is_group(
            groups,
            #[trigger] groups[i].1.dependencies@[d],
        ) ==> order.subrange(0, p).contains(groups[i].1.dependencies@[d])
}

/// Whether no group stands twice in the order.
pub open spec fn no_repeats(order: Seq<PathId>) -> bool {
    forall|p: int, q: int| 0 <= p < q < order.len() ==> order[p] != order[q]
}

proof fn lemma_deps_placed(
    groups: Seq<(PathId, Group)>,
    deps: Seq<PathId>,
    from: int,
    placed: Seq<PathId>,
    d: int,
)
    requires
        deps_placed(groups, deps, from, placed),
        0 <= from <= d < deps.len(),
        is_group(groups, deps[d]),
    ensures
        placed.contains(deps[d]),
    decreases deps.len() - from,
{
    if from < d {
        lemma_deps_placed(groups, deps, from + 1, placed, d);
    }
}

proof fn lemma_min_ready(
    groups: Seq<(PathId, Group)>,
    from: int,
    placed: Seq<PathId>,
    best: Option<PathId>,
)
    requires
        0 <= from <= groups.len(),
        best matches Some(b) ==> exists|i: int|
            0 <= i < groups.len() && (#[trigger] groups[i]).0 == b && ready(groups, i, placed),
    ensures
        min_ready(groups, from, placed, best) matches Some(b) ==> exists|i: int|
            0 <= i < groups.len() && (#[trigger] groups[i]).0 == b && ready(groups, i, placed),
    decreases groups.len() - from,
{
    if from < groups.len() {
        let next = if ready(groups, from, placed) && (best is None || groups[from].0.raw
            < best->0.raw) {
            Some(groups[from].0)
        } else {
            best
        };
        lemma_min_ready(groups, from + 1, placed, next);
    }
}

proof fn lemma_all_placed(groups: Seq<(PathId, Group)>, from: int, placed: Seq<PathId>, i: int)
    requires
        all_placed(groups, from, placed),
        0 <= from <= i < groups.len(),
    ensures
        placed.contains(groups[i].0),
    decreases groups.len() - from,
{
    if from < i {
        lemma_all_placed(groups, from + 1, placed, i);
    }
}

/// The order of analysis respects the dependencies: when no two groups have
/// the same id and there is an order, no group stands in it twice, every
/// group stands in it, and every group stands behind the groups that it
/// depends on.
pub proof fn law_order_respects_deps(
    groups: Seq<(PathId, Group)>,
    placed: Seq<PathId>,
    rounds: nat,
)
    requires
        unique_ids(groups),
        respects_deps(groups, placed),
        no_repeats(placed),
        order_spec(groups, placed, rounds) is Ok,
    ensures
        respects_deps(groups, order_spec(groups, placed, rounds)->Ok_0),
        no_repeats(order_spec(groups, placed, rounds)->Ok_0),
        forall|i: int|
            0 <= i < groups.len() ==> order_spec(groups, placed, rounds)->Ok_0.contains(
                (#[trigger] groups[i]).0,
            ),
    decreases rounds,
{
    match min_ready(groups, 0, placed, None) {
        Some(id) => {
            lemma_min_ready(groups, 0, placed, None);
            let next = placed.push(id);
            assert(no_repeats(next)) by {
                assert forall|p: int, q: int| 0 <= p < q < next.len() implies next[p]
                    != next[q] by {
                    if q == placed.len() {
                        assert(placed[p] == next[p]);
                        if next[p] == id {
                            assert(placed.contains(id));
                        }
                    }
                }
            }
            assert(respects_deps(groups, next)) by {
                assert forall|p: int, i: int, d: int|
                    0 <= p < next.len() && 0 <= i < groups.len() && (#[trigger] groups[i]).0 == (
                    #[trigger] next[p]) && 0 <= d < groups[i].1.dependencies@.len() && is_group(
                        groups,
                        #[trigger] groups[i].1.dependencies@[d],
                    ) implies next.subrange(0, p).contains(groups[i].1.dependencies@[d]) by {
                    let dep = groups[i].1.dependencies@[d];
                    if p < placed.len() {
                        assert(placed[p] == next[p]);
                        assert(placed.subrange(0, p) =~= next.subrange(0, p));
                    } else {
                        assert(next.subrange(0, p) =~= placed);
                        lemma_entry_deps(groups, i, placed, d, id);
                    }
                }
            }
            law_order_respects_deps(groups, next, (rounds - 1) as nat);
        },
        None => {
            assert forall|i: int| 0 <= i < groups.len() implies placed.contains(
                (#[trigger] groups[i]).0,
            ) by {
                lemma_all_placed(groups, 0, placed, i);
            }
        },
    }
}

proof fn lemma_entry_deps(
    groups: Seq<(PathId, Group)>,
    i: int,
    placed: Seq<PathId>,
    d: int,
    id: PathId,
)
    requires
        0 <= i < groups.len(),
        groups[i].0 == id,
        0 <= d < groups[i].1.dependencies@.len(),
        is_group(groups, groups[i].1.dependencies@[d]),
        min_ready(groups, 0, placed, None) == Some(id),
        unique_ids(groups),
    ensures
        placed.contains(groups[i].1.dependencies@[d]),
{
    lemma_min_ready(groups, 0, placed, None);
    let w = choose|w: int|
        0 <= w < groups.len() && (#[trigger] groups[w]).0 == id && ready(groups, w, placed);
    assert(w == i);
    lemma_deps_placed(groups, groups[i].1.dependencies@, 0, placed, d);
}

/// Whether no two groups have the same id.
pub open spec fn unique_ids(groups: Seq<(PathId, Group)>) -> bool {
    forall|i: int, j: int|
        0 <= i < j < groups.len() ==> (#[trigger] groups[i]).0 != (#[trigger] groups[j]).0
}

/// Whether a state and an environment are those that analysis starts
/// from: the symbols, the type constructors and the values of the minimal basis, no solved meta
/// variable, no error.
pub open spec fn starts_from_basis(st: StView, env: Env) -> bool {
    &&& is_basis(st.syms)
    &&& st.subst == Seq::<Option<crate::statics::types::SubstEntry>>::empty()
    &&& st.errors == Seq::<crate::statics::error::Error>::empty()
    &&& st.next_meta == 0
    &&& env.str_env is Nil
    &&& crate::statics::env::closed_vals(*env.val_env)
    &&& forall|n: Seq<char>|
        #[trigger] crate::statics::env::lookup_ty(*env.ty_env, n)
            == crate::statics::basis::basis_ty(n)
    &&& forall|n: Seq<char>|
        #[trigger] crate::statics::env::lookup_val(*env.val_env, n)
            == crate::statics::basis::basis_val(n)
}

/// Whether a state and an environment are those that analysis with the
/// standard basis starts from. The full basis starts from the same state as
/// the minimal one: what it has beyond that is declared in source files.
pub open spec fn starts_from(basis: StdBasis, st: StView, env: Env) -> bool {
    match basis {
        StdBasis::Minimal => starts_from_basis(st, env),
        StdBasis::Full => starts_from_basis(st, env),
    }
}

/// In a state and an environment that analysis starts from, no meta
/// variable is free in the environment: every meta variable of a
/// declaration can be generalised.
pub proof fn law_start_has_no_free_meta(
    st: StView,
    env: Env,
    mv: crate::statics::types::MetaTyVar,
)
    requires
        starts_from_basis(st, env),
    ensures
        !crate::statics::env::in_env(st.subst, env, mv),
{
    crate::statics::env::lemma_closed_vals(st.subst, *env.val_env, mv);
}

/// Whether a source file is that of a text: its errors are those of the
/// passes before type checking, and its lowered form holds what lowering
/// writes.
pub open spec fn is_file_of(file: SourceFile, bytes: Seq<u8>) -> bool {
    &&& error_keys(file.syntax_errors@) == front_errors(bytes)
    &&& lowered_as(file.lowered, front_spec(bytes).out, front_ptrs(bytes))
}

impl Default for StdBasis {
    fn default() -> (r: StdBasis)
        ensures
            r == StdBasis::Full,
    {
        StdBasis::Full
    }
}

impl Default for Analysis {
    fn default() -> (r: Analysis)
        ensures
            r.basis() == StdBasis::Full,
    {
        Analysis { std_basis: StdBasis::Full }
    }
}

impl Default for Input {
    fn default() -> (r: Input)
        ensures
            r.sources@.len() == 0,
            r.groups@.len() == 0,
    {
        Input { sources: Vec::new(), groups: Vec::new() }
    }
}

/// Where the first entry for an id stands in `entries[from..]`.
pub open spec fn find_group(groups: Seq<(PathId, Group)>, id: PathId, from: int) -> Option<int>
    decreases groups.len() - from,
{
    if from < 0 || from >= groups.len() {
        None
    } else if groups[from].0 == id {
        Some(from)
    } else {
        find_group(groups, id, from + 1)
    }
}

/// Where the first entry for an id stands in `sources[from..]`.
pub open spec fn find_source(sources: Seq<(PathId, SourceFile)>, id: PathId, from: int) -> Option<
    int,
>
    decreases sources.len() - from,
{
    if from < 0 || from >= sources.len() {
        None
    } else if sources[from].0 == id {
        Some(from)
    } else {
        find_source(sources, id, from + 1)
    }
}

/// The analysis of the files `files[from..]` in order: a file without
/// contents is left out.
pub open spec fn files_spec(
    sources: Seq<(PathId, SourceFile)>,
    files: Seq<PathId>,
    from: int,
    st: StView,
    env: Env,
    acc: Seq<(PathId, Seq<ErrorKey>)>,
) -> (StView, Env, Seq<(PathId, Seq<ErrorKey>)>)
    decreases files.len() - from,
{
    if from < 0 || from >= files.len() {
        (st, env, acc)
    } else {
        match find_source(sources, files[from], 0) {
            None => files_spec(sources, files, from + 1, st, env, acc),
            Some(i) => {
                let (st1, env1, errors) = sources[i].1.analysed(st, env);
                files_spec(sources, files, from + 1, st1, env1, acc.push((files[from], errors)))
            },
        }
    }
}

/// The analysis of the groups `order[from..]` in order.
pub open spec fn groups_spec(
    groups: Seq<(PathId, Group)>,
    sources: Seq<(PathId, SourceFile)>,
    order: Seq<PathId>,
    from: int,
    st: StView,
    env: Env,
    acc: Seq<(PathId, Seq<ErrorKey>)>,
) -> (StView, Env, Seq<(PathId, Seq<ErrorKey>)>)
    decreases order.len() - from,
{
    if from < 0 || from >= order.len() {
        (st, env, acc)
    } else {
        match find_group(groups, order[from], 0) {
            None => groups_spec(groups, sources, order, from + 1, st, env, acc),
            Some(i) => {
                let (st1, env1, acc1) = files_spec(
                    sources,
                    groups[i].1.source_files@,
                    0,
                    st,
                    env,
                    acc,
                );
                groups_spec(groups, sources, order, from + 1, st1, env1, acc1)
            },
        }
    }
}

/// Whether every source file keeps the ranges that come with it within its
/// text: those of its errors of lexing, parsing and lowering, and those of
/// its pointers. `len` gives the length of the text of each file.
pub open spec fn sources_within(
    sources: Seq<(PathId, SourceFile)>,
    len: spec_fn(PathId) -> nat,
) -> bool {
    forall|i: int|
        0 <= i < sources.len() ==> all_within(
            error_keys((#[trigger] sources[i]).1.syntax_errors@),
            len(sources[i].0),
        ) && ptrs_within(sources[i].1.lowered.ptrs@, len(sources[i].0))
}

/// Whether every error of every file of a result lies within the text of
/// its file.
pub open spec fn results_within(
    r: Seq<(PathId, Seq<ErrorKey>)>,
    len: spec_fn(PathId) -> nat,
) -> bool {
    forall|k: int| 0 <= k < r.len() ==> all_within((#[trigger] r[k]).1, len(r[k].0))
}

/// `find_source` finds a place that holds the id.
pub proof fn lemma_find_source(sources: Seq<(PathId, SourceFile)>, id: PathId, from: int)
    requires
        0 <= from,
    ensures
        find_source(sources, id, from) matches Some(i) ==> from <= i < sources.len()
            && sources[i].0 == id,
    decreases sources.len() - from,
{
    if from < sources.len() && sources[from].0 != id {
        lemma_find_source(sources, id, from + 1);
    }
}

/// The errors of the files of a group lie within the texts of their files,
/// when the ranges that come with the files do.
pub proof fn law_files_within(
    sources: Seq<(PathId, SourceFile)>,
    files: Seq<PathId>,
    from: int,
    st: StView,
    env: Env,
    acc: Seq<(PathId, Seq<ErrorKey>)>,
    len: spec_fn(PathId) -> nat,
)
    requires
        0 <= from,
        sources_within(sources, len),
        results_within(acc, len),
    ensures
        results_within(files_spec(sources, files, from, st, env, acc).2, len),
    decreases files.len() - from,
{
    if from < files.len() {
        lemma_find_source(sources, files[from], 0);
        match find_source(sources, files[from], 0) {
            None => law_files_within(sources, files, from + 1, st, env, acc, len),
            Some(i) => {
                let file = sources[i].1;
                let (st1, env1, errors) = file.analysed(st, env);
                law_ranges_within(
                    st,
                    env,
                    error_keys(file.syntax_errors@),
                    file.lowered.arenas.nodes(),
                    file.lowered.top_decs@,
                    file.lowered.ptrs@,
                    len(sources[i].0),
                );
                let acc1 = acc.push((files[from], errors));
                assert forall|k: int| 0 <= k < acc1.len() implies all_within(
                    (#[trigger] acc1[k]).1,
                    len(acc1[k].0),
                ) by {
                    if k < acc.len() {
                        assert(acc1[k] == acc[k]);
                    }
                }
                law_files_within(sources, files, from + 1, st1, env1, acc1, len);
            },
        }
    }
}

/// Every error that the analysis of many files emits lies within the text
/// of its file, when the ranges that come with the files do: those of
/// their errors of lexing, parsing and lowering, and those of their
/// pointers.
pub proof fn law_groups_within(
    groups: Seq<(PathId, Group)>,
    sources: Seq<(PathId, SourceFile)>,
    order: Seq<PathId>,
    from: int,
    st: StView,
    env: Env,
    acc: Seq<(PathId, Seq<ErrorKey>)>,
    len: spec_fn(PathId) -> nat,
)
    requires
        0 <= from,
        sources_within(sources, len),
        results_within(acc, len),
    ensures
        results_within(groups_spec(groups, sources, order, from, st, env, acc).2, len),
    decreases order.len() - from,
{
    if from < order.len() {
        match find_group(groups, order[from], 0) {
            None => law_groups_within(groups, sources, order, from + 1, st, env, acc, len),
            Some(i) => {
                let files = groups[i].1.source_files@;
                law_files_within(sources, files, 0, st, env, acc, len);
                let (st1, env1, acc1) = files_spec(sources, files, 0, st, env, acc);
                law_groups_within(groups, sources, order, from + 1, st1, env1, acc1, len);
            },
        }
    }
}

/// What each entry of a result says.
pub open spec fn result_keys(r: Seq<(PathId, Vec<Error>)>) -> Seq<(PathId, Seq<ErrorKey>)> {
    Seq::new(r.len(), |i: int| (r[i].0, error_keys(r[i].1@)))
}

fn find_ptr(ptrs: &Vec<(Idx, TextRange)>, idx: Idx) -> (r: Option<TextRange>)
    ensures
        r == ptr_range(ptrs@, idx, 0),
{
    let mut i: usize = 0;
    while i < ptrs.len()
        invariant
            i <= ptrs.len(),
            ptr_range(ptrs@, idx, 0) == ptr_range(ptrs@, idx, i as int),
        decreases ptrs.len() - i,
    {
        if ptrs[i].0 == idx {
            return Some(ptrs[i].1);
        }
        i += 1;
    }
    None
}

fn contains(v: &Vec<PathId>, id: PathId) -> (r: bool)
    ensures
        r == v@.contains(id),
{
    let mut i: usize = 0;
    while i < v.len()
        invariant
            i <= v.len(),
            forall|j: int| 0 <= j < i ==> v@[j] != id,
        decreases v.len() - i,
    {
        if v[i] == id {
            return true;
        }
        i += 1;
    }
    false
}

fn group_index(groups: &Vec<(PathId, Group)>, id: PathId) -> (r: Option<usize>)
    ensures
        match r {
            Some(i) => find_group(groups@, id, 0) == Some(i as int) && i < groups.len()
                && groups@[i as int].0 == id,
            None => find_group(groups@, id, 0) is None && !is_group(groups@, id),
        },
{
    let mut i: usize = 0;
    while i < groups.len()
        invariant
            i <= groups.len(),
            find_group(groups@, id, 0) == find_group(groups@, id, i as int),
            forall|j: int| 0 <= j < i ==> (#[trigger] groups@[j]).0 != id,
        decreases groups.len() - i,
    {
        if groups[i].0 == id {
            return Some(i);
        }
        i += 1;
    }
    None
}

fn source_index(sources: &Vec<(PathId, SourceFile)>, id: PathId) -> (r: Option<usize>)
    ensures
        match r {
            Some(i) => find_source(sources@, id, 0) == Some(i as int) && i < sources.len(),
            None => find_source(sources@, id, 0) is None,
        },
{
    let mut i: usize = 0;
    while i < sources.len()
        invariant
            i <= sources.len(),
            find_source(sources@, id, 0) == find_source(sources@, id, i as int),
        decreases sources.len() - i,
    {
        if sources[i].0 == id {
            return Some(i);
        }
        i += 1;
    }
    None
}

fn deps_are_placed(groups: &Vec<(PathId, Group)>, deps: &Vec<PathId>, placed: &Vec<PathId>) -> (r:
    bool)
    ensures
        r == deps_placed(groups@, deps@, 0, placed@),
{
    let mut i: usize = 0;
    while i < deps.len()
        invariant
            i <= deps.len(),
            deps_placed(groups@, deps@, 0, placed@) == deps_placed(
                groups@,
                deps@,
                i as int,
                placed@,
            ),
        decreases deps.len() - i,
    {
        let is = match group_index(groups, deps[i]) {
            Some(j) => {
                assert(groups@[j as int].0 == deps@[i as int]);
                true
            },
            None => false,
        };
        if is && !contains(placed, deps[i]) {
            return false;
        }
        i += 1;
    }
    true
}

fn next_ready(groups: &Vec<(PathId, Group)>, placed: &Vec<PathId>) -> (r: Option<PathId>)
    ensures
        r == min_ready(groups@, 0, placed@, None),
{
    let mut best: Option<PathId> = None;
    let mut i: usize = 0;
    while i < groups.len()
        invariant
            i <= groups.len(),
            min_ready(groups@, 0, placed@, None) == min_ready(groups@, i as int, placed@, best),
        decreases groups.len() - i,
    {
        let id = groups[i].0;
        let smaller = match best {
            None => true,
            Some(b) => id.raw < b.raw,
        };
        if smaller && !contains(placed, id) && deps_are_placed(
            groups,
            &groups[i].1.dependencies,
            placed,
        ) {
            best = Some(id);
        }
        i += 1;
    }
    best
}

fn groups_all_placed(groups: &Vec<(PathId, Group)>, placed: &Vec<PathId>) -> (r: bool)
    ensures
        r == all_placed(groups@, 0, placed@),
{
    let mut i: usize = 0;
    while i < groups.len()
        invariant
            i <= groups.len(),
            all_placed(groups@, 0, placed@) == all_placed(groups@, i as int, placed@),
        decreases groups.len() - i,
    {
        if !contains(placed, groups[i].0) {
            return false;
        }
        i += 1;
    }
    true
}

/// The order in which the groups are analysed: every group behind the
/// groups that it depends on, and of the groups that can come next the one
/// with the smallest id first.
pub fn order(groups: &Vec<(PathId, Group)>) -> (r: Result<Vec<PathId>, CycleError>)
    ensures
        match order_spec(groups@, Seq::empty(), groups@.len()) {
            Ok(o) => r is Ok && r->Ok_0@ == o,
            Err(e) => r == Err::<Vec<PathId>, CycleError>(e),
        },
{
    let mut placed: Vec<PathId> = Vec::new();
    let mut rounds: usize = groups.len();
    loop
        invariant
            rounds <= groups.len(),
            order_spec(groups@, Seq::empty(), groups@.len()) == order_spec(
                groups@,
                placed@,
                rounds as nat,
            ),
        decreases rounds,
    {
        match next_ready(groups, &placed) {
            Some(id) => {
                if rounds == 0 {
                    return Err(CycleError {  });
                }
                placed.push(id);
                rounds -= 1;
            },
            None => {
                if groups_all_placed(groups, &placed) {
                    return Ok(placed);
                } else {
                    return Err(CycleError {  });
                }
            },
        }
    }
}

/// An analysed file: what came with the file, and the errors of the type
/// checker.
pub struct AnalyzedFile<'a> {
    pub file: &'a SourceFile,
    pub statics_errors: Vec<crate::statics::error::Error>,
}

impl<'a> AnalyzedFile<'a> {
    /// The errors of the file in the order of the passes: those of lexing,
    /// parsing and lowering, then those of the type checker.
    pub open spec fn pass_errors(self, st: StView) -> Seq<ErrorKey> {
        statics_errors_spec(
            self.statics_errors@,
            0,
            self.file.lowered.ptrs@,
            st.subst,
            st.syms,
            error_keys(self.file.syntax_errors@),
        )
    }

    /// A file that the type checker has yet to see.
    pub fn new(file: &'a SourceFile) -> (r: AnalyzedFile<'a>)
        ensures
            r.file == file,
            r.statics_errors@ == Seq::<crate::statics::error::Error>::empty(),
    {
        AnalyzedFile { file, statics_errors: Vec::new() }
    }

    /// The errors of the file in the order of the text: those of lexing,
    /// parsing and lowering, and those of the type checker, each with the
    /// range of the syntax that its node came from and with its message.
    /// They are sorted by where they start, and they are the errors of the
    /// passes, each as often as the passes gave it; of two that start at
    /// the same place, the one of the earlier pass comes first.
    pub fn into_errors(self, st: &St) -> (r: Vec<Error>)
        ensures
            error_keys(r@) == by_start(self.pass_errors(st@)),
            in_order(error_keys(r@)),
            error_keys(r@).to_multiset() == self.pass_errors(st@).to_multiset(),
    {
        let mut out: Vec<Error> = Vec::new();
        let mut i: usize = 0;
        while i < self.file.syntax_errors.len()
            invariant
                i <= self.file.syntax_errors.len(),
                error_keys(out@) == error_keys(self.file.syntax_errors@).take(i as int),
            decreases self.file.syntax_errors.len() - i,
        {
            let e = &self.file.syntax_errors[i];
            let ghost before = error_keys(out@);
            let copy = Error { range: e.range, message: e.message.clone(), code: e.code };
            assert(copy@ == self.file.syntax_errors@[i as int]@);
            out.push(copy);
            assert(error_keys(out@) =~= before.push(copy@));
            assert(error_keys(self.file.syntax_errors@).take(i + 1) =~= error_keys(
                self.file.syntax_errors@,
            ).take(i as int).push(self.file.syntax_errors@[i as int]@));
            i += 1;
        }
        assert(error_keys(self.file.syntax_errors@).take(i as int) =~= error_keys(
            self.file.syntax_errors@,
        ));
        let mut j: usize = 0;
        while j < self.statics_errors.len()
            invariant
                j <= self.statics_errors.len(),
                statics_errors_spec(
                    self.statics_errors@,
                    0,
                    self.file.lowered.ptrs@,
                    st@.subst,
                    st@.syms,
                    error_keys(self.file.syntax_errors@),
                ) == statics_errors_spec(
                    self.statics_errors@,
                    j as int,
                    self.file.lowered.ptrs@,
                    st@.subst,
                    st@.syms,
                    error_keys(out@),
                ),
            decreases self.statics_errors.len() - j,
        {
            let e = &self.statics_errors[j];
            match find_ptr(&self.file.lowered.ptrs, e.idx) {
                None => {},
                Some(range) => {
                    let ghost before = error_keys(out@);
                    let message = e.kind.message(&st.subst, &st.syms);
                    let code = error_code(&e.kind);
                    out.push(Error { range, message, code });
                    assert(error_keys(out@) =~= before.push(
                        ErrorKey { range, message: message@, code },
                    ));
                },
            }
            j += 1;
        }
        proof {
            law_by_start(error_keys(out@), error_keys(out@).len() as int);
            assert(error_keys(out@).take(error_keys(out@).len() as int) =~= error_keys(out@));
        }
        sort_errors(&out)
    }
}

/// The errors in the order of the text.
fn sort_errors(errors: &Vec<Error>) -> (r: Vec<Error>)
    ensures
        error_keys(r@) == by_start(error_keys(errors@)),
{
    let mut out: Vec<Error> = Vec::new();
    let mut i: usize = 0;
    assert(error_keys(out@) =~= Seq::<ErrorKey>::empty());
    while i < errors.len()
        invariant
            i <= errors.len(),
            error_keys(out@) == by_start_upto(error_keys(errors@), i as int),
        decreases errors.len() - i,
    {
        let e = &errors[i];
        let ghost keys = error_keys(out@);
        let mut j: usize = out.len();
        while j > 0 && out[j - 1].range.start > e.range.start
            invariant
                j <= out.len(),
                keys == error_keys(out@),
                place(keys, e.range.start, out.len() as int) == place(
                    keys,
                    e.range.start,
                    j as int,
                ),
            decreases j,
        {
            assert(keys[j - 1] == out@[j - 1]@);
            j -= 1;
        }
        if j > 0 {
            assert(keys[j - 1] == out@[j - 1]@);
        }
        let copy = Error { range: e.range, message: e.message.clone(), code: e.code };
        assert(copy@ == error_keys(errors@)[i as int]);
        out.insert(j, copy);
        assert(error_keys(out@) =~= keys.insert(j as int, copy@));
        i += 1;
    }
    out
}

fn analyse(st: &mut St, cx: &mut Cx, file: &SourceFile) -> (r: Vec<Error>)
    requires
        old(st).subst.wf(),
    ensures
        (final(st)@, final(cx).env, error_keys(r@)) == file.analysed(old(st)@, old(cx).env),
        final(st).subst.wf(),
{
    let mut i: usize = 0;
    while i < file.lowered.top_decs.len()
        invariant
            i <= file.lowered.top_decs.len(),
            st.subst.wf(),
            tops_spec(
                file.lowered.arenas.nodes(),
                old(st)@,
                old(cx).env,
                file.lowered.top_decs@,
                0,
            ) == tops_spec(
                file.lowered.arenas.nodes(),
                st@,
                cx.env,
                file.lowered.top_decs@,
                i as int,
            ),
        decreases file.lowered.top_decs.len() - i,
    {
        let more = get_str_dec(st, cx, &file.lowered.arenas, file.lowered.top_decs[i], FUEL);
        cx.env.extend(more);
        i += 1;
    }
    let mut f = AnalyzedFile::new(file);
    std::mem::swap(&mut f.statics_errors, &mut st.errors);
    f.into_errors(st)
}

impl Analysis {
    /// The standard basis that the analysis starts from.
    pub closed spec fn basis(self) -> StdBasis {
        self.std_basis
    }

    /// Returns a new `Analysis`.
    pub fn new(std_basis: StdBasis) -> (r: Analysis)
        ensures
            r.basis() == std_basis,
    {
        Analysis { std_basis }
    }

    /// Given the contents of one isolated file, return the errors for it:
    /// those of the file analysed in a state and an environment that
    /// analysis starts from.
    pub fn get_one(&self, file: &SourceFile) -> (r: Vec<Error>)
        ensures
            exists|st: StView, env: Env| #[trigger]
                starts_from(self.basis(), st, env) && error_keys(r@) == file.analysed(st, env).2,
    {
        let (mut st, mut cx) = match self.std_basis {
            StdBasis::Minimal => minimal(),
            StdBasis::Full => minimal(),
        };
        let ghost st0 = st@;
        let ghost env0 = cx.env;
        let r = analyse(&mut st, &mut cx, file);
        assert(starts_from(self.basis(), st0, env0) && error_keys(r@) == file.analysed(
            st0,
            env0,
        ).2);
        r
    }

    /// Given the text of one isolated file, return the errors for it, in
    /// the order of the text: the text is lexed, parsed, lowered and type
    /// checked.
    pub fn get_text(&self, text: &str) -> (r: Vec<Error>)
        requires
            vstd::utf8::encode_utf8(text@).len() <= u32::MAX,
        ensures
            exists|file: SourceFile, st: StView, env: Env| #[trigger]
                is_file_of(file, vstd::utf8::encode_utf8(text@)) && #[trigger] starts_from(
                    self.basis(),
                    st,
                    env,
                ) && error_keys(r@) == file.analysed(st, env).2,
    {
        let file = SourceFile::from_text(text);
        let (mut st, mut cx) = match self.std_basis {
            StdBasis::Minimal => minimal(),
            StdBasis::Full => minimal(),
        };
        let ghost st0 = st@;
        let ghost env0 = cx.env;
        let r = analyse(&mut st, &mut cx, &file);
        assert(is_file_of(file, vstd::utf8::encode_utf8(text@)) && starts_from(
            self.basis(),
            st0,
            env0,
        ) && error_keys(r@) == file.analysed(st0, env0).2);
        r
    }

    /// Given information about many interdependent source files and their
    /// groupings, returns the errors of each source file, in the order in
    /// which the files were analysed: the groups in dependency order, the
    /// files of a group in their order, each file in the state and the
    /// environment that the files before it left. Groups that depend on
    /// each other in a cycle are an error.
    pub fn get_many(&self, input: &Input) -> (r: Result<Vec<(PathId, Vec<Error>)>, CycleError>)
        ensures
            match order_spec(input.groups@, Seq::empty(), input.groups@.len()) {
                Err(e) => r == Err::<Vec<(PathId, Vec<Error>)>, CycleError>(e),
                Ok(o) => r is Ok && exists|st: StView, env: Env| #[trigger]
                    starts_from(self.basis(), st, env) && result_keys(r->Ok_0@) == groups_spec(
                        input.groups@,
                        input.sources@,
                        o,
                        0,
                        st,
                        env,
                        Seq::empty(),
                    ).2,
            },
    {
        let order = match order(&input.groups) {
            Err(e) => {
                return Err(e);
            },
            Ok(o) => o,
        };
        let (mut st, mut cx) = match self.std_basis {
            StdBasis::Minimal => minimal(),
            StdBasis::Full => minimal(),
        };
        let ghost st0 = st@;
        let ghost env0 = cx.env;
        let mut out: Vec<(PathId, Vec<Error>)> = Vec::new();
        assert(result_keys(out@) =~= Seq::<(PathId, Seq<ErrorKey>)>::empty());
        let mut i: usize = 0;
        while i < order.len()
            invariant
                i <= order.len(),
                st.subst.wf(),
                groups_spec(input.groups@, input.sources@, order@, 0, st0, env0, Seq::empty())
                    == groups_spec(
                    input.groups@,
                    input.sources@,
                    order@,
                    i as int,
                    st@,
                    cx.env,
                    result_keys(out@),
                ),
            decreases order.len() - i,
        {
            match group_index(&input.groups, order[i]) {
                None => {},
                Some(g) => {
                    let files = &input.groups[g].1.source_files;
                    let mut j: usize = 0;
                    let ghost st1 = st@;
                    let ghost env1 = cx.env;
                    let ghost acc1 = result_keys(out@);
                    while j < files.len()
                        invariant
                            j <= files.len(),
                            st.subst.wf(),
                            files_spec(input.sources@, files@, 0, st1, env1, acc1) == files_spec(
                                input.sources@,
                                files@,
                                j as int,
                                st@,
                                cx.env,
                                result_keys(out@),
                            ),
                        decreases files.len() - j,
                    {
                        match source_index(&input.sources, files[j]) {
                            None => {},
                            Some(k) => {
                                let ghost before = result_keys(out@);
                                let errors = analyse(&mut st, &mut cx, &input.sources[k].1);
                                out.push((files[j], errors));
                                assert(result_keys(out@) =~= before.push(
                                    (files@[j as int], error_keys(errors@)),
                                ));
                            },
                        }
                        j += 1;
                    }
                },
            }
            i += 1;
        }
        assert(starts_from(self.basis(), st0, env0));
        Ok(out)
    }
}

} // verus!
