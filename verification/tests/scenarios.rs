use la_arena::Arena;
use millet::analysis::{
    order, Analysis, CycleError, Error, Group, Input, Lowered, PathId, SourceFile, StdBasis,
};
use millet::hir::{Arenas, Dec, Exp, Idx, Int, Lab, Name, Pat, Path, SCon, StrDec, ValBind};
use millet::statics::basis::minimal;
use millet::statics::error::ErrorKind;
use millet::statics::top_dec::get_str_dec;
use millet::text::TextRange;

/// Builds the lowered form of a program by hand. Every node gets a range of
/// its own: node `n` lies at `n..n + 1`.
struct Build {
    ars: Arenas,
    ptrs: Vec<(Idx, TextRange)>,
    top_decs: Vec<Option<u32>>,
    next: u32,
}

impl Build {
    fn new() -> Build {
        Build {
            ars: Arenas {
                str_dec: Arena::new(),
                str_exp: Arena::new(),
                sig_exp: Arena::new(),
                spec: Arena::new(),
                exp: Arena::new(),
                dec: Arena::new(),
                pat: Arena::new(),
                ty: Arena::new(),
            },
            ptrs: Vec::new(),
            top_decs: Vec::new(),
            next: 0,
        }
    }

    fn ptr(&mut self, idx: Idx) {
        self.ptrs.push((idx, TextRange::new(self.next, self.next + 1)));
        self.next += 1;
    }

    fn exp(&mut self, e: Exp) -> Option<u32> {
        let i = self.ars.exp.alloc(e).into_raw().into_u32();
        self.ptr(Idx::Exp(i));
        Some(i)
    }

    fn pat(&mut self, p: Pat) -> Option<u32> {
        let i = self.ars.pat.alloc(p).into_raw().into_u32();
        self.ptr(Idx::Pat(i));
        Some(i)
    }

    fn dec(&mut self, d: Dec) -> Option<u32> {
        let i = self.ars.dec.alloc(d).into_raw().into_u32();
        self.ptr(Idx::Dec(i));
        Some(i)
    }

    fn top(&mut self, d: Option<u32>) {
        let i = self.ars.str_dec.alloc(StrDec::Dec(d)).into_raw().into_u32();
        self.top_decs.push(Some(i));
    }

    fn var(&mut self, s: &str) -> Option<u32> {
        self.exp(Exp::Path(Path::one(Name::new(s))))
    }

    fn pvar(&mut self, s: &str) -> Option<u32> {
        self.pat(Pat::Con(Path::one(Name::new(s)), None))
    }

    fn int_lit(&mut self, i: i32) -> Option<u32> {
        self.exp(Exp::SCon(SCon::Int(Int::Finite(i))))
    }

    fn real_lit(&mut self, s: &str) -> Option<u32> {
        self.exp(Exp::SCon(SCon::Real(s.to_owned())))
    }

    fn tuple(&mut self, es: Vec<Option<u32>>) -> Option<u32> {
        let rows = es.into_iter().enumerate().map(|(i, e)| (Lab::tuple(i), e)).collect();
        self.exp(Exp::Record(rows))
    }

    fn app(&mut self, f: Option<u32>, a: Option<u32>) -> Option<u32> {
        self.exp(Exp::App(f, a))
    }

    /// `a op b`
    fn infix(&mut self, a: Option<u32>, op: &str, b: Option<u32>) -> Option<u32> {
        let arg = self.tuple(vec![a, b]);
        let f = self.var(op);
        self.app(f, arg)
    }

    /// `val pat = exp`
    fn val(&mut self, pat: Option<u32>, exp: Option<u32>) {
        let d = self.dec(Dec::Val(Vec::new(), vec![ValBind { rec: false, pat, exp }]));
        self.top(d);
    }

    /// `fun name param = body`
    fn fun(&mut self, name: &str, param: Option<u32>, body: Option<u32>) {
        let f = self.exp(Exp::Fn(vec![(param, body)]));
        let pat = self.pvar(name);
        let d = self.dec(Dec::Val(Vec::new(), vec![ValBind { rec: true, pat, exp: f }]));
        self.top(d);
    }

    fn range_of(&self, idx: Idx) -> TextRange {
        self.ptrs.iter().find(|p| p.0 == idx).unwrap().1
    }

    fn finish(self) -> SourceFile {
        SourceFile {
            syntax_errors: Vec::new(),
            lowered: Lowered { arenas: self.ars, top_decs: self.top_decs, ptrs: self.ptrs },
        }
    }
}

fn get_one(file: &SourceFile) -> Vec<Error> {
    Analysis::new(StdBasis::Minimal).get_one(file)
}

// val _ = 1.1 + 1
#[test]
fn mismatched_real_and_int() {
    let mut b = Build::new();
    let x = b.real_lit("1.1");
    let y = b.int_lit(1);
    let sum = b.infix(x, "+", y);
    let w = b.pat(Pat::Wild);
    b.val(w, sum);
    let at = b.range_of(Idx::Exp(sum.unwrap()));
    let errors = get_one(&b.finish());
    assert_eq!(errors.len(), 1, "{:?}", errors);
    assert_eq!(errors[0].message, "mismatched types: expected real, found int");
    assert_eq!(errors[0].range, at);
    assert_eq!(errors[0].code, 5015);
}

// val _ = 1 div 0.5
#[test]
fn overload_mismatch_of_div() {
    let mut b = Build::new();
    let x = b.int_lit(1);
    let y = b.real_lit("0.5");
    let q = b.infix(x, "div", y);
    let w = b.pat(Pat::Wild);
    b.val(w, q);
    let file = b.finish();
    let errors = get_one(&file);
    assert_eq!(errors.len(), 1, "{:?}", errors);
    assert_eq!(errors[0].message, "int is not compatible with real");
    let (mut st, cx) = minimal();
    for &d in &file.lowered.top_decs {
        get_str_dec(&mut st, &cx, &file.lowered.arenas, d, u64::MAX);
    }
    assert!(matches!(st.errors[0].kind, ErrorKind::OverloadMismatch(_, _, false)));
}

// val _ = (1 div 1) / 0.5
#[test]
fn overload_is_not_compatible_with_a_type() {
    let mut b = Build::new();
    let x = b.int_lit(1);
    let y = b.int_lit(1);
    let q = b.infix(x, "div", y);
    let z = b.real_lit("0.5");
    let r = b.infix(q, "/", z);
    let w = b.pat(Pat::Wild);
    b.val(w, r);
    let errors = get_one(&b.finish());
    assert_eq!(errors.len(), 1, "{:?}", errors);
    assert_eq!(errors[0].message, "int is not compatible with real");
}

// fun f x = x x
#[test]
fn circularity() {
    let mut b = Build::new();
    let x1 = b.var("x");
    let x2 = b.var("x");
    let xx = b.app(x1, x2);
    let param = b.pvar("x");
    b.fun("f", param, xx);
    let at = b.range_of(Idx::Exp(xx.unwrap()));
    let file = b.finish();
    let errors = get_one(&file);
    assert_eq!(errors.len(), 1, "{:?}", errors);
    assert_eq!(errors[0].range, at);
    assert_eq!(errors[0].code, 5003);
    assert_eq!(errors[0].message, "circular type: `?a` occurs in `?a -> ?b`");
    let (mut st, cx) = minimal();
    for &d in &file.lowered.top_decs {
        get_str_dec(&mut st, &cx, &file.lowered.arenas, d, u64::MAX);
    }
    assert!(matches!(st.errors[0].kind, ErrorKind::Circularity(_, _)));
}

// val x = y
#[test]
fn errors_are_in_the_order_of_the_text() {
    let mut b = Build::new();
    let y = b.var("y");
    let x = b.pvar("x");
    b.val(x, y);
    let z = b.var("z");
    let w = b.pvar("w");
    b.val(w, z);
    let at_y = b.range_of(Idx::Exp(y.unwrap()));
    let at_z = b.range_of(Idx::Exp(z.unwrap()));
    let mut file = b.finish();
    file.syntax_errors.push(Error {
        range: TextRange::new(7, 9),
        message: "incomplete literal".to_owned(),
        code: 2003,
    });
    let errors = get_one(&file);
    let got: Vec<_> = errors.iter().map(|e| (e.range, e.message.as_str(), e.code)).collect();
    // the nodes lie at 0..1, 1..2, ...: the error of the lexer at 7..9 comes
    // behind the errors of the type checker in front of it
    assert!(at_y.start < at_z.start && at_z.start < 7);
    assert_eq!(
        got,
        vec![
            (at_y, "undefined identifier", 5001),
            (at_z, "undefined identifier", 5001),
            (TextRange::new(7, 9), "incomplete literal", 2003),
        ]
    );
    // of two errors at one place, the one of the earlier pass comes first
    let mut b = Build::new();
    let y = b.var("y");
    let x = b.pvar("x");
    b.val(x, y);
    let at_y = b.range_of(Idx::Exp(y.unwrap()));
    let mut file = b.finish();
    file.syntax_errors.push(Error {
        range: TextRange::new(at_y.start, at_y.start + 5),
        message: "first".to_owned(),
        code: 2003,
    });
    let errors = get_one(&file);
    let got: Vec<_> = errors.iter().map(|e| e.code).collect();
    assert_eq!(got, vec![2003, 5001]);
}

// an error at a node without a pointer is left out
#[test]
fn error_without_a_range_is_left_out() {
    let mut b = Build::new();
    let y = b.var("y");
    let x = b.pvar("x");
    b.val(x, y);
    let mut file = b.finish();
    file.lowered.ptrs.clear();
    assert!(get_one(&file).is_empty());
}

// every range lies in the text when the ranges that come in do
#[test]
fn ranges_lie_within_the_text() {
    let mut b = Build::new();
    let x1 = b.var("x");
    let x2 = b.var("x");
    let xx = b.app(x1, x2);
    let param = b.pvar("x");
    b.fun("f", param, xx);
    let u = b.var("undefined");
    let w = b.pat(Pat::Wild);
    b.val(w, u);
    let len = b.next as usize;
    let errors = get_one(&b.finish());
    assert_eq!(errors.len(), 2);
    for e in &errors {
        assert!(e.range.is_within(len));
    }
}

fn group(files: &[u32], deps: &[u32]) -> Group {
    Group {
        source_files: files.iter().map(|&raw| PathId { raw }).collect(),
        dependencies: deps.iter().map(|&raw| PathId { raw }).collect(),
    }
}

#[test]
fn groups_are_ordered_by_dependency_then_id() {
    let groups = vec![
        (PathId { raw: 5 }, group(&[], &[3, 4])),
        (PathId { raw: 4 }, group(&[], &[1])),
        (PathId { raw: 3 }, group(&[], &[1])),
        (PathId { raw: 1 }, group(&[], &[99])),
        (PathId { raw: 2 }, group(&[], &[])),
    ];
    let got: Vec<u32> = order(&groups).unwrap().iter().map(|p| p.raw).collect();
    assert_eq!(got, vec![1, 2, 3, 4, 5]);
    assert_eq!(order(&Vec::new()).unwrap(), Vec::<PathId>::new());
}

#[test]
fn groups_in_a_cycle_are_an_error() {
    let groups = vec![
        (PathId { raw: 1 }, group(&[], &[2])),
        (PathId { raw: 2 }, group(&[], &[3])),
        (PathId { raw: 3 }, group(&[], &[1])),
        (PathId { raw: 4 }, group(&[], &[])),
    ];
    assert_eq!(order(&groups), Err(CycleError {}));
    let own = vec![(PathId { raw: 1 }, group(&[], &[1]))];
    assert_eq!(order(&own), Err(CycleError {}));
    let input = Input { sources: Vec::new(), groups };
    assert!(Analysis::new(StdBasis::Minimal).get_many(&input).is_err());
}

/// `val name = exp`, where each is a name
fn file_binding(name: &str, exp: &str) -> SourceFile {
    let mut b = Build::new();
    let e = b.var(exp);
    let p = b.pvar(name);
    b.val(p, e);
    b.finish()
}

#[test]
fn files_see_the_names_of_the_files_before_them() {
    // group 2 depends on group 1; file 10 binds a, file 20 uses a, file 30
    // uses b, which no file binds, and file 40 has no contents
    let sources = vec![
        (PathId { raw: 20 }, file_binding("c", "a")),
        (PathId { raw: 10 }, file_binding("a", "true")),
        (PathId { raw: 30 }, file_binding("d", "b")),
    ];
    let groups = vec![
        (PathId { raw: 2 }, group(&[20, 40, 30], &[1])),
        (PathId { raw: 1 }, group(&[10], &[])),
    ];
    let input = Input { sources, groups };
    let got = Analysis::new(StdBasis::Minimal).get_many(&input).unwrap();
    let got: Vec<(u32, Vec<&str>)> = got
        .iter()
        .map(|(id, errors)| (id.raw, errors.iter().map(|e| e.message.as_str()).collect()))
        .collect();
    assert_eq!(got, vec![(10, vec![]), (20, vec![]), (30, vec!["undefined identifier"])]);
}
