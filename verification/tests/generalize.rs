use la_arena::Arena;
use millet::analysis::{Analysis, Lowered, SourceFile, StdBasis};
use millet::hir::{Arenas, Dec, ExBind, Exp, Idx, Lab, Name, Pat, Path, StrDec, TyVar, ValBind};
use millet::statics::basis::minimal;
use millet::statics::display::MetaVarNames;
use millet::statics::env::{get_val, Cx};
use millet::statics::st::St;
use millet::statics::top_dec::get_str_dec;
use millet::statics::util::instantiate;
use millet::text::TextRange;

/// Builds the lowered form of a program by hand.
struct Build {
    ars: Arenas,
    ptrs: Vec<(Idx, TextRange)>,
    top_decs: Vec<Option<u32>>,
}

impl Build {
    fn new() -> Build {
        Build {
            ars: Arenas {
                str_dec: Arena::new(),
                str_exp: Arena::new(),
                sig_exp: Arena::new(),
                spec: Arena::new(),
                exp: Arena::new(),
                dec: Arena::new(),
                pat: Arena::new(),
                ty: Arena::new(),
            },
            ptrs: Vec::new(),
            top_decs: Vec::new(),
        }
    }

    fn exp(&mut self, e: Exp) -> Option<u32> {
        let i = self.ars.exp.alloc(e).into_raw().into_u32();
        self.ptrs.push((Idx::Exp(i), TextRange::new(0, 1)));
        Some(i)
    }

    fn pat(&mut self, p: Pat) -> Option<u32> {
        let i = self.ars.pat.alloc(p).into_raw().into_u32();
        self.ptrs.push((Idx::Pat(i), TextRange::new(0, 1)));
        Some(i)
    }

    fn dec(&mut self, d: Dec) -> Option<u32> {
        let i = self.ars.dec.alloc(d).into_raw().into_u32();
        self.ptrs.push((Idx::Dec(i), TextRange::new(0, 1)));
        Some(i)
    }

    fn top(&mut self, d: Option<u32>) {
        let i = self.ars.str_dec.alloc(StrDec::Dec(d)).into_raw().into_u32();
        self.top_decs.push(Some(i));
    }

    fn var(&mut self, s: &str) -> Option<u32> {
        self.exp(Exp::Path(Path::one(Name::new(s))))
    }

    fn pvar(&mut self, s: &str) -> Option<u32> {
        self.pat(Pat::Con(Path::one(Name::new(s)), None))
    }

    fn unit(&mut self) -> Option<u32> {
        self.exp(Exp::Record(Vec::new()))
    }

    fn tuple(&mut self, es: Vec<Option<u32>>) -> Option<u32> {
        let rows = es.into_iter().enumerate().map(|(i, e)| (Lab::tuple(i), e)).collect();
        self.exp(Exp::Record(rows))
    }

    fn ptuple(&mut self, ps: Vec<Option<u32>>) -> Option<u32> {
        let rows = ps.into_iter().enumerate().map(|(i, p)| (Lab::tuple(i), p)).collect();
        self.pat(Pat::Record { rows, allows_other: false })
    }

    fn app(&mut self, f: Option<u32>, a: Option<u32>) -> Option<u32> {
        self.exp(Exp::App(f, a))
    }

    /// `val pat = exp`
    fn val(&mut self, pat: Option<u32>, exp: Option<u32>) -> Option<u32> {
        self.dec(Dec::Val(Vec::new(), vec![ValBind { rec: false, pat, exp }]))
    }

    /// `fun name param = body`
    fn fun(&mut self, name: &str, param: Option<u32>, body: Option<u32>) -> Option<u32> {
        let f = self.exp(Exp::Fn(vec![(param, body)]));
        let pat = self.pvar(name);
        self.dec(Dec::Val(Vec::new(), vec![ValBind { rec: true, pat, exp: f }]))
    }

    fn finish(self) -> SourceFile {
        SourceFile {
            syntax_errors: Vec::new(),
            lowered: Lowered { arenas: self.ars, top_decs: self.top_decs, ptrs: self.ptrs },
        }
    }
}

/// Type checks the file in the minimal basis.
fn check(file: &SourceFile) -> (St, Cx) {
    let (mut st, mut cx) = minimal();
    for &d in &file.lowered.top_decs {
        let more = get_str_dec(&mut st, &cx, &file.lowered.arenas, d, u64::MAX);
        cx.env.extend(more);
    }
    (st, cx)
}

/// The type that an occurrence of the name has, as it is written.
fn hover(st: &mut St, cx: &Cx, name: &str) -> String {
    let info = get_val(&cx.env.val_env, &Name::new(name)).expect("no such name");
    let ty = instantiate(st, &info.ty_scheme);
    let applied = st.subst.apply(&ty);
    let mut names = MetaVarNames::new(&st.subst);
    names.extend_for(&applied);
    applied.display(&names, &st.syms)
}

/// `val y = id ()  val _ = y  val z = id 3  val _ = z`
fn use_id(b: &mut Build) {
    let id = b.var("id");
    let u = b.unit();
    let call = b.app(id, u);
    let y = b.pvar("y");
    let d = b.val(y, call);
    b.top(d);
    let w = b.pat(Pat::Wild);
    let yv = b.var("y");
    let d = b.val(w, yv);
    b.top(d);
    let id = b.var("id");
    let three = b.exp(Exp::SCon(millet::hir::SCon::Int(millet::hir::Int::Finite(3))));
    let call = b.app(id, three);
    let z = b.pvar("z");
    let d = b.val(z, call);
    b.top(d);
    let w = b.pat(Pat::Wild);
    let zv = b.var("z");
    let d = b.val(w, zv);
    b.top(d);
}

// fun id x =
//   let val ret = x
//   in ret end
//
// val y = id ()
// val _ = y
// (**     ^ hover: unit *)
// val z = id 3
// val _ = z
// (**     ^ hover: int *)
#[test]
fn no_over_generalize_infer_val_by_hand() {
    let mut b = Build::new();
    let x = b.var("x");
    let ret = b.pvar("ret");
    let inner = b.val(ret, x);
    let body_exp = b.var("ret");
    let body = b.exp(Exp::Let(inner, body_exp));
    let param = b.pvar("x");
    let d = b.fun("id", param, body);
    b.top(d);
    use_id(&mut b);
    let file = b.finish();
    assert!(Analysis::new(StdBasis::Minimal).get_one(&file).is_empty());
    let (mut st, cx) = check(&file);
    assert!(st.errors.is_empty());
    assert_eq!(hover(&mut st, &cx, "y"), "unit");
    assert_eq!(hover(&mut st, &cx, "z"), "int");
}

// fun id x =
//   let fun get () = x
//   in get () end
//
// val y = id ()
// val _ = y
// (**     ^ hover: unit *)
// val z = id 3
// val _ = z
// (**     ^ hover: int *)
#[test]
fn no_over_generalize_infer_fun_by_hand() {
    let mut b = Build::new();
    let x = b.var("x");
    let unit_pat = b.ptuple(Vec::new());
    let inner = b.fun("get", unit_pat, x);
    let get = b.var("get");
    let u = b.unit();
    let body_exp = b.app(get, u);
    let body = b.exp(Exp::Let(inner, body_exp));
    let param = b.pvar("x");
    let d = b.fun("id", param, body);
    b.top(d);
    use_id(&mut b);
    let file = b.finish();
    assert!(Analysis::new(StdBasis::Minimal).get_one(&file).is_empty());
    let (mut st, cx) = check(&file);
    assert!(st.errors.is_empty());
    assert_eq!(hover(&mut st, &cx, "y"), "unit");
    assert_eq!(hover(&mut st, &cx, "z"), "int");
}

// exception E
//
// fun guh x =
//   let
//     val y = (fn [a] => a | _ => raise E) [x]
//   in
//     y
//   end
#[test]
fn through_list_by_hand() {
    let mut b = Build::new();
    let d = b.dec(Dec::Exception(vec![ExBind::New(Name::new("E"), None)]));
    b.top(d);
    // [a] is a :: nil
    let a = b.pvar("a");
    let nil = b.pvar("nil");
    let pair = b.ptuple(vec![a, nil]);
    let list_pat = b.pat(Pat::Con(Path::one(Name::new("::")), Some(pair)));
    let a_exp = b.var("a");
    let wild = b.pat(Pat::Wild);
    let e = b.var("E");
    let raise = b.exp(Exp::Raise(e));
    let f = b.exp(Exp::Fn(vec![(list_pat, a_exp), (wild, raise)]));
    // [x] is x :: nil
    let x = b.var("x");
    let nil = b.var("nil");
    let pair = b.tuple(vec![x, nil]);
    let cons = b.var("::");
    let list = b.app(cons, pair);
    let call = b.app(f, list);
    let y = b.pvar("y");
    let inner = b.val(y, call);
    let body_exp = b.var("y");
    let body = b.exp(Exp::Let(inner, body_exp));
    let param = b.pvar("x");
    let d = b.fun("guh", param, body);
    b.top(d);
    let file = b.finish();
    let errors = Analysis::new(StdBasis::Minimal).get_one(&file);
    assert!(errors.is_empty(), "{:?}", errors);
    let (mut st, cx) = check(&file);
    assert_eq!(hover(&mut st, &cx, "guh"), "?a -> ?a");
}

// fun 'a id (x : 'a) =
//   let fun get () = x
//   in get () end
//
// val y = id ()
// val _ = y
// (**     ^ hover: unit *)
// val z = id 3
// val _ = z
// (**     ^ hover: int *)
#[test]
fn no_over_generalize_fixed_by_hand() {
    let mut b = Build::new();
    let x = b.var("x");
    let unit_pat = b.ptuple(Vec::new());
    let inner = b.fun("get", unit_pat, x);
    let get = b.var("get");
    let u = b.unit();
    let body_exp = b.app(get, u);
    let body = b.exp(Exp::Let(inner, body_exp));
    let a = b.ars.ty.alloc(millet::hir::Ty::Var(TyVar::new("'a"))).into_raw().into_u32();
    let x_pat = b.pvar("x");
    let param = b.pat(Pat::Typed(x_pat, Some(a)));
    let f = b.exp(Exp::Fn(vec![(param, body)]));
    let pat = b.pvar("id");
    let d = b.dec(Dec::Val(vec![TyVar::new("'a")], vec![ValBind { rec: true, pat, exp: f }]));
    b.top(d);
    use_id(&mut b);
    let file = b.finish();
    let errors = Analysis::new(StdBasis::Minimal).get_one(&file);
    assert!(errors.is_empty(), "{:?}", errors);
    let (mut st, cx) = check(&file);
    assert!(st.errors.is_empty());
    assert_eq!(hover(&mut st, &cx, "id"), "?a -> ?a");
    assert_eq!(hover(&mut st, &cx, "y"), "unit");
    assert_eq!(hover(&mut st, &cx, "z"), "int");
}

// fun 'a f (x : 'a) = x + 1
#[test]
fn fixed_variable_is_no_number() {
    let mut b = Build::new();
    let x = b.var("x");
    let one = b.exp(Exp::SCon(millet::hir::SCon::Int(millet::hir::Int::Finite(1))));
    let pair = b.tuple(vec![x, one]);
    let plus = b.var("+");
    let sum = b.app(plus, pair);
    let a = b.ars.ty.alloc(millet::hir::Ty::Var(TyVar::new("'a"))).into_raw().into_u32();
    let x_pat = b.pvar("x");
    let param = b.pat(Pat::Typed(x_pat, Some(a)));
    let f = b.exp(Exp::Fn(vec![(param, sum)]));
    let pat = b.pvar("f");
    let d = b.dec(Dec::Val(vec![TyVar::new("'a")], vec![ValBind { rec: true, pat, exp: f }]));
    b.top(d);
    let errors = Analysis::new(StdBasis::Minimal).get_one(&b.finish());
    assert_eq!(errors.len(), 1, "{:?}", errors);
}
