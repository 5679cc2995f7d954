use la_arena::Arena;
use millet::analysis::{Analysis, Error, Lowered, SourceFile, StdBasis};
use millet::hir::{Arenas, Dec, Exp, Idx, Int, Lab, Name, Pat, Path, SCon, StrDec, Ty, ValBind};
use millet::text::TextRange;

/// The kinds of constants that the overloaded operators take.
#[derive(Clone, Copy)]
enum Lit {
    Int,
    Word,
    Real,
    Str,
    Char,
}

struct Prog {
    ars: Arenas,
    ptrs: Vec<(Idx, TextRange)>,
    top_decs: Vec<Option<u32>>,
    next: u32,
}

impl Prog {
    fn new() -> Prog {
        Prog {
            ars: Arenas {
                str_dec: Arena::new(),
                str_exp: Arena::new(),
                sig_exp: Arena::new(),
                spec: Arena::new(),
                exp: Arena::new(),
                dec: Arena::new(),
                pat: Arena::new(),
                ty: Arena::new(),
            },
            ptrs: Vec::new(),
            top_decs: Vec::new(),
            next: 0,
        }
    }

    fn ptr(&mut self, idx: Idx) {
        self.ptrs.push((idx, TextRange::new(self.next, self.next + 1)));
        self.next += 1;
    }

    fn exp(&mut self, e: Exp) -> Option<u32> {
        let i = self.ars.exp.alloc(e).into_raw().into_u32();
        self.ptr(Idx::Exp(i));
        Some(i)
    }

    fn pat(&mut self, p: Pat) -> Option<u32> {
        let i = self.ars.pat.alloc(p).into_raw().into_u32();
        self.ptr(Idx::Pat(i));
        Some(i)
    }

    fn ty(&mut self, name: &str) -> Option<u32> {
        let i = self.ars.ty.alloc(Ty::Con(Vec::new(), Path::one(Name::new(name))));
        let i = i.into_raw().into_u32();
        self.ptr(Idx::Ty(i));
        Some(i)
    }

    fn var(&mut self, s: &str) -> Option<u32> {
        self.exp(Exp::Path(Path::one(Name::new(s))))
    }

    fn lit(&mut self, lit: Lit) -> Option<u32> {
        let c = match lit {
            Lit::Int => SCon::Int(Int::Finite(1)),
            Lit::Word => SCon::Word(0),
            Lit::Real => SCon::Real("1.1".to_owned()),
            Lit::Str => SCon::String("e".to_owned()),
            Lit::Char => SCon::Char('e'),
        };
        self.exp(Exp::SCon(c))
    }

    fn pair(&mut self, a: Option<u32>, b: Option<u32>) -> Option<u32> {
        self.exp(Exp::Record(vec![(Lab::tuple(0), a), (Lab::tuple(1), b)]))
    }

    fn app(&mut self, f: Option<u32>, a: Option<u32>) -> Option<u32> {
        self.exp(Exp::App(f, a))
    }

    /// `val pat = exp`
    fn val(&mut self, pat: Option<u32>, exp: Option<u32>) {
        let d = self.ars.dec.alloc(Dec::Val(Vec::new(), vec![ValBind { rec: false, pat, exp }]));
        let d = d.into_raw().into_u32();
        self.ptr(Idx::Dec(d));
        let top = self.ars.str_dec.alloc(StrDec::Dec(Some(d))).into_raw().into_u32();
        self.top_decs.push(Some(top));
    }

    /// `val _: ty = exp`
    fn val_typed(&mut self, ty: &str, exp: Option<u32>) {
        let w = self.pat(Pat::Wild);
        let t = self.ty(ty);
        let p = self.pat(Pat::Typed(w, t));
        self.val(p, exp);
    }

    /// `val _: ty = op lit`
    fn unary(&mut self, ty: &str, op: &str, lit: Lit) {
        let f = self.var(op);
        let a = self.lit(lit);
        let e = self.app(f, a);
        self.val_typed(ty, e);
    }

    /// `val _: ty = lit op lit`
    fn binary(&mut self, ty: &str, op: &str, lit: Lit) {
        let a = self.lit(lit);
        let b = self.lit(lit);
        let arg = self.pair(a, b);
        let f = self.var(op);
        let e = self.app(f, arg);
        self.val_typed(ty, e);
    }

    fn errors(self) -> Vec<Error> {
        let file = SourceFile {
            syntax_errors: Vec::new(),
            lowered: Lowered { arenas: self.ars, top_decs: self.top_decs, ptrs: self.ptrs },
        };
        Analysis::new(StdBasis::Minimal).get_one(&file)
    }
}

// val add = op+
// val _ = add (1, 2)
#[test]
fn t_01_by_hand() {
    let mut p = Prog::new();
    let plus = p.var("+");
    let add = p.pat(Pat::Con(Path::one(Name::new("add")), None));
    p.val(add, plus);
    let f = p.var("add");
    let one = p.exp(Exp::SCon(SCon::Int(Int::Finite(1))));
    let two = p.exp(Exp::SCon(SCon::Int(Int::Finite(2))));
    let arg = p.pair(one, two);
    let call = p.app(f, arg);
    let w = p.pat(Pat::Wild);
    p.val(w, call);
    let errors = p.errors();
    assert!(errors.is_empty(), "{:?}", errors);
}

// val _: int = abs 1
// val _: real = abs 1.1
// val _: int = ~ 1
// val _: real = ~ 1.1
// ... and every other operator of the basis at each of its types
#[test]
fn t_04_by_hand() {
    let mut p = Prog::new();
    // abs
    p.unary("int", "abs", Lit::Int);
    p.unary("real", "abs", Lit::Real);
    // tilde, as a function
    p.unary("int", "~", Lit::Int);
    p.unary("real", "~", Lit::Real);
    // div
    p.binary("int", "div", Lit::Int);
    p.binary("word", "div", Lit::Word);
    // mod
    p.binary("int", "mod", Lit::Int);
    p.binary("word", "mod", Lit::Word);
    // star
    p.binary("int", "*", Lit::Int);
    p.binary("word", "*", Lit::Word);
    p.binary("real", "*", Lit::Real);
    // slash
    p.binary("real", "/", Lit::Real);
    // plus
    p.binary("int", "+", Lit::Int);
    p.binary("word", "+", Lit::Word);
    p.binary("real", "+", Lit::Real);
    // minus
    p.binary("int", "-", Lit::Int);
    p.binary("word", "-", Lit::Word);
    p.binary("real", "-", Lit::Real);
    // the comparisons
    for op in ["<", "<=", ">", ">="] {
        for lit in [Lit::Int, Lit::Word, Lit::Real, Lit::Str, Lit::Char] {
            p.binary("bool", op, lit);
        }
    }
    let errors = p.errors();
    assert!(errors.is_empty(), "{:?}", errors);
}

// val _: int = abs 1.1
#[test]
fn annotation_against_the_overload() {
    let mut p = Prog::new();
    p.unary("int", "abs", Lit::Real);
    let errors = p.errors();
    assert_eq!(errors.len(), 1, "{:?}", errors);
    assert_eq!(errors[0].message, "real is not compatible with int");
    assert_eq!(errors[0].code, 5015);
}

// val _: word = 1 div 1
#[test]
fn annotation_against_the_operands() {
    let mut p = Prog::new();
    p.binary("word", "div", Lit::Int);
    let errors = p.errors();
    assert_eq!(errors.len(), 1, "{:?}", errors);
    assert_eq!(errors[0].message, "int is not compatible with word");
}

// val _: string = "e" + "e"
#[test]
fn string_is_no_number() {
    let mut p = Prog::new();
    p.binary("string", "+", Lit::Str);
    let errors = p.errors();
    assert_eq!(errors.len(), 1, "{:?}", errors);
}

// val _: nope = 1
#[test]
fn undefined_type() {
    let mut p = Prog::new();
    let one = p.lit(Lit::Int);
    p.val_typed("nope", one);
    let errors = p.errors();
    assert_eq!(errors.len(), 1, "{:?}", errors);
    assert_eq!(errors[0].code, 5001);
}

// val _: list = 1
#[test]
fn type_constructor_without_its_argument() {
    let mut p = Prog::new();
    let one = p.lit(Lit::Int);
    p.val_typed("list", one);
    let errors = p.errors();
    assert_eq!(errors.len(), 1, "{:?}", errors);
    assert_eq!(errors[0].code, 5001);
}

// val _: int list = 1 :: nil
#[test]
fn type_constructor_with_its_argument() {
    let mut p = Prog::new();
    let int = p.ty("int");
    let list = p.ars.ty.alloc(Ty::Con(vec![int], Path::one(Name::new("list"))));
    let list = Some(list.into_raw().into_u32());
    let one = p.lit(Lit::Int);
    let nil = p.var("nil");
    let arg = p.pair(one, nil);
    let cons = p.var("::");
    let e = p.app(cons, arg);
    let w = p.pat(Pat::Wild);
    let pat = p.pat(Pat::Typed(w, list));
    p.val(pat, e);
    let errors = p.errors();
    assert!(errors.is_empty(), "{:?}", errors);
}

// val _ = (1 : unit)
#[test]
fn typed_expression() {
    let mut p = Prog::new();
    let one = p.lit(Lit::Int);
    let unit = p.ty("unit");
    let e = p.exp(Exp::Typed(one, unit));
    let w = p.pat(Pat::Wild);
    p.val(w, e);
    let errors = p.errors();
    assert_eq!(errors.len(), 1, "{:?}", errors);
    assert_eq!(errors[0].message, "int is not compatible with unit");
}
