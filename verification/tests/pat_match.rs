use la_arena::Arena;
use millet::analysis::{Analysis, Error, Lowered, SourceFile, StdBasis};
use millet::hir::{Arenas, Dec, Exp, Idx, Int, Lab, Name, Pat, Path, SCon, StrDec, ValBind};
use millet::list::List;
use millet::statics::info::Exn;
use millet::statics::pat_match::{
    add_row, is_exhaustive, is_reachable, is_useful, Head, Matrix, Pat as MPat,
};
use millet::text::TextRange;

fn list<T>(v: Vec<T>) -> List<T> {
    let mut out = List::Nil;
    for x in v.into_iter().rev() {
        out = List::Cons(x, Box::new(out));
    }
    out
}

fn con(head: Head, parts: Vec<MPat>) -> MPat {
    MPat::Con(head, Box::new(list(parts)))
}

fn dat(idx: u32, span: u32, parts: Vec<MPat>) -> MPat {
    con(Head::Dat { idx, span }, parts)
}

fn lit(i: i32) -> MPat {
    con(Head::Lit(SCon::Int(Int::Finite(i))), Vec::new())
}

fn arms(pats: Vec<MPat>) -> Matrix {
    let mut m: Matrix = List::Nil;
    for p in pats {
        m = add_row(m, p);
    }
    m
}

#[test]
fn no_arm_covers_nothing() {
    assert!(!is_exhaustive(&List::Nil));
    assert!(is_reachable(&List::Nil, &MPat::Any));
    assert!(is_useful(&List::Nil, &List::Nil));
}

#[test]
fn anything_covers_everything() {
    let m = arms(vec![MPat::Any]);
    assert!(is_exhaustive(&m));
    assert!(!is_reachable(&m, &MPat::Any));
    assert!(!is_reachable(&m, &lit(3)));
    assert!(!is_reachable(&m, &dat(0, 2, Vec::new())));
}

#[test]
fn both_constructors_cover_a_datatype() {
    let t = || dat(0, 2, Vec::new());
    let f = || dat(1, 2, Vec::new());
    assert!(!is_exhaustive(&arms(vec![t()])));
    assert!(!is_exhaustive(&arms(vec![f()])));
    assert!(is_exhaustive(&arms(vec![t(), f()])));
    assert!(is_exhaustive(&arms(vec![f(), t()])));
    assert!(is_reachable(&arms(vec![t()]), &f()));
    assert!(!is_reachable(&arms(vec![t()]), &t()));
    assert!(!is_reachable(&arms(vec![t(), f()]), &MPat::Any));
    assert!(is_reachable(&arms(vec![t()]), &MPat::Any));
}

#[test]
fn constants_are_never_all_named() {
    let m = arms(vec![lit(0), lit(1), lit(2)]);
    assert!(!is_exhaustive(&m));
    assert!(is_reachable(&m, &lit(3)));
    assert!(!is_reachable(&m, &lit(1)));
    assert!(is_reachable(&m, &MPat::Any));
    assert!(is_exhaustive(&add_row(m, MPat::Any)));
}

#[test]
fn exceptions_are_never_all_named() {
    let e = |raw: u32| con(Head::Exn(Exn { raw }), Vec::new());
    let m = arms(vec![e(0), e(1)]);
    assert!(!is_exhaustive(&m));
    assert!(!is_reachable(&m, &e(0)));
    assert!(is_reachable(&m, &e(2)));
}

#[test]
fn lists_need_nil_and_cons() {
    let nil = || dat(0, 2, Vec::new());
    let cons = |h: MPat, t: MPat| dat(1, 2, vec![con(Head::Record, vec![h, t])]);
    // [] | _ :: _
    assert!(is_exhaustive(&arms(vec![nil(), cons(MPat::Any, MPat::Any)])));
    // [] | _ :: []
    let m = arms(vec![nil(), cons(MPat::Any, nil())]);
    assert!(!is_exhaustive(&m));
    // the lists of two or more go through: _ :: _ :: _
    assert!(is_reachable(&m, &cons(MPat::Any, cons(MPat::Any, MPat::Any))));
    assert!(!is_reachable(&m, &cons(lit(1), nil())));
    // [] | _ :: [] | _ :: _ :: _
    let m = add_row(m, cons(MPat::Any, cons(MPat::Any, MPat::Any)));
    assert!(is_exhaustive(&m));
}

#[test]
fn pairs_of_booleans() {
    let t = || dat(0, 2, Vec::new());
    let f = || dat(1, 2, Vec::new());
    let pair = |a: MPat, b: MPat| con(Head::Record, vec![a, b]);
    // (true, _) | (_, true)
    let m = arms(vec![pair(t(), MPat::Any), pair(MPat::Any, t())]);
    assert!(!is_exhaustive(&m));
    assert!(is_reachable(&m, &pair(f(), f())));
    assert!(!is_reachable(&m, &pair(t(), f())));
    assert!(!is_reachable(&m, &pair(f(), t())));
    let m = add_row(m, pair(f(), f()));
    assert!(is_exhaustive(&m));
    assert!(!is_reachable(&m, &pair(MPat::Any, MPat::Any)));
}

#[test]
fn rows_of_several_columns() {
    let t = || dat(0, 2, Vec::new());
    let f = || dat(1, 2, Vec::new());
    let m: Matrix = list(vec![list(vec![t(), MPat::Any]), list(vec![MPat::Any, f()])]);
    assert!(is_useful(&m, &list(vec![f(), t()])));
    assert!(!is_useful(&m, &list(vec![f(), f()])));
    assert!(!is_useful(&m, &list(vec![t(), t()])));
    assert!(is_useful(&m, &list(vec![MPat::Any, MPat::Any])));
}

struct Build {
    ars: Arenas,
    ptrs: Vec<(Idx, TextRange)>,
    top_decs: Vec<Option<u32>>,
    next: u32,
}

impl Build {
    fn new() -> Build {
        Build {
            ars: Arenas {
                str_dec: Arena::new(),
                str_exp: Arena::new(),
                sig_exp: Arena::new(),
                spec: Arena::new(),
                exp: Arena::new(),
                dec: Arena::new(),
                pat: Arena::new(),
                ty: Arena::new(),
            },
            ptrs: Vec::new(),
            top_decs: Vec::new(),
            next: 0,
        }
    }

    fn ptr(&mut self, idx: Idx) {
        self.ptrs.push((idx, TextRange::new(self.next, self.next + 1)));
        self.next += 1;
    }

    fn exp(&mut self, e: Exp) -> Option<u32> {
        let i = self.ars.exp.alloc(e).into_raw().into_u32();
        self.ptr(Idx::Exp(i));
        Some(i)
    }

    fn pat(&mut self, p: Pat) -> Option<u32> {
        let i = self.ars.pat.alloc(p).into_raw().into_u32();
        self.ptr(Idx::Pat(i));
        Some(i)
    }

    fn name(&mut self, s: &str) -> Option<u32> {
        self.pat(Pat::Con(Path::one(Name::new(s)), None))
    }

    fn var(&mut self, s: &str) -> Option<u32> {
        self.exp(Exp::Path(Path::one(Name::new(s))))
    }

    fn int_pat(&mut self, i: i32) -> Option<u32> {
        self.pat(Pat::SCon(SCon::Int(Int::Finite(i))))
    }

    fn int_lit(&mut self, i: i32) -> Option<u32> {
        self.exp(Exp::SCon(SCon::Int(Int::Finite(i))))
    }

    fn unit(&mut self) -> Option<u32> {
        self.exp(Exp::Record(Vec::new()))
    }

    fn pair_pat(&mut self, a: Option<u32>, b: Option<u32>) -> Option<u32> {
        self.pat(Pat::Record {
            rows: vec![(Lab::tuple(0), a), (Lab::tuple(1), b)],
            allows_other: false,
        })
    }

    fn cons_pat(&mut self, h: Option<u32>, t: Option<u32>) -> Option<u32> {
        let arg = self.pair_pat(h, t);
        self.pat(Pat::Con(Path::one(Name::new("::")), Some(arg)))
    }

    /// `val _ = fn arms`
    fn val_fn(&mut self, arms: Vec<(Option<u32>, Option<u32>)>) -> Option<u32> {
        let f = self.exp(Exp::Fn(arms));
        let w = self.pat(Pat::Wild);
        self.val(w, f);
        f
    }

    /// `val pat = exp`
    fn val(&mut self, pat: Option<u32>, exp: Option<u32>) {
        let i = self.ars.dec.alloc(Dec::Val(Vec::new(), vec![ValBind { rec: false, pat, exp }]));
        let i = i.into_raw().into_u32();
        self.ptr(Idx::Dec(i));
        let top = self.ars.str_dec.alloc(StrDec::Dec(Some(i))).into_raw().into_u32();
        self.top_decs.push(Some(top));
    }

    fn range_of(&self, idx: Idx) -> TextRange {
        self.ptrs.iter().find(|p| p.0 == idx).unwrap().1
    }

    fn errors(self) -> Vec<Error> {
        let file = SourceFile {
            syntax_errors: Vec::new(),
            lowered: Lowered { arenas: self.ars, top_decs: self.top_decs, ptrs: self.ptrs },
        };
        Analysis::new(StdBasis::Minimal).get_one(&file)
    }
}

// val _ = fn true => 0 | false => 1
#[test]
fn exhaustive_fn_on_bool() {
    let mut b = Build::new();
    let t = b.name("true");
    let zero = b.int_lit(0);
    let f = b.name("false");
    let one = b.int_lit(1);
    b.val_fn(vec![(t, zero), (f, one)]);
    let errors = b.errors();
    assert!(errors.is_empty(), "{:?}", errors);
}

// val _ = fn true => 0
#[test]
fn non_exhaustive_fn_on_bool() {
    let mut b = Build::new();
    let t = b.name("true");
    let zero = b.int_lit(0);
    let f = b.val_fn(vec![(t, zero)]);
    let at = b.range_of(Idx::Exp(f.unwrap()));
    let errors = b.errors();
    assert_eq!(errors.len(), 1, "{:?}", errors);
    assert_eq!(errors[0].message, "non-exhaustive match");
    assert_eq!(errors[0].code, 5010);
    assert_eq!(errors[0].range, at);
}

// val _ = fn 0 => () | 0 => ()
#[test]
fn unreachable_second_arm() {
    let mut b = Build::new();
    let p1 = b.int_pat(0);
    let u1 = b.unit();
    let p2 = b.int_pat(0);
    let u2 = b.unit();
    b.val_fn(vec![(p1, u1), (p2, u2)]);
    let at = b.range_of(Idx::Pat(p2.unwrap()));
    let errors = b.errors();
    let unreachable: Vec<&Error> = errors.iter().filter(|e| e.code == 5009).collect();
    assert_eq!(unreachable.len(), 1, "{:?}", errors);
    assert_eq!(unreachable[0].message, "unreachable pattern");
    assert_eq!(unreachable[0].range, at);
    // the integers are never all named
    let rest: Vec<&Error> = errors.iter().filter(|e| e.code != 5009).collect();
    assert_eq!(rest.len(), 1, "{:?}", errors);
    assert_eq!(rest[0].message, "non-exhaustive match");
}

// val _ = fn 0 => () | _ => ()
#[test]
fn wildcard_closes_a_match_on_int() {
    let mut b = Build::new();
    let p1 = b.int_pat(0);
    let u1 = b.unit();
    let p2 = b.pat(Pat::Wild);
    let u2 = b.unit();
    b.val_fn(vec![(p1, u1), (p2, u2)]);
    let errors = b.errors();
    assert!(errors.is_empty(), "{:?}", errors);
}

// val _ = fn x => x | true => false
#[test]
fn arm_behind_a_variable_is_unreachable() {
    let mut b = Build::new();
    let p1 = b.name("x");
    let x = b.var("x");
    let p2 = b.name("true");
    let f = b.var("false");
    b.val_fn(vec![(p1, x), (p2, f)]);
    let at = b.range_of(Idx::Pat(p2.unwrap()));
    let errors = b.errors();
    assert_eq!(errors.len(), 1, "{:?}", errors);
    assert_eq!(errors[0].message, "unreachable pattern");
    assert_eq!(errors[0].range, at);
}

// val _ = fn nil => 0 | _ :: _ => 1
#[test]
fn exhaustive_fn_on_list() {
    let mut b = Build::new();
    let nil = b.name("nil");
    let zero = b.int_lit(0);
    let h = b.pat(Pat::Wild);
    let t = b.pat(Pat::Wild);
    let cons = b.cons_pat(h, t);
    let one = b.int_lit(1);
    b.val_fn(vec![(nil, zero), (cons, one)]);
    let errors = b.errors();
    assert!(errors.is_empty(), "{:?}", errors);
}

// val _ = fn _ :: nil => 0 | nil => 1
#[test]
fn non_exhaustive_fn_on_list() {
    let mut b = Build::new();
    let h = b.pat(Pat::Wild);
    let t = b.name("nil");
    let cons = b.cons_pat(h, t);
    let zero = b.int_lit(0);
    let nil = b.name("nil");
    let one = b.int_lit(1);
    b.val_fn(vec![(cons, zero), (nil, one)]);
    let errors = b.errors();
    assert_eq!(errors.len(), 1, "{:?}", errors);
    assert_eq!(errors[0].message, "non-exhaustive match");
}

// val (true, x) = (true, 1)
#[test]
fn non_exhaustive_binding() {
    let mut b = Build::new();
    let t = b.name("true");
    let x = b.name("x");
    let pat = b.pair_pat(t, x);
    let te = b.var("true");
    let one = b.int_lit(1);
    let rows = vec![(Lab::tuple(0), te), (Lab::tuple(1), one)];
    let pair = b.exp(Exp::Record(rows));
    b.val(pat, pair);
    let at = b.range_of(Idx::Pat(pat.unwrap()));
    let errors = b.errors();
    assert_eq!(errors.len(), 1, "{:?}", errors);
    assert_eq!(errors[0].message, "non-exhaustive binding");
    assert_eq!(errors[0].code, 5011);
    assert_eq!(errors[0].range, at);
}

// val (x, y) = (true, 1)
#[test]
fn exhaustive_binding_of_a_pair() {
    let mut b = Build::new();
    let x = b.name("x");
    let y = b.name("y");
    let pat = b.pair_pat(x, y);
    let te = b.var("true");
    let one = b.int_lit(1);
    let rows = vec![(Lab::tuple(0), te), (Lab::tuple(1), one)];
    let pair = b.exp(Exp::Record(rows));
    b.val(pat, pair);
    let errors = b.errors();
    assert!(errors.is_empty(), "{:?}", errors);
}
