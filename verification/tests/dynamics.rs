use la_arena::Arena;
use millet::dynamics::pat_match;
use millet::dynamics::step::{rec_fn_names, step, step_dec};
use millet::dynamics::types::{
    Closure, Con, ConKind, Cx, Env, Exception, Frame, FrameKind, St, Step, StrEnv, Val,
};
use millet::hir::{Arenas, Dec, Exp, Int, Lab, Name, Pat, Path, SCon, ValBind};
use millet::list::List;
use millet::statics::info::{Exn, IdStatus};
use std::collections::HashMap;

struct Program {
    ars: Arenas,
    exp: HashMap<u32, IdStatus>,
    pat: HashMap<u32, IdStatus>,
    match_exn: Exception,
    bind_exn: Exception,
}

impl Program {
    fn new() -> Program {
        Program {
            ars: Arenas {
                str_dec: Arena::new(),
                str_exp: Arena::new(),
                sig_exp: Arena::new(),
                spec: Arena::new(),
                exp: Arena::new(),
                dec: Arena::new(),
                pat: Arena::new(),
                ty: Arena::new(),
            },
            exp: HashMap::new(),
            pat: HashMap::new(),
            match_exn: Exception { name: Name::new("Match"), exn: Exn { raw: 0 }, arg: None },
            bind_exn: Exception { name: Name::new("Bind"), exn: Exn { raw: 1 }, arg: None },
        }
    }

    fn cx(&self) -> Cx<'_> {
        Cx {
            ars: &self.ars,
            exp: &self.exp,
            pat: &self.pat,
            match_exn: &self.match_exn,
            bind_exn: &self.bind_exn,
        }
    }

    fn exp(&mut self, e: Exp) -> Option<u32> {
        Some(self.ars.exp.alloc(e).into_raw().into_u32())
    }

    fn pat(&mut self, p: Pat) -> Option<u32> {
        Some(self.ars.pat.alloc(p).into_raw().into_u32())
    }

    fn dec(&mut self, d: Dec) -> Option<u32> {
        Some(self.ars.dec.alloc(d).into_raw().into_u32())
    }

    fn path(&mut self, s: &str, status: IdStatus) -> Option<u32> {
        let e = self.exp(Exp::Path(Path::one(Name::new(s))));
        self.exp.insert(e.unwrap(), status);
        e
    }

    fn var(&mut self, s: &str) -> Option<u32> {
        self.path(s, IdStatus::Val)
    }

    fn ppath(&mut self, s: &str, arg: Option<Option<u32>>, status: IdStatus) -> Option<u32> {
        let p = self.pat(Pat::Con(Path::one(Name::new(s)), arg));
        self.pat.insert(p.unwrap(), status);
        p
    }

    fn pvar(&mut self, s: &str) -> Option<u32> {
        self.ppath(s, None, IdStatus::Val)
    }

    fn int_lit(&mut self, i: i32) -> Option<u32> {
        self.exp(Exp::SCon(SCon::Int(Int::Finite(i))))
    }

    fn pint(&mut self, i: i32) -> Option<u32> {
        self.pat(Pat::SCon(SCon::Int(Int::Finite(i))))
    }

    fn tuple(&mut self, es: Vec<Option<u32>>) -> Option<u32> {
        let rows = es.into_iter().enumerate().map(|(i, e)| (Lab::tuple(i), e)).collect();
        self.exp(Exp::Record(rows))
    }

    fn ptuple(&mut self, ps: Vec<Option<u32>>) -> Option<u32> {
        let rows = ps.into_iter().enumerate().map(|(i, p)| (Lab::tuple(i), p)).collect();
        self.pat(Pat::Record { rows, allows_other: false })
    }
}

fn new_st() -> St {
    St { env: Env::new(), frames: List::Nil }
}

/// Steps until a value or an exception is left with no frame, or the
/// declarations are done; it counts the steps that show.
fn run(p: &Program, st: &mut St, start: Step) -> (Step, usize) {
    let cx = p.cx();
    let mut s = start;
    let mut visible = 0;
    for _ in 0..10_000 {
        let done = match &s {
            Step::Val(_) | Step::Raise(_) => st.frames.is_empty(),
            Step::DecDone => true,
            _ => false,
        };
        if done {
            return (s, visible);
        }
        let (next, shown) = step(st, &cx, s).expect("stuck");
        if shown {
            visible += 1;
        }
        s = next;
    }
    panic!("does not end");
}

fn int_of(v: &Val) -> i32 {
    match v {
        Val::SCon(SCon::Int(Int::Finite(i))) => *i,
        v => panic!("{:?}", v),
    }
}

fn val_of(s: Step) -> Val {
    match s {
        Step::Val(v) => v,
        s => panic!("{:?}", s),
    }
}

#[test]
fn step_constant() {
    let mut p = Program::new();
    let e = p.int_lit(3).unwrap();
    let mut st = new_st();
    let (next, shown) = step(&mut st, &p.cx(), Step::Exp(e)).unwrap();
    assert_eq!(int_of(&val_of(next)), 3);
    assert!(!shown);
    assert!(st.frames.is_empty());
}

// (fn x => x) 3
#[test]
fn step_application() {
    let mut p = Program::new();
    let x = p.var("x");
    let px = p.pvar("x");
    let f = p.exp(Exp::Fn(vec![(px, x)]));
    let three = p.int_lit(3);
    let app = p.exp(Exp::App(f, three)).unwrap();
    let mut st = new_st();
    let cx = p.cx();
    // the function is awaited
    let (s, shown) = step(&mut st, &cx, Step::Exp(app)).unwrap();
    assert!(matches!(s, Step::Exp(e) if Some(e) == f) && !shown);
    assert!(matches!(&st.frames, List::Cons(Frame { kind: FrameKind::AppFunc(a), .. }, _) if *a == three));
    // the function is a closure
    let (s, _) = step(&mut st, &cx, s).unwrap();
    assert!(matches!(&s, Step::Val(Val::Closure(_))));
    // the argument is awaited
    let (s, _) = step(&mut st, &cx, s).unwrap();
    assert!(matches!(s, Step::Exp(e) if Some(e) == three));
    assert!(matches!(&st.frames, List::Cons(Frame { kind: FrameKind::AppClosureArg(_), .. }, _)));
    let (s, _) = step(&mut st, &cx, s).unwrap();
    // the argument matches the pattern: on to the body, which shows
    let (s, shown) = step(&mut st, &cx, s).unwrap();
    assert!(matches!(s, Step::Exp(e) if Some(e) == x) && shown);
    assert!(st.frames.is_empty());
    // the body is the variable: its value, which shows
    let (s, shown) = step(&mut st, &cx, s).unwrap();
    assert_eq!(int_of(&val_of(s)), 3);
    assert!(shown);
}

// (1, (2, 3))
#[test]
fn step_record() {
    let mut p = Program::new();
    let one = p.int_lit(1);
    let two = p.int_lit(2);
    let three = p.int_lit(3);
    let inner = p.tuple(vec![two, three]);
    let outer = p.tuple(vec![one, inner]).unwrap();
    let mut st = new_st();
    let (s, visible) = run(&p, &mut st, Step::Exp(outer));
    assert_eq!(visible, 2);
    match val_of(s) {
        Val::Record(rows) => match *rows {
            List::Cons((l1, v1), rest) => {
                assert!(l1.same(&Lab::Num(1)));
                assert_eq!(int_of(&v1), 1);
                match *rest {
                    List::Cons((l2, Val::Record(_)), end) => {
                        assert!(l2.same(&Lab::Num(2)));
                        assert!(end.is_empty());
                    }
                    r => panic!("{:?}", r),
                }
            }
            r => panic!("{:?}", r),
        },
        v => panic!("{:?}", v),
    }
    // the empty record is a value at once
    let unit = p.tuple(vec![]).unwrap();
    let (s, shown) = step(&mut st, &p.cx(), Step::Exp(unit)).unwrap();
    assert!(matches!(val_of(s), Val::Record(rows) if rows.is_empty()) && !shown);
}

// (fn 0 => 10 | x => x) 7, and applied to 0
#[test]
fn step_picks_the_first_arm_that_matches() {
    for (arg, want) in [(7, 7), (0, 10)] {
        let mut p = Program::new();
        let zero = p.pint(0);
        let ten = p.int_lit(10);
        let px = p.pvar("x");
        let x = p.var("x");
        let f = p.exp(Exp::Fn(vec![(zero, ten), (px, x)]));
        let a = p.int_lit(arg);
        let app = p.exp(Exp::App(f, a)).unwrap();
        let mut st = new_st();
        let (s, _) = run(&p, &mut st, Step::Exp(app));
        assert_eq!(int_of(&val_of(s)), want);
    }
}

// (fn 0 => 10) 7 raises Match
#[test]
fn step_no_arm_matches() {
    let mut p = Program::new();
    let zero = p.pint(0);
    let ten = p.int_lit(10);
    let f = p.exp(Exp::Fn(vec![(zero, ten)]));
    let a = p.int_lit(7);
    let app = p.exp(Exp::App(f, a)).unwrap();
    let mut st = new_st();
    let (s, _) = run(&p, &mut st, Step::Exp(app));
    match s {
        Step::Raise(e) => assert_eq!(e.exn, Exn { raw: 0 }),
        s => panic!("{:?}", s),
    }
}

// (raise E) handle E => 5, and with a handler for another exception
#[test]
fn step_raise_and_handle() {
    for (handled, want) in [(7, Some(5)), (8, None)] {
        let mut p = Program::new();
        let e = p.path("E", IdStatus::Exn(Exn { raw: 7 }));
        let raise = p.exp(Exp::Raise(e));
        let pe = p.ppath("E", None, IdStatus::Exn(Exn { raw: handled }));
        let five = p.int_lit(5);
        let handle = p.exp(Exp::Handle(raise, vec![(pe, five)])).unwrap();
        let mut st = new_st();
        let (s, _) = run(&p, &mut st, Step::Exp(handle));
        match (s, want) {
            (Step::Val(v), Some(w)) => assert_eq!(int_of(&v), w),
            (Step::Raise(x), None) => assert_eq!(x.exn, Exn { raw: 7 }),
            (s, _) => panic!("{:?}", s),
        }
    }
}

// 5 handle _ => 6: the handler is not needed
#[test]
fn step_handle_without_raise() {
    let mut p = Program::new();
    let five = p.int_lit(5);
    let six = p.int_lit(6);
    let w = p.pat(Pat::Wild);
    let handle = p.exp(Exp::Handle(five, vec![(w, six)])).unwrap();
    let mut st = new_st();
    let (s, visible) = run(&p, &mut st, Step::Exp(handle));
    assert_eq!(int_of(&val_of(s)), 5);
    assert_eq!(visible, 1);
}

// SOME 3, where SOME is a constructor
#[test]
fn step_constructor_application() {
    let mut p = Program::new();
    let some = p.path("SOME", IdStatus::Con);
    let three = p.int_lit(3);
    let app = p.exp(Exp::App(some, three)).unwrap();
    let mut st = new_st();
    let (s, _) = run(&p, &mut st, Step::Exp(app));
    match val_of(s) {
        Val::Con(Con { kind: ConKind::Dat(name), arg: Some(arg) }) => {
            assert_eq!(name.as_str(), "SOME");
            assert_eq!(int_of(&arg), 3);
        }
        v => panic!("{:?}", v),
    }
}

// let val x = 1 val y = 2 in (x, y) end
#[test]
fn step_let() {
    let mut p = Program::new();
    let one = p.int_lit(1);
    let two = p.int_lit(2);
    let px = p.pvar("x");
    let py = p.pvar("y");
    let d = p.dec(Dec::Val(
        Vec::new(),
        vec![
            ValBind { rec: false, pat: px, exp: one },
            ValBind { rec: false, pat: py, exp: two },
        ],
    ));
    let x = p.var("x");
    let y = p.var("y");
    let body = p.tuple(vec![x, y]);
    let e = p.exp(Exp::Let(d, body)).unwrap();
    let mut st = new_st();
    let (s, _) = run(&p, &mut st, Step::Exp(e));
    match val_of(s) {
        Val::Record(rows) => {
            let rows: Vec<i32> = match *rows {
                List::Cons((_, a), rest) => match *rest {
                    List::Cons((_, b), _) => vec![int_of(&a), int_of(&b)],
                    _ => panic!(),
                },
                _ => panic!(),
            };
            assert_eq!(rows, vec![1, 2]);
        }
        v => panic!("{:?}", v),
    }
}

// val rec f = fn 0 => 0 | n => f 0, then f 5
#[test]
fn step_recursive_function() {
    let mut p = Program::new();
    let zero_pat = p.pint(0);
    let zero = p.int_lit(0);
    let n = p.pvar("n");
    let f = p.var("f");
    let zero2 = p.int_lit(0);
    let call = p.exp(Exp::App(f, zero2));
    let body = p.exp(Exp::Fn(vec![(zero_pat, zero), (n, call)]));
    let pf = p.pvar("f");
    let d = p.dec(Dec::Val(Vec::new(), vec![ValBind { rec: true, pat: pf, exp: body }])).unwrap();
    let names = rec_fn_names(&p.cx(), pf).unwrap();
    assert!(matches!(&names, List::Cons(n, rest) if n.as_str() == "f" && rest.is_empty()));
    let mut st = new_st();
    let (s, _) = run(&p, &mut st, Step::Dec(d));
    assert!(matches!(s, Step::DecDone));
    let f2 = p.var("f");
    let five = p.int_lit(5);
    let e = p.exp(Exp::App(f2, five)).unwrap();
    let (s, _) = run(&p, &mut st, Step::Exp(e));
    assert_eq!(int_of(&val_of(s)), 0);
}

// val (x, 1) = (5, 2) raises Bind
#[test]
fn step_binding_that_does_not_match() {
    let mut p = Program::new();
    let five = p.int_lit(5);
    let two = p.int_lit(2);
    let e = p.tuple(vec![five, two]);
    let px = p.pvar("x");
    let one = p.pint(1);
    let pat = p.ptuple(vec![px, one]);
    let d = p.dec(Dec::Val(Vec::new(), vec![ValBind { rec: false, pat, exp: e }])).unwrap();
    let mut st = new_st();
    let (s, _) = run(&p, &mut st, Step::Dec(d));
    match s {
        Step::Raise(e) => assert_eq!(e.exn, Exn { raw: 1 }),
        s => panic!("{:?}", s),
    }
}

// local val x = 1 in val y = x end; val z = y, in sequence
#[test]
fn step_local_and_sequence() {
    let mut p = Program::new();
    let one = p.int_lit(1);
    let px = p.pvar("x");
    let dx = p.dec(Dec::Val(Vec::new(), vec![ValBind { rec: false, pat: px, exp: one }]));
    let x = p.var("x");
    let py = p.pvar("y");
    let dy = p.dec(Dec::Val(Vec::new(), vec![ValBind { rec: false, pat: py, exp: x }]));
    let local = p.dec(Dec::Local(dx, dy));
    let y = p.var("y");
    let pz = p.pvar("z");
    let dz = p.dec(Dec::Val(Vec::new(), vec![ValBind { rec: false, pat: pz, exp: y }]));
    let seq = p.dec(Dec::Sequence(vec![local, dz])).unwrap();
    let mut st = new_st();
    let (s, _) = run(&p, &mut st, Step::Dec(seq));
    assert!(matches!(s, Step::DecDone));
    let z = p.var("z").unwrap();
    let (s, _) = step(&mut st, &p.cx(), Step::Exp(z)).unwrap();
    assert_eq!(int_of(&val_of(s)), 1);
}

#[test]
fn step_dec_pops_finished_frames() {
    let mut st = new_st();
    assert!(matches!(step_dec(&mut st), Some((Step::DecDone, false))));
    st.push_with_cur_env(FrameKind::In(List::Nil));
    assert!(matches!(step_dec(&mut st), Some((Step::DecDone, true))));
    st.push_with_cur_env(FrameKind::In(List::Cons(Some(4), Box::new(List::Nil))));
    assert!(matches!(step_dec(&mut st), Some((Step::Dec(4), false))));
    assert!(matches!(&st.frames, List::Cons(Frame { kind: FrameKind::In(List::Nil), .. }, _)));
    // a frame of another kind is none that a declaration can come back to
    let mut st = new_st();
    st.push_with_cur_env(FrameKind::Raise);
    assert!(step_dec(&mut st).is_none());
}

#[test]
fn step_is_stuck_where_the_program_was_not_checked() {
    let mut p = Program::new();
    // a hole
    let hole = p.exp(Exp::Hole).unwrap();
    assert!(step(&mut new_st(), &p.cx(), Step::Exp(hole)).is_none());
    // an expression that is not there
    assert!(step(&mut new_st(), &p.cx(), Step::Exp(99)).is_none());
    // a variable without a value
    let x = p.var("x").unwrap();
    assert!(step(&mut new_st(), &p.cx(), Step::Exp(x)).is_none());
    // a constant applied to an argument
    let mut st = new_st();
    st.push_with_cur_env(FrameKind::AppFunc(Some(0)));
    let three = Val::SCon(SCon::Int(Int::Finite(3)));
    assert!(step(&mut st, &p.cx(), Step::Val(three)).is_none());
    // done, with frames left
    let mut st = new_st();
    st.push_with_cur_env(FrameKind::Raise);
    assert!(step(&mut st, &p.cx(), Step::DecDone).is_none());
}

#[test]
fn pattern_matching() {
    let mut p = Program::new();
    let three = Val::SCon(SCon::Int(Int::Finite(3)));
    let w = p.pat(Pat::Wild);
    assert!(matches!(pat_match::get(&p.cx(), w, &three), Some(List::Nil)));
    let four = p.pint(4);
    assert!(pat_match::get(&p.cx(), four, &three).is_none());
    // x as 3 binds x
    let t = p.pint(3);
    let named = p.pat(Pat::As(Name::new("x"), t));
    match pat_match::get(&p.cx(), named, &three) {
        Some(List::Cons((n, v), rest)) => {
            assert_eq!(n.as_str(), "x");
            assert_eq!(int_of(&v), 3);
            assert!(rest.is_empty());
        }
        r => panic!("{:?}", r),
    }
    // 4 | 3
    let four2 = p.pint(4);
    let three2 = p.pint(3);
    let or = p.pat(Pat::Or(millet::hir::OrPat { first: four2, rest: vec![three2] }));
    assert!(pat_match::get(&p.cx(), or, &three).is_some());
    // a constructor with an argument
    let inner = p.pvar("y");
    let some = p.ppath("SOME", Some(inner), IdStatus::Con);
    let v = Val::Con(Con { kind: ConKind::Dat(Name::new("SOME")), arg: Some(Box::new(three)) });
    assert!(matches!(pat_match::get(&p.cx(), some, &v), Some(List::Cons(_, _))));
    let none = p.ppath("NONE", None, IdStatus::Con);
    assert!(pat_match::get(&p.cx(), none, &v).is_none());
    // a missing pattern matches nothing
    assert!(pat_match::get(&p.cx(), None, &v).is_none());
    let _ = (StrEnv::Nil, Closure { env: Env::new(), this: List::Nil, matcher: List::Nil });
}
