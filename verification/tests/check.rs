use millet::analysis::{Analysis, SourceFile, StdBasis};
use millet::diagnostics::range;
use millet::hir::Name;
use millet::statics::basis::minimal;
use millet::statics::display::MetaVarNames;
use millet::statics::env::get_val;
use millet::statics::top_dec::get_str_dec;
use millet::statics::util::instantiate;

/// What a comment of the form `(**   ^^^ message *)` expects of the line
/// above it: the line, the columns under the carets, and the message.
#[derive(Debug, Clone, PartialEq, Eq, PartialOrd, Ord)]
struct Expect {
    line: u32,
    start: u32,
    end: u32,
    message: String,
}

fn expectations(text: &str) -> Vec<Expect> {
    let mut out = Vec::new();
    for (i, line) in text.lines().enumerate() {
        let Some(rest) = line.strip_prefix("(**") else { continue };
        let Some(rest) = rest.strip_suffix("*)") else { continue };
        let blanks = rest.len() - rest.trim_start().len();
        let rest = rest.trim_start();
        let carets = rest.chars().take_while(|&c| c == '^').count();
        if carets == 0 {
            continue;
        }
        let start = (3 + blanks) as u32;
        out.push(Expect {
            line: (i - 1) as u32,
            start,
            end: start + carets as u32,
            message: rest[carets..].trim().to_owned(),
        });
    }
    out
}

/// The type of the name, as hovering over it shows it.
fn hover(file: &SourceFile, name: &str) -> String {
    let (mut st, mut cx) = minimal();
    for &d in &file.lowered.top_decs {
        let more = get_str_dec(&mut st, &cx, &file.lowered.arenas, d, u64::MAX);
        cx.env.extend(more);
    }
    let Some(info) = get_val(&cx.env.val_env, &Name::new(name)) else {
        return format!("no such name: {name}");
    };
    let ty = instantiate(&mut st, &info.ty_scheme);
    let applied = st.subst.apply(&ty);
    let mut names = MetaVarNames::new(&st.subst);
    names.extend_for(&applied);
    applied.display(&names, &st.syms)
}

/// What does not hold of the text: the errors that were expected and not
/// found, the errors that were found and not expected, and the hovers that
/// show another type.
fn mismatches(text: &str) -> Vec<String> {
    let file = SourceFile::from_text(text);
    let mut found: Vec<Expect> = Analysis::new(StdBasis::Minimal)
        .get_one(&file)
        .into_iter()
        .map(|e| {
            let r = range(text.as_bytes(), e.range).expect("a range outside the text");
            assert_eq!(r.start.line, r.end.line, "an error over several lines: {e:?}");
            Expect {
                line: r.start.line,
                start: r.start.character,
                end: r.end.character,
                message: e.message,
            }
        })
        .collect();
    let mut wanted = Vec::new();
    let mut out = Vec::new();
    let lines: Vec<&str> = text.lines().collect();
    for e in expectations(text) {
        match e.message.strip_prefix("hover: ") {
            Some(ty) => {
                let name = &lines[e.line as usize][e.start as usize..e.end as usize];
                let got = hover(&file, name);
                if got != ty {
                    out.push(format!("hover over {name}: wanted {ty}, got {got}"));
                }
            }
            None => wanted.push(e),
        }
    }
    found.sort();
    wanted.sort();
    for e in &wanted {
        if !found.contains(e) {
            out.push(format!("not found: {e:?}"));
        }
    }
    for e in &found {
        if !wanted.contains(e) {
            out.push(format!("not expected: {e:?}"));
        }
    }
    out
}

fn check(text: &str) {
    let bad = mismatches(text);
    assert!(bad.is_empty(), "{}", bad.join("\n"));
}

#[test]
fn no_errors_in_plain_bindings() {
    check(
        r#"
val x = 3
val y = (x, "s", #"c", 1.5, 0w1)
val f = fn z => z
val _ = f y
"#,
    );
}

#[test]
fn t_01() {
    check(
        r#"
val add = op+
val _ = add (1, 2)
"#,
    );
}

#[test]
fn t_04() {
    check(
        r#"
(* abs *)
val _: int = abs 1
val _: real = abs 1.1
(* tilde. put a space so the ~ is a function, not part of the constant. *)
val _: int = ~ 1
val _: real = ~ 1.1
(* div *)
val _: int = 1 div 1
val _: word = 0w0 div 0w0
(* mod *)
val _: int = 1 mod 1
val _: word = 0w0 mod 0w0
(* star *)
val _: int = 1 * 1
val _: word = 0w0 * 0w0
val _: real = 1.1 * 1.1
(* slash *)
val _: real = 1.1 / 1.1
(* plus *)
val _: int = 1 + 1
val _: word = 0w0 + 0w0
val _: real = 1.1 + 1.1
(* minus *)
val _: int = 1 - 1
val _: word = 0w0 - 0w0
val _: real = 1.1 - 1.1
(* lt *)
val _: bool = 1 < 1
val _: bool = 0w0 < 0w0
val _: bool = 1.1 < 1.1
val _: bool = "e" < "e"
val _: bool = #"e" < #"e"
(* lt eq *)
val _: bool = 1 <= 1
val _: bool = 0w0 <= 0w0
val _: bool = 1.1 <= 1.1
val _: bool = "e" <= "e"
val _: bool = #"e" <= #"e"
(* gt *)
val _: bool = 1 > 1
val _: bool = 0w0 > 0w0
val _: bool = 1.1 > 1.1
val _: bool = "e" > "e"
val _: bool = #"e" > #"e"
(* gt eq *)
val _: bool = 1 >= 1
val _: bool = 0w0 >= 0w0
val _: bool = 1.1 >= 1.1
val _: bool = "e" >= "e"
val _: bool = #"e" >= #"e"
"#,
    );
}

#[test]
fn t_05_mismatched_real_and_int() {
    check(
        r#"
val _ = 1.1 + 1
(**     ^^^^^^^ mismatched types: expected real, found int *)
"#,
    );
}

#[test]
fn no_over_generalize_infer_val() {
    check(
        r#"
fun id x =
  let val ret = x
  in ret end

val y = id ()
val _ = y
(**     ^ hover: unit *)
val z = id 3
val _ = z
(**     ^ hover: int *)
"#,
    );
}

#[test]
fn no_over_generalize_infer_fun() {
    check(
        r#"
fun id x =
  let fun get () = x
  in get () end

val y = id ()
val _ = y
(**     ^ hover: unit *)
val z = id 3
val _ = z
(**     ^ hover: int *)
"#,
    );
}

#[test]
fn no_over_generalize_fixed() {
    check(
        r#"
fun 'a id (x : 'a) =
  let fun get () = x
  in get () end

val y = id ()
val _ = y
(**     ^ hover: unit *)
val z = id 3
val _ = z
(**     ^ hover: int *)
"#,
    );
}

#[test]
fn through_list() {
    check(
        r#"
exception E

fun guh x =
  let
    val y = (fn [a] => a | _ => raise E) [x]
  in
    y
  end
"#,
    );
}

#[test]
fn num_constant() {
    check(
        r#"
val _ = 0x
(**     ^^ incomplete literal *)
"#,
    );
}

#[test]
fn circular_type() {
    check(
        r#"
fun f x = x x
(**       ^^^ circular type: `?a` occurs in `?a -> ?b` *)
"#,
    );
}

#[test]
fn id_at_unit_and_int() {
    check(
        r#"
fun id x = x  val y = id ()  val z = id 3
val _ = y
(**     ^ hover: unit *)
val _ = z
(**     ^ hover: int *)
"#,
    );
}

#[test]
fn exhaustive_match_on_bool() {
    check(
        r#"
val _ = fn true => 0 | false => 1
"#,
    );
}

#[test]
fn non_exhaustive_match_on_bool() {
    check(
        r#"
val _ = fn true => 0
(**     ^^^^^^^^^^^^ non-exhaustive match *)
"#,
    );
}

#[test]
fn unreachable_pattern_in_second_arm() {
    check(
        r#"
val _ = fn 0 => () | 0 => () | _ => ()
(**                  ^ unreachable pattern *)
"#,
    );
}

#[test]
fn desugared_expressions() {
    check(
        r#"
val a: bool = true andalso false orelse true
val b: int = if a then 1 else 2
val c: int list = [1, 2, 3]
val d: int = case c of [] => 0 | x :: _ => x
val e: int = (1; 2; 3)
val f: int * string = (1, "two")
val h: {x: int, y: bool} = {x = 1, y = a}
val {x = i, y} = h
val j: int = let val k = i in k + 1 end
val l: int = 1 + 2 * 3 - 4 div 2
val m: int list = 1 :: 2 :: c
val n: bool = 1 + 2 = 3
fun twice f x = f (f x)
val o: int = twice (fn x => x + 1) 0
fun len nil = 0 | len (_ :: t) = 1 + len t
val p: int = len c
fun zip (x :: xs) (y :: ys) = (x, y) :: zip xs ys
  | zip _ _ = []
val q: (int * bool) list = zip c [true, false]
val r: int = (raise Match) handle Match => 0 | _ => 1
"#,
    );
}

#[test]
fn parse_errors_are_reported() {
    check(
        r#"
val x = (1 val y = 2
(**        ^^^ expected `)` *)
"#,
    );
}

#[test]
fn infix_without_operand() {
    check(
        r#"
val x = 1 +
(**     ^^^ infix operator without operands *)
"#,
    );
}

#[test]
fn ty_var() {
    check(
        r#"
datatype ' guh = no
(**      ^ incomplete type variable *)
"#,
    );
}

#[test]
fn datatypes() {
    check(
        r#"
datatype color = Red | Green | Blue
val c: color = Green
fun name Red = "red" | name Green = "green" | name Blue = "blue"
val s: string = name c
datatype 'a opt = None | Some of 'a
val a: int opt = Some 3
val b: string opt = None
fun get (Some x) = x | get None = raise Match
val i: int = get a
datatype tree = Leaf | Node of tree * int * tree
fun size Leaf = 0 | size (Node (l, _, r)) = size l + 1 + size r
val n: int = size (Node (Leaf, 1, Node (Leaf, 2, Leaf)))
datatype even = Zero | SuccE of odd and odd = SuccO of even
val two: even = SuccE (SuccO Zero)
"#,
    );
}

#[test]
fn datatype_matches_are_checked() {
    check(
        r#"
datatype color = Red | Green | Blue
val _ = fn Red => 0 | Green => 1
(**     ^^^^^^^^^^^^^^^^^^^^^^^^ non-exhaustive match *)
val _ = fn Red => 0 | _ => 1 | Blue => 2
(**                            ^^^^ unreachable pattern *)
val _: color = 3
(**            ^ int is not compatible with color *)
"#,
    );
}

#[test]
fn type_abbreviations() {
    check(
        r#"
type pair = int * bool
val p: pair = (1, true)
type 'a two = 'a * 'a
val q: string two = ("a", "b")
val r: int two = (1, "b")
(**              ^^^^^^^^ string is not compatible with int *)
"#,
    );
}

#[test]
fn lowering_errors() {
    check(
        r#"
val (x, y) as z = (1, 2)
(** ^^^^^^^^^^^ invalid name in `as` pattern *)
val _ = fn (1 2) => 0 | _ => 1
(**         ^^^ invalid pattern application *)
val _: int int = 3
(**    ^^^^^^^ undefined identifier *)
val _: (int, int) = 3
(**    ^^^^^^^^^^ invalid type application *)
fun h = 1
(** ^^^^^ invalid function clauses *)
val _: unit = while false do ()
val _ = while 1 do ()
(**     ^^^^^^^^^^^^^ int is not compatible with bool *)
abstype t = T of int with val make = T fun get (T i) = i end
val one: t = make 1
val _: int = get one
val _ = T 1
(**     ^ undefined identifier *)
datatype color = Red | Green
datatype shade = datatype color
val _: shade = Red
val _ = fn (Red: shade) => 0 | Green => 1
    datatype nothing = datatype missing
(** ^^^^^^^^^^^^^^^^^^^^^^^^^^^^^^^^^^^ undefined identifier *)
"#,
    );
}

#[test]
fn overload_that_the_operator_does_not_admit() {
    check(
        r#"
val _ = 1 div 0.5
(**     ^^^^^^^^^ int is not compatible with real *)
val _ = 1.1 + 1
(**     ^^^^^^^ mismatched types: expected real, found int *)
val _ = 0w1 mod 2
(**     ^^^^^^^^^ mismatched types: expected word, found int *)
val _ = "a" < 1
(**     ^^^^^^^ mismatched types: expected string, found int *)
val _ = 1.5 div 2
(**     ^^^^^^^^^ <wordint> is not compatible with real *)
"#,
    );
}

#[test]
fn errors_of_all_passes_in_source_order() {
    let text = "val x = y\nval z = 0x\nval w = (1\nval v = u";
    let file = SourceFile::from_text(text);
    let errors = Analysis::new(StdBasis::Minimal).get_one(&file);
    let starts: Vec<u32> = errors.iter().map(|e| e.range.start).collect();
    let mut sorted = starts.clone();
    sorted.sort();
    assert_eq!(starts, sorted, "{errors:?}");
    let codes: Vec<u16> = errors.iter().map(|e| e.code).collect();
    assert_eq!(codes, vec![5001, 2004, 3001, 5001], "{errors:?}");
}

#[test]
fn analysis_of_a_text() {
    let analysis = Analysis::new(StdBasis::Minimal);
    let text = "val x = 1 div 0.5\nval y = (2";
    let from_file = analysis.get_one(&SourceFile::from_text(text));
    let from_text = analysis.get_text(text);
    let show = |es: &Vec<millet::analysis::Error>| -> Vec<(u32, u32, String, u16)> {
        es.iter().map(|e| (e.range.start, e.range.end, e.message.clone(), e.code)).collect()
    };
    assert_eq!(show(&from_file), show(&from_text));
    assert_eq!(
        show(&from_text),
        vec![
            (8, 17, "int is not compatible with real".to_owned(), 5015),
            (28, 28, "expected `)`".to_owned(), 3001),
        ]
    );
    // the full basis starts where the minimal one starts, and is the default
    let full = Analysis::new(StdBasis::Full).get_text(text);
    assert_eq!(show(&full), show(&from_text));
    assert_eq!(StdBasis::default(), StdBasis::Full);
    assert_eq!(show(&Analysis::default().get_text(text)), show(&from_text));
    let input = millet::analysis::Input::default();
    assert!(input.sources.is_empty() && input.groups.is_empty());
    assert_eq!(Analysis::default().get_many(&input).unwrap().len(), 0);
}

#[test]
fn while_loops() {
    check(
        r#"
val _: unit = while true do ()
val _ = while true do 1 + 2
val _ = fn x => while x do (x; ())
val _ = while () do ()
(**     ^^^^^^^^^^^^^^ mismatched types: expected bool -> unit, found unit -> ?a *)
"#,
    );
}

#[test]
fn exceptions_with_arguments() {
    check(
        r#"
exception Bad of int
exception Worse of string * int and Plain
val _: int = (raise Bad 3) handle Bad n => n | Worse (_, n) => n | Plain => 0 | _ => 1
val e: exn = Worse ("a", 1)
val _ = Bad "x"
(**     ^^^^^^^ string is not compatible with int *)
val _ = fn Bad => 0
(**        ^^^ missing argument for constructor pattern *)
exception Again = Bad
val _: exn = Again 2
"#,
    );
}
