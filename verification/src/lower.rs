//! Lowering: the pieces that turn the text of a token into a part of the
//! high-level intermediate representation.

pub mod low;
pub mod model;
pub mod node;
pub mod spec;
pub mod tree;

use crate::cm::path_var::{chars_of, string_of};
use crate::hir::{
    all_digits, big_parse, big_value, digit_value, digits_value, Int, Lab, LabKey, Name, Pat, Path,
    SCon, SConKey,
};
use crate::list::List;
use crate::text::push_char;
use vstd::prelude::*;

verus! {

/// The kinds of special constants.
#[derive(Debug, Clone, Copy, PartialEq, Eq, Structural)]
pub enum SConKind {
    IntLit,
    RealLit,
    WordLit,
    CharLit,
    StringLit,
}

/// The kinds of labels.
#[derive(Debug, Clone, Copy, PartialEq, Eq, Structural)]
pub enum LabKind {
    Name,
    IntLit,
}

/// Where the digits of an integer constant start and in which radix they
/// are, after the sign if there is one: behind `0x` in radix 16, else at
/// once in radix 10.
pub open spec fn int_digits(text: Seq<char>, from: int) -> (int, nat) {
    if from + 1 < text.len() && text[from] == '0' && text[from + 1] == 'x' {
        (from + 2, 16)
    } else {
        (from, 10)
    }
}

/// The integer that the text of an integer constant stands for: `~` for a
/// negative one, then decimal digits, or `0x` and hexadecimal digits. There
/// must be a digit.
pub open spec fn int_lit(text: Seq<char>) -> Option<int> {
    let negative = text.len() > 0 && text[0] == '~';
    let (start, radix) = int_digits(
        text,
        if negative {
            1
        } else {
            0
        },
    );
    let digits = text.skip(start);
    if start < text.len() && all_digits(digits, digits.len() as int, radix) {
        let v = digits_value(digits, digits.len() as int, radix) as int;
        Some(if negative {
            -v
        } else {
            v
        })
    } else {
        None
    }
}

/// The number that the text of a word constant stands for: `0w` and decimal
/// digits, or `0wx` and hexadecimal digits, if the number has 64 bits.
pub open spec fn word_lit(text: Seq<char>) -> Option<u64> {
    if text.len() > 2 && text[0] == '0' && text[1] == 'w' {
        let (start, radix): (int, nat) = if text[2] == 'x' {
            (3, 16)
        } else {
            (2, 10)
        };
        let digits = text.skip(start);
        if start < text.len() && all_digits(digits, digits.len() as int, radix) && digits_value(
            digits,
            digits.len() as int,
            radix,
        ) <= u64::MAX {
            Some(digits_value(digits, digits.len() as int, radix) as u64)
        } else {
            None
        }
    } else {
        None
    }
}

/// The number that the text of a numeric label stands for: decimal digits,
/// at least one, if the number fits the machine.
pub open spec fn num_lab(text: Seq<char>) -> Option<usize> {
    if text.len() > 0 && all_digits(text, text.len() as int, 10) && digits_value(
        text,
        text.len() as int,
        10,
    ) <= usize::MAX {
        Some(digits_value(text, text.len() as int, 10) as usize)
    } else {
        None
    }
}

fn digit(c: char, radix: u64) -> (r: Option<u64>)
    requires
        radix <= 16,
    ensures
        match digit_value(c, radix as nat) {
            Some(v) => r == Some(v as u64),
            None => r is None,
        },
{
    let v: u32 = if '0' <= c && c <= '9' {
        (c as u32) - 48
    } else if 'a' <= c && c <= 'f' {
        (c as u32) - 87
    } else if 'A' <= c && c <= 'F' {
        (c as u32) - 55
    } else {
        16
    };
    if (v as u64) < radix {
        Some(v as u64)
    } else {
        None
    }
}

/// A number read from digits: the number itself, or that it has more than
/// 64 bits.
enum Read {
    Small(u64),
    Large,
}

proof fn lemma_not_all_digits(s: Seq<char>, bad: int, upto: int, radix: nat)
    requires
        0 <= bad < upto <= s.len(),
        digit_value(s[bad], radix) is None,
    ensures
        !all_digits(s, upto, radix),
    decreases upto,
{
    if bad < upto - 1 {
        lemma_not_all_digits(s, bad, upto - 1, radix);
    }
}

proof fn lemma_digits_grow(s: Seq<char>, from: int, upto: int, radix: nat)
    requires
        0 <= from <= upto <= s.len(),
        radix > 0,
    ensures
        digits_value(s, from, radix) <= digits_value(s, upto, radix),
    decreases upto - from,
{
    if from < upto {
        lemma_digits_grow(s, from, upto - 1, radix);
        assert(digits_value(s, upto - 1, radix) * radix >= digits_value(s, upto - 1, radix))
            by (nonlinear_arith)
            requires
                radix > 0,
        ;
    }
}

/// Reads the digits `chars[start..]` in a radix.
fn read(chars: &Vec<char>, start: usize, radix: u64) -> (r: Option<Read>)
    requires
        start <= chars.len(),
        radix == 10 || radix == 16,
    ensures
        ({
            let digits = chars@.skip(start as int);
            match r {
                None => !all_digits(digits, digits.len() as int, radix as nat),
                Some(Read::Small(v)) => all_digits(digits, digits.len() as int, radix as nat)
                    && v == digits_value(digits, digits.len() as int, radix as nat),
                Some(Read::Large) => all_digits(digits, digits.len() as int, radix as nat)
                    && digits_value(digits, digits.len() as int, radix as nat) > u64::MAX,
            }
        }),
{
    let ghost digits = chars@.skip(start as int);
    let mut value: u64 = 0;
    let mut large = false;
    let mut i: usize = start;
    while i < chars.len()
        invariant
            start <= i <= chars.len(),
            radix == 10 || radix == 16,
            digits == chars@.skip(start as int),
            all_digits(digits, i - start, radix as nat),
            !large ==> value == digits_value(digits, i - start, radix as nat),
            large ==> digits_value(digits, i - start, radix as nat) > u64::MAX,
        decreases chars.len() - i,
    {
        let d = match digit(chars[i], radix) {
            None => {
                proof {
                    lemma_not_all_digits(digits, i - start, digits.len() as int, radix as nat);
                }
                return None;
            },
            Some(d) => d,
        };
        if !large {
            let limit = (u64::MAX - d) / radix;
            if value > limit {
                large = true;
                assert(value * radix + d > u64::MAX) by (nonlinear_arith)
                    requires
                        value > limit,
                        limit == (u64::MAX - d) as int / radix as int,
                        radix > 0,
                        d <= u64::MAX,
                ;
            } else {
                assert(value * radix + d <= u64::MAX) by (nonlinear_arith)
                    requires
                        value <= limit,
                        limit == (u64::MAX - d) as int / radix as int,
                        radix > 0,
                        d <= u64::MAX,
                ;
                value = value * radix + d;
            }
        } else {
            proof {
                lemma_digits_grow(digits, i - start, i - start + 1, radix as nat);
            }
        }
        i += 1;
    }
    if large {
        Some(Read::Large)
    } else {
        Some(Read::Small(value))
    }
}

/// The name with the text of a token.
pub fn get_name(text: &str) -> (r: Name)
    requires
        text@.len() > 0,
    ensures
        r@ == text@,
{
    Name::new(text)
}

/// The pattern that is the name alone.
pub fn name(s: &str) -> (r: Pat)
    requires
        s@.len() > 0,
    ensures
        r matches Pat::Con(path, arg) && arg is None && path.structures is Nil && path.last@
            == s@,
{
    Pat::Con(Path::one(Name::new(s)), None)
}

/// The label with the text of a token, if the text is one of its kind.
pub fn get_lab(kind: LabKind, text: &str) -> (r: Option<Lab>)
    ensures
        match kind {
            LabKind::Name => if text@.len() > 0 {
                r is Some && r->0@ == LabKey::Name(text@)
            } else {
                r is None
            },
            LabKind::IntLit => match num_lab(text@) {
                Some(n) => r == Some(Lab::Num(n)),
                None => r is None,
            },
        },
{
    match kind {
        LabKind::Name => {
            if text.unicode_len() > 0 {
                Some(Lab::Name(Name::new(text)))
            } else {
                None
            }
        },
        LabKind::IntLit => {
            let chars = chars_of(text);
            if chars.len() == 0 {
                return None;
            }
            assert(chars@.skip(0) == chars@);
            match read(&chars, 0, 10) {
                Some(Read::Small(v)) => if v <= usize::MAX as u64 {
                    Some(Lab::Num(v as usize))
                } else {
                    None
                },
                _ => None,
            }
        },
    }
}

/// The names of a path as a list, if none is missing.
pub open spec fn all_names(names: Seq<Option<Name>>, from: int) -> Option<List<Name>>
    decreases names.len() - from,
{
    if from < 0 || from >= names.len() {
        Some(List::Nil)
    } else {
        match (names[from], all_names(names, from + 1)) {
            (Some(n), Some(rest)) => Some(List::Cons(n, Box::new(rest))),
            _ => None,
        }
    }
}

/// The last item of a list and the list without it, if the list has an
/// item.
pub open spec fn split_last(l: List<Name>) -> Option<(List<Name>, Name)>
    decreases l,
{
    match l {
        List::Nil => None,
        List::Cons(h, t) => match split_last(*t) {
            None => Some((List::Nil, h)),
            Some((init, last)) => Some((List::Cons(h, Box::new(init)), last)),
        },
    }
}

fn take_last(l: List<Name>) -> (r: Option<(List<Name>, Name)>)
    ensures
        r == split_last(l),
    decreases l,
{
    match l {
        List::Nil => None,
        List::Cons(h, t) => match take_last(*t) {
            None => Some((List::Nil, h)),
            Some((init, last)) => Some((List::Cons(h, Box::new(init)), last)),
        },
    }
}

/// The path of the names of a dotted name, if there is a name and none is
/// missing: the last name is the name itself, the others are the structures
/// that lead to it.
pub fn get_path(names: Vec<Option<Name>>) -> (r: Option<Path>)
    ensures
        r == (match all_names(names@, 0) {
            None => None,
            Some(l) => match split_last(l) {
                None => None,
                Some((structures, last)) => Some(Path { structures, last }),
            },
        }),
{
    let mut names = names;
    let ghost all = names@;
    let mut acc: Option<List<Name>> = Some(List::Nil);
    assert(all_names(all, all.len() as int) == Some(List::<Name>::Nil));
    while names.len() > 0
        invariant
            names@ == all.take(names@.len() as int),
            names@.len() <= all.len(),
            acc == all_names(all, names@.len() as int),
        decreases names.len(),
    {
        let ghost before = names@;
        let n = names.pop().unwrap();
        assert(n == all[names@.len() as int]);
        assert(names@ =~= all.take(names@.len() as int));
        acc = match (n, acc) {
            (Some(n), Some(rest)) => Some(List::Cons(n, Box::new(rest))),
            _ => None,
        };
    }
    match acc {
        None => None,
        Some(l) => match take_last(l) {
            None => None,
            Some((structures, last)) => Some(Path::new(structures, last)),
        },
    }
}

/// What the text of a character constant stands for: the one character
/// between `#"` and `"`.
pub open spec fn char_lit(text: Seq<char>) -> Option<char> {
    if text.len() == 4 && text[0] == '#' && text[1] == '"' && text[3] == '"' {
        Some(text[2])
    } else {
        None
    }
}

/// What the text of a string constant stands for: the characters between
/// the two `"`.
pub open spec fn string_lit(text: Seq<char>) -> Option<Seq<char>> {
    if text.len() >= 2 && text[0] == '"' && text.last() == '"' {
        Some(text.subrange(1, text.len() - 1))
    } else {
        None
    }
}

/// What a special constant of a kind with a text says, if the text is one
/// of the kind. An integer constant that does not fit 32 bits is big. A
/// real constant is kept as it is written.
pub open spec fn scon_spec(kind: SConKind, text: Seq<char>) -> Option<SConKey> {
    match kind {
        SConKind::IntLit => match int_lit(text) {
            Some(i) => Some(SConKey::Int(i)),
            None => None,
        },
        SConKind::RealLit => Some(SConKey::Real(text)),
        SConKind::WordLit => match word_lit(text) {
            Some(w) => Some(SConKey::Word(w)),
            None => None,
        },
        SConKind::CharLit => match char_lit(text) {
            Some(c) => Some(SConKey::Char(c)),
            None => None,
        },
        SConKind::StringLit => match string_lit(text) {
            Some(s) => Some(SConKey::String(s)),
            None => None,
        },
    }
}

fn get_int(text: &str) -> (r: Option<Int>)
    ensures
        match int_lit(text@) {
            Some(i) => r is Some && r->0@ == i && (r->0 is Finite <==> i32::MIN <= i
                <= i32::MAX),
            None => r is None,
        },
{
    let chars = chars_of(text);
    let negative = chars.len() > 0 && chars[0] == '~';
    let from: usize = if negative {
        1
    } else {
        0
    };
    let hex = from + 1 < chars.len() && chars[from] == '0' && chars[from + 1] == 'x';
    let start: usize = if hex {
        from + 2
    } else {
        from
    };
    let radix: u64 = if hex {
        16
    } else {
        10
    };
    if start >= chars.len() {
        return None;
    }
    let ghost digits = chars@.skip(start as int);
    let small = match read(&chars, start, radix) {
        None => {
            return None;
        },
        Some(Read::Small(v)) => if v <= 0x8000_0000 {
            Some(v)
        } else {
            None
        },
        Some(Read::Large) => None,
    };
    match small {
        Some(v) => {
            if negative {
                let i: i64 = -(v as i64);
                return Some(Int::Finite(i as i32));
            } else if v < 0x8000_0000 {
                return Some(Int::Finite(v as i32));
            }
        },
        None => {},
    }
    // too big for 32 bits: `-` if negative, then the digits
    let mut s = String::new();
    if negative {
        push_char(&mut s, '-');
    }
    let d = string_of(&chars, start, chars.len());
    crate::text::push_str(&mut s, d.as_str());
    proof {
        assert(d@ =~= digits);
        if negative {
            assert(s@.skip(1) =~= digits);
        } else {
            assert(s@ =~= digits);
            assert(digit_value(digits[0], radix as nat) is Some) by {
                lemma_first_digit(digits, digits.len() as int, radix as nat);
            }
        }
    }
    match big_parse(s.as_str(), radix as u32) {
        Some(b) => Some(Int::Big(b)),
        None => None,
    }
}

proof fn lemma_first_digit(s: Seq<char>, upto: int, radix: nat)
    requires
        0 < upto <= s.len(),
        all_digits(s, upto, radix),
    ensures
        digit_value(s[0], radix) is Some,
    decreases upto,
{
    if upto > 1 {
        lemma_first_digit(s, upto - 1, radix);
    }
}

fn get_word(text: &str) -> (r: Option<u64>)
    ensures
        r == word_lit(text@),
{
    let chars = chars_of(text);
    if !(chars.len() > 2 && chars[0] == '0' && chars[1] == 'w') {
        return None;
    }
    let hex = chars[2] == 'x';
    let start: usize = if hex {
        3
    } else {
        2
    };
    if start >= chars.len() {
        return None;
    }
    match read(&chars, start, if hex {
        16
    } else {
        10
    }) {
        Some(Read::Small(v)) => Some(v),
        _ => None,
    }
}

/// The special constant of a kind with the text of a token, if the text is
/// one of the kind.
pub fn get_scon(kind: SConKind, text: &str) -> (r: Option<SCon>)
    ensures
        match scon_spec(kind, text@) {
            Some(k) => r is Some && r->0@ == k,
            None => r is None,
        },
{
    match kind {
        SConKind::IntLit => match get_int(text) {
            Some(i) => Some(SCon::Int(i)),
            None => None,
        },
        SConKind::RealLit => Some(SCon::Real(String::from_str(text))),
        SConKind::WordLit => match get_word(text) {
            Some(w) => Some(SCon::Word(w)),
            None => None,
        },
        SConKind::CharLit => {
            let chars = chars_of(text);
            if chars.len() == 4 && chars[0] == '#' && chars[1] == '"' && chars[3] == '"' {
                Some(SCon::Char(chars[2]))
            } else {
                None
            }
        },
        SConKind::StringLit => {
            let chars = chars_of(text);
            if chars.len() >= 2 && chars[0] == '"' && chars[chars.len() - 1] == '"' {
                Some(SCon::String(string_of(&chars, 1, chars.len() - 1)))
            } else {
                None
            }
        },
    }
}

} // verus!
