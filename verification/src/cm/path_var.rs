//! Paths with variables. A variable is written `$(NAME)`, or `$NAME` where
//! the name runs up to the next `/`.

use crate::text::push_char;
use vstd::prelude::*;
use vstd::string::StrSliceExecFns;

verus! {

/// The values of path variables. Of two entries for one variable the first
/// counts.
#[derive(Debug)]
pub struct Env {
    pub vars: Vec<(String, String)>,
}

/// The variables and their values, as text.
pub open spec fn env_pairs(vars: Seq<(String, String)>) -> Seq<(Seq<char>, Seq<char>)> {
    Seq::new(vars.len(), |i: int| (vars[i].0@, vars[i].1@))
}

impl View for Env {
    type V = Seq<(Seq<char>, Seq<char>)>;

    open spec fn view(&self) -> Seq<(Seq<char>, Seq<char>)> {
        env_pairs(self.vars@)
    }
}

/// The value of a variable: that of the first entry `env[from..]` for it.
pub open spec fn var_value(env: Seq<(Seq<char>, Seq<char>)>, name: Seq<char>, from: int) -> Option<
    Seq<char>,
>
    decreases env.len() - from,
{
    if from < 0 || from >= env.len() {
        None
    } else if env[from].0 == name {
        Some(env[from].1)
    } else {
        var_value(env, name, from + 1)
    }
}

/// Where the name of a variable ends: at the first `stop` at or after
/// `from`, or at the end of the text.
pub open spec fn name_end(s: Seq<char>, from: int, stop: char) -> int
    decreases s.len() - from,
{
    if from < 0 || from >= s.len() {
        s.len() as int
    } else if s[from] == stop {
        from
    } else {
        name_end(s, from + 1, stop)
    }
}

/// The text `s[from..]` with the value of each variable in place of the
/// variable, behind `out`; or the name of the first variable that has no
/// value.
pub open spec fn resolve_from(
    s: Seq<char>,
    env: Seq<(Seq<char>, Seq<char>)>,
    from: int,
    out: Seq<char>,
) -> Result<Seq<char>, Seq<char>>
    decreases s.len() - from,
{
    if from < 0 || from >= s.len() {
        Ok(out)
    } else if s[from] != '$' {
        resolve_from(s, env, from + 1, out.push(s[from]))
    } else if from + 1 < s.len() && s[from + 1] == '(' {
        let end = name_end(s, from + 2, ')');
        let name = s.subrange(from + 2, end);
        match var_value(env, name, 0) {
            None => Err(name),
            Some(v) => if from < end < s.len() {
                resolve_from(s, env, end + 1, out + v)
            } else {
                Ok(out + v)
            },
        }
    } else {
        let end = name_end(s, from + 1, '/');
        let name = s.subrange(from + 1, end);
        match var_value(env, name, 0) {
            None => Err(name),
            Some(v) => if from < end < s.len() {
                resolve_from(s, env, end, out + v)
            } else {
                Ok(out + v)
            },
        }
    }
}

/// The path with the value of each variable in place of the variable, or
/// the name of the first variable that has no value.
pub open spec fn resolve(s: Seq<char>, env: Seq<(Seq<char>, Seq<char>)>) -> Result<
    Seq<char>,
    Seq<char>,
> {
    resolve_from(s, env, 0, Seq::empty())
}

/// The characters of a string.
pub fn chars_of(s: &str) -> (r: Vec<char>)
    ensures
        r@ == s@,
{
    let n = s.unicode_len();
    let mut out: Vec<char> = Vec::new();
    let mut i: usize = 0;
    while i < n
        invariant
            i <= n,
            n == s@.len(),
            out@ == s@.take(i as int),
        decreases n - i,
    {
        out.push(s.get_char(i));
        assert(s@.take(i + 1) == s@.take(i as int).push(s@[i as int]));
        i += 1;
    }
    assert(s@.take(n as int) == s@);
    out
}

/// The string of the characters `chars[from..to]`.
pub fn string_of(chars: &Vec<char>, from: usize, to: usize) -> (r: String)
    requires
        from <= to <= chars.len(),
    ensures
        r@ == chars@.subrange(from as int, to as int),
{
    let mut out = String::new();
    let mut i: usize = from;
    while i < to
        invariant
            from <= i <= to,
            to <= chars.len(),
            out@ == chars@.subrange(from as int, i as int),
        decreases to - i,
    {
        push_char(&mut out, chars[i]);
        assert(chars@.subrange(from as int, i + 1) == chars@.subrange(from as int, i as int).push(
            chars@[i as int],
        ));
        i += 1;
    }
    out
}

fn find_end(s: &Vec<char>, from: usize, stop: char) -> (r: usize)
    requires
        from <= s.len(),
    ensures
        r == name_end(s@, from as int, stop),
        from <= r <= s.len(),
{
    let mut i: usize = from;
    while i < s.len() && s[i] != stop
        invariant
            from <= i <= s.len(),
            name_end(s@, from as int, stop) == name_end(s@, i as int, stop),
        decreases s.len() - i,
    {
        i += 1;
    }
    i
}

impl Env {
    /// No variable has a value.
    pub fn new() -> (r: Env)
        ensures
            r@ == Seq::<(Seq<char>, Seq<char>)>::empty(),
    {
        let r = Env { vars: Vec::new() };
        assert(r@ =~= Seq::<(Seq<char>, Seq<char>)>::empty());
        r
    }

    /// Gives a variable a value, behind the values that are there.
    pub fn insert(&mut self, name: String, value: String)
        ensures
            final(self)@ == old(self)@.push((name@, value@)),
    {
        self.vars.push((name, value));
        assert(self@ =~= old(self)@.push((name@, value@)));
    }

    /// The value of a variable.
    pub fn get(&self, name: &str) -> (r: Option<&String>)
        ensures
            match r {
                Some(v) => var_value(self@, name@, 0) == Some(v@),
                None => var_value(self@, name@, 0) is None,
            },
    {
        let mut i: usize = 0;
        while i < self.vars.len()
            invariant
                i <= self.vars.len(),
                var_value(self@, name@, 0) == var_value(self@, name@, i as int),
            decreases self.vars.len() - i,
        {
            if crate::text::str_eq(self.vars[i].0.as_str(), name) {
                return Some(&self.vars[i].1);
            }
            i += 1;
        }
        None
    }
}

/// The path with the value of each variable in place of the variable, or
/// the name of the first variable that has no value.
pub fn get(s: &str, env: &Env) -> (r: Result<String, String>)
    ensures
        match r {
            Ok(p) => resolve(s@, env@) == Ok::<Seq<char>, Seq<char>>(p@),
            Err(v) => resolve(s@, env@) == Err::<Seq<char>, Seq<char>>(v@),
        },
{
    let chars = chars_of(s);
    let mut out = String::new();
    let mut i: usize = 0;
    while i < chars.len()
        invariant
            i <= chars.len(),
            chars@ == s@,
            resolve(s@, env@) == resolve_from(s@, env@, i as int, out@),
        decreases chars.len() - i,
    {
        if chars[i] != '$' {
            push_char(&mut out, chars[i]);
            i += 1;
        } else {
            let paren = i + 1 < chars.len() && chars[i + 1] == '(';
            let start = if paren {
                i + 2
            } else {
                i + 1
            };
            let end = find_end(&chars, start, if paren {
                ')'
            } else {
                '/'
            });
            let name = string_of(&chars, start, end);
            match env.get(name.as_str()) {
                None => {
                    return Err(name);
                },
                Some(v) => {
                    out.append(v.as_str());
                    if end < chars.len() {
                        i = if paren {
                            end + 1
                        } else {
                            end
                        };
                    } else {
                        return Ok(out);
                    }
                },
            }
        }
    }
    Ok(out)
}

} // verus!
