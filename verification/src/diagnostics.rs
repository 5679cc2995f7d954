//! Diagnostics for an editor: errors with positions in lines and columns,
//! and which files to publish them for.

use crate::analysis::{Error, ErrorKey};
use crate::config::Severity;
use crate::text::{decimal, push_decimal, push_str, TextRange};
use vstd::prelude::*;

verus! {

/// Where diagnostics say they come from.
pub const SOURCE: &'static str = "millet";

/// Where the errors are documented: each code has an anchor there.
pub const ERRORS_URL: &'static str = "https://github.com/azdavis/millet/blob/main/doc/errors.md";

/// For how many files diagnostics are published at most.
pub const MAX_FILES_WITH_ERRORS: usize = 20;

/// How many diagnostics are published for one file at most.
pub const MAX_ERRORS_PER_FILE: usize = 20;

/// A position in a text: the line, and the offset in bytes into the line,
/// both counted from 0.
#[derive(Debug, Clone, Copy, PartialEq, Eq, Structural)]
pub struct Position {
    pub line: u32,
    pub character: u32,
}

/// A range in a text, by positions.
#[derive(Debug, Clone, Copy, PartialEq, Eq, Structural)]
pub struct Range {
    pub start: Position,
    pub end: Position,
}

/// The number of line feeds in `text[..upto]`.
pub open spec fn line_of(text: Seq<u8>, upto: int) -> nat
    decreases upto,
{
    if upto <= 0 {
        0
    } else {
        line_of(text, upto - 1) + (if text[upto - 1] == 10u8 {
            1nat
        } else {
            0nat
        })
    }
}

/// Where the line that holds the offset `upto` starts: behind the last line
/// feed of `text[..upto]`.
pub open spec fn line_start(text: Seq<u8>, upto: int) -> int
    decreases upto,
{
    if upto <= 0 {
        0
    } else if text[upto - 1] == 10u8 {
        upto
    } else {
        line_start(text, upto - 1)
    }
}

/// The position of a byte offset in a text, if the offset is in the text or
/// at its end.
pub open spec fn position_of(text: Seq<u8>, offset: u32) -> Option<Position> {
    if offset <= text.len() && line_of(text, offset as int) <= u32::MAX {
        Some(
            Position {
                line: line_of(text, offset as int) as u32,
                character: (offset - line_start(text, offset as int)) as u32,
            },
        )
    } else {
        None
    }
}

/// The range of positions of a range of byte offsets, if both ends have a
/// position.
pub open spec fn range_of(text: Seq<u8>, range: TextRange) -> Option<Range> {
    match (position_of(text, range.start), position_of(text, range.end)) {
        (Some(start), Some(end)) => Some(Range { start, end }),
        _ => None,
    }
}

/// The position of a byte offset in a text.
pub fn position(text: &[u8], offset: u32) -> (r: Option<Position>)
    ensures
        r == position_of(text@, offset),
{
    if offset as usize > text.len() {
        return None;
    }
    let mut line: u32 = 0;
    let mut start: u32 = 0;
    let mut i: u32 = 0;
    while i < offset
        invariant
            i <= offset <= text.len(),
            line == line_of(text@, i as int),
            start == line_start(text@, i as int),
            line <= i,
            start <= i,
        decreases offset - i,
    {
        if text[i as usize] == 10u8 {
            line += 1;
            start = i + 1;
        }
        i += 1;
    }
    Some(Position { line, character: offset - start })
}

/// The range of positions of a range of byte offsets.
pub fn range(text: &[u8], of: TextRange) -> (r: Option<Range>)
    ensures
        r == range_of(text@, of),
{
    match (position(text, of.start), position(text, of.end)) {
        (Some(start), Some(end)) => Some(Range { start, end }),
        _ => None,
    }
}

/// A diagnostic for an editor.
#[derive(Debug)]
pub struct Diagnostic {
    pub range: Range,
    pub severity: Severity,
    pub code: u16,
    /// Where the code is documented.
    pub code_description: String,
    pub source: String,
    pub message: String,
}

/// A diagnostic, apart from how text is stored.
pub struct DiagnosticKey {
    pub range: Range,
    pub severity: Severity,
    pub code: u16,
    pub code_description: Seq<char>,
    pub source: Seq<char>,
    pub message: Seq<char>,
}

impl View for Diagnostic {
    type V = DiagnosticKey;

    open spec fn view(&self) -> DiagnosticKey {
        DiagnosticKey {
            range: self.range,
            severity: self.severity,
            code: self.code,
            code_description: self.code_description@,
            source: self.source@,
            message: self.message@,
        }
    }
}

/// What each diagnostic of a sequence says.
pub open spec fn diagnostic_keys(ds: Seq<Diagnostic>) -> Seq<DiagnosticKey> {
    Seq::new(ds.len(), |i: int| ds[i]@)
}

/// The severity that the config gives a code: that of the first of
/// `severities[from..]` for the code, where none means to ignore the
/// diagnostic; an error when the config does not speak of the code.
pub open spec fn severity_of(severities: Seq<(u16, Option<Severity>)>, code: u16, from: int) -> Option<
    Severity,
>
    decreases severities.len() - from,
{
    if from < 0 || from >= severities.len() {
        Some(Severity::Error)
    } else if severities[from].0 == code {
        severities[from].1
    } else {
        severity_of(severities, code, from + 1)
    }
}

/// The diagnostic of an error in a text, if there is one: none for an
/// error that the config ignores, and none for one whose range is not in
/// the text.
pub open spec fn diagnostic_of(
    text: Seq<u8>,
    e: ErrorKey,
    severities: Seq<(u16, Option<Severity>)>,
) -> Option<DiagnosticKey> {
    match (range_of(text, e.range), severity_of(severities, e.code, 0)) {
        (Some(range), Some(severity)) => Some(
            DiagnosticKey {
                range,
                severity,
                code: e.code,
                code_description: ERRORS_URL@ + "#"@ + decimal(e.code as nat),
                source: SOURCE@,
                message: e.message,
            },
        ),
        _ => None,
    }
}

/// The diagnostics of the errors `errors[from..]`, behind `acc`, as long
/// as there are fewer than the most that are published for one file.
pub open spec fn diagnostics_spec(
    text: Seq<u8>,
    errors: Seq<ErrorKey>,
    from: int,
    severities: Seq<(u16, Option<Severity>)>,
    acc: Seq<DiagnosticKey>,
) -> Seq<DiagnosticKey>
    decreases errors.len() - from,
{
    if from < 0 || from >= errors.len() || acc.len() >= MAX_ERRORS_PER_FILE {
        acc
    } else {
        diagnostics_spec(
            text,
            errors,
            from + 1,
            severities,
            match diagnostic_of(text, errors[from], severities) {
                Some(d) => acc.push(d),
                None => acc,
            },
        )
    }
}

fn severity_for(severities: &Vec<(u16, Option<Severity>)>, code: u16) -> (r: Option<Severity>)
    ensures
        r == severity_of(severities@, code, 0),
{
    let mut i: usize = 0;
    while i < severities.len()
        invariant
            i <= severities.len(),
            severity_of(severities@, code, 0) == severity_of(severities@, code, i as int),
        decreases severities.len() - i,
    {
        if severities[i].0 == code {
            return severities[i].1;
        }
        i += 1;
    }
    Some(Severity::Error)
}

/// The diagnostics of the errors of a file, for an editor.
pub fn diagnostics(text: &[u8], errors: &Vec<Error>, severities: &Vec<(u16, Option<Severity>)>) -> (r:
    Vec<Diagnostic>)
    ensures
        diagnostic_keys(r@) == diagnostics_spec(
            text@,
            crate::analysis::error_keys(errors@),
            0,
            severities@,
            Seq::empty(),
        ),
{
    let mut out: Vec<Diagnostic> = Vec::new();
    assert(diagnostic_keys(out@) =~= Seq::<DiagnosticKey>::empty());
    let mut i: usize = 0;
    while i < errors.len() && out.len() < MAX_ERRORS_PER_FILE
        invariant
            i <= errors.len(),
            diagnostics_spec(
                text@,
                crate::analysis::error_keys(errors@),
                0,
                severities@,
                Seq::empty(),
            ) == diagnostics_spec(
                text@,
                crate::analysis::error_keys(errors@),
                i as int,
                severities@,
                diagnostic_keys(out@),
            ),
        decreases errors.len() - i,
    {
        let e = &errors[i];
        match (range(text, e.range), severity_for(severities, e.code)) {
            (Some(found), Some(severity)) => {
                let mut url = String::from_str(ERRORS_URL);
                push_str(&mut url, "#");
                push_decimal(&mut url, e.code as u64);
                let d = Diagnostic {
                    range: found,
                    severity,
                    code: e.code,
                    code_description: url,
                    source: String::from_str(SOURCE),
                    message: e.message.clone(),
                };
                let ghost before = diagnostic_keys(out@);
                out.push(d);
                assert(diagnostic_keys(out@) =~= before.push(d@));
            },
            _ => {},
        }
        i += 1;
    }
    out
}

/// Whether the text is one of the texts.
pub open spec fn has_text(texts: Seq<String>, t: Seq<char>) -> bool {
    exists|i: int| 0 <= i < texts.len() && (#[trigger] texts[i])@ == t
}

/// What to publish after an analysis: for which files diagnostics are
/// sent, and which files have diagnostics from now on.
pub struct Plan {
    /// The files to send diagnostics for, each by its URL, in order; no
    /// diagnostics clear those of a file.
    pub send: Vec<(String, Vec<Diagnostic>)>,
    /// The files that have diagnostics from now on, by URL.
    pub has_diagnostics: Vec<String>,
}

/// The files among `results[from..]` to send diagnostics for: those with
/// diagnostics, as long as there are fewer than the most files that
/// diagnostics are published for.
pub open spec fn new_sends(
    results: Seq<(String, Vec<Diagnostic>)>,
    from: int,
    acc: Seq<(Seq<char>, Seq<DiagnosticKey>)>,
) -> Seq<(Seq<char>, Seq<DiagnosticKey>)>
    decreases results.len() - from,
{
    if from < 0 || from >= results.len() {
        acc
    } else {
        new_sends(
            results,
            from + 1,
            if results[from].1@.len() == 0 || acc.len() >= MAX_FILES_WITH_ERRORS {
                acc
            } else {
                acc.push((results[from].0@, diagnostic_keys(results[from].1@)))
            },
        )
    }
}

/// Whether one of the sends is for the URL.
pub open spec fn sends_to(sends: Seq<(Seq<char>, Seq<DiagnosticKey>)>, url: Seq<char>) -> bool {
    exists|i: int| 0 <= i < sends.len() && (#[trigger] sends[i]).0 == url
}

/// The sends with one that clears the diagnostics of each of the files
/// `old_urls[from..]` that had diagnostics and gets none now.
pub open spec fn with_clears(
    old_urls: Seq<String>,
    from: int,
    fresh: Seq<(Seq<char>, Seq<DiagnosticKey>)>,
    acc: Seq<(Seq<char>, Seq<DiagnosticKey>)>,
) -> Seq<(Seq<char>, Seq<DiagnosticKey>)>
    decreases old_urls.len() - from,
{
    if from < 0 || from >= old_urls.len() {
        acc
    } else {
        with_clears(
            old_urls,
            from + 1,
            fresh,
            if sends_to(fresh, old_urls[from]@) {
                acc
            } else {
                acc.push((old_urls[from]@, Seq::empty()))
            },
        )
    }
}

/// What each send of a sequence says.
pub open spec fn send_keys(sends: Seq<(String, Vec<Diagnostic>)>) -> Seq<
    (Seq<char>, Seq<DiagnosticKey>),
> {
    Seq::new(sends.len(), |i: int| (sends[i].0@, diagnostic_keys(sends[i].1@)))
}

/// The URLs of the texts.
pub open spec fn texts(urls: Seq<String>) -> Seq<Seq<char>> {
    Seq::new(urls.len(), |i: int| urls[i]@)
}

/// The URLs that the sends are for.
pub open spec fn send_urls(sends: Seq<(Seq<char>, Seq<DiagnosticKey>)>) -> Seq<Seq<char>> {
    Seq::new(sends.len(), |i: int| sends[i].0)
}

fn sent_to(sends: &Vec<(String, Vec<Diagnostic>)>, n: usize, url: &str) -> (r: bool)
    requires
        n <= sends.len(),
    ensures
        r == sends_to(send_keys(sends@).take(n as int), url@),
{
    let mut i: usize = 0;
    while i < n
        invariant
            i <= n <= sends.len(),
            forall|j: int| 0 <= j < i ==> (#[trigger] send_keys(sends@)[j]).0 != url@,
        decreases n - i,
    {
        if crate::text::str_eq(sends[i].0.as_str(), url) {
            assert(send_keys(sends@).take(n as int)[i as int].0 == url@);
            return true;
        }
        i += 1;
    }
    assert forall|j: int| 0 <= j < n implies (#[trigger] send_keys(sends@).take(n as int)[j]).0
        != url@ by {
        assert(send_keys(sends@)[j].0 != url@);
    }
    false
}

/// Plans what to publish: `old_urls` are the files that have diagnostics,
/// `results` the diagnostics of each analysed file by URL. A file with
/// diagnostics gets them, up to the most files; a file that had diagnostics
/// and gets none now is cleared.
pub fn publish_diagnostics(old_urls: &Vec<String>, results: Vec<(String, Vec<Diagnostic>)>) -> (r:
    Plan)
    ensures
        send_keys(r.send@) == with_clears(
            old_urls@,
            0,
            new_sends(results@, 0, Seq::empty()),
            new_sends(results@, 0, Seq::empty()),
        ),
        texts(r.has_diagnostics@) == send_urls(new_sends(results@, 0, Seq::empty())),
{
    let mut send: Vec<(String, Vec<Diagnostic>)> = Vec::new();
    let mut has: Vec<String> = Vec::new();
    assert(send_keys(send@) =~= Seq::<(Seq<char>, Seq<DiagnosticKey>)>::empty());
    assert(texts(has@) =~= send_urls(send_keys(send@)));
    let mut results = results;
    let ghost all = results@;
    let mut rest: Vec<(String, Vec<Diagnostic>)> = Vec::new();
    while results.len() > 0
        invariant
            all.len() == results.len() + rest.len(),
            forall|j: int| 0 <= j < results.len() ==> results@[j] == all[j],
            forall|j: int| 0 <= j < rest.len() ==> rest@[j] == all[all.len() - 1 - j],
        decreases results.len(),
    {
        let e = results.pop().unwrap();
        rest.push(e);
    }
    let mut i: usize = 0;
    while rest.len() > 0
        invariant
            i + rest.len() == all.len(),
            all.len() <= usize::MAX,
            forall|j: int| 0 <= j < rest.len() ==> rest@[j] == all[all.len() - 1 - j],
            new_sends(all, 0, Seq::empty()) == new_sends(all, i as int, send_keys(send@)),
            texts(has@) == send_urls(send_keys(send@)),
        decreases rest.len(),
    {
        let (url, ds) = rest.pop().unwrap();
        assert((url, ds) == all[i as int]);
        if !(ds.len() == 0 || send.len() >= MAX_FILES_WITH_ERRORS) {
            let ghost before = send_keys(send@);
            let ghost before_has = texts(has@);
            has.push(url.clone());
            send.push((url, ds));
            assert(send_keys(send@) =~= before.push((url@, diagnostic_keys(ds@))));
            assert(texts(has@) =~= before_has.push(url@));
            assert(texts(has@) =~= send_urls(send_keys(send@)));
        }
        i += 1;
    }
    let n = send.len();
    let ghost fresh = send_keys(send@);
    assert(fresh.take(n as int) =~= fresh);
    let mut k: usize = 0;
    while k < old_urls.len()
        invariant
            k <= old_urls.len(),
            n <= send.len(),
            send_keys(send@).take(n as int) == fresh,
            with_clears(old_urls@, 0, fresh, fresh) == with_clears(
                old_urls@,
                k as int,
                fresh,
                send_keys(send@),
            ),
        decreases old_urls.len() - k,
    {
        if !sent_to(&send, n, old_urls[k].as_str()) {
            let ghost before = send_keys(send@);
            let none: Vec<Diagnostic> = Vec::new();
            assert(diagnostic_keys(none@) =~= Seq::<DiagnosticKey>::empty());
            send.push((old_urls[k].clone(), none));
            assert(send_keys(send@) =~= before.push(
                (old_urls@[k as int]@, Seq::<DiagnosticKey>::empty()),
            ));
            assert(send_keys(send@).take(n as int) =~= before.take(n as int));
        }
        k += 1;
    }
    Plan { send, has_diagnostics: has }
}

} // verus!
