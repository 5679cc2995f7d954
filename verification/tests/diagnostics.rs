use millet::analysis::Error;
use millet::config::Severity;
use millet::diagnostics::{
    diagnostics, position, publish_diagnostics, range, Diagnostic, Position, Range,
    MAX_ERRORS_PER_FILE, MAX_FILES_WITH_ERRORS,
};
use millet::text::TextRange;

fn error(start: u32, end: u32, code: u16) -> Error {
    Error { range: TextRange::new(start, end), message: format!("e{}", code), code }
}

#[test]
fn positions_in_a_text() {
    let text = b"ab\ncde\n\nf";
    let pos = |o| position(text, o).map(|p| (p.line, p.character));
    assert_eq!(pos(0), Some((0, 0)));
    assert_eq!(pos(2), Some((0, 2)));
    assert_eq!(pos(3), Some((1, 0)));
    assert_eq!(pos(5), Some((1, 2)));
    assert_eq!(pos(7), Some((2, 0)));
    assert_eq!(pos(8), Some((3, 0)));
    assert_eq!(pos(9), Some((3, 1)));
    assert_eq!(pos(10), None);
    assert_eq!(position(b"", 0), Some(Position { line: 0, character: 0 }));
    assert_eq!(
        range(text, TextRange::new(1, 4)),
        Some(Range {
            start: Position { line: 0, character: 1 },
            end: Position { line: 1, character: 1 }
        })
    );
    assert_eq!(range(text, TextRange::new(1, 40)), None);
}

// val _ = 0x, with the error under `0x`: columns 9..11, counted from 1
#[test]
fn diagnostic_of_an_error() {
    let text = b"\nval _ = 0x\n";
    let errors = vec![Error {
        range: TextRange::new(9, 11),
        message: "incomplete literal".to_owned(),
        code: 2003,
    }];
    let ds = diagnostics(text, &errors, &Vec::new());
    assert_eq!(ds.len(), 1);
    let d = &ds[0];
    assert_eq!(
        d.range,
        Range { start: Position { line: 1, character: 8 }, end: Position { line: 1, character: 10 } }
    );
    assert_eq!(d.severity, Severity::Error);
    assert_eq!(d.code, 2003);
    assert_eq!(d.code_description, "https://github.com/azdavis/millet/blob/main/doc/errors.md#2003");
    assert_eq!(d.source, "millet");
    assert_eq!(d.message, "incomplete literal");
}

#[test]
fn diagnostics_by_severity() {
    let text = b"0123456789";
    let errors = vec![error(0, 1, 1), error(1, 2, 2), error(2, 3, 3), error(3, 99, 4), error(4, 5, 1)];
    let severities = vec![(1, Some(Severity::Warning)), (2, None), (1, Some(Severity::Error))];
    let ds = diagnostics(text, &errors, &severities);
    let got: Vec<_> = ds.iter().map(|d| (d.code, d.severity, d.range.start.character)).collect();
    assert_eq!(
        got,
        vec![(1, Severity::Warning, 0), (3, Severity::Error, 2), (1, Severity::Warning, 4)]
    );
}

#[test]
fn diagnostics_at_most_per_file() {
    assert_eq!(MAX_ERRORS_PER_FILE, 20);
    let text = vec![b'x'; 100];
    let errors: Vec<_> = (0..30).map(|i| error(i, i + 1, 5000 + i as u16)).collect();
    let ds = diagnostics(&text, &errors, &Vec::new());
    assert_eq!(ds.len(), 20);
    assert_eq!(ds[19].code, 5019);
    // one that is ignored does not count
    let ds = diagnostics(&text, &errors, &vec![(5000, None)]);
    assert_eq!(ds.len(), 20);
    assert_eq!(ds[0].code, 5001);
    assert_eq!(ds[19].code, 5020);
}

fn some(n: usize) -> Vec<Diagnostic> {
    let errors: Vec<_> = (0..n).map(|i| error(0, 1, i as u16)).collect();
    diagnostics(b"x", &errors, &Vec::new())
}

#[test]
fn publish_new_and_clear_old() {
    let old = vec!["file:///a".to_owned(), "file:///b".to_owned(), "file:///c".to_owned()];
    let results = vec![
        ("file:///b".to_owned(), some(2)),
        ("file:///a".to_owned(), some(0)),
        ("file:///d".to_owned(), some(1)),
    ];
    let plan = publish_diagnostics(&old, results);
    let sent: Vec<_> = plan.send.iter().map(|(u, ds)| (u.as_str(), ds.len())).collect();
    assert_eq!(
        sent,
        vec![("file:///b", 2), ("file:///d", 1), ("file:///a", 0), ("file:///c", 0)]
    );
    assert_eq!(plan.has_diagnostics, vec!["file:///b", "file:///d"]);
}

#[test]
fn publish_for_at_most_so_many_files() {
    assert_eq!(MAX_FILES_WITH_ERRORS, 20);
    let results: Vec<_> = (0..25).map(|i| (format!("file:///{}", i), some(1))).collect();
    let old = vec!["file:///24".to_owned(), "file:///3".to_owned()];
    let plan = publish_diagnostics(&old, results);
    assert_eq!(plan.has_diagnostics.len(), 20);
    assert_eq!(plan.send.len(), 21);
    assert_eq!(plan.send[19].0, "file:///19");
    // file 24 had diagnostics and is beyond the limit now: it is cleared
    assert_eq!(plan.send[20].0, "file:///24");
    assert!(plan.send[20].1.is_empty());
}
