use python_ast::location::Location;
use python_ast::trivia::{Trivia, TriviaBase, TriviaKind};

fn loc(s: usize, e: usize) -> Location {
    Location::new(s, e).unwrap()
}

#[test]
fn trivia_new_keeps_fields() {
    let t = TriviaBase::new(loc(2, 5), TriviaKind::WhiteSpace);
    assert_eq!(t.location, loc(2, 5));
    assert_eq!(t.node, TriviaKind::WhiteSpace);
}

#[test]
fn trivia_renders_placeholders() {
    assert_eq!(Trivia::new(loc(0, 3), TriviaKind::WhiteSpace).to_string(), "' '");
    assert_eq!(Trivia::new(loc(3, 4), TriviaKind::Newline).to_string(), "<NEWLINE>");
    assert_eq!(Trivia::new(loc(4, 9), TriviaKind::Comment).to_string(), "<COMMENT>");
}

#[test]
fn comment_line_trivia_covers_buffer() {
    let source = "# comment\n";
    let trivia = vec![
        Trivia::new(loc(0, 9), TriviaKind::Comment),
        Trivia::new(loc(9, 10), TriviaKind::Newline),
    ];
    assert_eq!(trivia.len(), 2);
    assert_eq!(trivia[0].node, TriviaKind::Comment);
    assert_eq!(&source[trivia[0].location.start()..trivia[0].location.end()], "# comment");
    assert_eq!(trivia[1].node, TriviaKind::Newline);
    assert_eq!(&source[trivia[1].location.start()..trivia[1].location.end()], "\n");

    // In offset order, the spans meet end to start and together cover the buffer.
    let mut spans: Vec<Location> = trivia.iter().map(|t| t.location).collect();
    spans.sort();
    let mut at = 0;
    let mut text = String::new();
    for s in spans.iter() {
        assert_eq!(s.start(), at);
        text.push_str(&source[s.start()..s.end()]);
        at = s.end();
    }
    assert_eq!(at, source.len());
    assert_eq!(text, source);
}
