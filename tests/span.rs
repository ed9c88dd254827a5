use logos_iterator::{Span, WithSpan};

#[test]
fn span_index() {
    let s = "this is a test";
    let span = Span { start: 5, end: 9 };
    assert_eq!("is a", &s[span]);

    let s = String::from(s);
    let span = Span { start: 5, end: 9 };
    assert_eq!("is a", &s[span]);
}

#[test]
fn span_index_whole_and_empty() {
    let s = "abc";
    assert_eq!("abc", &s[Span { start: 0, end: 3 }]);
    assert_eq!("", &s[Span { start: 1, end: 1 }]);
    assert_eq!("", &s[Span { start: 3, end: 3 }]);
    let owned = String::from("abc");
    assert_eq!("c", &owned[Span { start: 2, end: 3 }]);
}

#[test]
fn span_index_multibyte_on_boundaries() {
    // 'é' takes two bytes, so "é!" lies at bytes 1..4
    let s = "aé!b";
    assert_eq!("é!", &s[Span { start: 1, end: 4 }]);
    assert_eq!("b", &s[Span { start: 4, end: 5 }]);
}

#[test]
fn with_span_new_keeps_its_parts() {
    let span = Span { start: 2, end: 7 };
    let w = WithSpan::new('x', span);
    assert_eq!(w.item, 'x');
    assert_eq!(w.span, Span { start: 2, end: 7 });
    assert_eq!(w, WithSpan { item: 'x', span: Span { start: 2, end: 7 } });
    assert_ne!(w, WithSpan::new('y', span));
    assert_ne!(w, WithSpan::new('x', Span { start: 2, end: 8 }));
}
