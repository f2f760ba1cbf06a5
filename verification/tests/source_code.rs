use c_lexer::SourceCode;

#[test]
fn empty_file() {
    let mut instance = SourceCode::new("");
    assert_eq!(instance.index(), 0);
    assert_eq!(instance.peek(), None);
    assert_eq!(instance.next(), None);
    assert_eq!(instance.peek(), None);
    assert_eq!(instance.index(), 0);
}

#[test]
fn space() {
    let mut instance = SourceCode::new(" ");
    assert_eq!(instance.index(), 0);
    assert_eq!(instance.peek(), Some(' '));
    assert_eq!(instance.next(), Some(' '));
    assert_eq!(instance.peek(), None);
    assert_eq!(instance.index(), 1, "Invalid: {instance:#?}");
}

#[test]
fn ident_main() {
    let mut instance = SourceCode::new("main");
    assert_eq!(instance.index(), 0);
    assert_eq!(instance.peek(), Some('m'));

    assert_eq!(instance.next(), Some('m'));
    assert_eq!(instance.index(), 1);
    assert_eq!(instance.peek(), Some('a'));

    assert_eq!(instance.next(), Some('a'));
    assert_eq!(instance.index(), 2);
    assert_eq!(instance.peek(), Some('i'));

    assert_eq!(instance.next(), Some('i'));
    assert_eq!(instance.index(), 3);
    assert_eq!(instance.peek(), Some('n'));

    assert_eq!(instance.next(), Some('n'));
    assert_eq!(instance.index(), 4);
    assert_eq!(instance.peek(), None);

    assert_eq!(instance.next(), None);
}

#[test]
fn snapshot_restores_position() {
    let mut live = SourceCode::new("abc");
    assert_eq!(live.next(), Some('a'));
    let snapshot = live;
    assert_eq!(live.next(), Some('b'));
    assert_eq!(live.index(), 2);
    live = snapshot;
    assert_eq!(live.index(), 1);
    assert_eq!(live.next(), Some('b'));
}
