use code_chat::store::{BufferStore, TooLarge};

fn text(s: &str) -> String {
    s.to_string()
}

#[test]
fn update_returns_what_it_replaces() {
    let mut store = BufferStore::new();
    assert_eq!(store.update(text("x"), text("one")), None);
    assert_eq!(store.update(text("x"), text("two")), Some(text("one")));
    assert_eq!(store.update(text("x"), text("three")), Some(text("two")));
}

#[test]
fn update_keeps_buffers_apart() {
    let mut store = BufferStore::new();
    assert_eq!(store.update(text("x"), text("one")), None);
    assert_eq!(store.update(text("y"), text("two")), None);
    assert_eq!(store.update(text("x"), text("three")), Some(text("one")));
    assert_eq!(store.update(text("y"), text("four")), Some(text("two")));
}

#[test]
fn update_takes_an_empty_name_and_an_empty_text() {
    let mut store = BufferStore::new();
    assert_eq!(store.update(text(""), text("")), None);
    assert_eq!(store.update(text(""), text("a")), Some(text("")));
}

#[test]
fn first_update_is_the_baseline() {
    let mut store = BufferStore::new();
    for name in ["main.go", "x", "", "a/b.rs"] {
        assert_eq!(store.read_buffer(text(name), text("a\nb\nc")), Ok(None));
    }
}

#[test]
fn appended_line_is_the_fragment() {
    let mut store = BufferStore::new();
    assert_eq!(store.read_buffer(text("main.go"), text("a\nb")), Ok(None));
    assert_eq!(
        store.read_buffer(text("main.go"), text("a\nb\nc")),
        Ok(Some(text("c")))
    );
}

#[test]
fn same_text_again_gives_no_fragment() {
    let mut store = BufferStore::new();
    assert_eq!(store.read_buffer(text("x"), text("a")), Ok(None));
    assert_eq!(store.read_buffer(text("x"), text("a")), Ok(None));
}

#[test]
fn last_of_several_additions_is_the_fragment() {
    let mut store = BufferStore::new();
    assert_eq!(store.read_buffer(text("x"), text("a\nb\nc")), Ok(None));
    assert_eq!(
        store.read_buffer(text("x"), text("x\na\nb\ny\nc\nz")),
        Ok(Some(text("z")))
    );
}

#[test]
fn removal_alone_gives_no_fragment() {
    let mut store = BufferStore::new();
    assert_eq!(store.read_buffer(text("x"), text("a\nb")), Ok(None));
    assert_eq!(store.read_buffer(text("x"), text("a")), Ok(None));
}

#[test]
fn read_buffer_compares_with_the_text_just_before() {
    let mut store = BufferStore::new();
    assert_eq!(store.read_buffer(text("x"), text("a")), Ok(None));
    assert_eq!(store.read_buffer(text("x"), text("a\nb")), Ok(Some(text("b"))));
    assert_eq!(store.read_buffer(text("x"), text("a\nb\nc")), Ok(Some(text("c"))));
    assert_eq!(store.read_buffer(text("x"), text("a\nb\nc")), Ok(None));
}

#[test]
fn read_buffer_stores_the_text() {
    let mut store = BufferStore::new();
    assert_eq!(store.read_buffer(text("x"), text("a")), Ok(None));
    assert_eq!(store.update(text("x"), text("b")), Some(text("a")));
    assert_eq!(store.read_buffer(text("x"), text("b\nc")), Ok(Some(text("c"))));
    assert_eq!(store.update(text("x"), text("d")), Some(text("b\nc")));
}

#[test]
fn read_buffer_keeps_buffers_apart() {
    let mut store = BufferStore::new();
    assert_eq!(store.read_buffer(text("x"), text("a")), Ok(None));
    assert_eq!(store.read_buffer(text("y"), text("a\nb")), Ok(None));
    assert_eq!(store.read_buffer(text("x"), text("a\nb")), Ok(Some(text("b"))));
}

#[test]
fn refusal_compares_equal_to_itself() {
    let refused: Result<Option<String>, TooLarge> = Err(TooLarge);
    assert_eq!(refused, Err(TooLarge));
    assert_ne!(refused, Ok(None));
}
