use uctf::page::{Message, Model};

fn assert_greeting(m: &Model) {
    let f = m.view();
    assert_eq!(f.tag, "p");
    assert_eq!(f.text, "Hello, friend.");
}

#[test]
fn create_builds_component() {
    let m = Model::create();
    assert_eq!(m, Model {});
}

#[test]
fn view_renders_greeting_paragraph() {
    let m = Model::create();
    let f = m.view();
    assert_eq!(f.tag, "p");
    assert_eq!(f.text, "Hello, friend.");
    assert_eq!(f.text.len(), 14);
}

#[test]
fn repeated_renders_are_identical() {
    let m = Model::create();
    let first = m.view();
    for _ in 0..100 {
        let again = m.view();
        assert_eq!(again.tag, first.tag);
        assert_eq!(again.text, first.text);
    }
}

#[test]
fn update_requests_redraw() {
    let mut m = Model::create();
    assert!(m.update(Message));
    assert_eq!(m, Model {});
}

#[test]
fn updates_never_change_render() {
    let mut m = Model::create();
    assert_greeting(&m);
    for _ in 0..50 {
        assert!(m.update(Message));
        assert_greeting(&m);
    }
}
