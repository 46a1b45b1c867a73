use dfiles::aspects::DockerfileSnippet;
use dfiles::dockerfile::render_dockerfile;
use dfiles::fragments::{render_ordered, Fragment};

fn snippet(order: u8, content: &str) -> DockerfileSnippet {
    DockerfileSnippet { order, content: content.to_string() }
}

fn fragment(order: u16, text: &str) -> Fragment {
    Fragment { order, text: text.to_string() }
}

#[test]
fn no_blocks_give_no_instructions() {
    assert_eq!(render_dockerfile(&vec![]), "");
}

#[test]
fn one_block_stands_alone() {
    assert_eq!(render_dockerfile(&vec![snippet(0, "FROM debian:buster")]), "FROM debian:buster");
}

#[test]
fn later_key_comes_later_even_if_registered_first() {
    let text = render_dockerfile(&vec![snippet(90, "RUN install app"), snippet(2, "RUN bootstrap")]);
    assert_eq!(text, "RUN bootstrap\n\nRUN install app");
}

#[test]
fn blocks_under_one_key_keep_registration_order() {
    let text = render_dockerfile(&vec![snippet(72, "first"), snippet(72, "second"), snippet(72, "third")]);
    assert_eq!(text, "first\nsecond\nthird");
}

#[test]
fn keys_and_registration_order_together() {
    let text = render_dockerfile(&vec![
        snippet(91, "app"),
        snippet(72, "x11"),
        snippet(0, "FROM base"),
        snippet(72, "video"),
        snippet(255, "last"),
        snippet(3, "fonts"),
        snippet(2, "packages"),
    ]);
    assert_eq!(text, "FROM base\n\npackages\n\nfonts\n\nx11\nvideo\n\napp\n\nlast");
}

#[test]
fn composing_twice_gives_the_same_text() {
    let blocks = vec![snippet(91, "app"), snippet(0, "FROM base"), snippet(91, "more")];
    assert_eq!(render_dockerfile(&blocks), render_dockerfile(&blocks));
}

#[test]
fn neighbours_with_different_keys_can_change_places() {
    let one = render_dockerfile(&vec![snippet(5, "a"), snippet(9, "x"), snippet(7, "y")]);
    let other = render_dockerfile(&vec![snippet(5, "a"), snippet(7, "y"), snippet(9, "x")]);
    assert_eq!(one, other);
}

#[test]
fn ordered_rendering_uses_separator_and_terminator() {
    let frags = vec![fragment(65535, "z"), fragment(0, "a"), fragment(300, "m"), fragment(300, "n")];
    assert_eq!(render_ordered(&frags, ", ", ";"), "a;m, n;z");
    assert_eq!(render_ordered(&vec![fragment(7, ""), fragment(9, "")], ", ", ";"), ";");
    assert_eq!(render_ordered(&vec![fragment(7, "only")], ", ", ";"), "only");
    assert_eq!(render_ordered(&frags, "", ""), "amnz");
    assert_eq!(render_ordered(&vec![], ", ", ";"), "");
}
