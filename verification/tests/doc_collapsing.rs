use lib::attrs::{collapse_docs, Attribute};

fn collapse(input: &str) -> String {
    let attrs = vec![Attribute::NameValue("doc".to_string(), input.to_string())];
    let attrs_clean = collapse_docs(attrs);
    match &attrs_clean[0] {
        Attribute::NameValue(k, s) if k == "doc" => s.clone(),
        _ => panic!("dude where's my doc?"),
    }
}

#[test]
fn test_doc_collapsing() {
    assert_eq!(collapse("// Foo\n//Bar\n // Baz\n"), "Foo\nBar\nBaz");
    assert_eq!(collapse("* Foo\n *  Bar\n *Baz\n"), "Foo\n Bar\nBaz");
    assert_eq!(collapse("* Short desc\n *\n * Bar\n *Baz\n"), "Short desc\n\nBar\nBaz");
    assert_eq!(collapse(" * Foo"), "Foo");
    assert_eq!(collapse("\n *\n *\n * Foo"), "Foo");
}
