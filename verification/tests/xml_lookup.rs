use edgar_decode::xml::{
    attr_of, children_with_tag, first_child, text_of, XmlAttr, XmlChild, XmlElement,
};

fn elem(tag: &str, children: Vec<XmlChild>) -> XmlElement {
    XmlElement { tag: tag.to_string(), ns: String::new(), attrs: vec![], children }
}

fn leaf(tag: &str, text: &str) -> XmlChild {
    XmlChild::Elem(elem(tag, vec![XmlChild::Text(text.to_string())]))
}

#[test]
fn first_child_takes_document_order() {
    let root = elem("r", vec![leaf("a", "one"), leaf("b", "x"), leaf("a", "two")]);
    let a = first_child(&root, "a").unwrap();
    assert_eq!(text_of(a).unwrap(), "one");
    assert!(first_child(&root, "zzz").is_none());
}

#[test]
fn children_with_tag_keeps_all_matches_in_order() {
    let root = elem(
        "r",
        vec![leaf("a", "1"), leaf("b", "x"), leaf("a", "2"), XmlChild::Other, leaf("a", "3")],
    );
    let all = children_with_tag(&root, "a");
    assert_eq!(all.len(), 3);
    let texts: Vec<&str> = all.iter().map(|e| text_of(e).unwrap().as_str()).collect();
    assert_eq!(texts, vec!["1", "2", "3"]);
}

#[test]
fn text_is_the_first_child_only() {
    // Direct text is the first child when that child is a text run; an
    // element or any other node kind first leaves the direct text absent.
    let with_tail = elem(
        "a",
        vec![
            XmlChild::Text("hi".to_string()),
            XmlChild::Elem(elem("b", vec![])),
            XmlChild::Text("tail".to_string()),
        ],
    );
    assert_eq!(text_of(&with_tail).unwrap(), "hi");
    let elem_first = elem(
        "c",
        vec![XmlChild::Elem(elem("b", vec![])), XmlChild::Text("late".to_string())],
    );
    assert!(text_of(&elem_first).is_none());
    let other_first = elem("d", vec![XmlChild::Other, XmlChild::Text("t".to_string())]);
    assert!(text_of(&other_first).is_none());
    assert!(text_of(&elem("e", vec![])).is_none());
}

#[test]
fn attribute_lookup_takes_the_first_match() {
    let root = XmlElement {
        tag: "r".to_string(),
        ns: String::new(),
        attrs: vec![
            XmlAttr { name: "a".to_string(), value: "1".to_string() },
            XmlAttr { name: "b".to_string(), value: "2".to_string() },
            XmlAttr { name: "a".to_string(), value: "3".to_string() },
        ],
        children: vec![],
    };
    assert_eq!(attr_of(&root, "a").unwrap(), "1");
    assert_eq!(attr_of(&root, "b").unwrap(), "2");
    assert!(attr_of(&root, "c").is_none());
}
