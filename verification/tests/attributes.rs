use hubbub_html_parser::attr::{Attr, Tag};
use hubbub_html_parser::element::{build_element, build_element_from_tag, ElementData};

fn tag(name: &str, attributes: &[(&str, &str)]) -> Tag {
    let attributes = attributes
        .iter()
        .map(|(n, v)| Attr { name: n.to_string(), value: v.to_string() })
        .collect();
    Tag { name: name.to_string(), attributes }
}

fn get<'a>(e: &'a hubbub_html_parser::element::Element, name: &str) -> Option<&'a str> {
    e.get_attr(name).map(|v| v.as_str())
}

#[test]
fn a_get_gives_back_what_was_set() {
    let mut e = build_element_from_tag("p");
    assert_eq!(get(&e, "id"), None);
    e.set_attr("id", "one");
    e.set_attr("class", "c");
    assert_eq!(get(&e, "id"), Some("one"));
    assert_eq!(get(&e, "class"), Some("c"));
    assert_eq!(get(&e, "ID"), None);
}

#[test]
fn setting_again_replaces_in_place() {
    let mut e = build_element_from_tag("p");
    e.set_attr("a", "1");
    e.set_attr("b", "2");
    e.set_attr("a", "3");
    let list: Vec<(&str, &str)> =
        e.attrs.iter().map(|a| (a.name.as_str(), a.value.as_str())).collect();
    assert_eq!(list, vec![("a", "3"), ("b", "2")]);
}

#[test]
fn the_last_value_in_a_tag_counts() {
    let e = build_element(&tag("link", &[("rel", "icon"), ("href", "x"), ("rel", "stylesheet")]));
    assert_eq!(get(&e, "rel"), Some("stylesheet"));
    assert_eq!(get(&e, "href"), Some("x"));
    assert_eq!(e.attrs.len(), 2);
}

#[test]
fn sandbox_on_a_frame_sandboxes_it() {
    let e = build_element(&tag("iframe", &[("sandbox", "allow-forms")]));
    assert!(e.is_sandboxed());
    match &e.data {
        ElementData::IFrame { sandbox, .. } => {
            assert_eq!(sandbox.as_deref(), Some("allow-forms"))
        }
        _ => panic!("no frame"),
    }
    assert!(build_element(&tag("iframe", &[("sandbox", "")])).is_sandboxed());
    assert!(!build_element(&tag("iframe", &[("src", "a")])).is_sandboxed());
    assert!(!build_element(&tag("div", &[("sandbox", "")])).is_sandboxed());
}
