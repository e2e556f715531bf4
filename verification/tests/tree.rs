use hubbub_html_parser::attr::{Attr, Tag};
use hubbub_html_parser::dom::{AbstractNode, Doctype, NodeData};
use hubbub_html_parser::element::{build_element, ElementData, IFrameSize, PipelineId, SubpageId};
use hubbub_html_parser::messages::{
    CSSMessage, HtmlDiscoveryMessage, JSMessage, StylesheetProvenance,
};
use hubbub_html_parser::page::parse_html;
use hubbub_html_parser::tree::{
    element_request, script_message, ElementAction, ElementRequest, ScriptSource, TreeHandler,
};
use hubbub_html_parser::url::{make_url, Url};

const PAGE: &str = "http://host.test/dir/page.html";

fn handler_from(id: usize) -> TreeHandler {
    parse_html(Url::parse(PAGE).unwrap(), SubpageId(id)).0.handler
}

fn handler() -> TreeHandler {
    handler_from(0)
}

fn tag(name: &str, attributes: &[(&str, &str)]) -> Tag {
    let attributes = attributes
        .iter()
        .map(|(n, v)| Attr { name: n.to_string(), value: v.to_string() })
        .collect();
    Tag { name: name.to_string(), attributes }
}

fn create(h: &mut TreeHandler, name: &str, attributes: &[(&str, &str)]) -> (usize, ElementAction) {
    match h.create_element(tag(name, attributes), PipelineId(9)) {
        Ok(r) => r,
        Err(e) => panic!("{}", e.text),
    }
}

fn css_url(action: ElementAction) -> String {
    match action {
        ElementAction::SendCss(CSSMessage::CSSTaskNewFile(
            StylesheetProvenance::UrlProvenance(url),
        )) => url.text,
        _ => panic!("no style sheet"),
    }
}

#[test]
fn urls_resolve_against_the_page() {
    let page = Url::parse(PAGE).unwrap();
    assert_eq!(page.text, PAGE);
    assert_eq!(make_url("a.css", &page).unwrap().text, "http://host.test/dir/a.css");
    assert_eq!(make_url("/a.css", &page).unwrap().text, "http://host.test/a.css");
    assert_eq!(make_url("//other.test/x", &page).unwrap().text, "http://other.test/x");
    assert_eq!(make_url("https://other.test", &page).unwrap().text, "https://other.test/");
    assert!(make_url("http://[", &page).is_none());
    assert!(make_url("a.css", &Url { text: "nowhere".to_string() }).is_none());
}

#[test]
fn urls_are_normalized_or_refused() {
    assert_eq!(Url::parse("HTTP://Host.test").unwrap().text, "http://host.test/");
    assert_eq!(Url::parse("http://example.com/").unwrap().text, "http://example.com/");
    assert!(Url::parse("a.css").is_none());
}

#[test]
fn a_link_to_a_style_sheet_is_reported() {
    let mut h = handler();
    let (_, action) = create(&mut h, "link", &[("rel", "stylesheet"), ("href", "a.css")]);
    assert_eq!(css_url(action), "http://host.test/dir/a.css");
}

#[test]
fn other_links_are_not_reported() {
    let mut h = handler();
    for attributes in [
        vec![("rel", "icon"), ("href", "a.css")],
        vec![("rel", "Stylesheet"), ("href", "a.css")],
        vec![("rel", "stylesheet")],
        vec![("href", "a.css")],
        vec![],
    ] {
        let (_, action) = create(&mut h, "link", &attributes);
        assert!(matches!(action, ElementAction::Nothing));
    }
    let (_, action) = create(&mut h, "a", &[("rel", "stylesheet"), ("href", "a.css")]);
    assert!(matches!(action, ElementAction::Nothing));
}

#[test]
fn requests_keep_references_as_written() {
    let link = build_element(&tag("link", &[("rel", "stylesheet"), ("href", "a b.css")]));
    match element_request(&link) {
        ElementRequest::Stylesheet(href) => assert_eq!(href, "a b.css"),
        _ => panic!("no style sheet"),
    }
    let frame = build_element(&tag("iframe", &[("src", "../f.html")]));
    match element_request(&frame) {
        ElementRequest::Frame(src) => assert_eq!(src, "../f.html"),
        _ => panic!("no frame"),
    }
    let image = build_element(&tag("img", &[]));
    assert!(matches!(element_request(&image), ElementRequest::Image));
    let text = build_element(&tag("p", &[("src", "x")]));
    assert!(matches!(element_request(&text), ElementRequest::Nothing));
}

#[test]
fn a_frame_is_numbered_and_kept() {
    let mut h = handler_from(4);
    let (ptr, action) = create(&mut h, "iframe", &[("src", "f.html"), ("sandbox", "")]);
    let frame = match action {
        ElementAction::DiscoverFrame(frame) => frame,
        _ => panic!("no frame"),
    };
    assert_eq!(frame.url.text, "http://host.test/dir/f.html");
    assert_eq!(frame.subpage_id, SubpageId(4));
    assert!(frame.sandboxed);
    assert_eq!(h.next_subpage_id, SubpageId(5));
    let element = h.dom.element(AbstractNode::from_hubbub_node(ptr)).unwrap();
    match &element.data {
        ElementData::IFrame { frame, size, sandbox } => {
            assert_eq!(frame.as_ref().unwrap().text, "http://host.test/dir/f.html");
            let kept = IFrameSize { pipeline_id: PipelineId(9), subpage_id: SubpageId(4) };
            assert_eq!(*size, Some(kept));
            assert_eq!(sandbox.as_deref(), Some(""));
        }
        _ => panic!("no frame"),
    }
    let message: HtmlDiscoveryMessage<(), &str> = frame.into_message("size");
    match message {
        HtmlDiscoveryMessage::HtmlDiscoveredIFrame((url, id, size, sandboxed)) => {
            assert_eq!(url.text, "http://host.test/dir/f.html");
            assert_eq!(id, SubpageId(4));
            assert_eq!(size, "size");
            assert!(sandboxed);
        }
        _ => panic!("no frame"),
    }
}

#[test]
fn frames_are_numbered_one_after_the_other() {
    let mut h = handler_from(usize::MAX - 1);
    let mut ids = vec![];
    for attributes in [vec![("src", "a")], vec![], vec![("src", "b")], vec![("src", "c")]] {
        if let (_, ElementAction::DiscoverFrame(frame)) = create(&mut h, "iframe", &attributes) {
            assert!(!frame.sandboxed);
            ids.push(frame.subpage_id.0);
        }
    }
    assert_eq!(ids, vec![usize::MAX - 1, usize::MAX, 0]);
    assert_eq!(h.next_subpage_id, SubpageId(1));
}

#[test]
fn an_image_is_to_be_brought_up_to_date() {
    let mut h = handler();
    match create(&mut h, "img", &[("src", "http://[")]) {
        (ptr, ElementAction::UpdateImage(node)) => assert_eq!(node.to_hubbub_node(), ptr),
        _ => panic!("no image"),
    }
}

#[test]
fn a_reference_that_leads_nowhere_is_refused() {
    let mut h = handler_from(3);
    let before = h.dom.nodes.len();
    let link = tag("link", &[("rel", "stylesheet"), ("href", "http://[")]);
    match h.create_element(link, PipelineId(0)) {
        Err(e) => assert_eq!(e.text, "http://["),
        Ok(_) => panic!("accepted"),
    }
    match h.create_element(tag("iframe", &[("src", "http://]")]), PipelineId(0)) {
        Err(e) => assert_eq!(e.text, "http://]"),
        Ok(_) => panic!("accepted"),
    }
    assert_eq!(h.dom.nodes.len(), before);
    assert_eq!(h.next_subpage_id, SubpageId(3));
}

#[test]
fn an_element_goes_in_with_a_location_that_was_found_elsewhere() {
    let mut h = handler();
    let link = build_element(&tag("link", &[("rel", "stylesheet"), ("href", "x")]));
    let location = Some(Url { text: "about:sheet".to_string() });
    let (ptr, action) = h.add_element(link, location, PipelineId(0));
    assert_eq!(css_url(action), "about:sheet");
    assert_eq!(ptr, 2);
}

#[test]
fn nodes_are_made_and_appended() {
    let mut h = handler();
    let comment = h.create_comment("c".to_string());
    let text = h.create_text("t".to_string());
    let doctype = h.create_doctype(Doctype {
        name: "html".to_string(),
        public_id: None,
        system_id: Some("s".to_string()),
        force_quirks: true,
    });
    assert_eq!((comment, text, doctype), (2, 3, 4));
    assert!(matches!(&h.dom.nodes[1].data, NodeData::Comment(c) if c == "c"));
    assert!(matches!(&h.dom.nodes[2].data, NodeData::Text(t) if t == "t"));
    match &h.dom.nodes[3].data {
        NodeData::Doctype(d) => {
            assert_eq!(d.name, "html");
            assert_eq!(d.public_id, None);
            assert_eq!(d.system_id.as_deref(), Some("s"));
            assert!(d.force_quirks);
        }
        _ => panic!("no doctype"),
    }
    assert_eq!(h.append_child(1, comment), comment);
    assert_eq!(h.append_child(1, text), text);
    assert_eq!(
        h.dom.nodes[0].children,
        vec![AbstractNode::from_hubbub_node(2), AbstractNode::from_hubbub_node(3)]
    );
    assert_eq!(h.dom.nodes[1].parent, Some(AbstractNode::from_hubbub_node(1)));
    assert_eq!(h.dom.nodes[3].parent, None);
    let root = AbstractNode::from_hubbub_node(1);
    assert!(!h.dom.can_append(root, AbstractNode::from_hubbub_node(2)));
    assert!(h.dom.can_append(root, AbstractNode::from_hubbub_node(4)));
    assert!(!h.dom.can_append(root, AbstractNode::from_hubbub_node(5)));
    assert!(!h.dom.can_append(AbstractNode::from_hubbub_node(0), root));
}

#[test]
fn handles_come_back_unchanged() {
    for n in [1, 2, 77, usize::MAX] {
        assert_eq!(AbstractNode::from_hubbub_node(n).to_hubbub_node(), n);
    }
}

#[test]
fn what_is_not_done_answers_no_node() {
    let h = handler();
    assert_eq!(h.insert_before(1, 1), 0);
    assert_eq!(h.remove_child(1, 1), 0);
    assert_eq!(h.reparent_children(1, 1), 0);
    assert_eq!(h.get_parent(1, true), 0);
    assert!(!h.has_children(1));
}

#[test]
fn a_script_in_a_file_is_reported() {
    let mut h = handler();
    let (script, action) = create(&mut h, "script", &[("src", "s.js")]);
    assert!(matches!(action, ElementAction::Nothing));
    let comment = h.create_comment("ignored".to_string());
    h.append_child(script, comment);
    assert!(h.is_script(AbstractNode::from_hubbub_node(script)));
    match h.complete_script(script) {
        Ok(JSMessage::JSTaskNewFile(url)) => assert_eq!(url.text, "http://host.test/dir/s.js"),
        _ => panic!("no script"),
    }
}

#[test]
fn a_script_in_the_page_is_reported_with_all_its_text() {
    let mut h = handler();
    let (script, _) = create(&mut h, "script", &[]);
    for piece in ["var x", " = ", "1;"] {
        let text = h.create_text(piece.to_string());
        h.append_child(script, text);
    }
    match h.complete_script(script) {
        Ok(JSMessage::JSTaskNewInlineScript(data, url)) => {
            assert_eq!(data, "var x = 1;");
            assert_eq!(url.text, PAGE);
        }
        _ => panic!("no script"),
    }
}

#[test]
fn a_script_that_leads_nowhere_is_refused() {
    let mut h = handler();
    let (script, _) = create(&mut h, "script", &[("src", "http://[")]);
    match h.complete_script(script) {
        Err(e) => assert_eq!(e.text, "http://["),
        Ok(_) => panic!("accepted"),
    }
}

#[test]
fn not_everything_is_a_script() {
    let mut h = handler();
    let (script, _) = create(&mut h, "script", &[]);
    let comment = h.create_comment("c".to_string());
    h.append_child(script, comment);
    assert!(!h.is_script(AbstractNode::from_hubbub_node(script)));
    assert!(!h.is_script(AbstractNode::from_hubbub_node(comment)));
    assert!(!h.is_script(AbstractNode::from_hubbub_node(0)));
    assert!(!h.dom.has_only_text(AbstractNode::from_hubbub_node(script)));
    assert!(h.dom.has_only_text(AbstractNode::from_hubbub_node(comment)));
    assert!(!h.dom.has_only_text(AbstractNode::from_hubbub_node(99)));
}

#[test]
fn script_messages_follow_the_location() {
    let page = Url { text: "page".to_string() };
    let found = Some(Url { text: "there".to_string() });
    match script_message(ScriptSource::File("x".to_string()), found, &page) {
        JSMessage::JSTaskNewFile(url) => assert_eq!(url.text, "there"),
        _ => panic!("no file"),
    }
    match script_message(ScriptSource::Inline("x".to_string()), None, &page) {
        JSMessage::JSTaskNewInlineScript(data, url) => {
            assert_eq!(data, "x");
            assert_eq!(url.text, "page");
        }
        _ => panic!("not inline"),
    }
}

#[test]
fn a_style_sheet_in_the_page_is_reported_with_all_its_text() {
    let mut h = handler();
    let (style, _) = create(&mut h, "style", &[]);
    for piece in ["p {", "}"] {
        let text = h.create_text(piece.to_string());
        h.append_child(style, text);
    }
    match h.complete_style(style) {
        CSSMessage::CSSTaskNewFile(StylesheetProvenance::InlineProvenance(url, data)) => {
            assert_eq!(url.text, "http://example.com/");
            assert_eq!(data, "p {}");
        }
        _ => panic!("no style sheet"),
    }
}
