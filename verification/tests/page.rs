use hubbub_html_parser::dom::{AbstractNode, NodeData};
use hubbub_html_parser::element::{ElementData, SubpageId};
use hubbub_html_parser::messages::{CSSMessage, JSMessage, ProgressMsg};
use hubbub_html_parser::page::{parse_html, PageAction};
use hubbub_html_parser::tags::ElementTypeId;
use hubbub_html_parser::tree::ParsePhase;
use hubbub_html_parser::url::Url;

fn page() -> Url {
    Url { text: "http://host.test/".to_string() }
}

#[test]
fn a_parse_starts_with_a_root() {
    let (parse, setup) = parse_html(page(), SubpageId(7));
    assert_eq!(parse.root, AbstractNode { obj: 1 });
    assert_eq!(parse.handler.phase, ParsePhase::Loading);
    assert_eq!(parse.handler.next_subpage_id, SubpageId(7));
    assert_eq!(parse.handler.url.text, "http://host.test/");
    assert_eq!(parse.handler.dom.nodes.len(), 1);
    match &parse.handler.dom.nodes[0].data {
        NodeData::Element(e) => {
            assert_eq!(e.type_id, ElementTypeId::HTMLHtmlElementTypeId);
            assert_eq!(e.tag_name, "html");
            assert!(e.attrs.is_empty());
            assert!(matches!(e.data, ElementData::Plain));
        }
        _ => panic!("no root element"),
    }
    assert_eq!(setup.encoding, "UTF-8");
    assert!(!setup.fix_encoding);
    assert_eq!(setup.document_node, 1);
    assert!(setup.scripting);
    assert!(setup.styling);
    assert_eq!(setup.load.text, "http://host.test/");
}

#[test]
fn bytes_are_parsed_until_the_page_is_there() {
    let (mut parse, _) = parse_html(page(), SubpageId(0));
    for piece in [b"<p>".to_vec(), vec![], b"x".to_vec()] {
        match parse.on_progress(ProgressMsg::Payload(piece.clone())) {
            PageAction::ParseChunk(data) => assert_eq!(data, piece),
            _ => panic!("no chunk"),
        }
        assert_eq!(parse.handler.phase, ParsePhase::Loading);
    }
    assert!(matches!(
        parse.on_progress(ProgressMsg::Done(Ok(()))),
        PageAction::Finish(CSSMessage::CSSTaskExit, JSMessage::JSTaskExit)
    ));
    assert_eq!(parse.handler.phase, ParsePhase::Finished);
    let result = parse.finish("port");
    assert_eq!(result.root, AbstractNode { obj: 1 });
    assert_eq!(result.dom.nodes.len(), 1);
    assert_eq!(result.discovery_port, "port");
}

#[test]
fn a_page_that_does_not_load_fails() {
    let (mut parse, _) = parse_html(page(), SubpageId(0));
    match parse.on_progress(ProgressMsg::Done(Err(()))) {
        PageAction::Fail(reason) => {
            assert_eq!(reason, "Failed to load page URL http://host.test/")
        }
        _ => panic!("did not fail"),
    }
    assert_eq!(parse.handler.phase, ParsePhase::Failed);
}
