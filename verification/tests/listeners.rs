use hubbub_html_parser::css::CssLinkListener;
use hubbub_html_parser::messages::{
    CSSMessage, HtmlDiscoveryMessage, JSFile, JSMessage, ProgressMsg, StylesheetProvenance,
};
use hubbub_html_parser::script::{JsAction, JsScriptListener, LoadStatus};
use hubbub_html_parser::url::Url;

type Discovered = HtmlDiscoveryMessage<String, ()>;
type Action = JsAction<String, ()>;

fn url(text: &str) -> Url {
    Url { text: text.to_string() }
}

fn sheet(text: &str) -> CSSMessage {
    CSSMessage::CSSTaskNewFile(StylesheetProvenance::UrlProvenance(url(text)))
}

#[test]
fn sheets_come_back_in_order_once_the_parser_is_done() {
    let mut listener: CssLinkListener<String> = CssLinkListener::new();
    for name in ["one", "two", "three"] {
        match listener.on_message(sheet(name)) {
            Some(StylesheetProvenance::UrlProvenance(u)) => {
                assert_eq!(u.text, name);
                listener.on_spawned(u.text);
            }
            _ => panic!("no sheet"),
        }
        assert!(listener.next_port().is_none());
    }
    assert!(listener.on_message(CSSMessage::CSSTaskExit).is_none());
    let mut sent = vec![];
    while let Some(port) = listener.next_port() {
        let parsed = format!("parsed {}", port);
        let message: Discovered = listener.on_sheet(parsed);
        match message {
            HtmlDiscoveryMessage::HtmlDiscoveredStyle(s) => sent.push(s),
            _ => panic!("no sheet"),
        }
    }
    assert_eq!(sent, vec!["parsed one", "parsed two", "parsed three"]);
}

#[test]
fn a_page_without_sheets_gets_none() {
    let mut listener: CssLinkListener<u8> = CssLinkListener::new();
    assert!(listener.on_message(CSSMessage::CSSTaskExit).is_none());
    assert!(listener.next_port().is_none());
}

#[test]
fn an_inline_sheet_is_handed_on_with_its_text() {
    let mut listener: CssLinkListener<u8> = CssLinkListener::new();
    let inline = StylesheetProvenance::InlineProvenance(url("u"), "p {}".to_string());
    match listener.on_message(CSSMessage::CSSTaskNewFile(inline)) {
        Some(StylesheetProvenance::InlineProvenance(u, data)) => {
            assert_eq!(u.text, "u");
            assert_eq!(data, "p {}");
        }
        _ => panic!("no sheet"),
    }
}

fn load(listener: &mut JsScriptListener, text: &str, pieces: &[&[u8]], result: Result<(), ()>) {
    let action: Action = listener.on_message(JSMessage::JSTaskNewFile(url(text)));
    match action {
        JsAction::Load(u) => assert_eq!(u.text, text),
        _ => panic!("no load"),
    }
    for piece in pieces {
        let status = listener.on_progress(ProgressMsg::Payload(piece.to_vec()));
        assert_eq!(status, LoadStatus::Loading);
    }
    let end = if result.is_ok() { LoadStatus::Loaded } else { LoadStatus::Failed };
    assert_eq!(listener.on_progress(ProgressMsg::Done(result)), end);
}

fn exit(listener: &mut JsScriptListener) -> Vec<JSFile> {
    let action: Action = listener.on_message(JSMessage::JSTaskExit);
    match action {
        JsAction::Send(HtmlDiscoveryMessage::HtmlDiscoveredScript(files)) => files,
        _ => panic!("no scripts"),
    }
}

#[test]
fn scripts_come_together_in_order_without_failed_loads() {
    let mut listener = JsScriptListener::new();
    load(&mut listener, "a", &[b"1", b"", b"23"], Ok(()));
    let inline = JSMessage::JSTaskNewInlineScript("\u{e9};".to_string(), url("page"));
    let action: Action = listener.on_message(inline);
    assert!(matches!(action, JsAction::Listen));
    load(&mut listener, "b", &[b"lost"], Err(()));
    load(&mut listener, "c", &[], Ok(()));
    let files = exit(&mut listener);
    let files: Vec<(&[u8], &str)> =
        files.iter().map(|f| (f.data.as_slice(), f.url.text.as_str())).collect();
    let expected: Vec<(&[u8], &str)> =
        vec![(b"123", "a"), (&[0xc3, 0xa9, 0x3b], "page"), (b"", "c")];
    assert_eq!(files, expected);
    assert!(listener.finished);
}

#[test]
fn a_page_without_scripts_gets_an_empty_list() {
    let mut listener = JsScriptListener::new();
    assert!(exit(&mut listener).is_empty());
}

#[test]
fn a_failed_load_leaves_the_scripts_alone() {
    let mut listener = JsScriptListener::new();
    load(&mut listener, "a", &[b"x"], Ok(()));
    load(&mut listener, "a", &[b"y"], Err(()));
    let files = exit(&mut listener);
    assert_eq!(files.len(), 1);
    assert_eq!(files[0].data, b"x");
}
