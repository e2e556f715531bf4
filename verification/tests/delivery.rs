use std::collections::VecDeque;

use hubbub_html_parser::attr::{Attr, Tag};
use hubbub_html_parser::css::{CssLinkListener, CssPhase};
use hubbub_html_parser::element::{PipelineId, SubpageId};
use hubbub_html_parser::messages::{
    CSSMessage, HtmlDiscoveryMessage, JSMessage, ProgressMsg, StylesheetProvenance,
};
use hubbub_html_parser::page::{parse_html, HtmlParse, PageAction};
use hubbub_html_parser::script::{JsAction, JsScriptListener};
use hubbub_html_parser::tree::{ElementAction, ParsePhase};
use hubbub_html_parser::url::Url;

/// The parser, the collectors and the queues between them, moved by hand.
struct Rig {
    parse: HtmlParse,
    css: CssLinkListener<String>,
    css_queue: VecDeque<CSSMessage>,
    js: JsScriptListener,
    js_queue: VecDeque<JSMessage>,
    port: Vec<HtmlDiscoveryMessage<String, usize>>,
}

fn rig() -> Rig {
    let url = Url::parse("http://host.test/").unwrap();
    Rig {
        parse: parse_html(url, SubpageId(10)).0,
        css: CssLinkListener::new(),
        css_queue: VecDeque::new(),
        js: JsScriptListener::new(),
        js_queue: VecDeque::new(),
        port: vec![],
    }
}

impl Rig {
    fn tag(&mut self, name: &str, attributes: &[(&str, &str)]) -> usize {
        let attributes = attributes
            .iter()
            .map(|(n, v)| Attr { name: n.to_string(), value: v.to_string() })
            .collect();
        let tag = Tag { name: name.to_string(), attributes };
        let (node, action) = match self.parse.handler.create_element(tag, PipelineId(1)) {
            Ok(r) => r,
            Err(e) => panic!("{}", e.text),
        };
        match action {
            ElementAction::SendCss(msg) => self.css_queue.push_back(msg),
            ElementAction::DiscoverFrame(frame) => {
                let n = self.port.len();
                self.port.push(frame.into_message(n));
            }
            _ => {}
        }
        node
    }

    fn script(&mut self, src: &str) {
        let node = self.tag("script", &[("src", src)]);
        match self.parse.handler.complete_script(node) {
            Ok(msg) => self.js_queue.push_back(msg),
            Err(e) => panic!("{}", e.text),
        }
    }

    fn finish(&mut self) {
        match self.parse.on_progress(ProgressMsg::Done(Ok(()))) {
            PageAction::Finish(css, js) => {
                self.css_queue.push_back(css);
                self.js_queue.push_back(js);
            }
            _ => panic!("not finished"),
        }
    }

    /// Lets the collector of style sheets do all that it can.
    fn run_css(&mut self) {
        while self.css.phase == CssPhase::Listening {
            let Some(msg) = self.css_queue.pop_front() else { return };
            match self.css.on_message(msg) {
                Some(StylesheetProvenance::UrlProvenance(url)) => self.css.on_spawned(url.text),
                Some(StylesheetProvenance::InlineProvenance(_, data)) => self.css.on_spawned(data),
                None => {}
            }
        }
        while let Some(port) = self.css.next_port() {
            let sheet = port.clone();
            self.port.push(self.css.on_sheet(sheet));
        }
    }

    /// Lets the collector of scripts do all that it can; scripts called `bad` do
    /// not load.
    fn run_js(&mut self) {
        while !self.js.finished {
            let Some(msg) = self.js_queue.pop_front() else { return };
            match self.js.on_message(msg) {
                JsAction::Listen => {}
                JsAction::Load(url) => {
                    let result = if url.text.ends_with("bad") { Err(()) } else { Ok(()) };
                    self.js.on_progress(ProgressMsg::Payload(vec![1, 2]));
                    self.js.on_progress(ProgressMsg::Done(result));
                }
                JsAction::Send(message) => self.port.push(message),
            }
        }
    }

    fn kinds(&self) -> String {
        self.port
            .iter()
            .map(|m| match m {
                HtmlDiscoveryMessage::HtmlDiscoveredIFrame(_) => 'f',
                HtmlDiscoveryMessage::HtmlDiscoveredStyle(_) => 's',
                HtmlDiscoveryMessage::HtmlDiscoveredScript(_) => 'j',
            })
            .collect()
    }
}

#[test]
fn frames_come_before_sheets_and_scripts() {
    let mut r = rig();
    r.tag("link", &[("rel", "stylesheet"), ("href", "one")]);
    r.run_css();
    r.tag("iframe", &[("src", "a")]);
    r.script("good");
    r.script("bad");
    r.run_js();
    r.run_css();
    r.tag("link", &[("rel", "stylesheet"), ("href", "two")]);
    r.tag("iframe", &[("src", "b")]);
    assert_eq!(r.kinds(), "ff");
    r.finish();
    r.run_js();
    r.run_css();
    assert_eq!(r.kinds(), "ffjss");
    let mut ids = vec![];
    let mut sheets = vec![];
    for message in &r.port {
        match message {
            HtmlDiscoveryMessage::HtmlDiscoveredIFrame((_, id, _, _)) => ids.push(id.0),
            HtmlDiscoveryMessage::HtmlDiscoveredStyle(sheet) => sheets.push(sheet.as_str()),
            HtmlDiscoveryMessage::HtmlDiscoveredScript(files) => {
                assert_eq!(files.len(), 1);
                assert_eq!(files[0].url.text, "http://host.test/good");
                assert_eq!(files[0].data, vec![1, 2]);
            }
        }
    }
    assert_eq!(ids, vec![10, 11]);
    assert_eq!(sheets, vec!["http://host.test/one", "http://host.test/two"]);
}

#[test]
fn the_scripts_come_also_where_there_are_none() {
    let mut r = rig();
    r.finish();
    r.run_css();
    r.run_js();
    assert_eq!(r.kinds(), "j");
    assert!(r.css_queue.is_empty());
    assert!(r.js_queue.is_empty());
}

#[test]
fn the_tree_handler_closes_when_the_load_ends() {
    let mut r = rig();
    assert_eq!(r.parse.handler.phase, ParsePhase::Loading);
    r.finish();
    assert_eq!(r.parse.handler.phase, ParsePhase::Finished);
}

#[test]
fn children_stand_in_the_order_of_appending() {
    let mut r = rig();
    let list = r.tag("ul", &[]);
    let mut items = vec![];
    for _ in 0..3 {
        let item = r.tag("li", &[]);
        r.parse.handler.append_child(list, item);
        items.push(item);
    }
    let children: Vec<usize> = r.parse.handler.dom.nodes[list - 1]
        .children
        .iter()
        .map(|c| c.to_hubbub_node())
        .collect();
    assert_eq!(children, items);
}
