//! The parse of a page from its start to its end.

use vstd::prelude::*;

use crate::dom::{
    law_new_node, AbstractNode, Dom, DomView, NodeData, NodeDataPtr, NodeDataView,
};
use crate::element::{Element, ElementData, ElementDataView, ElementView, SubpageId};
use crate::messages::{
    CSSMessage, CSSMessageView, JSMessage, JSMessageView, ProgressMsg, ProgressMsgView,
};
use crate::script::{complete_load, load_status, LoadStatus};
use crate::tags::ElementTypeId;
use crate::trace::{after_events, all_possible, law_nodes_stay, TreeEvent};
use crate::tree::{ParsePhase, TreeHandler, TreeView};
use crate::url::Url;

verus! {

/// The parse of a page.
pub struct HtmlParse {
    pub handler: TreeHandler,
    pub root: AbstractNode,
}

/// The mathematical value of an [`HtmlParse`].
pub struct HtmlParseView {
    pub handler: TreeView,
    pub root: AbstractNode,
}

impl View for HtmlParse {
    type V = HtmlParseView;

    open spec fn view(&self) -> HtmlParseView {
        HtmlParseView { handler: self.handler@, root: self.root }
    }
}

impl HtmlParseView {
    /// The parse after a step in loading its page.
    pub open spec fn stepped(self, step: ProgressMsgView) -> Self {
        HtmlParseView {
            handler: TreeView { phase: page_phase(step), ..self.handler },
            ..self
        }
    }
}

/// How hubbub is set up, and what is loaded to feed it.
pub struct ParserSetup {
    /// The encoding of the page.
    pub encoding: &'static str,
    /// Whether the encoding is corrected on the way.
    pub fix_encoding: bool,
    /// The node that stands for the document.
    pub document_node: NodeDataPtr,
    pub scripting: bool,
    pub styling: bool,
    /// The location that is loaded.
    pub load: Url,
}

/// The root element of a new page.
pub open spec fn root_element() -> ElementView {
    ElementView {
        type_id: ElementTypeId::HTMLHtmlElementTypeId,
        tag_name: "html"@,
        attrs: Seq::empty(),
        data: ElementDataView::Plain,
    }
}

/// The start of the parse of the page at `url`: there is a root element, and
/// frames are numbered from `next_subpage_id` on.
pub open spec fn parse_started(url: Seq<char>, next_subpage_id: SubpageId) -> HtmlParseView {
    HtmlParseView {
        handler: TreeView {
            dom: DomView::empty().with_node(NodeDataView::Element(root_element())),
            url,
            next_subpage_id,
            phase: ParsePhase::Loading,
        },
        root: DomView::empty().fresh(),
    }
}

/// Starts the parse of the page at `url`, whose frames are numbered from
/// `next_subpage_id` on.
pub fn parse_html(url: Url, next_subpage_id: SubpageId) -> (r: (HtmlParse, ParserSetup))
    ensures
        r.0@ == parse_started(url@, next_subpage_id),
        r.0@.handler.wf(),
        r.1.encoding@ == "UTF-8"@,
        !r.1.fix_encoding,
        r.1.document_node == r.0.root.ptr(),
        r.1.scripting,
        r.1.styling,
        r.1.load@ == url@,
        r.1.load == url,
        r.0.handler.url == url,
        r.0.handler.next_subpage_id == next_subpage_id,
        r.0.handler.phase == ParsePhase::Loading,
        r.0.root.obj == 1,
        r.1.document_node == 1,
        r.0.handler.dom.nodes@.len() == 1,
        r.0.handler.dom.nodes@[0].parent is None,
        r.0.handler.dom.nodes@[0].children@.len() == 0,
        match r.0.handler.dom.nodes@[0].data {
            NodeData::Element(element) => {
                &&& element.type_id == ElementTypeId::HTMLHtmlElementTypeId
                &&& element.tag_name@ == "html"@
                &&& element.attrs@.len() == 0
                &&& element.data is Plain
            },
            _ => false,
        },
{
    let mut dom = Dom::new();
    let element = Element {
        type_id: ElementTypeId::HTMLHtmlElementTypeId,
        tag_name: "html".to_string(),
        attrs: Vec::new(),
        data: ElementData::Plain,
    };
    assert(element@.attrs =~= Seq::empty());
    let root = dom.add_node(NodeData::Element(element));
    let setup = ParserSetup {
        encoding: "UTF-8",
        fix_encoding: false,
        document_node: root.to_hubbub_node(),
        scripting: true,
        styling: true,
        load: url.clone(),
    };
    let handler = TreeHandler { dom, url, next_subpage_id, phase: ParsePhase::Loading };
    (HtmlParse { handler, root }, setup)
}

/// What is to be done after a step in loading a page.
pub enum PageAction {
    /// Give hubbub these bytes.
    ParseChunk(Vec<u8>),
    /// Give up, for this reason.
    Fail(String),
    /// Tell the collectors that the parser is done.
    Finish(CSSMessage, JSMessage),
}

/// The mathematical value of a [`PageAction`].
pub enum PageActionView {
    ParseChunk(Seq<u8>),
    Fail(Seq<char>),
    Finish(CSSMessageView, JSMessageView),
}

impl View for PageAction {
    type V = PageActionView;

    open spec fn view(&self) -> PageActionView {
        match *self {
            PageAction::ParseChunk(data) => PageActionView::ParseChunk(data@),
            PageAction::Fail(reason) => PageActionView::Fail(reason@),
            PageAction::Finish(css, js) => PageActionView::Finish(css@, js@),
        }
    }
}

/// What is to be done after a step in loading the page at `url`.
pub open spec fn page_action(url: Seq<char>, step: ProgressMsgView) -> PageActionView {
    match step {
        ProgressMsgView::Payload(data) => PageActionView::ParseChunk(data),
        ProgressMsgView::Done(Err(_)) => PageActionView::Fail("Failed to load page URL "@ + url),
        ProgressMsgView::Done(Ok(_)) => PageActionView::Finish(
            CSSMessageView::CSSTaskExit,
            JSMessageView::JSTaskExit,
        ),
    }
}

/// How the parse stands after a step in loading its page.
pub open spec fn page_phase(step: ProgressMsgView) -> ParsePhase {
    match load_status(step) {
        LoadStatus::Loading => ParsePhase::Loading,
        LoadStatus::Failed => ParsePhase::Failed,
        LoadStatus::Loaded => ParsePhase::Finished,
    }
}

/// The outcome of the parse of a page. `P` is where the page learns of the
/// further resources that are discovered.
pub struct HtmlParserResult<P> {
    pub root: AbstractNode,
    /// The nodes, of which `root` is the uppermost.
    pub dom: Dom,
    pub discovery_port: P,
}

impl HtmlParse {
    /// Takes a step in loading the page, and says what is to be done next.
    pub fn on_progress(&mut self, step: ProgressMsg) -> (r: PageAction)
        requires
            old(self)@.handler.is_open(),
        ensures
            final(self)@ == old(self)@.stepped(step@),
            r@ == page_action(old(self)@.handler.url, step@),
            final(self).root == old(self).root,
            final(self).handler.dom == old(self).handler.dom,
            final(self).handler.url == old(self).handler.url,
            final(self).handler.next_subpage_id == old(self).handler.next_subpage_id,
            match step {
                ProgressMsg::Payload(data) => {
                    &&& r == PageAction::ParseChunk(data)
                    &&& final(self).handler.phase == ParsePhase::Loading
                },
                ProgressMsg::Done(Err(_)) => {
                    &&& r is Fail
                    &&& r->Fail_0@ == "Failed to load page URL "@ + old(self).handler.url.text@
                    &&& final(self).handler.phase == ParsePhase::Failed
                },
                ProgressMsg::Done(Ok(_)) => {
                    &&& r == PageAction::Finish(CSSMessage::CSSTaskExit, JSMessage::JSTaskExit)
                    &&& final(self).handler.phase == ParsePhase::Finished
                },
            },
    {
        match step {
            ProgressMsg::Payload(data) => PageAction::ParseChunk(data),
            ProgressMsg::Done(Err(_)) => {
                self.handler.phase = ParsePhase::Failed;
                PageAction::Fail(
                    "Failed to load page URL ".to_string().concat(self.handler.url.text.as_str()),
                )
            },
            ProgressMsg::Done(Ok(_)) => {
                self.handler.phase = ParsePhase::Finished;
                PageAction::Finish(CSSMessage::CSSTaskExit, JSMessage::JSTaskExit)
            },
        }
    }

    /// The outcome of a parse that has come to its end.
    pub fn finish<P>(self, discovery_port: P) -> (r: HtmlParserResult<P>)
        requires
            self.handler.phase == ParsePhase::Finished,
        ensures
            r.root == self@.root,
            r.dom@ == self@.handler.dom,
            r.root == self.root,
            r.dom == self.handler.dom,
            r.discovery_port == discovery_port,
    {
        HtmlParserResult { root: self.root, dom: self.handler.dom, discovery_port }
    }
}

/// Hubbub gets the bytes of the page, piece by piece, as they come in;
/// only then, and only if all came in, are the collectors told that the parser
/// is done, each of them once.
pub proof fn law_page_load(url: Seq<char>, steps: Seq<ProgressMsgView>, i: int)
    requires
        complete_load(steps),
        0 <= i < steps.len(),
    ensures
        i < steps.len() - 1 ==> steps[i] is Payload && page_action(url, steps[i])
            == PageActionView::ParseChunk(steps[i]->Payload_0) && page_phase(steps[i])
            == ParsePhase::Loading,
        page_action(url, steps[i]) is Finish <==> i == steps.len() - 1 && load_status(steps.last())
            == LoadStatus::Loaded,
        page_action(url, steps[i]) is Fail <==> i == steps.len() - 1 && load_status(steps.last())
            == LoadStatus::Failed,
{
    assert(i < steps.len() - 1 ==> steps[i] is Payload);
}

/// Whatever hubbub does, the root that the outcome names is the element that
/// the parse started with.
pub proof fn law_root_stays(url: Seq<char>, next_subpage_id: SubpageId, events: Seq<TreeEvent>)
    requires
        all_possible(parse_started(url, next_subpage_id).handler, events),
    ensures
        ({
            let start = parse_started(url, next_subpage_id);
            let post = after_events(start.handler, events);
            &&& post.wf()
            &&& post.url == url
            &&& post.dom.has(start.root)
            &&& post.dom.node(start.root).data == NodeDataView::Element(root_element())
        }),
{
    let start = parse_started(url, next_subpage_id);
    law_new_node(DomView::empty(), NodeDataView::Element(root_element()), start.root);
    law_nodes_stay(start.handler, events, start.root);
}

/// The value of the parse of a page, and of what is to be done next, shows all
/// that they hold.
pub proof fn law_page_views(parse: HtmlParse, action: PageAction)
    ensures
        parse@.handler == parse.handler@,
        parse@.root == parse.root,
        match action {
            PageAction::ParseChunk(data) => action@ == PageActionView::ParseChunk(data@),
            PageAction::Fail(reason) => action@ == PageActionView::Fail(reason@),
            PageAction::Finish(css, js) => action@ == PageActionView::Finish(css@, js@),
        },
{
}

/// A parse starts with one node, an `html` element without attributes or
/// children, at the location and with the frame number that it was given.
pub proof fn law_parse_starts(url: Seq<char>, next_subpage_id: SubpageId)
    ensures
        ({
            let start = parse_started(url, next_subpage_id);
            let node = start.handler.dom.nodes[0];
            &&& start.root.obj == 1
            &&& start.handler.url == url
            &&& start.handler.next_subpage_id == next_subpage_id
            &&& start.handler.phase == ParsePhase::Loading
            &&& start.handler.dom.nodes.len() == 1
            &&& node.parent is None
            &&& node.children.len() == 0
            &&& node.data is Element
            &&& node.data->Element_0.type_id == ElementTypeId::HTMLHtmlElementTypeId
            &&& node.data->Element_0.tag_name == "html"@
            &&& node.data->Element_0.attrs.len() == 0
            &&& node.data->Element_0.data is Plain
        }),
{
}

/// A step in loading a page changes nothing but how the parse stands: it goes on
/// with bytes, fails with an error that names the page, and is finished, with
/// both collectors told, at the end.
pub proof fn law_page_step(parse: HtmlParseView, step: ProgressMsgView)
    ensures
        ({
            let post = parse.stepped(step);
            let action = page_action(parse.handler.url, step);
            &&& post.root == parse.root
            &&& post.handler.dom == parse.handler.dom
            &&& post.handler.url == parse.handler.url
            &&& post.handler.next_subpage_id == parse.handler.next_subpage_id
            &&& match step {
                ProgressMsgView::Payload(data) => {
                    &&& action == PageActionView::ParseChunk(data)
                    &&& post.handler.phase == ParsePhase::Loading
                },
                ProgressMsgView::Done(Err(_)) => {
                    &&& action == PageActionView::Fail(
                        "Failed to load page URL "@ + parse.handler.url,
                    )
                    &&& post.handler.phase == ParsePhase::Failed
                },
                ProgressMsgView::Done(Ok(_)) => {
                    &&& action == PageActionView::Finish(
                        CSSMessageView::CSSTaskExit,
                        JSMessageView::JSTaskExit,
                    )
                    &&& post.handler.phase == ParsePhase::Finished
                },
            }
        }),
{
}

} // verus!
