//! The tree handler: builds the nodes that hubbub calls for, and finds
//! the style sheets, scripts and frames that they ask for.

use vstd::prelude::*;

use crate::attr::{attr_value, attrs_view, last_value, Tag, TagView};
use crate::dom::{
    law_inner_text, law_what_nodes_are, AbstractNode, Doctype, Dom, DomView, NodeData, NodeDataPtr,
    NodeDataView,
};
use crate::element::{
    build_element, element_of_tag, law_element_of_tag, new_element, Element, ElementData,
    ElementDataView, ElementView, IFrameSize, PipelineId, SubpageId,
};
use crate::messages::{
    CSSMessage, CSSMessageView, HtmlDiscoveryMessage, HtmlDiscoveryMessageView, JSMessage,
    JSMessageView, StylesheetProvenance, StylesheetProvenanceView,
};
use crate::tags::{element_type, law_requesting_types, ElementTypeId};
use crate::text::{eq_slice, opt_text};
use crate::url::{inline_style_url, joined_url, make_url, opt_url, Url};

verus! {

/// What an element asks for. References are as they stand in the document.
pub enum ElementRequest {
    Nothing,
    /// A style sheet.
    Stylesheet(String),
    /// A page for a frame.
    Frame(String),
    /// That an image be brought up to date.
    Image,
}

/// The mathematical value of an [`ElementRequest`].
pub enum ElementRequestView {
    Nothing,
    Stylesheet(Seq<char>),
    Frame(Seq<char>),
    Image,
}

impl View for ElementRequest {
    type V = ElementRequestView;

    open spec fn view(&self) -> ElementRequestView {
        match *self {
            ElementRequest::Nothing => ElementRequestView::Nothing,
            ElementRequest::Stylesheet(href) => ElementRequestView::Stylesheet(href@),
            ElementRequest::Frame(src) => ElementRequestView::Frame(src@),
            ElementRequest::Image => ElementRequestView::Image,
        }
    }
}

impl ElementRequestView {
    /// The reference in the request, if it has one.
    pub open spec fn reference(self) -> Option<Seq<char>> {
        match self {
            ElementRequestView::Stylesheet(href) => Some(href),
            ElementRequestView::Frame(src) => Some(src),
            _ => None,
        }
    }
}

/// What an element asks for: a link to a style sheet asks for the sheet, a frame
/// with a source for its page, and an image to be brought up to date.
pub open spec fn request_of(element: ElementView) -> ElementRequestView {
    match element.type_id {
        ElementTypeId::HTMLLinkElementTypeId => match (
            attr_value(element.attrs, "rel"@),
            attr_value(element.attrs, "href"@),
        ) {
            (Some(rel), Some(href)) => if rel == "stylesheet"@ {
                ElementRequestView::Stylesheet(href)
            } else {
                ElementRequestView::Nothing
            },
            _ => ElementRequestView::Nothing,
        },
        ElementTypeId::HTMLIframeElementTypeId => match attr_value(element.attrs, "src"@) {
            Some(src) => ElementRequestView::Frame(src),
            None => ElementRequestView::Nothing,
        },
        ElementTypeId::HTMLImageElementTypeId => ElementRequestView::Image,
        _ => ElementRequestView::Nothing,
    }
}

/// What an element asks for.
pub fn element_request(element: &Element) -> (r: ElementRequest)
    ensures
        r@ == request_of(element@),
        ({
            let attrs = attrs_view(element.attrs@);
            let sheet = element.type_id == ElementTypeId::HTMLLinkElementTypeId && attr_value(
                attrs,
                "rel"@,
            ) == Some("stylesheet"@) && attr_value(attrs, "href"@) is Some;
            let frame = element.type_id == ElementTypeId::HTMLIframeElementTypeId && attr_value(
                attrs,
                "src"@,
            ) is Some;
            match r {
                ElementRequest::Stylesheet(href) => sheet && attr_value(attrs, "href"@) == Some(
                    href@,
                ),
                ElementRequest::Frame(src) => frame && attr_value(attrs, "src"@) == Some(src@),
                ElementRequest::Image => element.type_id == ElementTypeId::HTMLImageElementTypeId,
                ElementRequest::Nothing => !sheet && !frame && element.type_id
                    != ElementTypeId::HTMLImageElementTypeId,
            }
        }),
{
    match element.type_id {
        ElementTypeId::HTMLLinkElementTypeId => {
            match (element.get_attr("rel"), element.get_attr("href")) {
                (Some(rel), Some(href)) => {
                    if eq_slice(rel.as_str(), "stylesheet") {
                        ElementRequest::Stylesheet(href.clone())
                    } else {
                        ElementRequest::Nothing
                    }
                },
                _ => ElementRequest::Nothing,
            }
        },
        ElementTypeId::HTMLIframeElementTypeId => {
            match element.get_attr("src") {
                Some(src) => ElementRequest::Frame(src.clone()),
                None => ElementRequest::Nothing,
            }
        },
        ElementTypeId::HTMLImageElementTypeId => ElementRequest::Image,
        _ => ElementRequest::Nothing,
    }
}

/// A start tag asks for a style sheet exactly where it is a `link` whose `rel`
/// is `stylesheet` and that has an `href`; for a page exactly where it is an
/// `iframe` that has a `src`; for an image exactly where it is an `img`.
pub proof fn law_request_of_tag(tag: TagView, reference: Seq<char>)
    ensures
        request_of(element_of_tag(tag)) == ElementRequestView::Stylesheet(reference)
            <==> tag.name == "link"@ && last_value(tag.attributes, "rel"@) == Some("stylesheet"@)
            && last_value(tag.attributes, "href"@) == Some(reference),
        request_of(element_of_tag(tag)) == ElementRequestView::Frame(reference) <==> tag.name
            == "iframe"@ && last_value(tag.attributes, "src"@) == Some(reference),
        request_of(element_of_tag(tag)) == ElementRequestView::Image <==> tag.name == "img"@,
{
    law_element_of_tag(tag, "rel"@);
    law_element_of_tag(tag, "href"@);
    law_element_of_tag(tag, "src"@);
    law_requesting_types(tag.name);
}

/// The frame that a start tag brings into the page keeps what the page is told
/// of it: where its page lies and which number that page has. It is said to be
/// sandboxed exactly where the tag has a `sandbox` attribute.
pub proof fn law_frame_agrees(
    tree: TreeView,
    tag: TagView,
    url: Seq<char>,
    pipeline_id: PipelineId,
)
    requires
        tree.has_room(),
        request_of(element_of_tag(tag)) is Frame,
    ensures
        ({
            let element = element_of_tag(tag);
            let post = tree.with_element(element, Some(url), pipeline_id);
            let sandbox = last_value(tag.attributes, "sandbox"@);
            &&& tree.element_action(element, Some(url)) == (ElementActionView::DiscoverFrame {
                url,
                subpage_id: tree.next_subpage_id,
                sandboxed: sandbox is Some,
            })
            &&& post.dom.node(tree.dom.fresh()).data == NodeDataView::Element(
                ElementView {
                    data: ElementDataView::IFrame {
                        frame: Some(url),
                        size: Some(IFrameSize { pipeline_id, subpage_id: tree.next_subpage_id }),
                        sandbox,
                    },
                    ..element
                },
            )
        }),
{
    law_request_of_tag(tag, request_of(element_of_tag(tag))->Frame_0);
    law_element_of_tag(tag, "sandbox"@);
}

/// A reference in a document that does not resolve to a location.
pub struct BadUrl {
    pub text: String,
}

/// A frame whose page is to be loaded.
pub struct FrameDiscovery {
    pub url: Url,
    pub subpage_id: SubpageId,
    pub sandboxed: bool,
}

impl FrameDiscovery {
    /// The message that tells the page of the frame; its size will arrive at
    /// `size_future`.
    pub fn into_message<S, F>(self, size_future: F) -> (r: HtmlDiscoveryMessage<S, F>)
        ensures
            r@ == HtmlDiscoveryMessageView::<S, F>::HtmlDiscoveredIFrame(
                (self.url@, self.subpage_id, size_future, self.sandboxed),
            ),
            r == HtmlDiscoveryMessage::<S, F>::HtmlDiscoveredIFrame(
                (self.url, self.subpage_id, size_future, self.sandboxed),
            ),
    {
        HtmlDiscoveryMessage::HtmlDiscoveredIFrame(
            (self.url, self.subpage_id, size_future, self.sandboxed),
        )
    }
}

/// What is to be done once an element has been made.
pub enum ElementAction {
    Nothing,
    /// Tell the collector of style sheets.
    SendCss(CSSMessage),
    /// Tell the page of a frame.
    DiscoverFrame(FrameDiscovery),
    /// Bring the image of this node up to date.
    UpdateImage(AbstractNode),
}

/// The mathematical value of an [`ElementAction`].
pub enum ElementActionView {
    Nothing,
    SendCss(CSSMessageView),
    DiscoverFrame { url: Seq<char>, subpage_id: SubpageId, sandboxed: bool },
    UpdateImage(AbstractNode),
}

impl View for ElementAction {
    type V = ElementActionView;

    open spec fn view(&self) -> ElementActionView {
        match *self {
            ElementAction::Nothing => ElementActionView::Nothing,
            ElementAction::SendCss(msg) => ElementActionView::SendCss(msg@),
            ElementAction::DiscoverFrame(frame) => ElementActionView::DiscoverFrame {
                url: frame.url@,
                subpage_id: frame.subpage_id,
                sandboxed: frame.sandboxed,
            },
            ElementAction::UpdateImage(node) => ElementActionView::UpdateImage(node),
        }
    }
}

/// The number after a frame number. Numbers start over after the largest one.
pub open spec fn following_id(id: SubpageId) -> SubpageId {
    SubpageId(
        if id.0 == usize::MAX {
            0
        } else {
            (id.0 + 1) as usize
        },
    )
}

/// Where the code of a script is.
pub enum ScriptSource {
    /// At a location; this is the reference in the document.
    File(String),
    /// In the document.
    Inline(String),
}

/// The mathematical value of a [`ScriptSource`].
pub enum ScriptSourceView {
    File(Seq<char>),
    Inline(Seq<char>),
}

impl View for ScriptSource {
    type V = ScriptSourceView;

    open spec fn view(&self) -> ScriptSourceView {
        match *self {
            ScriptSource::File(src) => ScriptSourceView::File(src@),
            ScriptSource::Inline(data) => ScriptSourceView::Inline(data@),
        }
    }
}

/// How the parse of a page stands.
#[derive(Clone, Copy, Debug, PartialEq, Eq, Structural)]
pub enum ParsePhase {
    Loading,
    Failed,
    Finished,
}

/// The tree handler of a page. It answers hubbub as long as the page is loading.
pub struct TreeHandler {
    pub dom: Dom,
    /// The location of the page.
    pub url: Url,
    /// The number of the next frame.
    pub next_subpage_id: SubpageId,
    /// How the parse of the page stands.
    pub phase: ParsePhase,
}

/// The mathematical value of a [`TreeHandler`].
pub struct TreeView {
    pub dom: DomView,
    pub url: Seq<char>,
    pub next_subpage_id: SubpageId,
    pub phase: ParsePhase,
}

impl View for TreeHandler {
    type V = TreeView;

    open spec fn view(&self) -> TreeView {
        TreeView {
            dom: self.dom@,
            url: self.url@,
            next_subpage_id: self.next_subpage_id,
            phase: self.phase,
        }
    }
}

impl TreeView {
    /// Parents and children agree.
    pub open spec fn wf(self) -> bool {
        self.dom.wf()
    }

    /// Whether the page is loading, so that hubbub is answered.
    pub open spec fn is_open(self) -> bool {
        self.phase == ParsePhase::Loading
    }

    /// Whether one more node can be numbered.
    pub open spec fn has_room(self) -> bool {
        self.dom.nodes.len() < usize::MAX
    }

    /// The handler after a node has been made.
    pub open spec fn with_node(self, data: NodeDataView) -> Self {
        TreeView { dom: self.dom.with_node(data), ..self }
    }

    /// An element as it enters the page. A frame whose page lies at `location`
    /// keeps that location, and whom its size concerns.
    pub open spec fn entering(
        self,
        element: ElementView,
        location: Option<Seq<char>>,
        pipeline_id: PipelineId,
    ) -> ElementView {
        match (request_of(element), location, element.data) {
            (
                ElementRequestView::Frame(_),
                Some(url),
                ElementDataView::IFrame { sandbox, .. },
            ) => ElementView {
                data: ElementDataView::IFrame {
                    frame: Some(url),
                    size: Some(IFrameSize { pipeline_id, subpage_id: self.next_subpage_id }),
                    sandbox,
                },
                ..element
            },
            _ => element,
        }
    }

    /// The handler after an element has been made whose reference resolves to
    /// `location`.
    pub open spec fn with_element(
        self,
        element: ElementView,
        location: Option<Seq<char>>,
        pipeline_id: PipelineId,
    ) -> Self {
        TreeView {
            dom: self.dom.with_node(
                NodeDataView::Element(self.entering(element, location, pipeline_id)),
            ),
            next_subpage_id: match (request_of(element), location) {
                (ElementRequestView::Frame(_), Some(_)) => following_id(self.next_subpage_id),
                _ => self.next_subpage_id,
            },
            ..self
        }
    }

    /// What is to be done once an element has been made whose reference resolves
    /// to `location`.
    pub open spec fn element_action(
        self,
        element: ElementView,
        location: Option<Seq<char>>,
    ) -> ElementActionView {
        match (request_of(element), location) {
            (ElementRequestView::Stylesheet(_), Some(url)) => ElementActionView::SendCss(
                CSSMessageView::CSSTaskNewFile(StylesheetProvenanceView::UrlProvenance(url)),
            ),
            (ElementRequestView::Frame(_), Some(url)) => ElementActionView::DiscoverFrame {
                url,
                subpage_id: self.next_subpage_id,
                sandboxed: element.is_sandboxed(),
            },
            (ElementRequestView::Image, _) => ElementActionView::UpdateImage(self.dom.fresh()),
            _ => ElementActionView::Nothing,
        }
    }

    /// Where the reference in the request of an element leads.
    pub open spec fn resolve(self, request: ElementRequestView) -> Option<Seq<char>> {
        match request.reference() {
            Some(text) => joined_url(self.url, text),
            None => None,
        }
    }

    /// Whether the reference in the request of an element leads nowhere.
    pub open spec fn leads_nowhere(self, request: ElementRequestView) -> bool {
        request.reference() is Some && self.resolve(request) is None
    }

    /// Where the code of a script element is: at its `src`, or inside it.
    pub open spec fn script_source(self, n: AbstractNode) -> ScriptSourceView {
        match attr_value(self.dom.node(n).data->Element_0.attrs, "src"@) {
            Some(src) => ScriptSourceView::File(src),
            None => ScriptSourceView::Inline(self.dom.inner_text(n)),
        }
    }

    /// Where the reference to a script in a file leads.
    pub open spec fn resolve_script(self, source: ScriptSourceView) -> Option<Seq<char>> {
        match source {
            ScriptSourceView::File(src) => joined_url(self.url, src),
            ScriptSourceView::Inline(_) => None,
        }
    }

    /// Whether a node can be taken as a script: it is an element, and if it has
    /// no `src`, it holds nothing but text.
    pub open spec fn is_script(self, n: AbstractNode) -> bool {
        &&& self.dom.is_element(n)
        &&& attr_value(self.dom.node(n).data->Element_0.attrs, "src"@) is None
            ==> self.dom.has_only_text(n)
    }
}

/// The message for the collector of scripts, where the reference to a script in
/// a file resolves to `location`, and the page lies at `page`.
pub open spec fn script_message_of(
    source: ScriptSourceView,
    location: Option<Seq<char>>,
    page: Seq<char>,
) -> JSMessageView
    recommends
        source is File ==> location is Some,
{
    match source {
        ScriptSourceView::File(_) => JSMessageView::JSTaskNewFile(location->0),
        ScriptSourceView::Inline(data) => JSMessageView::JSTaskNewInlineScript(data, page),
    }
}

/// The message for the collector of scripts, where the reference to a script in
/// a file resolves to `location`, and the page lies at `page`.
pub fn script_message(source: ScriptSource, location: Option<Url>, page: &Url) -> (r: JSMessage)
    requires
        source is File ==> location is Some,
    ensures
        r@ == script_message_of(source@, opt_url(location), page@),
        match source {
            ScriptSource::File(_) => r == JSMessage::JSTaskNewFile(location->0),
            ScriptSource::Inline(data) => r == JSMessage::JSTaskNewInlineScript(data, *page),
        },
{
    match source {
        ScriptSource::File(_) => JSMessage::JSTaskNewFile(location.unwrap()),
        ScriptSource::Inline(data) => JSMessage::JSTaskNewInlineScript(data, page.clone()),
    }
}

impl TreeHandler {
    /// Makes a comment.
    pub fn create_comment(&mut self, data: String) -> (r: NodeDataPtr)
        requires
            old(self)@.is_open(),
            old(self)@.has_room(),
        ensures
            final(self)@ == old(self)@.with_node(NodeDataView::Comment(data@)),
            r == old(self)@.dom.fresh().ptr(),
            old(self)@.wf() ==> final(self)@.wf(),
            r == old(self).dom.nodes@.len() + 1,
            final(self).dom.nodes@.len() == old(self).dom.nodes@.len() + 1,
            final(self).dom.nodes@.drop_last() == old(self).dom.nodes@,
            final(self).dom.nodes@.last().parent is None,
            final(self).dom.nodes@.last().children@.len() == 0,
            final(self).dom.nodes@.last().data == NodeData::Comment(data),
            final(self).url == old(self).url,
            final(self).next_subpage_id == old(self).next_subpage_id,
            final(self).phase == old(self).phase,
    {
        self.dom.add_node(NodeData::Comment(data)).to_hubbub_node()
    }

    /// Makes a document type declaration.
    pub fn create_doctype(&mut self, doctype: Doctype) -> (r: NodeDataPtr)
        requires
            old(self)@.is_open(),
            old(self)@.has_room(),
        ensures
            final(self)@ == old(self)@.with_node(NodeDataView::Doctype(doctype@)),
            r == old(self)@.dom.fresh().ptr(),
            old(self)@.wf() ==> final(self)@.wf(),
            r == old(self).dom.nodes@.len() + 1,
            final(self).dom.nodes@.len() == old(self).dom.nodes@.len() + 1,
            final(self).dom.nodes@.drop_last() == old(self).dom.nodes@,
            final(self).dom.nodes@.last().parent is None,
            final(self).dom.nodes@.last().children@.len() == 0,
            final(self).dom.nodes@.last().data == NodeData::Doctype(doctype),
            final(self).url == old(self).url,
            final(self).next_subpage_id == old(self).next_subpage_id,
            final(self).phase == old(self).phase,
    {
        self.dom.add_node(NodeData::Doctype(doctype)).to_hubbub_node()
    }

    /// Makes a text.
    pub fn create_text(&mut self, data: String) -> (r: NodeDataPtr)
        requires
            old(self)@.is_open(),
            old(self)@.has_room(),
        ensures
            final(self)@ == old(self)@.with_node(NodeDataView::Text(data@)),
            r == old(self)@.dom.fresh().ptr(),
            old(self)@.wf() ==> final(self)@.wf(),
            r == old(self).dom.nodes@.len() + 1,
            final(self).dom.nodes@.len() == old(self).dom.nodes@.len() + 1,
            final(self).dom.nodes@.drop_last() == old(self).dom.nodes@,
            final(self).dom.nodes@.last().parent is None,
            final(self).dom.nodes@.last().children@.len() == 0,
            final(self).dom.nodes@.last().data == NodeData::Text(data),
            final(self).url == old(self).url,
            final(self).next_subpage_id == old(self).next_subpage_id,
            final(self).phase == old(self).phase,
    {
        self.dom.add_node(NodeData::Text(data)).to_hubbub_node()
    }

    /// Brings an element into the page whose reference, if it asks for
    /// something with one, resolves to `location`, and says what is to be done
    /// next.
    pub fn add_element(
        &mut self,
        element: Element,
        location: Option<Url>,
        pipeline_id: PipelineId,
    ) -> (r: (NodeDataPtr, ElementAction))
        requires
            old(self)@.is_open(),
            old(self)@.has_room(),
            request_of(element@).reference() is Some <==> location is Some,
        ensures
            final(self)@ == old(self)@.with_element(element@, opt_url(location), pipeline_id),
            r.0 == old(self)@.dom.fresh().ptr(),
            r.1@ == old(self)@.element_action(element@, opt_url(location)),
            old(self)@.wf() ==> final(self)@.wf(),
            r.0 == old(self).dom.nodes@.len() + 1,
            final(self).dom.nodes@.len() == old(self).dom.nodes@.len() + 1,
            final(self).dom.nodes@.drop_last() == old(self).dom.nodes@,
            final(self).dom.nodes@.last().parent is None,
            final(self).dom.nodes@.last().children@.len() == 0,
            final(self).url == old(self).url,
            final(self).phase == old(self).phase,
            ({
                let attrs = attrs_view(element.attrs@);
                let id = old(self).next_subpage_id;
                let sheet = element.type_id == ElementTypeId::HTMLLinkElementTypeId && attr_value(
                    attrs,
                    "rel"@,
                ) == Some("stylesheet"@) && attr_value(attrs, "href"@) is Some;
                let frame = element.type_id == ElementTypeId::HTMLIframeElementTypeId
                    && attr_value(attrs, "src"@) is Some;
                let node = final(self).dom.nodes@.last();
                &&& node.data is Element
                &&& node.data->Element_0.type_id == element.type_id
                &&& node.data->Element_0.tag_name == element.tag_name
                &&& node.data->Element_0.attrs == element.attrs
                &&& node.data->Element_0.data == match element.data {
                    ElementData::IFrame { sandbox, .. } if frame => ElementData::IFrame {
                        frame: location,
                        size: Some(IFrameSize { pipeline_id, subpage_id: id }),
                        sandbox,
                    },
                    data => data,
                }
                &&& final(self).next_subpage_id.0 == if !frame {
                    id.0
                } else if id.0 == usize::MAX {
                    0
                } else {
                    (id.0 + 1) as usize
                }
                &&& r.1 == if sheet {
                    ElementAction::SendCss(
                        CSSMessage::CSSTaskNewFile(
                            StylesheetProvenance::UrlProvenance(location->0),
                        ),
                    )
                } else if frame {
                    ElementAction::DiscoverFrame(
                        FrameDiscovery {
                            url: location->0,
                            subpage_id: id,
                            sandboxed: element.data matches ElementData::IFrame { sandbox, .. }
                                && sandbox is Some,
                        },
                    )
                } else if element.type_id == ElementTypeId::HTMLImageElementTypeId {
                    ElementAction::UpdateImage(AbstractNode { obj: r.0 })
                } else {
                    ElementAction::Nothing
                }
            }),
    {
        let mut element = element;
        let ghost given = element@;
        let action = match (element_request(&element), location) {
            (ElementRequest::Stylesheet(_), Some(url)) => {
                ElementAction::SendCss(
                    CSSMessage::CSSTaskNewFile(StylesheetProvenance::UrlProvenance(url)),
                )
            },
            (ElementRequest::Frame(_), Some(url)) => {
                let sandboxed = element.is_sandboxed();
                let subpage_id = self.next_subpage_id;
                self.next_subpage_id = SubpageId(subpage_id.0.wrapping_add(1));
                match &mut element.data {
                    ElementData::IFrame { frame, size, .. } => {
                        *frame = Some(url.clone());
                        *size = Some(IFrameSize { pipeline_id, subpage_id });
                    },
                    _ => {},
                }
                ElementAction::DiscoverFrame(FrameDiscovery { url, subpage_id, sandboxed })
            },
            (ElementRequest::Image, _) => ElementAction::UpdateImage(
                AbstractNode { obj: self.dom.nodes.len() + 1 },
            ),
            _ => ElementAction::Nothing,
        };
        assert(element@ == old(self)@.entering(given, opt_url(location), pipeline_id));
        let node = self.dom.add_node(NodeData::Element(element));
        (node.to_hubbub_node(), action)
    }

    /// Makes the element of a start tag in the page of a pipeline, and says what
    /// is to be done next. Where the reference of what it asks for does not
    /// resolve, it is not made.
    pub fn create_element(&mut self, tag: Tag, pipeline_id: PipelineId) -> (r: Result<
        (NodeDataPtr, ElementAction),
        BadUrl,
    >)
        requires
            old(self)@.is_open(),
            old(self)@.has_room(),
        ensures
            ({
                let element = element_of_tag(tag@);
                let location = old(self)@.resolve(request_of(element));
                match r {
                    Ok((ptr, action)) => {
                        &&& !old(self)@.leads_nowhere(request_of(element))
                        &&& final(self)@ == old(self)@.with_element(element, location, pipeline_id)
                        &&& ptr == old(self)@.dom.fresh().ptr()
                        &&& action@ == old(self)@.element_action(element, location)
                    },
                    Err(e) => {
                        &&& old(self)@.leads_nowhere(request_of(element))
                        &&& Some(e.text@) == request_of(element).reference()
                        &&& *final(self) == *old(self)
                    },
                }
            }),
            old(self)@.wf() ==> final(self)@.wf(),
            ({
                let attrs = attrs_view(tag.attributes@);
                let id = old(self).next_subpage_id;
                let href = last_value(attrs, "href"@);
                let src = last_value(attrs, "src"@);
                let sheet = tag.name@ == "link"@ && last_value(attrs, "rel"@) == Some(
                    "stylesheet"@,
                ) && href is Some;
                let frame = tag.name@ == "iframe"@ && src is Some;
                let text = if sheet {
                    href->0
                } else {
                    src->0
                };
                let location = joined_url(old(self).url.text@, text);
                match r {
                    Err(e) => {
                        &&& (sheet || frame) && location is None
                        &&& e.text@ == text
                        &&& *final(self) == *old(self)
                    },
                    Ok((ptr, action)) => {
                        let node = final(self).dom.nodes@.last();
                        let element = node.data->Element_0;
                        &&& sheet || frame ==> location is Some
                        &&& ptr == old(self).dom.nodes@.len() + 1
                        &&& final(self).dom.nodes@.len() == old(self).dom.nodes@.len() + 1
                        &&& final(self).dom.nodes@.drop_last() == old(self).dom.nodes@
                        &&& final(self).url == old(self).url
                        &&& final(self).phase == old(self).phase
                        &&& final(self).next_subpage_id.0 == if !frame {
                            id.0
                        } else if id.0 == usize::MAX {
                            0
                        } else {
                            (id.0 + 1) as usize
                        }
                        &&& node.parent is None
                        &&& node.children@.len() == 0
                        &&& node.data is Element
                        &&& element.type_id == element_type(tag.name@)
                        &&& element.tag_name@ == tag.name@
                        &&& forall|name: Seq<char>| #[trigger]
                            attr_value(attrs_view(element.attrs@), name) == last_value(attrs, name)
                        &&& match element.data {
                            ElementData::IFrame { frame: page, size, sandbox } => {
                                &&& tag.name@ == "iframe"@
                                &&& opt_text(sandbox) == last_value(attrs, "sandbox"@)
                                &&& frame ==> page is Some && Some(page->0.text@) == location
                                    && size == Some(IFrameSize { pipeline_id, subpage_id: id })
                                &&& !frame ==> page is None && size is None
                            },
                            data => tag.name@ != "iframe"@ && data@ == new_element(tag.name@).data,
                        }
                        &&& match action {
                            ElementAction::SendCss(
                                CSSMessage::CSSTaskNewFile(
                                    StylesheetProvenance::UrlProvenance(url),
                                ),
                            ) => sheet && Some(url.text@) == location,
                            ElementAction::SendCss(_) => false,
                            ElementAction::DiscoverFrame(found) => {
                                &&& frame
                                &&& Some(found.url.text@) == location
                                &&& found.subpage_id == id
                                &&& found.sandboxed <==> last_value(attrs, "sandbox"@) is Some
                            },
                            ElementAction::UpdateImage(image) => tag.name@ == "img"@ && image.obj
                                == ptr,
                            ElementAction::Nothing => !sheet && !frame && tag.name@ != "img"@,
                        }
                    },
                }
            }),
    {
        proof {
            law_requesting_types(tag.name@);
        }
        let element = build_element(&tag);
        let location = match element_request(&element) {
            ElementRequest::Stylesheet(text) | ElementRequest::Frame(text) => {
                match make_url(text.as_str(), &self.url) {
                    Some(url) => Some(url),
                    None => {
                        return Err(BadUrl { text });
                    },
                }
            },
            _ => None,
        };
        Ok(self.add_element(element, location, pipeline_id))
    }

    /// Makes `child` the last child of `parent`.
    pub fn append_child(&mut self, parent: NodeDataPtr, child: NodeDataPtr) -> (r: NodeDataPtr)
        requires
            old(self)@.is_open(),
            old(self)@.dom.can_append(AbstractNode::of_ptr(parent), AbstractNode::of_ptr(child)),
        ensures
            final(self)@ == (TreeView {
                dom: old(self)@.dom.with_child(
                    AbstractNode::of_ptr(parent),
                    AbstractNode::of_ptr(child),
                ),
                ..old(self)@
            }),
            r == child,
            old(self)@.wf() ==> final(self)@.wf(),
            final(self).url == old(self).url,
            final(self).next_subpage_id == old(self).next_subpage_id,
            final(self).phase == old(self).phase,
            final(self).dom.nodes@.len() == old(self).dom.nodes@.len(),
            forall|i: int|
                #![trigger final(self).dom.nodes@[i]]
                0 <= i < old(self).dom.nodes@.len() ==> {
                    &&& final(self).dom.nodes@[i].data == old(self).dom.nodes@[i].data
                    &&& final(self).dom.nodes@[i].parent == if i == child - 1 {
                        Some(AbstractNode { obj: parent })
                    } else {
                        old(self).dom.nodes@[i].parent
                    }
                    &&& final(self).dom.nodes@[i].children@ == if i == parent - 1 {
                        old(self).dom.nodes@[i].children@.push(AbstractNode { obj: child })
                    } else {
                        old(self).dom.nodes@[i].children@
                    }
                },
    {
        self.dom.add_child(
            AbstractNode::from_hubbub_node(parent),
            AbstractNode::from_hubbub_node(child),
        );
        child
    }

    /// Inserts nothing; the answer is no node.
    pub fn insert_before(&self, _parent: NodeDataPtr, _child: NodeDataPtr) -> (r: NodeDataPtr)
        ensures
            r == 0,
    {
        0
    }

    /// Removes nothing; the answer is no node.
    pub fn remove_child(&self, _parent: NodeDataPtr, _child: NodeDataPtr) -> (r: NodeDataPtr)
        ensures
            r == 0,
    {
        0
    }

    /// Moves nothing; the answer is no node.
    pub fn reparent_children(&self, _node: NodeDataPtr, _new_parent: NodeDataPtr) -> (r:
        NodeDataPtr)
        ensures
            r == 0,
    {
        0
    }

    /// Parents are not told: the answer is no node.
    pub fn get_parent(&self, _node: NodeDataPtr, _element_only: bool) -> (r: NodeDataPtr)
        ensures
            r == 0,
    {
        0
    }

    /// Children are not told: the answer is always no.
    pub fn has_children(&self, _node: NodeDataPtr) -> (r: bool)
        ensures
            !r,
    {
        false
    }

    /// Whether a node can be taken as a script.
    pub fn is_script(&self, n: AbstractNode) -> (r: bool)
        ensures
            r == self@.is_script(n),
            r <==> {
                &&& 1 <= n.obj <= self.dom.nodes@.len()
                &&& self.dom.nodes@[n.obj - 1].data is Element
                &&& attr_value(
                    attrs_view(self.dom.nodes@[n.obj - 1].data->Element_0.attrs@),
                    "src"@,
                ) is Some || forall|i: int|
                    #![trigger self.dom.nodes@[n.obj - 1].children@[i]]
                    0 <= i < self.dom.nodes@[n.obj - 1].children@.len() ==> {
                        let child = self.dom.nodes@[n.obj - 1].children@[i];
                        1 <= child.obj <= self.dom.nodes@.len() && self.dom.nodes@[child.obj
                            - 1].data is Text
                    }
            },
    {
        match self.dom.element(n) {
            Some(element) => element.get_attr("src").is_some() || self.dom.has_only_text(n),
            None => false,
        }
    }

    /// Where the code of a script is.
    pub fn script_source(&self, n: AbstractNode) -> (r: ScriptSource)
        requires
            self@.is_script(n),
        ensures
            r@ == self@.script_source(n),
            self.dom.nodes@[n.obj - 1].data is Element,
            match (
                attr_value(
                    attrs_view(self.dom.nodes@[n.obj - 1].data->Element_0.attrs@),
                    "src"@,
                ),
                r,
            ) {
                (Some(src), ScriptSource::File(text)) => text@ == src,
                (None, ScriptSource::Inline(data)) => data@ == self.dom.nodes@[n.obj
                    - 1].children@.map_values(
                    |c: AbstractNode| self.dom.nodes@[c.obj - 1].data->Text_0@,
                ).flatten(),
                _ => false,
            },
    {
        match self.dom.element(n) {
            Some(element) => match element.get_attr("src") {
                Some(src) => ScriptSource::File(src.clone()),
                None => ScriptSource::Inline(self.dom.inner_text(n)),
            },
            None => ScriptSource::Inline(String::new()),
        }
    }

    /// Takes note of the end of a script: makes the message for the collector of
    /// scripts.
    pub fn complete_script(&self, script: NodeDataPtr) -> (r: Result<JSMessage, BadUrl>)
        requires
            self@.is_open(),
            self@.is_script(AbstractNode::of_ptr(script)),
        ensures
            ({
                let source = self@.script_source(AbstractNode::of_ptr(script));
                let location = self@.resolve_script(source);
                match r {
                    Ok(msg) => {
                        &&& source is File ==> location is Some
                        &&& msg@ == script_message_of(source, location, self@.url)
                    },
                    Err(e) => {
                        &&& source is File && location is None
                        &&& source == ScriptSourceView::File(e.text@)
                    },
                }
            }),
            match (
                attr_value(
                    attrs_view(self.dom.nodes@[script - 1].data->Element_0.attrs@),
                    "src"@,
                ),
                r,
            ) {
                (Some(src), Ok(JSMessage::JSTaskNewFile(url))) => joined_url(self.url.text@, src)
                    == Some(url.text@),
                (Some(src), Err(e)) => joined_url(self.url.text@, src) is None && e.text@ == src,
                (None, Ok(JSMessage::JSTaskNewInlineScript(data, url))) => {
                    &&& url == self.url
                    &&& data@ == self.dom.nodes@[script - 1].children@.map_values(
                        |c: AbstractNode| self.dom.nodes@[c.obj - 1].data->Text_0@,
                    ).flatten()
                },
                _ => false,
            },
    {
        let source = self.script_source(AbstractNode::from_hubbub_node(script));
        let location = match &source {
            ScriptSource::File(text) => {
                match make_url(text.as_str(), &self.url) {
                    Some(url) => Some(url),
                    None => {
                        return Err(BadUrl { text: text.clone() });
                    },
                }
            },
            ScriptSource::Inline(_) => None,
        };
        Ok(script_message(source, location, &self.url))
    }

    /// Takes note of the end of a style sheet that stands in the page: makes the
    /// message for the collector of style sheets.
    pub fn complete_style(&self, style: NodeDataPtr) -> (r: CSSMessage)
        requires
            self@.is_open(),
            self@.dom.has_only_text(AbstractNode::of_ptr(style)),
        ensures
            r@ == CSSMessageView::CSSTaskNewFile(
                StylesheetProvenanceView::InlineProvenance(
                    inline_style_url(),
                    self@.dom.inner_text(AbstractNode::of_ptr(style)),
                ),
            ),
            match r {
                CSSMessage::CSSTaskNewFile(StylesheetProvenance::InlineProvenance(url, data)) => {
                    &&& url.text@ == "http://example.com/"@
                    &&& data@ == self.dom.nodes@[style - 1].children@.map_values(
                        |c: AbstractNode| self.dom.nodes@[c.obj - 1].data->Text_0@,
                    ).flatten()
                },
                _ => false,
            },
    {
        let url = Url::parse("http://example.com/").unwrap();
        let data = self.dom.inner_text(AbstractNode::from_hubbub_node(style));
        CSSMessage::CSSTaskNewFile(StylesheetProvenance::InlineProvenance(url, data))
    }
}

/// The value of a tree handler shows all that it holds; it answers hubbub
/// exactly as long as the page is loading, and can make a node exactly as long as
/// one more can be numbered.
pub proof fn law_tree_view(handler: TreeHandler)
    ensures
        handler@.dom == handler.dom@,
        handler@.url == handler.url.text@,
        handler@.next_subpage_id == handler.next_subpage_id,
        handler@.phase == handler.phase,
        handler@.is_open() <==> handler.phase == ParsePhase::Loading,
        handler@.has_room() <==> handler.dom.nodes@.len() < usize::MAX,
{
}

/// The value of what is to be done after an element shows all that it holds.
pub proof fn law_action_view(action: ElementAction)
    ensures
        match action {
            ElementAction::Nothing => action@ is Nothing,
            ElementAction::SendCss(msg) => action@ == ElementActionView::SendCss(msg@),
            ElementAction::DiscoverFrame(frame) => action@ == (ElementActionView::DiscoverFrame {
                url: frame.url.text@,
                subpage_id: frame.subpage_id,
                sandboxed: frame.sandboxed,
            }),
            ElementAction::UpdateImage(node) => action@ == ElementActionView::UpdateImage(node),
        },
{
}

/// Only a style sheet and a page are asked for by a reference, and it is the one
/// that stands in the document.
pub proof fn law_request_view(request: ElementRequest)
    ensures
        match request {
            ElementRequest::Nothing => request@ is Nothing && request@.reference() is None,
            ElementRequest::Stylesheet(href) => {
                &&& request@ == ElementRequestView::Stylesheet(href@)
                &&& request@.reference() == Some(href@)
            },
            ElementRequest::Frame(src) => {
                &&& request@ == ElementRequestView::Frame(src@)
                &&& request@.reference() == Some(src@)
            },
            ElementRequest::Image => request@ is Image && request@.reference() is None,
        },
{
}

/// The value of where the code of a script is shows all that it holds.
pub proof fn law_source_view(source: ScriptSource)
    ensures
        match source {
            ScriptSource::File(src) => source@ == ScriptSourceView::File(src@),
            ScriptSource::Inline(data) => source@ == ScriptSourceView::Inline(data@),
        },
{
}

/// Frame numbers go up by one; after the largest comes zero. So no number comes
/// after two others.
pub proof fn law_following_id(a: SubpageId, b: SubpageId)
    ensures
        a.0 < usize::MAX ==> following_id(a).0 == a.0 + 1,
        a.0 == usize::MAX ==> following_id(a).0 == 0,
        following_id(a) == following_id(b) ==> a == b,
{
}

/// A new node that is no element leaves the rest of the page, its location, its
/// frame numbers and how its parse stands as they are.
pub proof fn law_node_enters(tree: TreeView, data: NodeDataView)
    ensures
        ({
            let post = tree.with_node(data);
            &&& post.url == tree.url
            &&& post.next_subpage_id == tree.next_subpage_id
            &&& post.phase == tree.phase
            &&& post.dom.nodes.len() == tree.dom.nodes.len() + 1
            &&& post.dom.nodes.drop_last() == tree.dom.nodes
            &&& post.dom.nodes.last().parent is None
            &&& post.dom.nodes.last().children.len() == 0
            &&& post.dom.nodes.last().data == data
        }),
{
    assert(tree.with_node(data).dom.nodes.drop_last() =~= tree.dom.nodes);
}

/// A start tag is refused exactly where it asks for a style sheet or for a page
/// and the reference does not lead anywhere from the location of the page.
pub proof fn law_when_refused(tree: TreeView, tag: TagView)
    ensures
        tree.leads_nowhere(request_of(element_of_tag(tag))) <==> {
            ||| {
                &&& tag.name == "link"@
                &&& last_value(tag.attributes, "rel"@) == Some("stylesheet"@)
                &&& last_value(tag.attributes, "href"@) is Some
                &&& joined_url(tree.url, last_value(tag.attributes, "href"@)->0) is None
            }
            ||| {
                &&& tag.name == "iframe"@
                &&& last_value(tag.attributes, "src"@) is Some
                &&& joined_url(tree.url, last_value(tag.attributes, "src"@)->0) is None
            }
        },
{
    law_element_of_tag(tag, "rel"@);
    law_element_of_tag(tag, "href"@);
    law_element_of_tag(tag, "src"@);
    law_requesting_types(tag.name);
}

/// The element of a start tag enters the page as one more node, by itself. Its
/// type and its name are those of the tag, no attribute of the tag is lost and
/// none is added, and each has its last value. Only a frame with a source
/// differs from the element that the tag alone makes, and only in that it keeps
/// where its page lies and whom its size concerns.
pub proof fn law_element_enters(tree: TreeView, tag: TagView, pipeline_id: PipelineId)
    requires
        tag.name == "iframe"@ && last_value(tag.attributes, "src"@) is Some ==> joined_url(
            tree.url,
            last_value(tag.attributes, "src"@)->0,
        ) is Some,
    ensures
        ({
            let given = element_of_tag(tag);
            let post = tree.with_element(given, tree.resolve(request_of(given)), pipeline_id);
            let id = tree.next_subpage_id;
            let node = post.dom.nodes.last();
            let element = node.data->Element_0;
            let src = last_value(tag.attributes, "src"@);
            let frame = tag.name == "iframe"@ && src is Some;
            &&& post.url == tree.url
            &&& post.phase == tree.phase
            &&& post.next_subpage_id.0 == if !frame {
                id.0 as int
            } else if id.0 == usize::MAX {
                0
            } else {
                id.0 + 1
            }
            &&& post.dom.nodes.len() == tree.dom.nodes.len() + 1
            &&& post.dom.nodes.drop_last() == tree.dom.nodes
            &&& node.parent is None
            &&& node.children.len() == 0
            &&& node.data is Element
            &&& element.type_id == element_type(tag.name)
            &&& element.tag_name == tag.name
            &&& forall|name: Seq<char>| #[trigger]
                attr_value(element.attrs, name) == last_value(tag.attributes, name)
            &&& forall|i: int, j: int|
                #![trigger element.attrs[i], element.attrs[j]]
                0 <= i < j < element.attrs.len() ==> element.attrs[i].name != element.attrs[j].name
            &&& !frame ==> node.data == NodeDataView::Element(given)
            &&& frame ==> element.attrs == given.attrs && element.data == (
            ElementDataView::IFrame {
                frame: joined_url(tree.url, src->0),
                size: Some(IFrameSize { pipeline_id, subpage_id: id }),
                sandbox: last_value(tag.attributes, "sandbox"@),
            })
        }),
{
    let given = element_of_tag(tag);
    let post = tree.with_element(given, tree.resolve(request_of(given)), pipeline_id);
    law_element_of_tag(tag, "rel"@);
    law_element_of_tag(tag, "href"@);
    law_element_of_tag(tag, "src"@);
    law_requesting_types(tag.name);
    assert(post.dom.nodes.drop_last() =~= tree.dom.nodes);
    assert forall|name: Seq<char>| #[trigger]
        attr_value(given.attrs, name) == last_value(tag.attributes, name) by {
        law_element_of_tag(tag, name);
    }
}

/// What is to be done after a start tag follows from the name of the tag, from
/// the attributes named here, and from where the reference leads; no other
/// attribute makes a difference.
pub proof fn law_action_of_tag(tree: TreeView, tag: TagView)
    requires
        !tree.leads_nowhere(request_of(element_of_tag(tag))),
    ensures
        ({
            let given = element_of_tag(tag);
            let href = last_value(tag.attributes, "href"@);
            let src = last_value(tag.attributes, "src"@);
            tree.element_action(given, tree.resolve(request_of(given))) == if tag.name == "link"@
                && last_value(tag.attributes, "rel"@) == Some("stylesheet"@) && href is Some {
                ElementActionView::SendCss(
                    CSSMessageView::CSSTaskNewFile(
                        StylesheetProvenanceView::UrlProvenance(joined_url(tree.url, href->0)->0),
                    ),
                )
            } else if tag.name == "iframe"@ && src is Some {
                ElementActionView::DiscoverFrame {
                    url: joined_url(tree.url, src->0)->0,
                    subpage_id: tree.next_subpage_id,
                    sandboxed: last_value(tag.attributes, "sandbox"@) is Some,
                }
            } else if tag.name == "img"@ {
                ElementActionView::UpdateImage(
                    AbstractNode { obj: (tree.dom.nodes.len() + 1) as usize },
                )
            } else {
                ElementActionView::Nothing
            }
        }),
{
    law_element_of_tag(tag, "rel"@);
    law_element_of_tag(tag, "href"@);
    law_element_of_tag(tag, "src"@);
    law_requesting_types(tag.name);
}

/// A node can be taken as a script exactly where it is an element of the page
/// that has a `src` or whose children are all text. Its code lies at the `src`
/// if there is one, and is the text of its children, one after the other, if
/// there is none; nothing else about the node makes a difference.
pub proof fn law_script(tree: TreeView, n: AbstractNode)
    ensures
        ({
            let node = tree.dom.nodes[n.obj - 1];
            let src = attr_value(node.data->Element_0.attrs, "src"@);
            let source = tree.script_source(n);
            let location = tree.resolve_script(source);
            &&& tree.is_script(n) <==> {
                &&& 1 <= n.obj <= tree.dom.nodes.len()
                &&& node.data is Element
                &&& src is Some || forall|c: AbstractNode| #[trigger]
                    node.children.contains(c) ==> 1 <= c.obj <= tree.dom.nodes.len()
                        && tree.dom.nodes[c.obj - 1].data is Text
            }
            &&& match src {
                Some(text) => {
                    &&& source == ScriptSourceView::File(text)
                    &&& location == joined_url(tree.url, text)
                    &&& location is Some ==> script_message_of(source, location, tree.url)
                        == JSMessageView::JSTaskNewFile(location->0)
                },
                None => {
                    let code = node.children.map_values(
                        |c: AbstractNode| tree.dom.nodes[c.obj - 1].data->Text_0,
                    ).flatten();
                    &&& source == ScriptSourceView::Inline(code)
                    &&& script_message_of(source, location, tree.url)
                        == JSMessageView::JSTaskNewInlineScript(code, tree.url)
                },
            }
        }),
{
    law_what_nodes_are(tree.dom, n, n);
    law_inner_text(tree.dom, n);
}

} // verus!
