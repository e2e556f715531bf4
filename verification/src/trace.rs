//! What holds of a whole series of events that hubbub hands to the tree
//! handler.

use vstd::arithmetic::div_mod::{lemma_add_mod_noop, lemma_small_mod};
use vstd::prelude::*;

use crate::attr::{attr_value, last_value, TagView};
use crate::css::{
    after_messages as css_after_messages, css_messages, law_sheets_in_order, messages_sent,
    CssLinkListenerView,
};
use crate::dom::{
    law_append_child, law_handles, law_inner_text, law_new_node, law_what_nodes_are, AbstractNode,
    DoctypeView, NodeDataPtr, NodeDataView,
};
use crate::element::{element_of_tag, ElementDataView, IFrameSize, PipelineId, SubpageId};
use crate::messages::{
    CSSMessageView, HtmlDiscoveryMessageView, JSMessageView, ProgressMsgView,
    StylesheetProvenanceView,
};
use crate::script::{
    after_messages as js_after_messages, complete_load, law_scripts_in_order, scripts_of,
    JsActionView, JsScriptListenerView,
};
use crate::tags::element_type;
use crate::tree::{
    following_id, law_action_of_tag, law_element_enters, law_node_enters, law_request_of_tag,
    law_script, law_when_refused, request_of, script_message_of, ElementActionView, ParsePhase,
    ScriptSourceView, TreeView,
};
use crate::url::{inline_style_url, joined_url};

verus! {

/// A call of hubbub that changes the tree or discovers something.
pub enum TreeEvent {
    CreateComment(Seq<char>),
    CreateDoctype(DoctypeView),
    CreateText(Seq<char>),
    /// In the page of this pipeline.
    CreateElement(TagView, PipelineId),
    AppendChild(NodeDataPtr, NodeDataPtr),
    CompleteScript(NodeDataPtr),
    CompleteStyle(NodeDataPtr),
}

/// What the tree handler tells others of.
pub enum Discovery {
    Css(CSSMessageView),
    Js(JSMessageView),
    Frame { url: Seq<char>, subpage_id: SubpageId, sandboxed: bool },
    Image(AbstractNode),
}

/// Whether the tree handler can take an event: the page is loading, there is room
/// for a new node, a reference leads somewhere, a new child has no parent, a
/// script or a style sheet holds text.
pub open spec fn possible(tree: TreeView, event: TreeEvent) -> bool {
    &&& tree.is_open()
    &&& match event {
        TreeEvent::CreateElement(tag, _) => tree.has_room() && !tree.leads_nowhere(
            request_of(element_of_tag(tag)),
        ),
        TreeEvent::AppendChild(parent, child) => tree.dom.can_append(
            AbstractNode::of_ptr(parent),
            AbstractNode::of_ptr(child),
        ),
        TreeEvent::CompleteScript(node) => {
            let n = AbstractNode::of_ptr(node);
            &&& tree.is_script(n)
            &&& tree.script_source(n) is File ==> tree.resolve_script(tree.script_source(n)) is Some
        },
        TreeEvent::CompleteStyle(node) => tree.dom.has_only_text(AbstractNode::of_ptr(node)),
        _ => tree.has_room(),
    }
}

/// The tree handler after an event.
pub open spec fn after_event(tree: TreeView, event: TreeEvent) -> TreeView {
    match event {
        TreeEvent::CreateComment(data) => tree.with_node(NodeDataView::Comment(data)),
        TreeEvent::CreateDoctype(doctype) => tree.with_node(NodeDataView::Doctype(doctype)),
        TreeEvent::CreateText(data) => tree.with_node(NodeDataView::Text(data)),
        TreeEvent::CreateElement(tag, pipeline_id) => tree.with_element(
            element_of_tag(tag),
            tree.resolve(request_of(element_of_tag(tag))),
            pipeline_id,
        ),
        TreeEvent::AppendChild(parent, child) => TreeView {
            dom: tree.dom.with_child(AbstractNode::of_ptr(parent), AbstractNode::of_ptr(child)),
            ..tree
        },
        _ => tree,
    }
}

/// What the tree handler tells others of at an event.
pub open spec fn discovery(tree: TreeView, event: TreeEvent) -> Option<Discovery> {
    match event {
        TreeEvent::CreateElement(tag, _) => match tree.element_action(
            element_of_tag(tag),
            tree.resolve(request_of(element_of_tag(tag))),
        ) {
            ElementActionView::Nothing => None,
            ElementActionView::SendCss(msg) => Some(Discovery::Css(msg)),
            ElementActionView::DiscoverFrame { url, subpage_id, sandboxed } => Some(
                Discovery::Frame { url, subpage_id, sandboxed },
            ),
            ElementActionView::UpdateImage(node) => Some(Discovery::Image(node)),
        },
        TreeEvent::CompleteScript(node) => {
            let source = tree.script_source(AbstractNode::of_ptr(node));
            Some(
                Discovery::Js(script_message_of(source, tree.resolve_script(source), tree.url)),
            )
        },
        TreeEvent::CompleteStyle(node) => Some(
            Discovery::Css(
                CSSMessageView::CSSTaskNewFile(
                    StylesheetProvenanceView::InlineProvenance(
                        inline_style_url(),
                        tree.dom.inner_text(AbstractNode::of_ptr(node)),
                    ),
                ),
            ),
        ),
        _ => None,
    }
}

/// The tree handler after a series of events.
pub open spec fn after_events(tree: TreeView, events: Seq<TreeEvent>) -> TreeView
    decreases events.len(),
{
    if events.len() == 0 {
        tree
    } else {
        after_event(after_events(tree, events.drop_last()), events.last())
    }
}

/// Whether the tree handler can take a series of events.
pub open spec fn all_possible(tree: TreeView, events: Seq<TreeEvent>) -> bool
    decreases events.len(),
{
    events.len() == 0 || (all_possible(tree, events.drop_last()) && possible(
        after_events(tree, events.drop_last()),
        events.last(),
    ))
}

/// What the tree handler tells others of during a series of events, in order.
pub open spec fn discoveries(tree: TreeView, events: Seq<TreeEvent>) -> Seq<Discovery>
    decreases events.len(),
{
    if events.len() == 0 {
        Seq::empty()
    } else {
        let before = discoveries(tree, events.drop_last());
        match discovery(after_events(tree, events.drop_last()), events.last()) {
            Some(d) => before.push(d),
            None => before,
        }
    }
}

/// The numbers of the frames among some discoveries.
pub open spec fn frame_ids(found: Seq<Discovery>) -> Seq<SubpageId>
    decreases found.len(),
{
    if found.len() == 0 {
        Seq::empty()
    } else {
        let before = frame_ids(found.drop_last());
        match found.last() {
            Discovery::Frame { subpage_id, .. } => before.push(subpage_id),
            _ => before,
        }
    }
}

/// The style sheets among some discoveries.
pub open spec fn sheets_found(found: Seq<Discovery>) -> Seq<StylesheetProvenanceView>
    decreases found.len(),
{
    if found.len() == 0 {
        Seq::empty()
    } else {
        let before = sheets_found(found.drop_last());
        match found.last() {
            Discovery::Css(CSSMessageView::CSSTaskNewFile(provenance)) => before.push(provenance),
            _ => before,
        }
    }
}

/// The messages for the collector of style sheets among some discoveries.
pub open spec fn css_sent(found: Seq<Discovery>) -> Seq<CSSMessageView>
    decreases found.len(),
{
    if found.len() == 0 {
        Seq::empty()
    } else {
        let before = css_sent(found.drop_last());
        match found.last() {
            Discovery::Css(msg) => before.push(msg),
            _ => before,
        }
    }
}

/// The messages for the collector of scripts among some discoveries.
pub open spec fn js_sent(found: Seq<Discovery>) -> Seq<JSMessageView>
    decreases found.len(),
{
    if found.len() == 0 {
        Seq::empty()
    } else {
        let before = js_sent(found.drop_last());
        match found.last() {
            Discovery::Js(msg) => before.push(msg),
            _ => before,
        }
    }
}

/// The nodes that some events append to a node, in order.
pub open spec fn appended_to(events: Seq<TreeEvent>, n: AbstractNode) -> Seq<AbstractNode>
    decreases events.len(),
{
    if events.len() == 0 {
        Seq::empty()
    } else {
        let before = appended_to(events.drop_last(), n);
        match events.last() {
            TreeEvent::AppendChild(parent, child) => if AbstractNode::of_ptr(parent) == n {
                before.push(AbstractNode::of_ptr(child))
            } else {
                before
            },
            _ => before,
        }
    }
}

/// The children of a node; a node that the page does not have yet has none.
pub open spec fn children_of(tree: TreeView, n: AbstractNode) -> Seq<AbstractNode> {
    if tree.dom.has(n) {
        tree.dom.node(n).children
    } else {
        Seq::empty()
    }
}

/// One event keeps parents and children in agreement, the location of the page,
/// and every node with what it is and with its children, to which a node may be
/// appended.
proof fn lemma_event_keeps_nodes(tree: TreeView, event: TreeEvent, n: AbstractNode)
    requires
        tree.wf(),
        possible(tree, event),
    ensures
        after_event(tree, event).wf(),
        after_event(tree, event).url == tree.url,
        after_event(tree, event).phase == tree.phase,
        tree.dom.has(n) ==> after_event(tree, event).dom.has(n) && after_event(
            tree,
            event,
        ).dom.node(n).data == tree.dom.node(n).data,
        children_of(after_event(tree, event), n) == children_of(tree, n) + appended_to(
            seq![event],
            n,
        ),
{
    reveal_with_fuel(appended_to, 2);
    assert(seq![event].drop_last() =~= Seq::empty());
    assert(children_of(tree, n) + Seq::empty() =~= children_of(tree, n));
    match event {
        TreeEvent::CreateComment(data) => {
            law_new_node(tree.dom, NodeDataView::Comment(data), n);
        },
        TreeEvent::CreateDoctype(doctype) => {
            law_new_node(tree.dom, NodeDataView::Doctype(doctype), n);
        },
        TreeEvent::CreateText(data) => {
            law_new_node(tree.dom, NodeDataView::Text(data), n);
        },
        TreeEvent::CreateElement(tag, pipeline_id) => {
            let element = element_of_tag(tag);
            let entering = tree.entering(element, tree.resolve(request_of(element)), pipeline_id);
            law_new_node(tree.dom, NodeDataView::Element(entering), n);
        },
        TreeEvent::AppendChild(parent, child) => {
            law_append_child(
                tree.dom,
                AbstractNode::of_ptr(parent),
                AbstractNode::of_ptr(child),
                n,
            );
            assert(children_of(after_event(tree, event), n) =~= children_of(tree, n) + appended_to(
                seq![event],
                n,
            ));
        },
        _ => {},
    }
}

/// Whatever hubbub does, parents and children agree, the page stays where it is,
/// and no node is lost or becomes another: what it is stays as it was made. Its
/// children are those that it had, followed by the nodes that were appended to
/// it, in order.
pub proof fn law_nodes_stay(tree: TreeView, events: Seq<TreeEvent>, n: AbstractNode)
    requires
        tree.wf(),
        all_possible(tree, events),
    ensures
        after_events(tree, events).wf(),
        after_events(tree, events).url == tree.url,
        after_events(tree, events).phase == tree.phase,
        tree.dom.has(n) ==> after_events(tree, events).dom.has(n) && after_events(
            tree,
            events,
        ).dom.node(n).data == tree.dom.node(n).data,
        children_of(after_events(tree, events), n) == children_of(tree, n) + appended_to(
            events,
            n,
        ),
    decreases events.len(),
{
    if events.len() == 0 {
        assert(children_of(tree, n) + appended_to(events, n) =~= children_of(tree, n));
    } else {
        let rest = events.drop_last();
        law_nodes_stay(tree, rest, n);
        lemma_event_keeps_nodes(after_events(tree, rest), events.last(), n);
        reveal_with_fuel(appended_to, 2);
        assert(seq![events.last()].drop_last() =~= Seq::empty());
        assert(children_of(tree, n) + appended_to(events, n) =~= (children_of(tree, n)
            + appended_to(rest, n)) + appended_to(seq![events.last()], n));
    }
}

/// The number of different frame numbers.
pub open spec fn id_count() -> int {
    usize::MAX + 1
}

/// The frames of a page are numbered one after the other, from the number that
/// the page was given on; after the largest number they start over.
pub proof fn law_frames_numbered(tree: TreeView, events: Seq<TreeEvent>)
    ensures
        ({
            let ids = frame_ids(discoveries(tree, events));
            &&& forall|i: int|
                0 <= i < ids.len() ==> (#[trigger] ids[i]).0 == (tree.next_subpage_id.0 + i)
                    % id_count()
            &&& after_events(tree, events).next_subpage_id.0 == (tree.next_subpage_id.0
                + ids.len()) % id_count()
        }),
    decreases events.len(),
{
    let start = tree.next_subpage_id.0 as int;
    let ids = frame_ids(discoveries(tree, events));
    if events.len() == 0 {
        lemma_small_mod(start as nat, id_count() as nat);
    } else {
        let before = after_events(tree, events.drop_last());
        let found = discoveries(tree, events.drop_last());
        law_frames_numbered(tree, events.drop_last());
        match discovery(before, events.last()) {
            Some(d) => {
                assert(found.push(d).drop_last() =~= found);
                if d is Frame {
                    let n = frame_ids(found).len() as int;
                    assert(following_id(before.next_subpage_id).0 == (start + n + 1) % id_count())
                        by {
                        lemma_add_mod_noop(start + n, 1, id_count());
                        lemma_small_mod(1, id_count() as nat);
                        if before.next_subpage_id.0 == usize::MAX {
                            vstd::arithmetic::div_mod::lemma_mod_self_0(id_count());
                        } else {
                            lemma_small_mod(
                                (before.next_subpage_id.0 + 1) as nat,
                                id_count() as nat,
                            );
                        }
                    }
                }
            },
            None => {},
        }
    }
}

/// No two frames of a page have the same number, unless all numbers have been
/// used.
pub proof fn law_frame_numbers_differ(tree: TreeView, events: Seq<TreeEvent>, i: int, j: int)
    requires
        0 <= i < j < frame_ids(discoveries(tree, events)).len(),
        j - i < id_count(),
    ensures
        frame_ids(discoveries(tree, events))[i] != frame_ids(discoveries(tree, events))[j],
{
    law_frames_numbered(tree, events);
    let start = tree.next_subpage_id.0 as int;
    let a = start + i;
    let b = start + j;
    if a % id_count() == b % id_count() {
        vstd::arithmetic::div_mod::lemma_mod_equivalence(b, a, id_count());
        lemma_small_mod((b - a) as nat, id_count() as nat);
        assert(false);
    }
}

/// All that the collector of style sheets hears during the events is of sheets.
pub proof fn lemma_css_sent(tree: TreeView, events: Seq<TreeEvent>)
    ensures
        css_sent(discoveries(tree, events)) == sheets_found(discoveries(tree, events)).map_values(
            |p: StylesheetProvenanceView| CSSMessageView::CSSTaskNewFile(p),
        ),
    decreases events.len(),
{
    let found = discoveries(tree, events);
    if events.len() != 0 {
        lemma_css_sent(tree, events.drop_last());
        let before = discoveries(tree, events.drop_last());
        match discovery(after_events(tree, events.drop_last()), events.last()) {
            Some(d) => {
                assert(before.push(d).drop_last() =~= before);
            },
            None => {},
        }
    }
    assert(css_sent(found) =~= sheets_found(found).map_values(
        |p: StylesheetProvenanceView| CSSMessageView::CSSTaskNewFile(p),
    ));
}

/// End to end: the style sheets that the events call for, those that lie
/// elsewhere and those that stand in the page, come back parsed, one message
/// each, in the order in which the page called for them.
pub proof fn law_page_gets_its_sheets<P, S, F>(
    tree: TreeView,
    events: Seq<TreeEvent>,
    spawn: spec_fn(nat, StylesheetProvenanceView) -> P,
    recv: spec_fn(P) -> S,
)
    requires
        sheets_found(discoveries(tree, events)).len() <= usize::MAX,
    ensures
        ({
            let sheets = sheets_found(discoveries(tree, events));
            messages_sent::<P, S, F>(
                css_after_messages(
                    CssLinkListenerView::new(),
                    css_sent(discoveries(tree, events)).push(CSSMessageView::CSSTaskExit),
                    spawn,
                ),
                recv,
            ) == Seq::new(
                sheets.len(),
                |i: int|
                    HtmlDiscoveryMessageView::<S, F>::HtmlDiscoveredStyle(
                        recv(spawn(i as nat, sheets[i])),
                    ),
            )
        }),
{
    let sheets = sheets_found(discoveries(tree, events));
    lemma_css_sent(tree, events);
    law_sheets_in_order::<P, S, F>(sheets, spawn, recv);
    assert(css_messages(sheets) == css_sent(discoveries(tree, events)).push(
        CSSMessageView::CSSTaskExit,
    ));
}

/// All that the collector of scripts hears during the events is of scripts.
pub proof fn lemma_js_sent(tree: TreeView, events: Seq<TreeEvent>)
    ensures
        forall|i: int|
            0 <= i < js_sent(discoveries(tree, events)).len() ==> (#[trigger] js_sent(
                discoveries(tree, events),
            )[i]) !is JSTaskExit,
    decreases events.len(),
{
    if events.len() != 0 {
        lemma_js_sent(tree, events.drop_last());
        let before = discoveries(tree, events.drop_last());
        match discovery(after_events(tree, events.drop_last()), events.last()) {
            Some(d) => {
                assert(before.push(d).drop_last() =~= before);
            },
            None => {},
        }
    }
}

/// End to end: the scripts that the events call for come back together,
/// in the order in which the page called for them, without those that could not
/// be loaded.
pub proof fn law_page_gets_its_scripts<S, F>(
    tree: TreeView,
    events: Seq<TreeEvent>,
    load: spec_fn(int, Seq<char>) -> Seq<ProgressMsgView>,
)
    requires
        forall|i: int, url: Seq<char>| complete_load(#[trigger] load(i, url)),
    ensures
        ({
            let msgs = js_sent(discoveries(tree, events));
            let listener = js_after_messages(JsScriptListenerView::new(), msgs, load);
            &&& listener.listening()
            &&& listener.action::<S, F>(JSMessageView::JSTaskExit) == JsActionView::<S, F>::Send(
                HtmlDiscoveryMessageView::HtmlDiscoveredScript(scripts_of(msgs, load)),
            )
        }),
{
    lemma_js_sent(tree, events);
    law_scripts_in_order::<S, F>(js_sent(discoveries(tree, events)), load);
}

/// A start tag can be taken exactly while the page is loading, one more node can
/// be numbered, and the reference to a style sheet or to a page in a frame, if it
/// asks for one, leads somewhere.
///
/// The node that it then adds is an element of the type and the name of the tag
/// that has each attribute of the tag, with its last value, and no other. Unless
/// it is a frame with a source, it is the element that the tag alone makes.
///
/// A link to a style sheet discovers that sheet, a frame with a source its page,
/// an image the image, and no other tag anything; what other attributes the tag
/// has makes no difference.
pub proof fn law_start_tag(tree: TreeView, tag: TagView, pipeline_id: PipelineId)
    ensures
        ({
            let event = TreeEvent::CreateElement(tag, pipeline_id);
            let href = last_value(tag.attributes, "href"@);
            let src = last_value(tag.attributes, "src"@);
            let sheet = tag.name == "link"@ && last_value(tag.attributes, "rel"@) == Some(
                "stylesheet"@,
            ) && href is Some;
            let frame = tag.name == "iframe"@ && src is Some;
            let post = after_event(tree, event);
            let node = post.dom.nodes.last();
            let element = node.data->Element_0;
            &&& possible(tree, event) <==> {
                &&& tree.phase == ParsePhase::Loading
                &&& tree.dom.nodes.len() < usize::MAX
                &&& sheet ==> joined_url(tree.url, href->0) is Some
                &&& frame ==> joined_url(tree.url, src->0) is Some
            }
            &&& possible(tree, event) ==> {
                &&& discovery(tree, event) == if sheet {
                    Some(
                        Discovery::Css(
                            CSSMessageView::CSSTaskNewFile(
                                StylesheetProvenanceView::UrlProvenance(
                                    joined_url(tree.url, href->0)->0,
                                ),
                            ),
                        ),
                    )
                } else if frame {
                    Some(
                        Discovery::Frame {
                            url: joined_url(tree.url, src->0)->0,
                            subpage_id: tree.next_subpage_id,
                            sandboxed: last_value(tag.attributes, "sandbox"@) is Some,
                        },
                    )
                } else if tag.name == "img"@ {
                    Some(
                        Discovery::Image(AbstractNode { obj: (tree.dom.nodes.len() + 1) as usize }),
                    )
                } else {
                    None
                }
                &&& post.url == tree.url
                &&& post.phase == tree.phase
                &&& !frame ==> post.next_subpage_id == tree.next_subpage_id
                &&& post.dom.nodes.len() == tree.dom.nodes.len() + 1
                &&& post.dom.nodes.drop_last() == tree.dom.nodes
                &&& node.parent is None
                &&& node.children.len() == 0
                &&& node.data is Element
                &&& element.type_id == element_type(tag.name)
                &&& element.tag_name == tag.name
                &&& forall|name: Seq<char>| #[trigger]
                    attr_value(element.attrs, name) == last_value(tag.attributes, name)
                &&& !frame ==> node.data == NodeDataView::Element(element_of_tag(tag))
                &&& frame ==> element.data == (ElementDataView::IFrame {
                    frame: joined_url(tree.url, src->0),
                    size: Some(IFrameSize { pipeline_id, subpage_id: tree.next_subpage_id }),
                    sandbox: last_value(tag.attributes, "sandbox"@),
                })
            }
        }),
{
    law_when_refused(tree, tag);
    law_request_of_tag(tag, last_value(tag.attributes, "src"@)->0);
    if possible(tree, TreeEvent::CreateElement(tag, pipeline_id)) {
        law_element_enters(tree, tag, pipeline_id);
        law_action_of_tag(tree, tag);
    }
}

/// Two start tags of the same name that agree on `rel`, `href`, `src` and
/// `sandbox` are taken or refused alike, and discover the same.
pub proof fn law_other_attributes_do_not_matter(
    tree: TreeView,
    a: TagView,
    b: TagView,
    pipeline_id: PipelineId,
)
    requires
        a.name == b.name,
        last_value(a.attributes, "rel"@) == last_value(b.attributes, "rel"@),
        last_value(a.attributes, "href"@) == last_value(b.attributes, "href"@),
        last_value(a.attributes, "src"@) == last_value(b.attributes, "src"@),
        last_value(a.attributes, "sandbox"@) == last_value(b.attributes, "sandbox"@),
    ensures
        possible(tree, TreeEvent::CreateElement(a, pipeline_id)) == possible(
            tree,
            TreeEvent::CreateElement(b, pipeline_id),
        ),
        possible(tree, TreeEvent::CreateElement(a, pipeline_id)) ==> discovery(
            tree,
            TreeEvent::CreateElement(a, pipeline_id),
        ) == discovery(tree, TreeEvent::CreateElement(b, pipeline_id)),
{
    law_start_tag(tree, a, pipeline_id);
    law_start_tag(tree, b, pipeline_id);
}

/// The end of a script can be taken exactly while the page is loading, for an
/// element of the page that has a `src` that leads somewhere, or that has none and
/// holds nothing but text. It discovers the script where the `src` leads, or the
/// text of the children, one after the other, as a script of the page; and it
/// changes nothing.
pub proof fn law_script_ends(tree: TreeView, ptr: NodeDataPtr)
    ensures
        ({
            let event = TreeEvent::CompleteScript(ptr);
            let node = tree.dom.nodes[ptr - 1];
            let src = attr_value(node.data->Element_0.attrs, "src"@);
            &&& possible(tree, event) <==> {
                &&& tree.phase == ParsePhase::Loading
                &&& 1 <= ptr <= tree.dom.nodes.len()
                &&& node.data is Element
                &&& match src {
                    Some(text) => joined_url(tree.url, text) is Some,
                    None => forall|c: AbstractNode| #[trigger]
                        node.children.contains(c) ==> 1 <= c.obj <= tree.dom.nodes.len()
                            && tree.dom.nodes[c.obj - 1].data is Text,
                }
            }
            &&& possible(tree, event) ==> discovery(tree, event) == Some(
                Discovery::Js(
                    match src {
                        Some(text) => JSMessageView::JSTaskNewFile(joined_url(tree.url, text)->0),
                        None => JSMessageView::JSTaskNewInlineScript(
                            node.children.map_values(
                                |c: AbstractNode| tree.dom.nodes[c.obj - 1].data->Text_0,
                            ).flatten(),
                            tree.url,
                        ),
                    },
                ),
            )
            &&& after_event(tree, event) == tree
        }),
{
    law_script(tree, AbstractNode { obj: ptr });
    law_handles(tree.dom, AbstractNode { obj: ptr }, ptr);
}

/// The end of a style sheet that stands in the page can be taken exactly while
/// the page is loading, for a node of the page that holds nothing but text. It
/// discovers that text, the text of the children one after the other, as a sheet
/// whose references start from the same place in every page; and it changes
/// nothing.
pub proof fn law_style_ends(tree: TreeView, ptr: NodeDataPtr)
    ensures
        ({
            let event = TreeEvent::CompleteStyle(ptr);
            let node = tree.dom.nodes[ptr - 1];
            &&& possible(tree, event) <==> {
                &&& tree.phase == ParsePhase::Loading
                &&& 1 <= ptr <= tree.dom.nodes.len()
                &&& forall|c: AbstractNode| #[trigger]
                    node.children.contains(c) ==> 1 <= c.obj <= tree.dom.nodes.len()
                        && tree.dom.nodes[c.obj - 1].data is Text
            }
            &&& discovery(tree, event) == Some(
                Discovery::Css(
                    CSSMessageView::CSSTaskNewFile(
                        StylesheetProvenanceView::InlineProvenance(
                            "http://example.com/"@,
                            node.children.map_values(
                                |c: AbstractNode| tree.dom.nodes[c.obj - 1].data->Text_0,
                            ).flatten(),
                        ),
                    ),
                ),
            )
            &&& after_event(tree, event) == tree
        }),
{
    law_what_nodes_are(tree.dom, AbstractNode { obj: ptr }, AbstractNode { obj: ptr });
    law_inner_text(tree.dom, AbstractNode { obj: ptr });
}

/// A comment, a document type or a text can be made exactly while the page is
/// loading and one more node can be numbered. The node that it adds is just that,
/// all else stays as it is, and nothing is discovered.
pub proof fn law_other_nodes_enter(tree: TreeView, event: TreeEvent)
    requires
        event is CreateComment || event is CreateDoctype || event is CreateText,
    ensures
        ({
            let post = after_event(tree, event);
            &&& possible(tree, event) <==> tree.phase == ParsePhase::Loading
                && tree.dom.nodes.len() < usize::MAX
            &&& discovery(tree, event) is None
            &&& post.url == tree.url
            &&& post.next_subpage_id == tree.next_subpage_id
            &&& post.phase == tree.phase
            &&& post.dom.nodes.len() == tree.dom.nodes.len() + 1
            &&& post.dom.nodes.drop_last() == tree.dom.nodes
            &&& post.dom.nodes.last().parent is None
            &&& post.dom.nodes.last().children.len() == 0
            &&& match event {
                TreeEvent::CreateComment(data) => post.dom.nodes.last().data
                    == NodeDataView::Comment(data),
                TreeEvent::CreateDoctype(doctype) => post.dom.nodes.last().data
                    == NodeDataView::Doctype(doctype),
                TreeEvent::CreateText(data) => post.dom.nodes.last().data == NodeDataView::Text(
                    data,
                ),
                _ => true,
            }
        }),
{
    match event {
        TreeEvent::CreateComment(data) => law_node_enters(tree, NodeDataView::Comment(data)),
        TreeEvent::CreateDoctype(doctype) => law_node_enters(
            tree,
            NodeDataView::Doctype(doctype),
        ),
        TreeEvent::CreateText(data) => law_node_enters(tree, NodeDataView::Text(data)),
        _ => {},
    }
}

/// A child can be appended exactly while the page is loading, where both are
/// nodes of the page and the child has no parent. It becomes the last child of
/// its parent, the parent becomes its parent, all else stays as it is, and
/// nothing is discovered.
pub proof fn law_child_is_appended(tree: TreeView, parent: NodeDataPtr, child: NodeDataPtr, i: int)
    ensures
        ({
            let event = TreeEvent::AppendChild(parent, child);
            let post = after_event(tree, event);
            &&& possible(tree, event) <==> {
                &&& tree.phase == ParsePhase::Loading
                &&& 1 <= parent <= tree.dom.nodes.len()
                &&& 1 <= child <= tree.dom.nodes.len()
                &&& tree.dom.nodes[child - 1].parent is None
            }
            &&& discovery(tree, event) is None
            &&& post.url == tree.url
            &&& post.next_subpage_id == tree.next_subpage_id
            &&& post.phase == tree.phase
            &&& possible(tree, event) ==> post.dom.nodes.len() == tree.dom.nodes.len()
            &&& possible(tree, event) && 0 <= i < tree.dom.nodes.len() ==> {
                &&& post.dom.nodes[i].data == tree.dom.nodes[i].data
                &&& post.dom.nodes[i].parent == if i == child - 1 {
                    Some(AbstractNode { obj: parent })
                } else {
                    tree.dom.nodes[i].parent
                }
                &&& post.dom.nodes[i].children == if i == parent - 1 {
                    tree.dom.nodes[i].children.push(AbstractNode { obj: child })
                } else {
                    tree.dom.nodes[i].children
                }
            }
        }),
{
}

/// What the start tag of a script says is what its end discovers, whatever
/// happens in between and whatever other attributes the tag has: the script where
/// its `src` leads, or, without one, the text of the nodes that were appended to
/// it, one after the other.
pub proof fn law_script_from_start_to_end(
    tree: TreeView,
    tag: TagView,
    pipeline_id: PipelineId,
    events: Seq<TreeEvent>,
)
    requires
        tree.wf(),
        possible(tree, TreeEvent::CreateElement(tag, pipeline_id)),
        all_possible(after_event(tree, TreeEvent::CreateElement(tag, pipeline_id)), events),
    ensures
        ({
            let script = (tree.dom.nodes.len() + 1) as usize;
            let last = after_events(
                after_event(tree, TreeEvent::CreateElement(tag, pipeline_id)),
                events,
            );
            let end = TreeEvent::CompleteScript(script);
            possible(last, end) ==> discovery(last, end) == Some(
                Discovery::Js(
                    match last_value(tag.attributes, "src"@) {
                        Some(src) => JSMessageView::JSTaskNewFile(joined_url(tree.url, src)->0),
                        None => JSMessageView::JSTaskNewInlineScript(
                            appended_to(events, AbstractNode { obj: script }).map_values(
                                |c: AbstractNode| last.dom.nodes[c.obj - 1].data->Text_0,
                            ).flatten(),
                            tree.url,
                        ),
                    },
                ),
            )
        }),
{
    let start = TreeEvent::CreateElement(tag, pipeline_id);
    let first = after_event(tree, start);
    let last = after_events(first, events);
    let script = (tree.dom.nodes.len() + 1) as usize;
    let n = AbstractNode { obj: script };
    law_start_tag(tree, tag, pipeline_id);
    lemma_event_keeps_nodes(tree, start, n);
    law_nodes_stay(first, events, n);
    law_script_ends(last, script);
    assert(first.dom.node(n) == first.dom.nodes.last());
    assert(children_of(first, n) =~= Seq::empty());
    assert(children_of(last, n) =~= appended_to(events, n));
    let element = first.dom.nodes.last().data->Element_0;
    assert(attr_value(element.attrs, "src"@) == last_value(tag.attributes, "src"@));
    assert(last.dom.nodes[script - 1].data == first.dom.nodes.last().data);
    assert(last.dom.nodes[script - 1].children == appended_to(events, n));
}

/// A series of events does what its first part does and then, from where that
/// leads, what the rest of it does; one event by itself discovers what it does
/// anywhere.
pub proof fn law_events_in_parts(tree: TreeView, a: Seq<TreeEvent>, b: Seq<TreeEvent>)
    ensures
        after_events(tree, a + b) == after_events(after_events(tree, a), b),
        all_possible(tree, a + b) <==> all_possible(tree, a) && all_possible(
            after_events(tree, a),
            b,
        ),
        discoveries(tree, a + b) == discoveries(tree, a) + discoveries(after_events(tree, a), b),
        b.len() == 1 ==> {
            &&& after_events(tree, b) == after_event(tree, b[0])
            &&& all_possible(tree, b) <==> possible(tree, b[0])
            &&& match discovery(tree, b[0]) {
                Some(d) => discoveries(tree, b) == seq![d],
                None => discoveries(tree, b).len() == 0,
            }
        },
    decreases b.len(),
{
    reveal_with_fuel(after_events, 2);
    reveal_with_fuel(all_possible, 2);
    reveal_with_fuel(discoveries, 2);
    if b.len() == 0 {
        assert(a + b =~= a);
        assert(discoveries(tree, a) + discoveries(after_events(tree, a), b) =~= discoveries(
            tree,
            a,
        ));
    } else {
        law_events_in_parts(tree, a, b.drop_last());
        assert((a + b).drop_last() =~= a + b.drop_last());
        assert((a + b).last() == b.last());
        assert(discoveries(tree, a + b) =~= discoveries(tree, a) + discoveries(
            after_events(tree, a),
            b,
        ));
        if b.len() == 1 {
            assert(b.drop_last() =~= Seq::empty());
            assert(b.last() == b[0]);
            assert(discovery(tree, b[0]) matches Some(d) ==> discoveries(tree, b) =~= seq![d]);
        }
    }
}

/// Each collector hears of the discoveries that are its own, in order, and of no
/// others; the same holds of the sheets and of the frame numbers among them.
pub proof fn law_discoveries_are_sorted_out(a: Seq<Discovery>, b: Seq<Discovery>)
    ensures
        css_sent(a + b) == css_sent(a) + css_sent(b),
        js_sent(a + b) == js_sent(a) + js_sent(b),
        sheets_found(a + b) == sheets_found(a) + sheets_found(b),
        frame_ids(a + b) == frame_ids(a) + frame_ids(b),
        b.len() == 1 ==> match b[0] {
            Discovery::Css(msg) => {
                &&& css_sent(b) == seq![msg]
                &&& js_sent(b).len() == 0
                &&& frame_ids(b).len() == 0
                &&& match msg {
                    CSSMessageView::CSSTaskNewFile(provenance) => sheets_found(b)
                        == seq![provenance],
                    CSSMessageView::CSSTaskExit => sheets_found(b).len() == 0,
                }
            },
            Discovery::Js(msg) => {
                &&& js_sent(b) == seq![msg]
                &&& css_sent(b).len() == 0
                &&& sheets_found(b).len() == 0
                &&& frame_ids(b).len() == 0
            },
            Discovery::Frame { subpage_id, .. } => {
                &&& frame_ids(b) == seq![subpage_id]
                &&& css_sent(b).len() == 0
                &&& js_sent(b).len() == 0
                &&& sheets_found(b).len() == 0
            },
            Discovery::Image(_) => {
                &&& css_sent(b).len() == 0
                &&& js_sent(b).len() == 0
                &&& sheets_found(b).len() == 0
                &&& frame_ids(b).len() == 0
            },
        },
    decreases b.len(),
{
    reveal_with_fuel(css_sent, 2);
    reveal_with_fuel(js_sent, 2);
    reveal_with_fuel(sheets_found, 2);
    reveal_with_fuel(frame_ids, 2);
    if b.len() == 0 {
        assert(a + b =~= a);
    } else {
        law_discoveries_are_sorted_out(a, b.drop_last());
        assert((a + b).drop_last() =~= a + b.drop_last());
        assert((a + b).last() == b.last());
        if b.len() == 1 {
            assert(b.drop_last() =~= Seq::empty());
            assert(b.last() == b[0]);
        }
    }
    assert(css_sent(a + b) =~= css_sent(a) + css_sent(b));
    assert(js_sent(a + b) =~= js_sent(a) + js_sent(b));
    assert(sheets_found(a + b) =~= sheets_found(a) + sheets_found(b));
    assert(frame_ids(a + b) =~= frame_ids(a) + frame_ids(b));
}

} // verus!
