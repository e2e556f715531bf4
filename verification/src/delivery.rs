//! What arrives at the page, and in which order: the parser and the two
//! collectors run side by side, and hear of each other only through queues.

use vstd::prelude::*;

use crate::css::{
    after_messages as css_after_messages, lemma_ports_kept, requested_sheet, CssLinkListenerView,
    CssPhase,
};
use crate::element::SubpageId;
use crate::messages::{
    CSSMessageView, HtmlDiscoveryMessageView, JSFileView, JSMessageView, ProgressMsgView,
    StylesheetProvenanceView,
};
use crate::page::{page_action, parse_started, HtmlParseView, PageActionView};
use crate::script::{
    after_messages as js_after_messages, after_steps, complete_load, law_load,
    lemma_scripts_so_far, scripts_of, JsActionView, JsScriptListenerView,
};
use crate::trace::{
    after_event, after_events, css_sent, discoveries, discovery, frame_ids, js_sent,
    lemma_css_sent, lemma_js_sent, possible, sheets_found, Discovery, TreeEvent,
};
use crate::tree::{ParsePhase, TreeView};

verus! {

/// What the world around the parser does.
#[verifier::reject_recursive_types(P)]
pub struct World<P, S, F> {
    /// Where the sheet of the n-th side task will arrive.
    pub spawn: spec_fn(nat, StylesheetProvenanceView) -> P,
    /// Which sheet arrives there.
    pub recv: spec_fn(P) -> S,
    /// Where the size of the n-th frame will arrive.
    pub size: spec_fn(nat) -> F,
    /// How the load of the script goes that the n-th message asks for.
    pub load: spec_fn(int, Seq<char>) -> Seq<ProgressMsgView>,
}

impl<P, S, F> World<P, S, F> {
    /// Every load of a script comes to an end.
    pub open spec fn loads_end(self) -> bool {
        forall|i: int, url: Seq<char>| complete_load(#[trigger] (self.load)(i, url))
    }
}

/// The parser of a page, the two collectors, and the queues between them.
pub struct Delivery<S, F, P> {
    pub parse: HtmlParseView,
    /// The events that the tree handler has taken.
    pub events: Seq<TreeEvent>,
    pub css: CssLinkListenerView<P>,
    /// What the collector of style sheets has heard, and what it is yet to hear.
    pub css_heard: Seq<CSSMessageView>,
    pub css_queue: Seq<CSSMessageView>,
    pub js: JsScriptListenerView,
    /// What the collector of scripts has heard, and what it is yet to hear.
    pub js_heard: Seq<JSMessageView>,
    pub js_queue: Seq<JSMessageView>,
    /// How many steps of the load that the collector waits for have been taken.
    pub js_steps: nat,
    /// All that has been sent to the page, in order.
    pub port: Seq<HtmlDiscoveryMessageView<S, F>>,
}

/// Something that the parser or a collector does next.
pub enum Move {
    /// The parser takes a step in loading the page.
    PageStep(ProgressMsgView),
    /// Hubbub calls the tree handler.
    Tree(TreeEvent),
    /// The collector of style sheets hears the next message.
    CssHear,
    /// It has the sheet parsed that it was told of.
    CssSpawn,
    /// It sends on the next sheet.
    CssSend,
    /// The collector of scripts hears the next message.
    JsHear,
    /// It takes a step of the load that it waits for.
    JsStep,
}

/// The start of the parse of the page at `url`.
pub open spec fn delivery_started<S, F, P>(
    url: Seq<char>,
    next_subpage_id: SubpageId,
) -> Delivery<S, F, P> {
    Delivery {
        parse: parse_started(url, next_subpage_id),
        events: Seq::empty(),
        css: CssLinkListenerView::new(),
        css_heard: Seq::empty(),
        css_queue: Seq::empty(),
        js: JsScriptListenerView::new(),
        js_heard: Seq::empty(),
        js_queue: Seq::empty(),
        js_steps: 0,
        port: Seq::empty(),
    }
}

impl<S, F, P> Delivery<S, F, P> {
    /// The steps of the load that the collector of scripts waits for.
    pub open spec fn current_load(self, world: World<P, S, F>) -> Seq<ProgressMsgView> {
        (world.load)(self.js_heard.len() - 1, self.js.loading->0.url)
    }

    /// Whether a move is open now. The parser takes load steps, and hubbub calls
    /// the tree handler, only as long as the page is loading.
    pub open spec fn can(self, world: World<P, S, F>, m: Move) -> bool {
        match m {
            Move::PageStep(_) => self.parse.handler.is_open(),
            Move::Tree(event) => possible(self.parse.handler, event),
            Move::CssHear => self.css.phase == CssPhase::Listening && self.css_queue.len() > 0,
            Move::CssSpawn => self.css.phase == CssPhase::Spawning && self.css.result_vec.len()
                < usize::MAX,
            Move::CssSend => self.css.next_port() is Some,
            Move::JsHear => self.js.listening() && self.js_queue.len() > 0,
            Move::JsStep => self.js.loading is Some && self.js_steps < self.current_load(
                world,
            ).len(),
        }
    }

    /// How things stand after a move.
    pub open spec fn after(self, world: World<P, S, F>, m: Move) -> Self {
        match m {
            Move::PageStep(step) => {
                let stepped = Delivery { parse: self.parse.stepped(step), ..self };
                match page_action(self.parse.handler.url, step) {
                    PageActionView::Finish(css, js) => Delivery {
                        css_queue: self.css_queue.push(css),
                        js_queue: self.js_queue.push(js),
                        ..stepped
                    },
                    _ => stepped,
                }
            },
            Move::Tree(event) => {
                let taken = Delivery {
                    parse: HtmlParseView {
                        handler: after_event(self.parse.handler, event),
                        ..self.parse
                    },
                    events: self.events.push(event),
                    ..self
                };
                match discovery(self.parse.handler, event) {
                    Some(Discovery::Css(msg)) => Delivery {
                        css_queue: self.css_queue.push(msg),
                        ..taken
                    },
                    Some(Discovery::Js(msg)) => Delivery {
                        js_queue: self.js_queue.push(msg),
                        ..taken
                    },
                    Some(Discovery::Frame { url, subpage_id, sandboxed }) => Delivery {
                        port: self.port.push(
                            HtmlDiscoveryMessageView::HtmlDiscoveredIFrame(
                                (url, subpage_id, (world.size)(self.port.len()), sandboxed),
                            ),
                        ),
                        ..taken
                    },
                    _ => taken,
                }
            },
            Move::CssHear => Delivery {
                css: self.css.heard(self.css_queue[0]),
                css_heard: self.css_heard.push(self.css_queue[0]),
                css_queue: self.css_queue.drop_first(),
                ..self
            },
            Move::CssSpawn => Delivery {
                css: self.css.spawned(
                    (world.spawn)(
                        self.css.result_vec.len(),
                        requested_sheet(self.css_heard.last())->0,
                    ),
                ),
                ..self
            },
            Move::CssSend => Delivery {
                css: self.css.sent(),
                port: self.port.push(
                    HtmlDiscoveryMessageView::HtmlDiscoveredStyle(
                        (world.recv)(self.css.next_port()->0),
                    ),
                ),
                ..self
            },
            Move::JsHear => Delivery {
                js: self.js.heard(self.js_queue[0]),
                js_heard: self.js_heard.push(self.js_queue[0]),
                js_queue: self.js_queue.drop_first(),
                js_steps: 0,
                port: match self.js.action::<S, F>(self.js_queue[0]) {
                    JsActionView::Send(message) => self.port.push(message),
                    _ => self.port,
                },
                ..self
            },
            Move::JsStep => Delivery {
                js: self.js.progressed(self.current_load(world)[self.js_steps as int]),
                js_steps: self.js_steps + 1,
                ..self
            },
        }
    }

    /// How things stand after a series of moves.
    pub open spec fn after_all(self, world: World<P, S, F>, moves: Seq<Move>) -> Self
        decreases moves.len(),
    {
        if moves.len() == 0 {
            self
        } else {
            self.after_all(world, moves.drop_last()).after(world, moves.last())
        }
    }

    /// Whether a series of moves is open.
    pub open spec fn can_all(self, world: World<P, S, F>, moves: Seq<Move>) -> bool
        decreases moves.len(),
    {
        moves.len() == 0 || (self.can_all(world, moves.drop_last()) && self.after_all(
            world,
            moves.drop_last(),
        ).can(world, moves.last()))
    }

    /// Whether the page was loaded and both collectors are through.
    pub open spec fn is_done(self) -> bool {
        &&& self.parse.handler.phase == ParsePhase::Finished
        &&& self.css.phase is Collecting
        &&& self.css.next_port() is None
        &&& self.js.finished
    }
}

/// The messages about the frames among some discoveries.
pub open spec fn frame_messages<S, F>(found: Seq<Discovery>, size: spec_fn(nat) -> F) -> Seq<
    HtmlDiscoveryMessageView<S, F>,
>
    decreases found.len(),
{
    if found.len() == 0 {
        Seq::empty()
    } else {
        let before = frame_messages::<S, F>(found.drop_last(), size);
        match found.last() {
            Discovery::Frame { url, subpage_id, sandboxed } => before.push(
                HtmlDiscoveryMessageView::HtmlDiscoveredIFrame(
                    (url, subpage_id, size(before.len()), sandboxed),
                ),
            ),
            _ => before,
        }
    }
}

/// The sheets in some messages, in order.
pub open spec fn sheets_in<S, F>(messages: Seq<HtmlDiscoveryMessageView<S, F>>) -> Seq<S>
    decreases messages.len(),
{
    if messages.len() == 0 {
        Seq::empty()
    } else {
        let before = sheets_in(messages.drop_last());
        match messages.last() {
            HtmlDiscoveryMessageView::HtmlDiscoveredStyle(sheet) => before.push(sheet),
            _ => before,
        }
    }
}

/// The lists of scripts in some messages, in order.
pub open spec fn script_lists_in<S, F>(messages: Seq<HtmlDiscoveryMessageView<S, F>>) -> Seq<
    Seq<JSFileView>,
>
    decreases messages.len(),
{
    if messages.len() == 0 {
        Seq::empty()
    } else {
        let before = script_lists_in(messages.drop_last());
        match messages.last() {
            HtmlDiscoveryMessageView::HtmlDiscoveredScript(files) => before.push(files),
            _ => before,
        }
    }
}

/// Whether none of some messages is about a frame.
pub open spec fn no_frames<S, F>(messages: Seq<HtmlDiscoveryMessageView<S, F>>) -> bool {
    forall|i: int| 0 <= i < messages.len() ==> (#[trigger] messages[i]) !is HtmlDiscoveredIFrame
}

/// How many sheets a collector has sent on.
pub open spec fn sent_count<P>(css: CssLinkListenerView<P>) -> nat {
    match css.phase {
        CssPhase::Collecting(sent) => sent as nat,
        _ => 0,
    }
}

/// The collector of style sheets stands where what it has heard leads to.
spec fn css_in_step<S, F, P>(d: Delivery<S, F, P>, world: World<P, S, F>) -> bool {
    let new = CssLinkListenerView::<P>::new();
    &&& d.css.result_vec.len() <= usize::MAX
    &&& match d.css.phase {
        CssPhase::Listening => d.css == css_after_messages(new, d.css_heard, world.spawn),
        CssPhase::Spawning => {
            &&& d.css_heard.len() > 0
            &&& d.css_heard.last() is CSSTaskNewFile
            &&& d.css == css_after_messages(new, d.css_heard.drop_last(), world.spawn).heard(
                d.css_heard.last(),
            )
        },
        CssPhase::Collecting(sent) => {
            &&& d.css_heard.len() > 0
            &&& d.css_heard.last() is CSSTaskExit
            &&& d.css.result_vec == css_after_messages(
                new,
                d.css_heard.drop_last(),
                world.spawn,
            ).result_vec
            &&& sent <= d.css.result_vec.len()
        },
    }
}

/// The collector of scripts stands where what it has heard, and the steps of the
/// load that it waits for, lead to.
spec fn js_in_step<S, F, P>(d: Delivery<S, F, P>, world: World<P, S, F>) -> bool {
    let new = JsScriptListenerView::new();
    if d.js.finished {
        d.js_heard.len() > 0 && d.js_heard.last() is JSTaskExit && d.js.loading is None
    } else if d.js.loading is Some {
        let steps = d.current_load(world);
        &&& d.js_heard.len() > 0
        &&& d.js_heard.last() == JSMessageView::JSTaskNewFile(d.js.loading->0.url)
        &&& d.js_steps < steps.len()
        &&& d.js == after_steps(
            js_after_messages(new, d.js_heard.drop_last(), world.load).heard(d.js_heard.last()),
            steps.take(d.js_steps as int),
        )
    } else {
        d.js == js_after_messages(new, d.js_heard, world.load)
    }
}

/// What has been sent to the page: first all frames that were found, then no
/// frame any more, but the sheets that were sent on and, once the scripts have
/// been handed over, the list of them.
spec fn port_in_step<S, F, P>(
    d: Delivery<S, F, P>,
    world: World<P, S, F>,
    found: Seq<Discovery>,
) -> bool {
    let frames = frame_messages::<S, F>(found, world.size);
    let rest = d.port.skip(frames.len() as int);
    &&& frames.len() <= d.port.len()
    &&& d.port.take(frames.len() as int) == frames
    &&& d.parse.handler.is_open() ==> d.port.len() == frames.len()
    &&& no_frames(rest)
    &&& sheets_in(rest) == Seq::new(
        sent_count(d.css),
        |i: int| (world.recv)(d.css.result_vec[i]),
    )
    &&& script_lists_in(rest) == if d.js.finished {
        seq![scripts_of(d.js_heard.drop_last(), world.load)]
    } else {
        Seq::empty()
    }
}

/// What holds at all times.
spec fn in_step<S, F, P>(d: Delivery<S, F, P>, world: World<P, S, F>, start: TreeView) -> bool {
    let found = discoveries(start, d.events);
    let tree = after_events(start, d.events);
    let told = d.parse.handler.phase == ParsePhase::Finished;
    &&& tree.is_open()
    &&& d.parse.handler == (TreeView { phase: d.parse.handler.phase, ..tree })
    &&& d.css_heard + d.css_queue == if told {
        css_sent(found).push(CSSMessageView::CSSTaskExit)
    } else {
        css_sent(found)
    }
    &&& d.js_heard + d.js_queue == if told {
        js_sent(found).push(JSMessageView::JSTaskExit)
    } else {
        js_sent(found)
    }
    &&& css_in_step(d, world)
    &&& js_in_step(d, world)
    &&& port_in_step(d, world, found)
}

/// The collector of style sheets hears of sheets, and last of the end; when it
/// has heard of the end, it has heard everything.
proof fn lemma_css_heard<S, F, P>(d: Delivery<S, F, P>, world: World<P, S, F>, start: TreeView)
    requires
        in_step(d, world, start),
    ensures
        d.css_heard.len() > 0 && d.css_heard.last() is CSSTaskExit ==> {
            &&& d.parse.handler.phase == ParsePhase::Finished
            &&& d.css_queue.len() == 0
            &&& d.css_heard.drop_last() == css_sent(discoveries(start, d.events))
        },
{
    let found = discoveries(start, d.events);
    lemma_css_sent(start, d.events);
    if d.css_heard.len() > 0 && d.css_heard.last() is CSSTaskExit {
        let all = d.css_heard + d.css_queue;
        let i = d.css_heard.len() - 1;
        assert(all.len() == d.css_heard.len() + d.css_queue.len());
        assert(all[i] == d.css_heard.last());
        if i < css_sent(found).len() {
            assert(all[i] == css_sent(found)[i]);
            assert(css_sent(found)[i] is CSSTaskNewFile);
        }
        assert(d.css_queue.len() == 0);
        assert(d.css_heard.drop_last() =~= css_sent(found)) by {
            assert(all.drop_last() =~= css_sent(found));
            assert(all =~= d.css_heard);
        }
    }
}

/// The collector of scripts hears of scripts, and last of the end; when it has
/// heard of the end, it has heard everything.
proof fn lemma_js_heard<S, F, P>(d: Delivery<S, F, P>, world: World<P, S, F>, start: TreeView)
    requires
        in_step(d, world, start),
    ensures
        forall|i: int|
            0 <= i < d.js_heard.len() - 1 ==> (#[trigger] d.js_heard[i]) !is JSTaskExit,
        d.js_heard.len() > 0 && d.js_heard.last() is JSTaskExit ==> {
            &&& d.parse.handler.phase == ParsePhase::Finished
            &&& d.js_queue.len() == 0
            &&& d.js_heard.drop_last() == js_sent(discoveries(start, d.events))
        },
{
    let sent = js_sent(discoveries(start, d.events));
    let all = d.js_heard + d.js_queue;
    lemma_js_sent(start, d.events);
    assert(all.len() == d.js_heard.len() + d.js_queue.len());
    assert forall|i: int| 0 <= i < d.js_heard.len() - 1 implies (
    #[trigger] d.js_heard[i]) !is JSTaskExit by {
        assert(all[i] == d.js_heard[i]);
        assert(all[i] == sent[i]);
    }
    if d.js_heard.len() > 0 && d.js_heard.last() is JSTaskExit {
        let i = d.js_heard.len() - 1;
        assert(all[i] == d.js_heard.last());
        if i < sent.len() {
            assert(all[i] == sent[i]);
        }
        assert(d.js_queue.len() == 0);
        assert(d.js_heard.drop_last() =~= sent) by {
            assert(all.drop_last() =~= sent);
            assert(all =~= d.js_heard);
        }
    }
}

/// A message that is not about a frame, sent once the page has been loaded,
/// comes after all frames.
proof fn lemma_rest_grows<S, F>(
    port: Seq<HtmlDiscoveryMessageView<S, F>>,
    frames: nat,
    message: HtmlDiscoveryMessageView<S, F>,
)
    requires
        frames <= port.len(),
        no_frames(port.skip(frames as int)),
        message !is HtmlDiscoveredIFrame,
    ensures
        port.push(message).take(frames as int) == port.take(frames as int),
        port.push(message).skip(frames as int) == port.skip(frames as int).push(message),
        no_frames(port.push(message).skip(frames as int)),
        port.skip(frames as int).push(message).drop_last() == port.skip(frames as int),
{
    let rest = port.skip(frames as int);
    assert(port.push(message).take(frames as int) =~= port.take(frames as int));
    assert(port.push(message).skip(frames as int) =~= rest.push(message));
    assert(rest.push(message).drop_last() =~= rest);
    assert forall|i: int| 0 <= i < rest.push(message).len() implies (
    #[trigger] rest.push(message)[i]) !is HtmlDiscoveredIFrame by {
        if i < rest.len() {
            assert(rest[i] !is HtmlDiscoveredIFrame);
        }
    }
}

/// A load step of the page keeps everything in step.
proof fn lemma_page_step<S, F, P>(
    d: Delivery<S, F, P>,
    world: World<P, S, F>,
    start: TreeView,
    step: ProgressMsgView,
)
    requires
        in_step(d, world, start),
        d.can(world, Move::PageStep(step)),
    ensures
        in_step(d.after(world, Move::PageStep(step)), world, start),
{
    let post = d.after(world, Move::PageStep(step));
    let found = discoveries(start, d.events);
    if post.parse.handler.phase == ParsePhase::Finished {
        assert(post.css_heard + post.css_queue =~= css_sent(found).push(
            CSSMessageView::CSSTaskExit,
        ));
        assert(post.js_heard + post.js_queue =~= js_sent(found).push(JSMessageView::JSTaskExit));
    }
}

/// A call of hubbub keeps everything in step.
proof fn lemma_tree_event<S, F, P>(
    d: Delivery<S, F, P>,
    world: World<P, S, F>,
    start: TreeView,
    event: TreeEvent,
)
    requires
        in_step(d, world, start),
        d.can(world, Move::Tree(event)),
    ensures
        in_step(d.after(world, Move::Tree(event)), world, start),
{
    let post = d.after(world, Move::Tree(event));
    let found = discoveries(start, d.events);
    let frames = frame_messages::<S, F>(found, world.size);
    assert(d.events.push(event).drop_last() =~= d.events);
    assert(d.parse.handler == after_events(start, d.events));
    assert(d.port.take(frames.len() as int) =~= d.port);
    match discovery(d.parse.handler, event) {
        Some(x) => {
            assert(found.push(x).drop_last() =~= found);
            assert(post.css_heard + post.css_queue =~= css_sent(found.push(x)));
            assert(post.js_heard + post.js_queue =~= js_sent(found.push(x)));
        },
        None => {},
    }
    let after = frame_messages::<S, F>(discoveries(start, post.events), world.size);
    assert(post.port =~= after);
    assert(post.port.take(after.len() as int) =~= after);
    assert(post.port.skip(after.len() as int) =~= d.port.skip(frames.len() as int));
}

/// A move of the collector of style sheets keeps everything in step.
proof fn lemma_css_move<S, F, P>(
    d: Delivery<S, F, P>,
    world: World<P, S, F>,
    start: TreeView,
    m: Move,
)
    requires
        in_step(d, world, start),
        d.can(world, m),
        m is CssHear || m is CssSpawn || m is CssSend,
    ensures
        in_step(d.after(world, m), world, start),
{
    let post = d.after(world, m);
    let found = discoveries(start, d.events);
    let frames = frame_messages::<S, F>(found, world.size);
    let rest = d.port.skip(frames.len() as int);
    let post_rest = post.port.skip(frames.len() as int);
    match m {
        Move::CssHear => {
            assert(post.css_heard + post.css_queue =~= d.css_heard + d.css_queue);
            assert(post.css_heard.drop_last() =~= d.css_heard);
        },
        Move::CssSend => {
            let sent = sent_count(d.css);
            lemma_css_heard(d, world, start);
            lemma_rest_grows(d.port, frames.len(), post.port.last());
            assert(sheets_in(post_rest) =~= Seq::new(
                sent + 1,
                |i: int| (world.recv)(d.css.result_vec[i]),
            ));
        },
        _ => {},
    }
    assert(sheets_in(post_rest) =~= Seq::new(
        sent_count(post.css),
        |i: int| (world.recv)(post.css.result_vec[i]),
    ));
}

/// A move of the collector of scripts keeps everything in step.
proof fn lemma_js_move<S, F, P>(
    d: Delivery<S, F, P>,
    world: World<P, S, F>,
    start: TreeView,
    m: Move,
)
    requires
        in_step(d, world, start),
        world.loads_end(),
        d.can(world, m),
        m is JsHear || m is JsStep,
    ensures
        in_step(d.after(world, m), world, start),
{
    let post = d.after(world, m);
    let found = discoveries(start, d.events);
    let frames = frame_messages::<S, F>(found, world.size);
    let new = JsScriptListenerView::new();
    if m is JsHear {
        let msg = d.js_queue[0];
        assert(post.js_heard + post.js_queue =~= d.js_heard + d.js_queue);
        assert(post.js_heard.drop_last() =~= d.js_heard);
        match msg {
            JSMessageView::JSTaskNewFile(url) => {
                assert(complete_load((world.load)(post.js_heard.len() - 1, url)));
                assert(post.current_load(world).take(0) =~= Seq::empty());
            },
            JSMessageView::JSTaskNewInlineScript(_, _) => {},
            JSMessageView::JSTaskExit => {
                let sent = js_sent(found);
                let all = d.js_heard + d.js_queue;
                let i = d.js_heard.len() as int;
                assert(all.len() == d.js_heard.len() + d.js_queue.len());
                assert(all[i] == msg);
                lemma_js_sent(start, d.events);
                if i < sent.len() {
                    assert(all[i] == sent[i]);
                }
                assert(d.js_heard =~= sent);
                lemma_scripts_so_far(d.js_heard, world.load);
                lemma_rest_grows(d.port, frames.len(), post.port.last());
            },
        }
    } else {
        let steps = d.current_load(world);
        let k = d.js_steps as int;
        let url = d.js.loading->0.url;
        let before = d.js_heard.drop_last();
        let listener = js_after_messages(new, before, world.load);
        lemma_js_heard(d, world, start);
        assert forall|i: int| 0 <= i < before.len() implies (
        #[trigger] before[i]) !is JSTaskExit by {
            assert(before[i] == d.js_heard[i]);
        }
        lemma_scripts_so_far(before, world.load);
        assert(complete_load((world.load)(d.js_heard.len() - 1, url)));
        law_load(listener, url, steps);
        assert(steps.take(k + 1).drop_last() =~= steps.take(k));
        if k + 1 < steps.len() {
            assert(steps[k] is Payload);
        } else {
            assert(steps.take(k + 1) =~= steps);
        }
    }
}

/// Everything stays in step.
proof fn lemma_in_step<S, F, P>(
    world: World<P, S, F>,
    url: Seq<char>,
    next_subpage_id: SubpageId,
    moves: Seq<Move>,
)
    requires
        world.loads_end(),
        delivery_started::<S, F, P>(url, next_subpage_id).can_all(world, moves),
    ensures
        in_step(
            delivery_started::<S, F, P>(url, next_subpage_id).after_all(world, moves),
            world,
            parse_started(url, next_subpage_id).handler,
        ),
    decreases moves.len(),
{
    let first = delivery_started::<S, F, P>(url, next_subpage_id);
    let start = parse_started(url, next_subpage_id).handler;
    if moves.len() == 0 {
        assert(first.css_heard + first.css_queue =~= Seq::empty());
        assert(first.js_heard + first.js_queue =~= Seq::empty());
        assert(first.port.take(0) =~= Seq::empty());
        assert(first.port.skip(0) =~= Seq::empty());
        assert(sheets_in(first.port) =~= Seq::new(
            0,
            |i: int| (world.recv)(first.css.result_vec[i]),
        ));
    } else {
        let d = first.after_all(world, moves.drop_last());
        lemma_in_step(world, url, next_subpage_id, moves.drop_last());
        match moves.last() {
            Move::PageStep(step) => lemma_page_step(d, world, start, step),
            Move::Tree(event) => lemma_tree_event(d, world, start, event),
            Move::JsHear | Move::JsStep => lemma_js_move(d, world, start, moves.last()),
            _ => lemma_css_move(d, world, start, moves.last()),
        }
    }
}

/// Once the load of the page has come to its end, no more steps of it are taken
/// and hubbub calls the tree handler no more, so nothing more is found: no frame,
/// no style sheet, no script.
pub proof fn law_nothing_found_after_the_load<S, F, P>(
    d: Delivery<S, F, P>,
    world: World<P, S, F>,
    moves: Seq<Move>,
    n: int,
)
    requires
        d.can_all(world, moves),
        0 <= n <= moves.len(),
        !d.after_all(world, moves.take(n)).parse.handler.is_open(),
    ensures
        d.after_all(world, moves).parse == d.after_all(world, moves.take(n)).parse,
        d.after_all(world, moves).events == d.after_all(world, moves.take(n)).events,
        forall|i: int|
            n <= i < moves.len() ==> (#[trigger] moves[i]) !is PageStep && moves[i] !is Tree,
    decreases moves.len(),
{
    if n == moves.len() {
        assert(moves.take(n) =~= moves);
    } else {
        let rest = moves.drop_last();
        assert(rest.take(n) =~= moves.take(n));
        law_nothing_found_after_the_load(d, world, rest, n);
        assert forall|i: int| n <= i < moves.len() implies (#[trigger] moves[i]) !is PageStep
            && moves[i] !is Tree by {
            if i < rest.len() {
                assert(rest[i] == moves[i]);
            }
        }
    }
}

/// There is one message for each frame that was found, in the same order, and
/// it gives the number of that frame.
proof fn lemma_frame_messages<S, F>(found: Seq<Discovery>, size: spec_fn(nat) -> F)
    ensures
        ({
            let frames = frame_messages::<S, F>(found, size);
            let ids = frame_ids(found);
            &&& frames.len() == ids.len()
            &&& forall|i: int|
                0 <= i < ids.len() ==> {
                    &&& (#[trigger] frames[i]) is HtmlDiscoveredIFrame
                    &&& frames[i]->HtmlDiscoveredIFrame_0.1 == ids[i]
                }
        }),
    decreases found.len(),
{
    if found.len() != 0 {
        lemma_frame_messages::<S, F>(found.drop_last(), size);
    }
}

/// Messages about frames that come first hold no sheets and no scripts.
proof fn lemma_skip_frames<S, F>(port: Seq<HtmlDiscoveryMessageView<S, F>>, frames: nat)
    requires
        frames <= port.len(),
        forall|i: int| 0 <= i < frames ==> (#[trigger] port[i]) is HtmlDiscoveredIFrame,
        no_frames(port.skip(frames as int)),
    ensures
        sheets_in(port) == sheets_in(port.skip(frames as int)),
        script_lists_in(port) == script_lists_in(port.skip(frames as int)),
        port.len() == frames + sheets_in(port).len() + script_lists_in(port).len(),
    decreases port.len(),
{
    let rest = port.skip(frames as int);
    if port.len() == 0 {
        assert(rest =~= port);
    } else {
        let before = port.drop_last();
        if frames == port.len() {
            assert(port[frames - 1] is HtmlDiscoveredIFrame);
            assert(before.skip(frames - 1) =~= rest);
            lemma_skip_frames(before, (frames - 1) as nat);
        } else {
            assert(rest.last() == port.last());
            assert(rest[rest.len() - 1] !is HtmlDiscoveredIFrame);
            assert(before.skip(frames as int) =~= rest.drop_last());
            assert forall|i: int| 0 <= i < rest.drop_last().len() implies (
            #[trigger] rest.drop_last()[i]) !is HtmlDiscoveredIFrame by {
                assert(rest[i] !is HtmlDiscoveredIFrame);
            }
            lemma_skip_frames(before, frames);
        }
    }
}

/// The page hears of all its frames before it gets the first style sheet or the
/// scripts: what has been sent to it starts with one message for each frame that
/// was found, in order, and no message about a frame comes after any other. As
/// long as the page is loading, nothing else is sent; the scripts are sent at
/// most once.
pub proof fn law_frames_come_first<S, F, P>(
    world: World<P, S, F>,
    url: Seq<char>,
    next_subpage_id: SubpageId,
    moves: Seq<Move>,
)
    requires
        world.loads_end(),
        delivery_started::<S, F, P>(url, next_subpage_id).can_all(world, moves),
    ensures
        ({
            let d = delivery_started::<S, F, P>(url, next_subpage_id).after_all(world, moves);
            let found = discoveries(parse_started(url, next_subpage_id).handler, d.events);
            let frames = frame_messages::<S, F>(found, world.size);
            &&& frames.len() == frame_ids(found).len()
            &&& frames.len() <= d.port.len()
            &&& d.port.take(frames.len() as int) == frames
            &&& d.parse.handler.is_open() ==> d.port == frames
            &&& forall|i: int, j: int|
                #![trigger d.port[i], d.port[j]]
                0 <= i < j < d.port.len() && d.port[j] is HtmlDiscoveredIFrame
                    ==> d.port[i] is HtmlDiscoveredIFrame
            &&& script_lists_in(d.port).len() <= 1
        }),
{
    let d = delivery_started::<S, F, P>(url, next_subpage_id).after_all(world, moves);
    let found = discoveries(parse_started(url, next_subpage_id).handler, d.events);
    let frames = frame_messages::<S, F>(found, world.size);
    let n = frames.len();
    lemma_in_step(world, url, next_subpage_id, moves);
    lemma_frame_messages::<S, F>(found, world.size);
    assert forall|i: int| 0 <= i < n implies (
    #[trigger] d.port[i]) is HtmlDiscoveredIFrame by {
        assert(d.port.take(n as int)[i] == frames[i]);
    }
    assert forall|i: int| n <= i < d.port.len() implies (
    #[trigger] d.port[i]) !is HtmlDiscoveredIFrame by {
        assert(d.port.skip(n as int)[i - n] == d.port[i]);
    }
    lemma_skip_frames(d.port, n);
    if d.parse.handler.is_open() {
        assert(d.port.take(n as int) =~= d.port);
    }
}

/// When the page was loaded and both collectors are through, the page has got,
/// and has got nothing but: first one message for each frame that was found, in
/// order; then, mixed in some way, one message for each style sheet that was
/// found, in order, with what parsing that sheet gave, and one message with all
/// scripts, in order, without those that could not be loaded. The one about
/// scripts comes also where there are none.
pub proof fn law_all_delivered<S, F, P>(
    world: World<P, S, F>,
    url: Seq<char>,
    next_subpage_id: SubpageId,
    moves: Seq<Move>,
)
    requires
        world.loads_end(),
        delivery_started::<S, F, P>(url, next_subpage_id).can_all(world, moves),
        delivery_started::<S, F, P>(url, next_subpage_id).after_all(world, moves).is_done(),
    ensures
        ({
            let d = delivery_started::<S, F, P>(url, next_subpage_id).after_all(world, moves);
            let found = discoveries(parse_started(url, next_subpage_id).handler, d.events);
            let frames = frame_messages::<S, F>(found, world.size);
            let sheets = sheets_found(found);
            &&& d.port.len() == frames.len() + sheets.len() + 1
            &&& d.port.take(frames.len() as int) == frames
            &&& no_frames(d.port.skip(frames.len() as int))
            &&& sheets_in(d.port) == Seq::new(
                sheets.len(),
                |i: int| (world.recv)((world.spawn)(i as nat, sheets[i])),
            )
            &&& script_lists_in(d.port) == seq![scripts_of(js_sent(found), world.load)]
        }),
{
    let d = delivery_started::<S, F, P>(url, next_subpage_id).after_all(world, moves);
    let start = parse_started(url, next_subpage_id).handler;
    let found = discoveries(start, d.events);
    let frames = frame_messages::<S, F>(found, world.size);
    let sheets = sheets_found(found);
    lemma_in_step(world, url, next_subpage_id, moves);
    lemma_css_heard(d, world, start);
    lemma_js_heard(d, world, start);
    lemma_css_sent(start, d.events);
    lemma_ports_kept(sheets, world.spawn);
    lemma_frame_messages::<S, F>(found, world.size);
    assert forall|i: int| 0 <= i < frames.len() implies (
    #[trigger] d.port[i]) is HtmlDiscoveredIFrame by {
        assert(d.port.take(frames.len() as int)[i] == frames[i]);
    }
    lemma_skip_frames(d.port, frames.len());
    assert(sheets_in(d.port) =~= Seq::new(
        sheets.len(),
        |i: int| (world.recv)((world.spawn)(i as nat, sheets[i])),
    ));
}

/// Once the page has been loaded, a collector that is not through can go on.
pub proof fn law_no_standstill<S, F, P>(
    world: World<P, S, F>,
    url: Seq<char>,
    next_subpage_id: SubpageId,
    moves: Seq<Move>,
)
    requires
        world.loads_end(),
        delivery_started::<S, F, P>(url, next_subpage_id).can_all(world, moves),
        ({
            let d = delivery_started::<S, F, P>(url, next_subpage_id).after_all(world, moves);
            let found = discoveries(parse_started(url, next_subpage_id).handler, d.events);
            &&& d.parse.handler.phase == ParsePhase::Finished
            &&& !d.is_done()
            &&& sheets_found(found).len() <= usize::MAX
        }),
    ensures
        exists|m: Move|
            #[trigger] delivery_started::<S, F, P>(url, next_subpage_id).after_all(
                world,
                moves,
            ).can(world, m),
{
    let d = delivery_started::<S, F, P>(url, next_subpage_id).after_all(world, moves);
    let start = parse_started(url, next_subpage_id).handler;
    let found = discoveries(start, d.events);
    let sheets = sheets_found(found);
    lemma_in_step(world, url, next_subpage_id, moves);
    lemma_css_sent(start, d.events);
    let css_all = d.css_heard + d.css_queue;
    let js_all = d.js_heard + d.js_queue;
    assert(css_all.len() == d.css_heard.len() + d.css_queue.len());
    assert(js_all.len() == d.js_heard.len() + d.js_queue.len());
    match d.css.phase {
        CssPhase::Listening => {
            if d.css_queue.len() == 0 {
                assert(css_all =~= d.css_heard);
                assert(css_all.last() is CSSTaskExit);
            }
            assert(d.can(world, Move::CssHear));
        },
        CssPhase::Spawning => {
            let k = d.css_heard.len() - 1;
            let before = sheets.take(k);
            assert(css_all[k] == d.css_heard.last());
            assert(k < sheets.len());
            assert(d.css_heard.drop_last() =~= before.map_values(
                |p: StylesheetProvenanceView| CSSMessageView::CSSTaskNewFile(p),
            )) by {
                assert forall|i: int| 0 <= i < k implies d.css_heard.drop_last()[i]
                    == CSSMessageView::CSSTaskNewFile(sheets[i]) by {
                    assert(css_all[i] == d.css_heard[i]);
                }
            }
            lemma_ports_kept(before, world.spawn);
            assert(d.can(world, Move::CssSpawn));
        },
        CssPhase::Collecting(_) => {
            if d.css.next_port() is Some {
                assert(d.can(world, Move::CssSend));
            } else if d.js.loading is Some {
                assert(d.can(world, Move::JsStep));
            } else {
                if d.js_queue.len() == 0 {
                    assert(js_all =~= d.js_heard);
                    assert(js_all.last() is JSTaskExit);
                    assert(!d.js.finished);
                }
                assert(d.can(world, Move::JsHear));
            }
        },
    }
}

/// What is left for the collector of style sheets to do.
pub open spec fn css_work<S, F, P>(d: Delivery<S, F, P>) -> int {
    3 * d.css_queue.len() + if d.css.phase == CssPhase::Spawning {
        2int
    } else {
        0
    } + d.css.result_vec.len() - sent_count(d.css)
}

/// How many steps are left of the load that the collector of scripts waits for.
pub open spec fn load_work<S, F, P>(d: Delivery<S, F, P>, world: World<P, S, F>) -> int {
    if d.js.loading is Some {
        d.current_load(world).len() - d.js_steps
    } else {
        0
    }
}

/// Once the page has been loaded, each move leaves one collector with less to do
/// and the other with as much as before, so that both come to their end.
pub proof fn law_work_shrinks<S, F, P>(
    world: World<P, S, F>,
    url: Seq<char>,
    next_subpage_id: SubpageId,
    moves: Seq<Move>,
    m: Move,
)
    requires
        world.loads_end(),
        delivery_started::<S, F, P>(url, next_subpage_id).can_all(world, moves.push(m)),
        delivery_started::<S, F, P>(url, next_subpage_id).after_all(
            world,
            moves,
        ).parse.handler.phase == ParsePhase::Finished,
    ensures
        ({
            let d = delivery_started::<S, F, P>(url, next_subpage_id).after_all(world, moves);
            let post = d.after(world, m);
            &&& post.parse == d.parse
            &&& 0 <= css_work(post) && 0 <= load_work(post, world)
            &&& {
                ||| {
                    &&& css_work(post) < css_work(d)
                    &&& post.js_queue == d.js_queue
                    &&& load_work(post, world) == load_work(d, world)
                }
                ||| {
                    &&& css_work(post) == css_work(d)
                    &&& post.js_queue.len() < d.js_queue.len() || (post.js_queue == d.js_queue
                        && load_work(post, world) < load_work(d, world))
                }
            }
        }),
{
    let first = delivery_started::<S, F, P>(url, next_subpage_id);
    let d = first.after_all(world, moves);
    assert(moves.push(m).drop_last() =~= moves);
    lemma_in_step(world, url, next_subpage_id, moves);
    lemma_in_step(world, url, next_subpage_id, moves.push(m));
    assert(d.can(world, m));
    match m {
        Move::JsStep => {
            assert(complete_load((world.load)(d.js_heard.len() - 1, d.js.loading->0.url)));
        },
        _ => {},
    }
}

} // verus!
