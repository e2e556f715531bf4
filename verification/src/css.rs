//! The collector of style sheets: has each sheet that the parser finds parsed
//! on the side, and hands the parsed sheets back in the order of their finding.

use vstd::prelude::*;

use crate::messages::{
    CSSMessage, CSSMessageView, HtmlDiscoveryMessage, HtmlDiscoveryMessageView,
    StylesheetProvenance, StylesheetProvenanceView,
};

verus! {

/// What the collector waits for.
#[derive(Clone, Copy, Debug, PartialEq, Eq, Structural)]
pub enum CssPhase {
    /// A message of the parser.
    Listening,
    /// The start of a side task that parses a sheet.
    Spawning,
    /// Parsed sheets: as many have been sent on as the number says.
    Collecting(usize),
}

/// The collector of style sheets. `P` is where one parsed sheet will arrive.
pub struct CssLinkListener<P> {
    pub phase: CssPhase,
    pub result_vec: Vec<P>,
}

/// The mathematical value of a [`CssLinkListener`].
pub struct CssLinkListenerView<P> {
    pub phase: CssPhase,
    pub result_vec: Seq<P>,
}

impl<P> View for CssLinkListener<P> {
    type V = CssLinkListenerView<P>;

    open spec fn view(&self) -> CssLinkListenerView<P> {
        CssLinkListenerView { phase: self.phase, result_vec: self.result_vec@ }
    }
}

impl<P> CssLinkListenerView<P> {
    /// Only sheets that were asked for are sent on.
    pub open spec fn wf(self) -> bool {
        self.phase matches CssPhase::Collecting(sent) ==> sent <= self.result_vec.len()
    }

    /// A collector that has heard nothing yet.
    pub open spec fn new() -> Self {
        CssLinkListenerView { phase: CssPhase::Listening, result_vec: Seq::empty() }
    }

    /// The collector after a message of the parser.
    pub open spec fn heard(self, msg: CSSMessageView) -> Self {
        CssLinkListenerView {
            phase: match msg {
                CSSMessageView::CSSTaskNewFile(_) => CssPhase::Spawning,
                CSSMessageView::CSSTaskExit => CssPhase::Collecting(0),
            },
            ..self
        }
    }

    /// The collector after the start of a side task whose sheet will arrive at
    /// `port`.
    pub open spec fn spawned(self, port: P) -> Self {
        CssLinkListenerView {
            phase: CssPhase::Listening,
            result_vec: self.result_vec.push(port),
        }
    }

    /// Where the next sheet to be sent on will arrive, if one is left.
    pub open spec fn next_port(self) -> Option<P> {
        match self.phase {
            CssPhase::Collecting(sent) if sent < self.result_vec.len() => Some(
                self.result_vec[sent as int],
            ),
            _ => None,
        }
    }

    /// The collector after the sheet that it waited for has been sent on.
    pub open spec fn sent(self) -> Self {
        CssLinkListenerView {
            phase: match self.phase {
                CssPhase::Collecting(sent) => CssPhase::Collecting((sent + 1) as usize),
                phase => phase,
            },
            ..self
        }
    }
}

/// The sheet that a message of the parser asks to be parsed, if it asks for one.
pub open spec fn requested_sheet(msg: CSSMessageView) -> Option<StylesheetProvenanceView> {
    match msg {
        CSSMessageView::CSSTaskNewFile(provenance) => Some(provenance),
        CSSMessageView::CSSTaskExit => None,
    }
}

impl<P> CssLinkListener<P> {
    /// A collector that has heard nothing yet.
    pub fn new() -> (r: Self)
        ensures
            r@ == CssLinkListenerView::<P>::new(),
            r@.wf(),
            r.phase == CssPhase::Listening,
            r.result_vec@.len() == 0,
    {
        CssLinkListener { phase: CssPhase::Listening, result_vec: Vec::new() }
    }

    /// Takes a message of the parser. The sheet that it returns is to be parsed
    /// on the side next; if there is none, the parser is done.
    pub fn on_message(&mut self, msg: CSSMessage) -> (r: Option<StylesheetProvenance>)
        requires
            old(self).phase == CssPhase::Listening,
        ensures
            final(self)@ == old(self)@.heard(msg@),
            final(self)@.wf(),
            (match r {
                Some(provenance) => Some(provenance@),
                None => None,
            }) == requested_sheet(msg@),
            final(self).result_vec == old(self).result_vec,
            match msg {
                CSSMessage::CSSTaskNewFile(provenance) => {
                    &&& r == Some(provenance)
                    &&& final(self).phase == CssPhase::Spawning
                },
                CSSMessage::CSSTaskExit => {
                    &&& r is None
                    &&& final(self).phase == CssPhase::Collecting(0)
                },
            },
    {
        match msg {
            CSSMessage::CSSTaskNewFile(provenance) => {
                self.phase = CssPhase::Spawning;
                Some(provenance)
            },
            CSSMessage::CSSTaskExit => {
                self.phase = CssPhase::Collecting(0);
                None
            },
        }
    }

    /// Takes note of the side task that parses the sheet last asked for.
    pub fn on_spawned(&mut self, port: P)
        requires
            old(self).phase == CssPhase::Spawning,
        ensures
            final(self)@ == old(self)@.spawned(port),
            final(self)@.wf(),
            final(self).result_vec@ == old(self).result_vec@.push(port),
            final(self).phase == CssPhase::Listening,
    {
        self.result_vec.push(port);
        self.phase = CssPhase::Listening;
    }

    /// Where the next sheet to be sent on will arrive, if one is left.
    pub fn next_port(&self) -> (r: Option<&P>)
        ensures
            (match r {
                Some(port) => Some(*port),
                None => None,
            }) == self@.next_port(),
            match self.phase {
                CssPhase::Collecting(sent) => if sent < self.result_vec@.len() {
                    r is Some && *r->0 == self.result_vec@[sent as int]
                } else {
                    r is None
                },
                _ => r is None,
            },
    {
        match self.phase {
            CssPhase::Collecting(sent) if sent < self.result_vec.len() => Some(
                &self.result_vec[sent],
            ),
            _ => None,
        }
    }

    /// Takes the sheet that arrived at [`CssLinkListener::next_port`] and makes
    /// the message that sends it on.
    pub fn on_sheet<S, F>(&mut self, sheet: S) -> (r: HtmlDiscoveryMessage<S, F>)
        requires
            old(self)@.next_port() is Some,
        ensures
            final(self)@ == old(self)@.sent(),
            final(self)@.wf(),
            r@ == HtmlDiscoveryMessageView::<S, F>::HtmlDiscoveredStyle(sheet),
            r == HtmlDiscoveryMessage::<S, F>::HtmlDiscoveredStyle(sheet),
            final(self).result_vec == old(self).result_vec,
            match (old(self).phase, final(self).phase) {
                (CssPhase::Collecting(before), CssPhase::Collecting(after)) => after == before + 1,
                _ => false,
            },
    {
        match self.phase {
            CssPhase::Collecting(sent) => {
                assert(sent < self.result_vec.len());
                self.phase = CssPhase::Collecting(sent + 1);
            },
            _ => {},
        }
        HtmlDiscoveryMessage::HtmlDiscoveredStyle(sheet)
    }
}

/// The messages of a parser that finds the sheets `files`, in this order, and
/// is then done.
pub open spec fn css_messages(files: Seq<StylesheetProvenanceView>) -> Seq<CSSMessageView> {
    files.map_values(|p: StylesheetProvenanceView| CSSMessageView::CSSTaskNewFile(p)).push(
        CSSMessageView::CSSTaskExit,
    )
}

/// A collector after a series of messages of the parser, each sheet being
/// parsed by a side task as soon as it is asked for. `spawn` says where the
/// sheet of the n-th side task will arrive.
pub open spec fn after_messages<P>(
    listener: CssLinkListenerView<P>,
    msgs: Seq<CSSMessageView>,
    spawn: spec_fn(nat, StylesheetProvenanceView) -> P,
) -> CssLinkListenerView<P>
    decreases msgs.len(),
{
    if msgs.len() == 0 {
        listener
    } else {
        let before = after_messages(listener, msgs.drop_last(), spawn);
        let heard = before.heard(msgs.last());
        match requested_sheet(msgs.last()) {
            Some(provenance) => heard.spawned(spawn(before.result_vec.len(), provenance)),
            None => heard,
        }
    }
}

/// The messages that a collector sends from now on, where `recv` says which
/// sheet arrives where.
pub open spec fn messages_sent<P, S, F>(
    listener: CssLinkListenerView<P>,
    recv: spec_fn(P) -> S,
) -> Seq<HtmlDiscoveryMessageView<S, F>>
    decreases
            (match listener.phase {
                CssPhase::Collecting(sent) => listener.result_vec.len() - sent,
                _ => 0,
            }),
    when listener.result_vec.len() <= usize::MAX
{
    match listener.next_port() {
        Some(port) => seq![HtmlDiscoveryMessageView::HtmlDiscoveredStyle(recv(port))]
            + messages_sent(listener.sent(), recv),
        None => Seq::empty(),
    }
}

/// While the parser is at work a collector keeps, in the order in which the
/// parser found them, where the sheets will arrive.
pub proof fn lemma_ports_kept<P>(
    files: Seq<StylesheetProvenanceView>,
    spawn: spec_fn(nat, StylesheetProvenanceView) -> P,
)
    ensures
        ({
            let listener = after_messages(
                CssLinkListenerView::new(),
                files.map_values(
                    |p: StylesheetProvenanceView| CSSMessageView::CSSTaskNewFile(p),
                ),
                spawn,
            );
            &&& listener.phase == CssPhase::Listening
            &&& listener.result_vec == Seq::new(files.len(), |i: int| spawn(i as nat, files[i]))
        }),
    decreases files.len(),
{
    let msgs = files.map_values(|p: StylesheetProvenanceView| CSSMessageView::CSSTaskNewFile(p));
    let listener = after_messages(CssLinkListenerView::new(), msgs, spawn);
    if files.len() != 0 {
        let rest = files.drop_last();
        lemma_ports_kept::<P>(rest, spawn);
        assert(msgs.drop_last() =~= rest.map_values(
            |p: StylesheetProvenanceView| CSSMessageView::CSSTaskNewFile(p),
        ));
    }
    assert(listener.result_vec =~= Seq::new(files.len(), |i: int| spawn(i as nat, files[i])));
}

/// Once the parser is done a collector sends on the sheets that are left, in
/// the order in which it kept them.
proof fn lemma_collecting<P, S, F>(listener: CssLinkListenerView<P>, recv: spec_fn(P) -> S)
    requires
        listener.wf(),
        listener.phase is Collecting,
        listener.result_vec.len() <= usize::MAX,
    ensures
        messages_sent::<P, S, F>(listener, recv) == Seq::new(
            (listener.result_vec.len() - listener.phase->0) as nat,
            |i: int|
                HtmlDiscoveryMessageView::<S, F>::HtmlDiscoveredStyle(
                    recv(listener.result_vec[listener.phase->0 + i]),
                ),
        ),
    decreases listener.result_vec.len() - listener.phase->0,
{
    let expected = Seq::new(
        (listener.result_vec.len() - listener.phase->0) as nat,
        |i: int|
            HtmlDiscoveryMessageView::<S, F>::HtmlDiscoveredStyle(
                recv(listener.result_vec[listener.phase->0 + i]),
            ),
    );
    if listener.next_port() is Some {
        lemma_collecting::<P, S, F>(listener.sent(), recv);
    }
    assert(messages_sent::<P, S, F>(listener, recv) =~= expected);
}

/// The page gets the style sheets in the order in which the parser found them:
/// one message for each, in which stands what parsing that sheet gave, and no
/// other message. Nothing is sent before the parser is done.
pub proof fn law_sheets_in_order<P, S, F>(
    files: Seq<StylesheetProvenanceView>,
    spawn: spec_fn(nat, StylesheetProvenanceView) -> P,
    recv: spec_fn(P) -> S,
)
    requires
        files.len() <= usize::MAX,
    ensures
        messages_sent::<P, S, F>(
            after_messages(CssLinkListenerView::new(), css_messages(files), spawn),
            recv,
        ) == Seq::new(
            files.len(),
            |i: int|
                HtmlDiscoveryMessageView::<S, F>::HtmlDiscoveredStyle(
                    recv(spawn(i as nat, files[i])),
                ),
        ),
        forall|n: int|
            0 <= n <= files.len() ==> #[trigger] messages_sent::<P, S, F>(
                after_messages(CssLinkListenerView::new(), css_messages(files).take(n), spawn),
                recv,
            ) == Seq::<HtmlDiscoveryMessageView<S, F>>::empty(),
{
    let found = files.map_values(|p: StylesheetProvenanceView| CSSMessageView::CSSTaskNewFile(p));
    lemma_ports_kept::<P>(files, spawn);
    assert(css_messages(files).drop_last() =~= found);
    let listener = after_messages(CssLinkListenerView::new(), css_messages(files), spawn);
    lemma_collecting::<P, S, F>(listener, recv);
    assert(messages_sent::<P, S, F>(listener, recv) =~= Seq::new(
        files.len(),
        |i: int|
            HtmlDiscoveryMessageView::<S, F>::HtmlDiscoveredStyle(recv(spawn(i as nat, files[i]))),
    ));
    assert forall|n: int| 0 <= n <= files.len() implies #[trigger] messages_sent::<P, S, F>(
        after_messages(CssLinkListenerView::new(), css_messages(files).take(n), spawn),
        recv,
    ) == Seq::<HtmlDiscoveryMessageView<S, F>>::empty() by {
        lemma_ports_kept::<P>(files.take(n), spawn);
        assert(css_messages(files).take(n) =~= files.take(n).map_values(
            |p: StylesheetProvenanceView| CSSMessageView::CSSTaskNewFile(p),
        ));
    }
}

/// The value of a collector of style sheets shows all that it holds.
pub proof fn law_css_listener_view<P>(listener: CssLinkListener<P>)
    ensures
        listener@.phase == listener.phase,
        listener@.result_vec == listener.result_vec@,
        CssLinkListenerView::<P>::new().result_vec.len() == 0,
        CssLinkListenerView::<P>::new().phase == CssPhase::Listening,
{
}

/// A new sheet is asked for exactly by the message that names it, and the
/// collector then waits for its side task; told that the parser is done, it has
/// sent on none. Neither loses or adds a sheet.
pub proof fn law_css_heard<P>(listener: CssLinkListenerView<P>, msg: CSSMessageView)
    ensures
        listener.heard(msg).result_vec == listener.result_vec,
        match msg {
            CSSMessageView::CSSTaskNewFile(provenance) => {
                &&& requested_sheet(msg) == Some(provenance)
                &&& listener.heard(msg).phase == CssPhase::Spawning
            },
            CSSMessageView::CSSTaskExit => {
                &&& requested_sheet(msg) is None
                &&& listener.heard(msg).phase == CssPhase::Collecting(0)
            },
        },
{
}

/// Sheets are sent on in the order in which their side tasks started: while some
/// are left, the next is the first that has not been sent on, and sending it
/// loses none.
pub proof fn law_css_sends_in_order<P>(listener: CssLinkListenerView<P>, port: P, sent: usize)
    ensures
        listener.spawned(port).result_vec == listener.result_vec.push(port),
        listener.spawned(port).phase == CssPhase::Listening,
        listener.sent().result_vec == listener.result_vec,
        listener.phase == CssPhase::Collecting(sent) ==> {
            &&& sent < listener.result_vec.len() ==> listener.next_port() == Some(
                listener.result_vec[sent as int],
            )
            &&& sent >= listener.result_vec.len() ==> listener.next_port() is None
            &&& sent < usize::MAX ==> listener.sent().phase == CssPhase::Collecting(
                (sent + 1) as usize,
            )
        },
        listener.phase !is Collecting ==> listener.next_port() is None,
{
}

} // verus!
