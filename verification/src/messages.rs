//! What the parser, the loaders and the page say to each other.

use vstd::prelude::*;

use crate::element::SubpageId;
use crate::url::Url;

verus! {

/// A script that has been loaded, or that stood in the page.
pub struct JSFile {
    pub data: Vec<u8>,
    pub url: Url,
}

/// The mathematical value of a [`JSFile`].
pub struct JSFileView {
    pub data: Seq<u8>,
    pub url: Seq<char>,
}

impl View for JSFile {
    type V = JSFileView;

    open spec fn view(&self) -> JSFileView {
        JSFileView { data: self.data@, url: self.url@ }
    }
}

/// All scripts of a page, in the order in which they were found.
pub type JSResult = Vec<JSFile>;

/// The values of a list of scripts.
pub open spec fn js_files_view(files: Seq<JSFile>) -> Seq<JSFileView> {
    files.map_values(|f: JSFile| f@)
}

/// Where the text of a style sheet comes from.
pub enum StylesheetProvenance {
    /// It lies at a location.
    UrlProvenance(Url),
    /// It stood in a page, and relative locations in it start from this one.
    InlineProvenance(Url, String),
}

/// The mathematical value of a [`StylesheetProvenance`].
pub enum StylesheetProvenanceView {
    UrlProvenance(Seq<char>),
    InlineProvenance(Seq<char>, Seq<char>),
}

impl View for StylesheetProvenance {
    type V = StylesheetProvenanceView;

    open spec fn view(&self) -> StylesheetProvenanceView {
        match *self {
            StylesheetProvenance::UrlProvenance(url) => StylesheetProvenanceView::UrlProvenance(
                url@,
            ),
            StylesheetProvenance::InlineProvenance(
                url,
                data,
            ) => StylesheetProvenanceView::InlineProvenance(url@, data@),
        }
    }
}

/// What the parser tells the collector of style sheets.
pub enum CSSMessage {
    CSSTaskNewFile(StylesheetProvenance),
    CSSTaskExit,
}

/// The mathematical value of a [`CSSMessage`].
pub enum CSSMessageView {
    CSSTaskNewFile(StylesheetProvenanceView),
    CSSTaskExit,
}

impl View for CSSMessage {
    type V = CSSMessageView;

    open spec fn view(&self) -> CSSMessageView {
        match *self {
            CSSMessage::CSSTaskNewFile(provenance) => CSSMessageView::CSSTaskNewFile(provenance@),
            CSSMessage::CSSTaskExit => CSSMessageView::CSSTaskExit,
        }
    }
}

/// What the parser tells the collector of scripts.
pub enum JSMessage {
    JSTaskNewFile(Url),
    JSTaskNewInlineScript(String, Url),
    JSTaskExit,
}

/// The mathematical value of a [`JSMessage`].
pub enum JSMessageView {
    JSTaskNewFile(Seq<char>),
    JSTaskNewInlineScript(Seq<char>, Seq<char>),
    JSTaskExit,
}

impl View for JSMessage {
    type V = JSMessageView;

    open spec fn view(&self) -> JSMessageView {
        match *self {
            JSMessage::JSTaskNewFile(url) => JSMessageView::JSTaskNewFile(url@),
            JSMessage::JSTaskNewInlineScript(data, url) => JSMessageView::JSTaskNewInlineScript(
                data@,
                url@,
            ),
            JSMessage::JSTaskExit => JSMessageView::JSTaskExit,
        }
    }
}

/// What the page learns of the further resources that the parser discovers.
///
/// `S` is a parsed style sheet; `F` is where the size of a frame will arrive.
pub enum HtmlDiscoveryMessage<S, F> {
    HtmlDiscoveredStyle(S),
    /// The location of the page in the frame, its number, its size, and whether
    /// it is sandboxed.
    HtmlDiscoveredIFrame((Url, SubpageId, F, bool)),
    HtmlDiscoveredScript(JSResult),
}

/// The mathematical value of an [`HtmlDiscoveryMessage`].
pub enum HtmlDiscoveryMessageView<S, F> {
    HtmlDiscoveredStyle(S),
    HtmlDiscoveredIFrame((Seq<char>, SubpageId, F, bool)),
    HtmlDiscoveredScript(Seq<JSFileView>),
}

impl<S, F> View for HtmlDiscoveryMessage<S, F> {
    type V = HtmlDiscoveryMessageView<S, F>;

    open spec fn view(&self) -> HtmlDiscoveryMessageView<S, F> {
        match *self {
            HtmlDiscoveryMessage::HtmlDiscoveredStyle(
                sheet,
            ) => HtmlDiscoveryMessageView::HtmlDiscoveredStyle(sheet),
            HtmlDiscoveryMessage::HtmlDiscoveredIFrame(
                (url, id, size, sandboxed),
            ) => HtmlDiscoveryMessageView::HtmlDiscoveredIFrame((url@, id, size, sandboxed)),
            HtmlDiscoveryMessage::HtmlDiscoveredScript(
                files,
            ) => HtmlDiscoveryMessageView::HtmlDiscoveredScript(js_files_view(files@)),
        }
    }
}

/// A step in loading a resource.
pub enum ProgressMsg {
    /// The next bytes of it.
    Payload(Vec<u8>),
    /// It is loaded, or it will not be.
    Done(Result<(), ()>),
}

/// The mathematical value of a [`ProgressMsg`].
pub enum ProgressMsgView {
    Payload(Seq<u8>),
    Done(Result<(), ()>),
}

impl View for ProgressMsg {
    type V = ProgressMsgView;

    open spec fn view(&self) -> ProgressMsgView {
        match *self {
            ProgressMsg::Payload(data) => ProgressMsgView::Payload(data@),
            ProgressMsg::Done(result) => ProgressMsgView::Done(result),
        }
    }
}

/// The bytes that a series of steps delivers, one after the other.
pub open spec fn payload_bytes(steps: Seq<ProgressMsgView>) -> Seq<u8>
    decreases steps.len(),
{
    if steps.len() == 0 {
        Seq::empty()
    } else {
        payload_bytes(steps.drop_last()) + match steps.last() {
            ProgressMsgView::Payload(data) => data,
            ProgressMsgView::Done(_) => Seq::empty(),
        }
    }
}

/// The values of a list of scripts show each of them, in order, with its code and
/// its location.
pub proof fn law_js_files_view(files: Seq<JSFile>, i: int)
    ensures
        js_files_view(files).len() == files.len(),
        0 <= i < files.len() ==> js_files_view(files)[i] == (JSFileView {
            data: files[i].data@,
            url: files[i].url.text@,
        }),
{
}

/// The value of a message for the collector of style sheets shows all that it
/// holds.
pub proof fn law_css_message_view(msg: CSSMessage)
    ensures
        match msg {
            CSSMessage::CSSTaskNewFile(StylesheetProvenance::UrlProvenance(url)) => msg@
                == CSSMessageView::CSSTaskNewFile(
                StylesheetProvenanceView::UrlProvenance(url.text@),
            ),
            CSSMessage::CSSTaskNewFile(StylesheetProvenance::InlineProvenance(url, data)) => msg@
                == CSSMessageView::CSSTaskNewFile(
                StylesheetProvenanceView::InlineProvenance(url.text@, data@),
            ),
            CSSMessage::CSSTaskExit => msg@ is CSSTaskExit,
        },
{
}

/// The value of a message for the collector of scripts shows all that it holds.
pub proof fn law_js_message_view(msg: JSMessage)
    ensures
        match msg {
            JSMessage::JSTaskNewFile(url) => msg@ == JSMessageView::JSTaskNewFile(url.text@),
            JSMessage::JSTaskNewInlineScript(data, url) => msg@
                == JSMessageView::JSTaskNewInlineScript(data@, url.text@),
            JSMessage::JSTaskExit => msg@ is JSTaskExit,
        },
{
}

/// The value of a message for the page shows all that it holds.
pub proof fn law_discovery_message_view<S, F>(msg: HtmlDiscoveryMessage<S, F>)
    ensures
        match msg {
            HtmlDiscoveryMessage::HtmlDiscoveredStyle(sheet) => msg@
                == HtmlDiscoveryMessageView::<S, F>::HtmlDiscoveredStyle(sheet),
            HtmlDiscoveryMessage::HtmlDiscoveredIFrame((url, id, size, sandboxed)) => msg@
                == HtmlDiscoveryMessageView::<S, F>::HtmlDiscoveredIFrame(
                (url.text@, id, size, sandboxed),
            ),
            HtmlDiscoveryMessage::HtmlDiscoveredScript(files) => msg@
                == HtmlDiscoveryMessageView::<S, F>::HtmlDiscoveredScript(js_files_view(files@)),
        },
{
}

/// The value of a step in loading shows all that it holds.
pub proof fn law_progress_view(step: ProgressMsg)
    ensures
        match step {
            ProgressMsg::Payload(data) => step@ == ProgressMsgView::Payload(data@),
            ProgressMsg::Done(result) => step@ == ProgressMsgView::Done(result),
        },
{
}

/// Two series of steps, one after the other, deliver the bytes of the first and
/// then those of the second; one step delivers what it carries.
pub proof fn law_payload_bytes(a: Seq<ProgressMsgView>, b: Seq<ProgressMsgView>, data: Seq<u8>)
    ensures
        payload_bytes(a + b) == payload_bytes(a) + payload_bytes(b),
        payload_bytes(seq![ProgressMsgView::Payload(data)]) == data,
    decreases b.len(),
{
    reveal_with_fuel(payload_bytes, 2);
    let one = seq![ProgressMsgView::Payload(data)];
    assert(one.drop_last() =~= Seq::empty());
    assert(payload_bytes(one) =~= data);
    if b.len() == 0 {
        assert(a + b =~= a);
        assert(payload_bytes(a) + payload_bytes(b) =~= payload_bytes(a));
    } else {
        law_payload_bytes(a, b.drop_last(), data);
        assert((a + b).drop_last() =~= a + b.drop_last());
        assert((a + b).last() == b.last());
        assert(payload_bytes(a + b) =~= payload_bytes(a) + payload_bytes(b));
    }
}

} // verus!
