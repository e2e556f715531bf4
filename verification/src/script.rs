//! The collector of scripts: loads each script that the parser finds, keeps the
//! ones that stand in the page, and hands all of them over together.

use vstd::prelude::*;
use vstd::utf8::encode_utf8;

use crate::messages::{
    js_files_view, payload_bytes, HtmlDiscoveryMessage, HtmlDiscoveryMessageView, JSFile,
    JSFileView, JSMessage, JSMessageView, ProgressMsg, ProgressMsgView,
};
use crate::url::Url;

verus! {

/// A script that is being loaded, with the bytes that have come in so far.
pub struct ScriptLoad {
    pub url: Url,
    pub buf: Vec<u8>,
}

/// The mathematical value of a [`ScriptLoad`].
pub struct ScriptLoadView {
    pub url: Seq<char>,
    pub buf: Seq<u8>,
}

impl View for ScriptLoad {
    type V = ScriptLoadView;

    open spec fn view(&self) -> ScriptLoadView {
        ScriptLoadView { url: self.url@, buf: self.buf@ }
    }
}

/// The collector of scripts.
pub struct JsScriptListener {
    pub result_vec: Vec<JSFile>,
    /// The load that the collector waits for; while there is one, it takes no
    /// message of the parser.
    pub loading: Option<ScriptLoad>,
    /// Whether the scripts have been handed over.
    pub finished: bool,
}

/// The mathematical value of a [`JsScriptListener`].
pub struct JsScriptListenerView {
    pub result_vec: Seq<JSFileView>,
    pub loading: Option<ScriptLoadView>,
    pub finished: bool,
}

impl View for JsScriptListener {
    type V = JsScriptListenerView;

    open spec fn view(&self) -> JsScriptListenerView {
        JsScriptListenerView {
            result_vec: js_files_view(self.result_vec@),
            loading: match self.loading {
                Some(load) => Some(load@),
                None => None,
            },
            finished: self.finished,
        }
    }
}

/// What is to be done after a message of the parser.
pub enum JsAction<S, F> {
    /// Wait for the next one.
    Listen,
    /// Load the script at a location.
    Load(Url),
    /// Send the scripts on, and stop.
    Send(HtmlDiscoveryMessage<S, F>),
}

/// The mathematical value of a [`JsAction`].
pub enum JsActionView<S, F> {
    Listen,
    Load(Seq<char>),
    Send(HtmlDiscoveryMessageView<S, F>),
}

impl<S, F> View for JsAction<S, F> {
    type V = JsActionView<S, F>;

    open spec fn view(&self) -> JsActionView<S, F> {
        match *self {
            JsAction::Listen => JsActionView::Listen,
            JsAction::Load(url) => JsActionView::Load(url@),
            JsAction::Send(message) => JsActionView::Send(message@),
        }
    }
}

/// How a load stands after one of its steps.
#[derive(Clone, Copy, Debug, PartialEq, Eq, Structural)]
pub enum LoadStatus {
    Loading,
    Loaded,
    Failed,
}

/// How a load stands after a step.
pub open spec fn load_status(step: ProgressMsgView) -> LoadStatus {
    match step {
        ProgressMsgView::Payload(_) => LoadStatus::Loading,
        ProgressMsgView::Done(Ok(_)) => LoadStatus::Loaded,
        ProgressMsgView::Done(Err(_)) => LoadStatus::Failed,
    }
}

impl JsScriptListenerView {
    /// A collector that has heard nothing yet.
    pub open spec fn new() -> Self {
        JsScriptListenerView { result_vec: Seq::empty(), loading: None, finished: false }
    }

    /// Nothing is loaded any more once the scripts have been handed over.
    pub open spec fn wf(self) -> bool {
        self.finished ==> self.loading is None
    }

    /// Whether the collector waits for a message of the parser.
    pub open spec fn listening(self) -> bool {
        self.loading is None && !self.finished
    }

    /// The collector after a message of the parser.
    pub open spec fn heard(self, msg: JSMessageView) -> Self {
        match msg {
            JSMessageView::JSTaskNewFile(url) => JsScriptListenerView {
                loading: Some(ScriptLoadView { url, buf: Seq::empty() }),
                ..self
            },
            JSMessageView::JSTaskNewInlineScript(data, url) => JsScriptListenerView {
                result_vec: self.result_vec.push(JSFileView { data: encode_utf8(data), url }),
                ..self
            },
            JSMessageView::JSTaskExit => JsScriptListenerView {
                result_vec: Seq::empty(),
                finished: true,
                ..self
            },
        }
    }

    /// What is to be done after a message of the parser.
    pub open spec fn action<S, F>(self, msg: JSMessageView) -> JsActionView<S, F> {
        match msg {
            JSMessageView::JSTaskNewFile(url) => JsActionView::Load(url),
            JSMessageView::JSTaskNewInlineScript(_, _) => JsActionView::Listen,
            JSMessageView::JSTaskExit => JsActionView::Send(
                HtmlDiscoveryMessageView::HtmlDiscoveredScript(self.result_vec),
            ),
        }
    }

    /// The collector after a step of the load that it waits for. A script whose
    /// load fails is left out.
    pub open spec fn progressed(self, step: ProgressMsgView) -> Self
        recommends
            self.loading is Some,
    {
        let load = self.loading->0;
        match step {
            ProgressMsgView::Payload(data) => JsScriptListenerView {
                loading: Some(ScriptLoadView { url: load.url, buf: load.buf + data }),
                ..self
            },
            ProgressMsgView::Done(Ok(_)) => JsScriptListenerView {
                result_vec: self.result_vec.push(JSFileView { data: load.buf, url: load.url }),
                loading: None,
                ..self
            },
            ProgressMsgView::Done(Err(_)) => JsScriptListenerView { loading: None, ..self },
        }
    }
}

impl JsScriptListener {
    /// A collector that has heard nothing yet.
    pub fn new() -> (r: Self)
        ensures
            r@ == JsScriptListenerView::new(),
            r@.wf(),
            r.result_vec@.len() == 0,
            r.loading is None,
            !r.finished,
    {
        let r = JsScriptListener { result_vec: Vec::new(), loading: None, finished: false };
        assert(r@.result_vec =~= Seq::empty());
        r
    }

    /// Takes a message of the parser, and says what is to be done next.
    pub fn on_message<S, F>(&mut self, msg: JSMessage) -> (r: JsAction<S, F>)
        requires
            old(self)@.listening(),
        ensures
            final(self)@ == old(self)@.heard(msg@),
            final(self)@.wf(),
            r@ == old(self)@.action::<S, F>(msg@),
            match msg {
                JSMessage::JSTaskNewFile(url) => {
                    &&& r == JsAction::<S, F>::Load(url)
                    &&& final(self).result_vec == old(self).result_vec
                    &&& final(self).finished == old(self).finished
                    &&& final(self).loading is Some
                    &&& final(self).loading->0.url == url
                    &&& final(self).loading->0.buf@.len() == 0
                },
                JSMessage::JSTaskNewInlineScript(data, url) => {
                    &&& r is Listen
                    &&& final(self).result_vec@.len() == old(self).result_vec@.len() + 1
                    &&& final(self).result_vec@.drop_last() == old(self).result_vec@
                    &&& final(self).result_vec@.last().data@ == encode_utf8(data@)
                    &&& final(self).result_vec@.last().url == url
                    &&& final(self).loading == old(self).loading
                    &&& final(self).finished == old(self).finished
                },
                JSMessage::JSTaskExit => {
                    &&& r == JsAction::<S, F>::Send(
                        HtmlDiscoveryMessage::HtmlDiscoveredScript(old(self).result_vec),
                    )
                    &&& final(self).result_vec@.len() == 0
                    &&& final(self).loading == old(self).loading
                    &&& final(self).finished
                },
            },
    {
        match msg {
            JSMessage::JSTaskNewFile(url) => {
                self.loading = Some(ScriptLoad { url: url.clone(), buf: Vec::new() });
                JsAction::Load(url)
            },
            JSMessage::JSTaskNewInlineScript(data, url) => {
                self.result_vec.push(JSFile { data: data.as_str().as_bytes_vec(), url });
                assert(self@.result_vec =~= old(self)@.heard(msg@).result_vec);
                JsAction::Listen
            },
            JSMessage::JSTaskExit => {
                let mut files: Vec<JSFile> = Vec::new();
                std::mem::swap(&mut files, &mut self.result_vec);
                self.finished = true;
                assert(self@.result_vec =~= Seq::empty());
                JsAction::Send(HtmlDiscoveryMessage::HtmlDiscoveredScript(files))
            },
        }
    }

    /// Takes a step of the load that the collector waits for, and says how the
    /// load stands.
    pub fn on_progress(&mut self, step: ProgressMsg) -> (r: LoadStatus)
        requires
            old(self)@.loading is Some,
        ensures
            final(self)@ == old(self)@.progressed(step@),
            old(self)@.wf() ==> final(self)@.wf(),
            r == load_status(step@),
            final(self).finished == old(self).finished,
            match step {
                ProgressMsg::Payload(data) => {
                    &&& r == LoadStatus::Loading
                    &&& final(self).result_vec == old(self).result_vec
                    &&& final(self).loading is Some
                    &&& final(self).loading->0.url == old(self).loading->0.url
                    &&& final(self).loading->0.buf@ == old(self).loading->0.buf@ + data@
                },
                ProgressMsg::Done(Ok(_)) => {
                    &&& r == LoadStatus::Loaded
                    &&& final(self).result_vec@.len() == old(self).result_vec@.len() + 1
                    &&& final(self).result_vec@.drop_last() == old(self).result_vec@
                    &&& final(self).result_vec@.last().data@ == old(self).loading->0.buf@
                    &&& final(self).result_vec@.last().url == old(self).loading->0.url
                    &&& final(self).loading is None
                },
                ProgressMsg::Done(Err(_)) => {
                    &&& r == LoadStatus::Failed
                    &&& final(self).result_vec == old(self).result_vec
                    &&& final(self).loading is None
                },
            },
    {
        match self.loading.take() {
            Some(load) => {
                let ScriptLoad { url, mut buf } = load;
                match step {
                    ProgressMsg::Payload(data) => {
                        let mut data = data;
                        buf.append(&mut data);
                        self.loading = Some(ScriptLoad { url, buf });
                        LoadStatus::Loading
                    },
                    ProgressMsg::Done(Ok(_)) => {
                        self.result_vec.push(JSFile { data: buf, url });
                        assert(self@.result_vec =~= old(self)@.progressed(step@).result_vec);
                        LoadStatus::Loaded
                    },
                    ProgressMsg::Done(Err(_)) => LoadStatus::Failed,
                }
            },
            None => LoadStatus::Failed,
        }
    }
}

/// Whether the steps are those of a load from its start to its end: bytes, and
/// then one word on how it went.
pub open spec fn complete_load(steps: Seq<ProgressMsgView>) -> bool {
    &&& steps.len() > 0
    &&& steps.last() is Done
    &&& forall|i: int| 0 <= i < steps.len() - 1 ==> (#[trigger] steps[i]) is Payload
}

/// What a complete load brings: all its bytes, or nothing where it fails.
pub open spec fn load_result(steps: Seq<ProgressMsgView>) -> Option<Seq<u8>> {
    match load_status(steps.last()) {
        LoadStatus::Loaded => Some(payload_bytes(steps)),
        _ => None,
    }
}

/// A collector after some steps of the load that it waits for.
pub open spec fn after_steps(
    listener: JsScriptListenerView,
    steps: Seq<ProgressMsgView>,
) -> JsScriptListenerView
    decreases steps.len(),
{
    if steps.len() == 0 {
        listener
    } else {
        after_steps(listener, steps.drop_last()).progressed(steps.last())
    }
}

/// A collector after a series of messages of the parser, each script being
/// loaded as soon as it is asked for. `load` says how the load that the n-th
/// message asks for goes.
pub open spec fn after_messages(
    listener: JsScriptListenerView,
    msgs: Seq<JSMessageView>,
    load: spec_fn(int, Seq<char>) -> Seq<ProgressMsgView>,
) -> JsScriptListenerView
    decreases msgs.len(),
{
    if msgs.len() == 0 {
        listener
    } else {
        let heard = after_messages(listener, msgs.drop_last(), load).heard(msgs.last());
        match msgs.last() {
            JSMessageView::JSTaskNewFile(url) => after_steps(heard, load(msgs.len() - 1, url)),
            _ => heard,
        }
    }
}

/// The scripts of a page whose parser sends these messages: in the order of the
/// messages, those that stand in the page and those whose load succeeds.
pub open spec fn scripts_of(
    msgs: Seq<JSMessageView>,
    load: spec_fn(int, Seq<char>) -> Seq<ProgressMsgView>,
) -> Seq<JSFileView>
    decreases msgs.len(),
{
    if msgs.len() == 0 {
        Seq::empty()
    } else {
        let before = scripts_of(msgs.drop_last(), load);
        match msgs.last() {
            JSMessageView::JSTaskNewFile(url) => match load_result(load(msgs.len() - 1, url)) {
                Some(data) => before.push(JSFileView { data, url }),
                None => before,
            },
            JSMessageView::JSTaskNewInlineScript(data, url) => before.push(
                JSFileView { data: encode_utf8(data), url },
            ),
            JSMessageView::JSTaskExit => before,
        }
    }
}

/// While bytes come in, a collector appends them to those that it has.
proof fn lemma_bytes_come_in(listener: JsScriptListenerView, steps: Seq<ProgressMsgView>)
    requires
        listener.loading is Some,
        forall|i: int| 0 <= i < steps.len() ==> (#[trigger] steps[i]) is Payload,
    ensures
        after_steps(listener, steps) == (JsScriptListenerView {
            loading: Some(
                ScriptLoadView {
                    url: listener.loading->0.url,
                    buf: listener.loading->0.buf + payload_bytes(steps),
                },
            ),
            ..listener
        }),
    decreases steps.len(),
{
    let buf = listener.loading->0.buf;
    if steps.len() == 0 {
        assert(buf + payload_bytes(steps) =~= buf);
    } else {
        let rest = steps.drop_last();
        assert forall|i: int| 0 <= i < rest.len() implies (#[trigger] rest[i]) is Payload by {
            assert(rest[i] == steps[i]);
        }
        lemma_bytes_come_in(listener, rest);
        let data = steps.last()->Payload_0;
        assert((buf + payload_bytes(rest)) + data =~= buf + (payload_bytes(rest) + data));
    }
}

/// A load that goes through adds one script, made of all its bytes in the order
/// in which they came; one that fails adds none. Either way the collector is
/// ready for the next message, and the scripts that it had are as they were.
pub proof fn law_load(
    listener: JsScriptListenerView,
    url: Seq<char>,
    steps: Seq<ProgressMsgView>,
)
    requires
        listener.listening(),
        complete_load(steps),
    ensures
        after_steps(listener.heard(JSMessageView::JSTaskNewFile(url)), steps).listening(),
        after_steps(listener.heard(JSMessageView::JSTaskNewFile(url)), steps).result_vec == (
        match load_result(steps) {
            Some(data) => listener.result_vec.push(JSFileView { data, url }),
            None => listener.result_vec,
        }),
{
    let heard = listener.heard(JSMessageView::JSTaskNewFile(url));
    let rest = steps.drop_last();
    assert forall|i: int| 0 <= i < rest.len() implies (#[trigger] rest[i]) is Payload by {
        assert(rest[i] == steps[i]);
    }
    lemma_bytes_come_in(heard, rest);
    assert(Seq::<u8>::empty() + payload_bytes(rest) =~= payload_bytes(steps));
}

/// While the parser is at work, the scripts that a collector holds are those
/// found so far.
pub proof fn lemma_scripts_so_far(
    msgs: Seq<JSMessageView>,
    load: spec_fn(int, Seq<char>) -> Seq<ProgressMsgView>,
)
    requires
        forall|i: int| 0 <= i < msgs.len() ==> (#[trigger] msgs[i]) !is JSTaskExit,
        forall|i: int, url: Seq<char>| complete_load(#[trigger] load(i, url)),
    ensures
        after_messages(JsScriptListenerView::new(), msgs, load).listening(),
        after_messages(JsScriptListenerView::new(), msgs, load).result_vec == scripts_of(
            msgs,
            load,
        ),
    decreases msgs.len(),
{
    if msgs.len() != 0 {
        let rest = msgs.drop_last();
        assert forall|i: int| 0 <= i < rest.len() implies (#[trigger] rest[i]) !is JSTaskExit by {
            assert(rest[i] == msgs[i]);
        }
        lemma_scripts_so_far(rest, load);
        assert(msgs[msgs.len() - 1] !is JSTaskExit);
        if msgs.last() is JSTaskNewFile {
            let url = msgs.last()->JSTaskNewFile_0;
            law_load(
                after_messages(JsScriptListenerView::new(), rest, load),
                url,
                load(msgs.len() - 1, url),
            );
        }
    }
}

/// When the parser is done, the page gets one message with all its scripts, in
/// the order in which the parser found them, without those that could not be
/// loaded.
pub proof fn law_scripts_in_order<S, F>(
    msgs: Seq<JSMessageView>,
    load: spec_fn(int, Seq<char>) -> Seq<ProgressMsgView>,
)
    requires
        forall|i: int| 0 <= i < msgs.len() ==> (#[trigger] msgs[i]) !is JSTaskExit,
        forall|i: int, url: Seq<char>| complete_load(#[trigger] load(i, url)),
    ensures
        after_messages(JsScriptListenerView::new(), msgs, load).listening(),
        after_messages(JsScriptListenerView::new(), msgs, load).action::<S, F>(
            JSMessageView::JSTaskExit,
        ) == JsActionView::<S, F>::Send(
            HtmlDiscoveryMessageView::HtmlDiscoveredScript(scripts_of(msgs, load)),
        ),
{
    lemma_scripts_so_far(msgs, load);
}

/// The value of a collector of scripts shows all that it holds.
pub proof fn law_js_listener_view(listener: JsScriptListener)
    ensures
        listener@.result_vec == js_files_view(listener.result_vec@),
        listener@.finished == listener.finished,
        match listener.loading {
            Some(load) => listener@.loading == Some(
                ScriptLoadView { url: load.url.text@, buf: load.buf@ },
            ),
            None => listener@.loading is None,
        },
        listener@.listening() <==> listener.loading is None && !listener.finished,
        JsScriptListenerView::new().result_vec.len() == 0,
        JsScriptListenerView::new().listening(),
{
}

/// The value of what is to be done after a message shows all that it holds.
pub proof fn law_js_action_view<S, F>(action: JsAction<S, F>)
    ensures
        match action {
            JsAction::Listen => action@ is Listen,
            JsAction::Load(url) => action@ == JsActionView::<S, F>::Load(url.text@),
            JsAction::Send(message) => action@ == JsActionView::<S, F>::Send(message@),
        },
{
}

/// A script that stands in the page is kept as the bytes of its text, after all
/// others, at the location of the page; one in a file starts a load of that file
/// and is not kept yet; at the end all are handed over and none is left.
pub proof fn law_js_heard<S, F>(listener: JsScriptListenerView, msg: JSMessageView)
    ensures
        ({
            let post = listener.heard(msg);
            match msg {
                JSMessageView::JSTaskNewFile(url) => {
                    &&& listener.action::<S, F>(msg) == JsActionView::<S, F>::Load(url)
                    &&& post.result_vec == listener.result_vec
                    &&& post.finished == listener.finished
                    &&& post.loading is Some
                    &&& post.loading->0.url == url
                    &&& post.loading->0.buf.len() == 0
                },
                JSMessageView::JSTaskNewInlineScript(data, url) => {
                    &&& listener.action::<S, F>(msg) is Listen
                    &&& post.result_vec.len() == listener.result_vec.len() + 1
                    &&& post.result_vec.drop_last() == listener.result_vec
                    &&& post.result_vec.last().data == encode_utf8(data)
                    &&& post.result_vec.last().url == url
                    &&& post.loading == listener.loading
                    &&& post.finished == listener.finished
                },
                JSMessageView::JSTaskExit => {
                    &&& listener.action::<S, F>(msg) == JsActionView::<S, F>::Send(
                        HtmlDiscoveryMessageView::HtmlDiscoveredScript(listener.result_vec),
                    )
                    &&& post.result_vec.len() == 0
                    &&& post.loading == listener.loading
                    &&& post.finished
                },
            }
        }),
{
    assert(msg matches JSMessageView::JSTaskNewInlineScript(_, _) ==> listener.heard(
        msg,
    ).result_vec.drop_last() =~= listener.result_vec);
}

/// Bytes of a script that come in go after those that were there; a script that
/// is all there is kept after all others, with its bytes and its location; one
/// whose load fails is not kept.
pub proof fn law_js_progressed(listener: JsScriptListenerView, step: ProgressMsgView)
    requires
        listener.loading is Some,
    ensures
        ({
            let post = listener.progressed(step);
            let load = listener.loading->0;
            &&& post.finished == listener.finished
            &&& match step {
                ProgressMsgView::Payload(data) => {
                    &&& load_status(step) == LoadStatus::Loading
                    &&& post.result_vec == listener.result_vec
                    &&& post.loading is Some
                    &&& post.loading->0.url == load.url
                    &&& post.loading->0.buf == load.buf + data
                },
                ProgressMsgView::Done(Ok(_)) => {
                    &&& load_status(step) == LoadStatus::Loaded
                    &&& post.result_vec.len() == listener.result_vec.len() + 1
                    &&& post.result_vec.drop_last() == listener.result_vec
                    &&& post.result_vec.last().data == load.buf
                    &&& post.result_vec.last().url == load.url
                    &&& post.loading is None
                },
                ProgressMsgView::Done(Err(_)) => {
                    &&& load_status(step) == LoadStatus::Failed
                    &&& post.result_vec == listener.result_vec
                    &&& post.loading is None
                },
            }
        }),
{
    assert(step matches ProgressMsgView::Done(Ok(_)) ==> listener.progressed(
        step,
    ).result_vec.drop_last() =~= listener.result_vec);
}

} // verus!
