//! Elements: the type that a tag name stands for, and what an element holds.

use vstd::prelude::*;

use crate::attr::{
    attr_position, attr_value, attrs_view, distinct_names, last_value, law_attributes_in_order,
    law_set_then_get, law_tag_attributes, lemma_attr_position_is, with_attr, with_attrs, Attr,
    AttrView, Tag, TagView,
};
use crate::tags::{element_type, law_type_comes_from_its_tags, type_of_tag, ElementTypeId};
use crate::text::{eq_slice, opt_text};
use crate::url::{opt_url, Url};

verus! {

/// The level of a heading.
#[derive(Clone, Copy, Debug, PartialEq, Eq, Structural)]
pub enum HeadingLevel {
    Heading1,
    Heading2,
    Heading3,
    Heading4,
    Heading5,
    Heading6,
}

/// The number of a pipeline: the machinery that shows one page.
#[derive(Clone, Copy, Debug, PartialEq, Eq, Structural)]
pub struct PipelineId(pub usize);

/// The number of a page inside a frame, counted per parent page.
#[derive(Clone, Copy, Debug, PartialEq, Eq, Structural)]
pub struct SubpageId(pub usize);

/// Whom the size of a frame concerns.
#[derive(Clone, Copy, Debug, PartialEq, Eq, Structural)]
pub struct IFrameSize {
    pub pipeline_id: PipelineId,
    pub subpage_id: SubpageId,
}

/// What elements of some types hold besides their attributes.
pub enum ElementData {
    Plain,
    Media,
    Heading(HeadingLevel),
    Image { image: Option<Url> },
    IFrame { frame: Option<Url>, size: Option<IFrameSize>, sandbox: Option<String> },
}

/// The mathematical value of an [`ElementData`].
pub enum ElementDataView {
    Plain,
    Media,
    Heading(HeadingLevel),
    Image { image: Option<Seq<char>> },
    IFrame { frame: Option<Seq<char>>, size: Option<IFrameSize>, sandbox: Option<Seq<char>> },
}

impl View for ElementData {
    type V = ElementDataView;

    open spec fn view(&self) -> ElementDataView {
        match *self {
            ElementData::Plain => ElementDataView::Plain,
            ElementData::Media => ElementDataView::Media,
            ElementData::Heading(level) => ElementDataView::Heading(level),
            ElementData::Image { image } => ElementDataView::Image { image: opt_url(image) },
            ElementData::IFrame { frame, size, sandbox } => ElementDataView::IFrame {
                frame: opt_url(frame),
                size,
                sandbox: opt_text(sandbox),
            },
        }
    }
}

/// What a new element of a tag name holds besides its attributes.
pub open spec fn element_data(tag: Seq<char>) -> ElementDataView {
    if tag == "img"@ {
        ElementDataView::Image { image: None }
    } else if tag == "iframe"@ {
        ElementDataView::IFrame { frame: None, size: None, sandbox: None }
    } else if tag == "h1"@ {
        ElementDataView::Heading(HeadingLevel::Heading1)
    } else if tag == "h2"@ {
        ElementDataView::Heading(HeadingLevel::Heading2)
    } else if tag == "h3"@ {
        ElementDataView::Heading(HeadingLevel::Heading3)
    } else if tag == "h4"@ {
        ElementDataView::Heading(HeadingLevel::Heading4)
    } else if tag == "h5"@ {
        ElementDataView::Heading(HeadingLevel::Heading5)
    } else if tag == "h6"@ {
        ElementDataView::Heading(HeadingLevel::Heading6)
    } else if tag == "audio"@ || tag == "video"@ {
        ElementDataView::Media
    } else {
        ElementDataView::Plain
    }
}

/// An element.
pub struct Element {
    pub type_id: ElementTypeId,
    pub tag_name: String,
    pub attrs: Vec<Attr>,
    pub data: ElementData,
}

/// The mathematical value of an [`Element`].
pub struct ElementView {
    pub type_id: ElementTypeId,
    pub tag_name: Seq<char>,
    pub attrs: Seq<AttrView>,
    pub data: ElementDataView,
}

impl View for Element {
    type V = ElementView;

    open spec fn view(&self) -> ElementView {
        ElementView {
            type_id: self.type_id,
            tag_name: self.tag_name@,
            attrs: attrs_view(self.attrs@),
            data: self.data@,
        }
    }
}

/// A new element of a tag name, without attributes.
pub open spec fn new_element(tag: Seq<char>) -> ElementView {
    ElementView {
        type_id: element_type(tag),
        tag_name: tag,
        attrs: Seq::empty(),
        data: element_data(tag),
    }
}

/// The element after an attribute has been set. The `sandbox` attribute of a
/// frame is kept with the frame, too.
pub open spec fn set_attr_spec(
    element: ElementView,
    name: Seq<char>,
    value: Seq<char>,
) -> ElementView {
    ElementView {
        attrs: with_attr(element.attrs, name, value),
        data: match element.data {
            ElementDataView::IFrame { frame, size, sandbox } if name == "sandbox"@ =>
                ElementDataView::IFrame { frame, size, sandbox: Some(value) },
            data => data,
        },
        ..element
    }
}

/// The element after all attributes of `list` have been set.
pub open spec fn set_attrs_spec(element: ElementView, list: Seq<AttrView>) -> ElementView
    decreases list.len(),
{
    if list.len() == 0 {
        element
    } else {
        set_attr_spec(
            set_attrs_spec(element, list.drop_last()),
            list.last().name,
            list.last().value,
        )
    }
}

impl ElementView {
    /// No attribute occurs twice.
    pub open spec fn wf(self) -> bool {
        distinct_names(self.attrs)
    }

    /// Whether the element is a frame that is sandboxed.
    pub open spec fn is_sandboxed(self) -> bool {
        self.data matches ElementDataView::IFrame { sandbox, .. } && sandbox is Some
    }
}

impl Element {
    /// The value of the attribute called `name`, or nothing.
    pub fn get_attr(&self, name: &str) -> (r: Option<&String>)
        ensures
            (match r {
                Some(v) => Some(v@),
                None => None,
            }) == attr_value(self@.attrs, name@),
            match r {
                Some(v) => exists|i: int|
                    0 <= i < self.attrs@.len() && (#[trigger] self.attrs@[i]).name@ == name@
                        && self.attrs@[i].value == *v && forall|j: int|
                        0 <= j < i ==> (#[trigger] self.attrs@[j]).name@ != name@,
                None => forall|i: int|
                    0 <= i < self.attrs@.len() ==> (#[trigger] self.attrs@[i]).name@ != name@,
            },
    {
        let mut i: usize = 0;
        while i < self.attrs.len()
            invariant
                0 <= i <= self.attrs.len(),
                forall|j: int| 0 <= j < i ==> (#[trigger] self@.attrs[j]).name != name@,
                forall|j: int| 0 <= j < i ==> (#[trigger] self.attrs@[j]).name@ != name@,
            decreases self.attrs.len() - i,
        {
            assert(self@.attrs[i as int] == self.attrs[i as int]@);
            if eq_slice(self.attrs[i].name.as_str(), name) {
                proof {
                    lemma_attr_position_is(self@.attrs, name@, i as int);
                }
                return Some(&self.attrs[i].value);
            }
            i = i + 1;
        }
        proof {
            lemma_attr_position_is(self@.attrs, name@, i as int);
        }
        None
    }

    /// Sets the attribute called `name`.
    pub fn set_attr(&mut self, name: &str, value: &str)
        ensures
            final(self)@ == set_attr_spec(old(self)@, name@, value@),
            old(self)@.wf() ==> final(self)@.wf(),
            final(self).type_id == old(self).type_id,
            final(self).tag_name == old(self).tag_name,
            match (old(self).data, final(self).data) {
                (
                    ElementData::IFrame { frame, size, sandbox },
                    ElementData::IFrame { frame: new_frame, size: new_size, sandbox: new_sandbox },
                ) => {
                    &&& new_frame == frame
                    &&& new_size == size
                    &&& name@ == "sandbox"@ ==> new_sandbox is Some && new_sandbox->0@ == value@
                    &&& name@ != "sandbox"@ ==> new_sandbox == sandbox
                },
                (data, new_data) => new_data == data,
            },
            exists|i: int|
                #![trigger final(self).attrs@[i]]
                {
                    &&& 0 <= i <= old(self).attrs@.len()
                    &&& forall|j: int|
                        0 <= j < i ==> (#[trigger] old(self).attrs@[j]).name@ != name@
                    &&& i < old(self).attrs@.len() ==> {
                        &&& old(self).attrs@[i].name@ == name@
                        &&& final(self).attrs@.len() == old(self).attrs@.len()
                    }
                    &&& i == old(self).attrs@.len() ==> final(self).attrs@.len()
                        == old(self).attrs@.len() + 1
                    &&& final(self).attrs@[i].name@ == name@
                    &&& final(self).attrs@[i].value@ == value@
                    &&& forall|j: int|
                        0 <= j < old(self).attrs@.len() && j != i ==> (
                        #[trigger] final(self).attrs@[j]) == old(self).attrs@[j]
                },
    {
        proof {
            law_set_then_get(self@.attrs, name@, value@, name@);
        }
        let mut i: usize = 0;
        while i < self.attrs.len() && !eq_slice(self.attrs[i].name.as_str(), name)
            invariant
                *self == *old(self),
                0 <= i <= self.attrs.len(),
                forall|j: int| 0 <= j < i ==> (#[trigger] self@.attrs[j]).name != name@,
                forall|j: int| 0 <= j < i ==> (#[trigger] self.attrs@[j]).name@ != name@,
            decreases self.attrs.len() - i,
        {
            assert(self@.attrs[i as int] == self.attrs[i as int]@);
            i = i + 1;
        }
        proof {
            if i < self.attrs.len() {
                assert(self@.attrs[i as int] == self.attrs[i as int]@);
            }
            lemma_attr_position_is(self@.attrs, name@, i as int);
        }
        let attr = Attr { name: name.to_string(), value: value.to_string() };
        if i < self.attrs.len() {
            self.attrs[i] = attr;
        } else {
            self.attrs.push(attr);
        }
        assert(attrs_view(self.attrs@) =~= with_attr(old(self)@.attrs, name@, value@));
        assert(self.attrs@[i as int].name@ == name@);
        if eq_slice(name, "sandbox") {
            match &mut self.data {
                ElementData::IFrame { sandbox, .. } => {
                    *sandbox = Some(value.to_string());
                },
                _ => {},
            }
        }
    }

    /// Whether the element is a frame that is sandboxed.
    pub fn is_sandboxed(&self) -> (r: bool)
        ensures
            r == self@.is_sandboxed(),
            r <==> (self.data matches ElementData::IFrame { sandbox, .. } && sandbox is Some),
    {
        match &self.data {
            ElementData::IFrame { sandbox, .. } => sandbox.is_some(),
            _ => false,
        }
    }
}

fn data_of_tag(tag: &str) -> (r: ElementData)
    ensures
        r@ == element_data(tag@),
{
    if eq_slice(tag, "img") {
        ElementData::Image { image: None }
    } else if eq_slice(tag, "iframe") {
        ElementData::IFrame { frame: None, size: None, sandbox: None }
    } else if eq_slice(tag, "h1") {
        ElementData::Heading(HeadingLevel::Heading1)
    } else if eq_slice(tag, "h2") {
        ElementData::Heading(HeadingLevel::Heading2)
    } else if eq_slice(tag, "h3") {
        ElementData::Heading(HeadingLevel::Heading3)
    } else if eq_slice(tag, "h4") {
        ElementData::Heading(HeadingLevel::Heading4)
    } else if eq_slice(tag, "h5") {
        ElementData::Heading(HeadingLevel::Heading5)
    } else if eq_slice(tag, "h6") {
        ElementData::Heading(HeadingLevel::Heading6)
    } else if eq_slice(tag, "audio") || eq_slice(tag, "video") {
        ElementData::Media
    } else {
        ElementData::Plain
    }
}

/// A new element bears the tag name and has no attributes. It holds a heading
/// level exactly where it is a heading, and the level is the digit after the `h`
/// of its name; it holds an image exactly where it is an image, a frame exactly
/// where it is a frame, and what media hold exactly where it is audio or video.
/// All of these start empty. Any other element holds nothing more.
pub proof fn law_new_element(tag: Seq<char>)
    ensures
        new_element(tag).type_id == element_type(tag),
        new_element(tag).tag_name == tag,
        new_element(tag).attrs.len() == 0,
        new_element(tag).data is Heading <==> element_type(tag)
            == ElementTypeId::HTMLHeadingElementTypeId,
        new_element(tag).data == ElementDataView::Heading(HeadingLevel::Heading1) <==> tag
            == seq!['h', '1'],
        new_element(tag).data == ElementDataView::Heading(HeadingLevel::Heading2) <==> tag
            == seq!['h', '2'],
        new_element(tag).data == ElementDataView::Heading(HeadingLevel::Heading3) <==> tag
            == seq!['h', '3'],
        new_element(tag).data == ElementDataView::Heading(HeadingLevel::Heading4) <==> tag
            == seq!['h', '4'],
        new_element(tag).data == ElementDataView::Heading(HeadingLevel::Heading5) <==> tag
            == seq!['h', '5'],
        new_element(tag).data == ElementDataView::Heading(HeadingLevel::Heading6) <==> tag
            == seq!['h', '6'],
        new_element(tag).data is Image <==> element_type(tag)
            == ElementTypeId::HTMLImageElementTypeId,
        new_element(tag).data matches ElementDataView::Image { image } ==> image is None,
        new_element(tag).data is IFrame <==> element_type(tag)
            == ElementTypeId::HTMLIframeElementTypeId,
        new_element(tag).data matches ElementDataView::IFrame { frame, size, sandbox }
            ==> frame is None && size is None && sandbox is None,
        new_element(tag).data is Media <==> element_type(tag)
            == ElementTypeId::HTMLAudioElementTypeId || element_type(tag)
            == ElementTypeId::HTMLVideoElementTypeId,
{
    law_type_comes_from_its_tags(tag);
    reveal_strlit("h1");
    reveal_strlit("h2");
    reveal_strlit("h3");
    reveal_strlit("h4");
    reveal_strlit("h5");
    reveal_strlit("h6");
    reveal_strlit("img");
    reveal_strlit("iframe");
    reveal_strlit("audio");
    reveal_strlit("video");
    assert("h1"@ =~= seq!['h', '1']);
    assert("h2"@ =~= seq!['h', '2']);
    assert("h3"@ =~= seq!['h', '3']);
    assert("h4"@ =~= seq!['h', '4']);
    assert("h5"@ =~= seq!['h', '5']);
    assert("h6"@ =~= seq!['h', '6']);
    assert("h1"@[1] == '1' && "h2"@[1] == '2' && "h3"@[1] == '3');
    assert("h4"@[1] == '4' && "h5"@[1] == '5' && "h6"@[1] == '6');
    assert("img"@.len() == 3 && "iframe"@.len() == 6);
    assert("audio"@.len() == 5 && "video"@.len() == 5);
}

/// Makes the element that a tag name stands for, without attributes.
pub fn build_element_from_tag(tag: &str) -> (r: Element)
    ensures
        r@ == new_element(tag@),
        r@.wf(),
        r.type_id == element_type(tag@),
        r.tag_name@ == tag@,
        r.attrs@.len() == 0,
        match r.data {
            ElementData::Plain => {
                &&& r.type_id != ElementTypeId::HTMLHeadingElementTypeId
                &&& r.type_id != ElementTypeId::HTMLImageElementTypeId
                &&& r.type_id != ElementTypeId::HTMLIframeElementTypeId
                &&& r.type_id != ElementTypeId::HTMLAudioElementTypeId
                &&& r.type_id != ElementTypeId::HTMLVideoElementTypeId
            },
            ElementData::Media => r.type_id == ElementTypeId::HTMLAudioElementTypeId || r.type_id
                == ElementTypeId::HTMLVideoElementTypeId,
            ElementData::Heading(level) => {
                &&& r.type_id == ElementTypeId::HTMLHeadingElementTypeId
                &&& tag@ == match level {
                    HeadingLevel::Heading1 => seq!['h', '1'],
                    HeadingLevel::Heading2 => seq!['h', '2'],
                    HeadingLevel::Heading3 => seq!['h', '3'],
                    HeadingLevel::Heading4 => seq!['h', '4'],
                    HeadingLevel::Heading5 => seq!['h', '5'],
                    HeadingLevel::Heading6 => seq!['h', '6'],
                }
            },
            ElementData::Image { image } => r.type_id == ElementTypeId::HTMLImageElementTypeId
                && image is None,
            ElementData::IFrame { frame, size, sandbox } => r.type_id
                == ElementTypeId::HTMLIframeElementTypeId && frame is None && size is None
                && sandbox is None,
        },
{
    proof {
        law_new_element(tag@);
    }
    let r = Element {
        type_id: type_of_tag(tag),
        tag_name: tag.to_string(),
        attrs: Vec::new(),
        data: data_of_tag(tag),
    };
    assert(r@.attrs =~= Seq::empty());
    r
}

/// The element of a start tag: the one that its name stands for, with its
/// attributes set in the order in which they were read.
pub open spec fn element_of_tag(tag: TagView) -> ElementView {
    set_attrs_spec(new_element(tag.name), tag.attributes)
}

/// Makes the element of a start tag.
pub fn build_element(tag: &Tag) -> (r: Element)
    ensures
        r@ == element_of_tag(tag@),
        r@.wf(),
        r.type_id == element_type(tag.name@),
        r.tag_name@ == tag.name@,
        forall|name: Seq<char>| #[trigger]
            attr_value(attrs_view(r.attrs@), name) == last_value(
                attrs_view(tag.attributes@),
                name,
            ),
        match r.data {
            ElementData::IFrame { frame, size, sandbox } => {
                &&& tag.name@ == "iframe"@
                &&& frame is None
                &&& size is None
                &&& opt_text(sandbox) == last_value(attrs_view(tag.attributes@), "sandbox"@)
            },
            data => tag.name@ != "iframe"@ && data@ == new_element(tag.name@).data,
        },
{
    let mut element = build_element_from_tag(tag.name.as_str());
    let mut i: usize = 0;
    assert(tag@.attributes.take(0) =~= Seq::empty());
    while i < tag.attributes.len()
        invariant
            0 <= i <= tag.attributes.len(),
            element@ == set_attrs_spec(
                new_element(tag.name@),
                tag@.attributes.take(i as int),
            ),
        decreases tag.attributes.len() - i,
    {
        let attr = &tag.attributes[i];
        assert(tag@.attributes[i as int] == attr@);
        assert(tag@.attributes.take(i + 1).drop_last() =~= tag@.attributes.take(i as int));
        element.set_attr(attr.name.as_str(), attr.value.as_str());
        i = i + 1;
    }
    assert(tag@.attributes.take(i as int) =~= tag@.attributes);
    proof {
        law_element_of_tag(tag@, tag@.name);
        assert forall|name: Seq<char>| #[trigger]
            attr_value(attrs_view(element.attrs@), name) == last_value(
                attrs_view(tag.attributes@),
                name,
            ) by {
            law_element_of_tag(tag@, name);
        }
    }
    element
}

/// Setting attributes one after the other leaves the type and the name of the
/// element alone, sets its attribute list accordingly, and sandboxes a frame
/// exactly where `sandbox` is among them.
proof fn lemma_set_attrs(element: ElementView, list: Seq<AttrView>)
    ensures
        set_attrs_spec(element, list).type_id == element.type_id,
        set_attrs_spec(element, list).tag_name == element.tag_name,
        set_attrs_spec(element, list).attrs == with_attrs(element.attrs, list),
        match element.data {
            ElementDataView::IFrame { frame, size, sandbox } => set_attrs_spec(element, list).data
                == (ElementDataView::IFrame {
                frame,
                size,
                sandbox: match last_value(list, "sandbox"@) {
                    Some(v) => Some(v),
                    None => sandbox,
                },
            }),
            data => set_attrs_spec(element, list).data == data,
        },
    decreases list.len(),
{
    if list.len() != 0 {
        lemma_set_attrs(element, list.drop_last());
    }
}

/// Of the element of a start tag: its type and its name are those of the tag
/// name, each attribute has the last value that the tag gives it, none occurs
/// twice. An `iframe` holds what a frame holds, and is sandboxed where it has a
/// `sandbox` attribute; nothing else is a frame.
pub proof fn law_element_of_tag(tag: TagView, name: Seq<char>)
    ensures
        element_of_tag(tag).type_id == element_type(tag.name),
        element_of_tag(tag).tag_name == tag.name,
        attr_value(element_of_tag(tag).attrs, name) == last_value(tag.attributes, name),
        element_of_tag(tag).wf(),
        match element_of_tag(tag).data {
            ElementDataView::IFrame { frame, size, sandbox } => tag.name == "iframe"@
                && frame is None && size is None && sandbox == last_value(
                tag.attributes,
                "sandbox"@,
            ),
            data => tag.name != "iframe"@ && data == element_data(tag.name),
        },
{
    lemma_set_attrs(new_element(tag.name), tag.attributes);
    law_tag_attributes(tag.attributes, name);
    law_tag_attributes(tag.attributes, "sandbox"@);
    reveal_strlit("img");
    reveal_strlit("iframe");
    assert("img"@.len() != "iframe"@.len());
}

/// The value of an element shows all that the element holds.
pub proof fn law_element_view(element: Element)
    ensures
        element@.type_id == element.type_id,
        element@.tag_name == element.tag_name@,
        element@.attrs == attrs_view(element.attrs@),
        match element.data {
            ElementData::Plain => element@.data is Plain,
            ElementData::Media => element@.data is Media,
            ElementData::Heading(level) => element@.data == ElementDataView::Heading(level),
            ElementData::Image { image } => element@.data is Image && match image {
                Some(url) => element@.data->image == Some(url.text@),
                None => element@.data->image is None,
            },
            ElementData::IFrame { frame, size, sandbox } => {
                &&& element@.data is IFrame
                &&& element@.data->size == size
                &&& match frame {
                    Some(url) => element@.data->frame == Some(url.text@),
                    None => element@.data->frame is None,
                }
                &&& match sandbox {
                    Some(text) => element@.data->sandbox == Some(text@),
                    None => element@.data->sandbox is None,
                }
            },
        },
{
}

/// The element of a start tag keeps its attributes in the order in which the tag
/// first names them; it has those that the tag names, each once, and no others.
pub proof fn law_element_attributes(tag: TagView, a: Seq<char>, b: Seq<char>)
    ensures
        ({
            let kept = element_of_tag(tag).attrs;
            let list = tag.attributes;
            &&& forall|i: int, j: int|
                #![trigger kept[i], kept[j]]
                0 <= i < j < kept.len() ==> kept[i].name != kept[j].name
            &&& attr_position(kept, a) < kept.len() <==> attr_position(list, a) < list.len()
            &&& attr_position(kept, b) < kept.len() <==> attr_position(list, b) < list.len()
            &&& attr_position(list, a) < list.len() && attr_position(list, b) < list.len() ==> (
            attr_position(kept, a) < attr_position(kept, b) <==> attr_position(list, a)
                < attr_position(list, b))
        }),
{
    lemma_set_attrs(new_element(tag.name), tag.attributes);
    law_element_of_tag(tag, a);
    law_attributes_in_order(tag.attributes, a, b);
    assert(new_element(tag.name).attrs =~= Seq::empty());
}

} // verus!
