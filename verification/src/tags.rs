//! Tag names, and the element types that they stand for.

use vstd::prelude::*;

use crate::text::eq_slice;

verus! {

/// The type of an element.
#[derive(Clone, Copy, Debug, PartialEq, Eq, Structural)]
pub enum ElementTypeId {
    HTMLAnchorElementTypeId,
    HTMLAppletElementTypeId,
    HTMLAreaElementTypeId,
    HTMLBaseElementTypeId,
    HTMLBRElementTypeId,
    HTMLBodyElementTypeId,
    HTMLButtonElementTypeId,
    HTMLCanvasElementTypeId,
    HTMLDataElementTypeId,
    HTMLDataListElementTypeId,
    HTMLDirectoryElementTypeId,
    HTMLDivElementTypeId,
    HTMLDListElementTypeId,
    HTMLEmbedElementTypeId,
    HTMLFieldSetElementTypeId,
    HTMLFontElementTypeId,
    HTMLFormElementTypeId,
    HTMLFrameElementTypeId,
    HTMLFrameSetElementTypeId,
    HTMLHRElementTypeId,
    HTMLHeadElementTypeId,
    HTMLHtmlElementTypeId,
    HTMLInputElementTypeId,
    HTMLLabelElementTypeId,
    HTMLLegendElementTypeId,
    HTMLLinkElementTypeId,
    HTMLLIElementTypeId,
    HTMLMapElementTypeId,
    HTMLMetaElementTypeId,
    HTMLMeterElementTypeId,
    HTMLModElementTypeId,
    HTMLObjectElementTypeId,
    HTMLOListElementTypeId,
    HTMLOptionElementTypeId,
    HTMLOptGroupElementTypeId,
    HTMLOutputElementTypeId,
    HTMLParagraphElementTypeId,
    HTMLParamElementTypeId,
    HTMLPreElementTypeId,
    HTMLProgressElementTypeId,
    HTMLQuoteElementTypeId,
    HTMLScriptElementTypeId,
    HTMLSelectElementTypeId,
    HTMLSourceElementTypeId,
    HTMLSpanElementTypeId,
    HTMLStyleElementTypeId,
    HTMLTableElementTypeId,
    HTMLTableCaptionElementTypeId,
    HTMLTableCellElementTypeId,
    HTMLTableColElementTypeId,
    HTMLTableSectionElementTypeId,
    HTMLTemplateElementTypeId,
    HTMLTextAreaElementTypeId,
    HTMLTimeElementTypeId,
    HTMLTitleElementTypeId,
    HTMLTableRowElementTypeId,
    HTMLTrackElementTypeId,
    HTMLUListElementTypeId,
    HTMLImageElementTypeId,
    HTMLIframeElementTypeId,
    HTMLHeadingElementTypeId,
    HTMLElementTypeId,
    HTMLAudioElementTypeId,
    HTMLVideoElementTypeId,
    HTMLUnknownElementTypeId,
}

/// The tag names that have an element type of their own.
pub open spec fn html_tags() -> Seq<(Seq<char>, ElementTypeId)> {
    seq![
        ("a"@, ElementTypeId::HTMLAnchorElementTypeId),
        ("applet"@, ElementTypeId::HTMLAppletElementTypeId),
        ("area"@, ElementTypeId::HTMLAreaElementTypeId),
        ("base"@, ElementTypeId::HTMLBaseElementTypeId),
        ("br"@, ElementTypeId::HTMLBRElementTypeId),
        ("body"@, ElementTypeId::HTMLBodyElementTypeId),
        ("button"@, ElementTypeId::HTMLButtonElementTypeId),
        ("canvas"@, ElementTypeId::HTMLCanvasElementTypeId),
        ("data"@, ElementTypeId::HTMLDataElementTypeId),
        ("datalist"@, ElementTypeId::HTMLDataListElementTypeId),
        ("directory"@, ElementTypeId::HTMLDirectoryElementTypeId),
        ("div"@, ElementTypeId::HTMLDivElementTypeId),
        ("dl"@, ElementTypeId::HTMLDListElementTypeId),
        ("embed"@, ElementTypeId::HTMLEmbedElementTypeId),
        ("fieldset"@, ElementTypeId::HTMLFieldSetElementTypeId),
        ("font"@, ElementTypeId::HTMLFontElementTypeId),
        ("form"@, ElementTypeId::HTMLFormElementTypeId),
        ("frame"@, ElementTypeId::HTMLFrameElementTypeId),
        ("frameset"@, ElementTypeId::HTMLFrameSetElementTypeId),
        ("hr"@, ElementTypeId::HTMLHRElementTypeId),
        ("head"@, ElementTypeId::HTMLHeadElementTypeId),
        ("html"@, ElementTypeId::HTMLHtmlElementTypeId),
        ("input"@, ElementTypeId::HTMLInputElementTypeId),
        ("label"@, ElementTypeId::HTMLLabelElementTypeId),
        ("legend"@, ElementTypeId::HTMLLegendElementTypeId),
        ("link"@, ElementTypeId::HTMLLinkElementTypeId),
        ("li"@, ElementTypeId::HTMLLIElementTypeId),
        ("map"@, ElementTypeId::HTMLMapElementTypeId),
        ("meta"@, ElementTypeId::HTMLMetaElementTypeId),
        ("meter"@, ElementTypeId::HTMLMeterElementTypeId),
        ("mod"@, ElementTypeId::HTMLModElementTypeId),
        ("object"@, ElementTypeId::HTMLObjectElementTypeId),
        ("ol"@, ElementTypeId::HTMLOListElementTypeId),
        ("option"@, ElementTypeId::HTMLOptionElementTypeId),
        ("optgroup"@, ElementTypeId::HTMLOptGroupElementTypeId),
        ("output"@, ElementTypeId::HTMLOutputElementTypeId),
        ("p"@, ElementTypeId::HTMLParagraphElementTypeId),
        ("param"@, ElementTypeId::HTMLParamElementTypeId),
        ("pre"@, ElementTypeId::HTMLPreElementTypeId),
        ("progress"@, ElementTypeId::HTMLProgressElementTypeId),
        ("q"@, ElementTypeId::HTMLQuoteElementTypeId),
        ("script"@, ElementTypeId::HTMLScriptElementTypeId),
        ("select"@, ElementTypeId::HTMLSelectElementTypeId),
        ("source"@, ElementTypeId::HTMLSourceElementTypeId),
        ("span"@, ElementTypeId::HTMLSpanElementTypeId),
        ("style"@, ElementTypeId::HTMLStyleElementTypeId),
        ("table"@, ElementTypeId::HTMLTableElementTypeId),
        ("caption"@, ElementTypeId::HTMLTableCaptionElementTypeId),
        ("td"@, ElementTypeId::HTMLTableCellElementTypeId),
        ("col"@, ElementTypeId::HTMLTableColElementTypeId),
        ("colgroup"@, ElementTypeId::HTMLTableColElementTypeId),
        ("tbody"@, ElementTypeId::HTMLTableSectionElementTypeId),
        ("template"@, ElementTypeId::HTMLTemplateElementTypeId),
        ("textarea"@, ElementTypeId::HTMLTextAreaElementTypeId),
        ("time"@, ElementTypeId::HTMLTimeElementTypeId),
        ("title"@, ElementTypeId::HTMLTitleElementTypeId),
        ("tr"@, ElementTypeId::HTMLTableRowElementTypeId),
        ("track"@, ElementTypeId::HTMLTrackElementTypeId),
        ("ul"@, ElementTypeId::HTMLUListElementTypeId),
        ("img"@, ElementTypeId::HTMLImageElementTypeId),
        ("iframe"@, ElementTypeId::HTMLIframeElementTypeId),
        ("h1"@, ElementTypeId::HTMLHeadingElementTypeId),
        ("h2"@, ElementTypeId::HTMLHeadingElementTypeId),
        ("h3"@, ElementTypeId::HTMLHeadingElementTypeId),
        ("h4"@, ElementTypeId::HTMLHeadingElementTypeId),
        ("h5"@, ElementTypeId::HTMLHeadingElementTypeId),
        ("h6"@, ElementTypeId::HTMLHeadingElementTypeId),
        ("aside"@, ElementTypeId::HTMLElementTypeId),
        ("b"@, ElementTypeId::HTMLElementTypeId),
        ("i"@, ElementTypeId::HTMLElementTypeId),
        ("section"@, ElementTypeId::HTMLElementTypeId),
        ("small"@, ElementTypeId::HTMLElementTypeId),
        ("audio"@, ElementTypeId::HTMLAudioElementTypeId),
        ("video"@, ElementTypeId::HTMLVideoElementTypeId),
    ]
}

/// Whether a tag name has an element type of its own. Names are compared as they
/// are written.
pub open spec fn is_html_tag(tag: Seq<char>) -> bool {
    exists|i: int| 0 <= i < html_tags().len() && (#[trigger] html_tags()[i]).0 == tag
}

/// The type of the element that a tag name stands for.
pub open spec fn element_type(tag: Seq<char>) -> ElementTypeId {
    if is_html_tag(tag) {
        html_tags()[choose|i: int|
            0 <= i < html_tags().len() && (#[trigger] html_tags()[i]).0 == tag].1
    } else {
        ElementTypeId::HTMLUnknownElementTypeId
    }
}

/// No tag name is listed twice.
pub proof fn law_tags_listed_once()
    ensures
        forall|i: int, j: int|
            #![trigger html_tags()[i], html_tags()[j]]
            0 <= i < j < html_tags().len() ==> html_tags()[i].0 != html_tags()[j].0,
{
    reveal_strlit("a");
    reveal_strlit("applet");
    reveal_strlit("area");
    reveal_strlit("base");
    reveal_strlit("br");
    reveal_strlit("body");
    reveal_strlit("button");
    reveal_strlit("canvas");
    reveal_strlit("data");
    reveal_strlit("datalist");
    reveal_strlit("directory");
    reveal_strlit("div");
    reveal_strlit("dl");
    reveal_strlit("embed");
    reveal_strlit("fieldset");
    reveal_strlit("font");
    reveal_strlit("form");
    reveal_strlit("frame");
    reveal_strlit("frameset");
    reveal_strlit("hr");
    reveal_strlit("head");
    reveal_strlit("html");
    reveal_strlit("input");
    reveal_strlit("label");
    reveal_strlit("legend");
    reveal_strlit("link");
    reveal_strlit("li");
    reveal_strlit("map");
    reveal_strlit("meta");
    reveal_strlit("meter");
    reveal_strlit("mod");
    reveal_strlit("object");
    reveal_strlit("ol");
    reveal_strlit("option");
    reveal_strlit("optgroup");
    reveal_strlit("output");
    reveal_strlit("p");
    reveal_strlit("param");
    reveal_strlit("pre");
    reveal_strlit("progress");
    reveal_strlit("q");
    reveal_strlit("script");
    reveal_strlit("select");
    reveal_strlit("source");
    reveal_strlit("span");
    reveal_strlit("style");
    reveal_strlit("table");
    reveal_strlit("caption");
    reveal_strlit("td");
    reveal_strlit("col");
    reveal_strlit("colgroup");
    reveal_strlit("tbody");
    reveal_strlit("template");
    reveal_strlit("textarea");
    reveal_strlit("time");
    reveal_strlit("title");
    reveal_strlit("tr");
    reveal_strlit("track");
    reveal_strlit("ul");
    reveal_strlit("img");
    reveal_strlit("iframe");
    reveal_strlit("h1");
    reveal_strlit("h2");
    reveal_strlit("h3");
    reveal_strlit("h4");
    reveal_strlit("h5");
    reveal_strlit("h6");
    reveal_strlit("aside");
    reveal_strlit("b");
    reveal_strlit("i");
    reveal_strlit("section");
    reveal_strlit("small");
    reveal_strlit("audio");
    reveal_strlit("video");
    assert("a"@.len() == 1 && "a"@[0] == 'a');
    assert("applet"@.len() == 6 && "applet"@[0] == 'a' && "applet"@[1] == 'p'
        && "applet"@[2] == 'p' && "applet"@[3] == 'l' && "applet"@[4] == 'e'
        && "applet"@[5] == 't');
    assert("area"@.len() == 4 && "area"@[0] == 'a' && "area"@[1] == 'r' && "area"@[2] == 'e'
        && "area"@[3] == 'a');
    assert("base"@.len() == 4 && "base"@[0] == 'b' && "base"@[1] == 'a' && "base"@[2] == 's'
        && "base"@[3] == 'e');
    assert("br"@.len() == 2 && "br"@[0] == 'b' && "br"@[1] == 'r');
    assert("body"@.len() == 4 && "body"@[0] == 'b' && "body"@[1] == 'o' && "body"@[2] == 'd'
        && "body"@[3] == 'y');
    assert("button"@.len() == 6 && "button"@[0] == 'b' && "button"@[1] == 'u'
        && "button"@[2] == 't' && "button"@[3] == 't' && "button"@[4] == 'o'
        && "button"@[5] == 'n');
    assert("canvas"@.len() == 6 && "canvas"@[0] == 'c' && "canvas"@[1] == 'a'
        && "canvas"@[2] == 'n' && "canvas"@[3] == 'v' && "canvas"@[4] == 'a'
        && "canvas"@[5] == 's');
    assert("data"@.len() == 4 && "data"@[0] == 'd' && "data"@[1] == 'a' && "data"@[2] == 't'
        && "data"@[3] == 'a');
    assert("datalist"@.len() == 8 && "datalist"@[0] == 'd' && "datalist"@[1] == 'a'
        && "datalist"@[2] == 't' && "datalist"@[3] == 'a' && "datalist"@[4] == 'l'
        && "datalist"@[5] == 'i' && "datalist"@[6] == 's' && "datalist"@[7] == 't');
    assert("directory"@.len() == 9 && "directory"@[0] == 'd' && "directory"@[1] == 'i'
        && "directory"@[2] == 'r' && "directory"@[3] == 'e' && "directory"@[4] == 'c'
        && "directory"@[5] == 't' && "directory"@[6] == 'o' && "directory"@[7] == 'r'
        && "directory"@[8] == 'y');
    assert("div"@.len() == 3 && "div"@[0] == 'd' && "div"@[1] == 'i' && "div"@[2] == 'v');
    assert("dl"@.len() == 2 && "dl"@[0] == 'd' && "dl"@[1] == 'l');
    assert("embed"@.len() == 5 && "embed"@[0] == 'e' && "embed"@[1] == 'm' && "embed"@[2] == 'b'
        && "embed"@[3] == 'e' && "embed"@[4] == 'd');
    assert("fieldset"@.len() == 8 && "fieldset"@[0] == 'f' && "fieldset"@[1] == 'i'
        && "fieldset"@[2] == 'e' && "fieldset"@[3] == 'l' && "fieldset"@[4] == 'd'
        && "fieldset"@[5] == 's' && "fieldset"@[6] == 'e' && "fieldset"@[7] == 't');
    assert("font"@.len() == 4 && "font"@[0] == 'f' && "font"@[1] == 'o' && "font"@[2] == 'n'
        && "font"@[3] == 't');
    assert("form"@.len() == 4 && "form"@[0] == 'f' && "form"@[1] == 'o' && "form"@[2] == 'r'
        && "form"@[3] == 'm');
    assert("frame"@.len() == 5 && "frame"@[0] == 'f' && "frame"@[1] == 'r' && "frame"@[2] == 'a'
        && "frame"@[3] == 'm' && "frame"@[4] == 'e');
    assert("frameset"@.len() == 8 && "frameset"@[0] == 'f' && "frameset"@[1] == 'r'
        && "frameset"@[2] == 'a' && "frameset"@[3] == 'm' && "frameset"@[4] == 'e'
        && "frameset"@[5] == 's' && "frameset"@[6] == 'e' && "frameset"@[7] == 't');
    assert("hr"@.len() == 2 && "hr"@[0] == 'h' && "hr"@[1] == 'r');
    assert("head"@.len() == 4 && "head"@[0] == 'h' && "head"@[1] == 'e' && "head"@[2] == 'a'
        && "head"@[3] == 'd');
    assert("html"@.len() == 4 && "html"@[0] == 'h' && "html"@[1] == 't' && "html"@[2] == 'm'
        && "html"@[3] == 'l');
    assert("input"@.len() == 5 && "input"@[0] == 'i' && "input"@[1] == 'n' && "input"@[2] == 'p'
        && "input"@[3] == 'u' && "input"@[4] == 't');
    assert("label"@.len() == 5 && "label"@[0] == 'l' && "label"@[1] == 'a' && "label"@[2] == 'b'
        && "label"@[3] == 'e' && "label"@[4] == 'l');
    assert("legend"@.len() == 6 && "legend"@[0] == 'l' && "legend"@[1] == 'e'
        && "legend"@[2] == 'g' && "legend"@[3] == 'e' && "legend"@[4] == 'n'
        && "legend"@[5] == 'd');
    assert("link"@.len() == 4 && "link"@[0] == 'l' && "link"@[1] == 'i' && "link"@[2] == 'n'
        && "link"@[3] == 'k');
    assert("li"@.len() == 2 && "li"@[0] == 'l' && "li"@[1] == 'i');
    assert("map"@.len() == 3 && "map"@[0] == 'm' && "map"@[1] == 'a' && "map"@[2] == 'p');
    assert("meta"@.len() == 4 && "meta"@[0] == 'm' && "meta"@[1] == 'e' && "meta"@[2] == 't'
        && "meta"@[3] == 'a');
    assert("meter"@.len() == 5 && "meter"@[0] == 'm' && "meter"@[1] == 'e' && "meter"@[2] == 't'
        && "meter"@[3] == 'e' && "meter"@[4] == 'r');
    assert("mod"@.len() == 3 && "mod"@[0] == 'm' && "mod"@[1] == 'o' && "mod"@[2] == 'd');
    assert("object"@.len() == 6 && "object"@[0] == 'o' && "object"@[1] == 'b'
        && "object"@[2] == 'j' && "object"@[3] == 'e' && "object"@[4] == 'c'
        && "object"@[5] == 't');
    assert("ol"@.len() == 2 && "ol"@[0] == 'o' && "ol"@[1] == 'l');
    assert("option"@.len() == 6 && "option"@[0] == 'o' && "option"@[1] == 'p'
        && "option"@[2] == 't' && "option"@[3] == 'i' && "option"@[4] == 'o'
        && "option"@[5] == 'n');
    assert("optgroup"@.len() == 8 && "optgroup"@[0] == 'o' && "optgroup"@[1] == 'p'
        && "optgroup"@[2] == 't' && "optgroup"@[3] == 'g' && "optgroup"@[4] == 'r'
        && "optgroup"@[5] == 'o' && "optgroup"@[6] == 'u' && "optgroup"@[7] == 'p');
    assert("output"@.len() == 6 && "output"@[0] == 'o' && "output"@[1] == 'u'
        && "output"@[2] == 't' && "output"@[3] == 'p' && "output"@[4] == 'u'
        && "output"@[5] == 't');
    assert("p"@.len() == 1 && "p"@[0] == 'p');
    assert("param"@.len() == 5 && "param"@[0] == 'p' && "param"@[1] == 'a' && "param"@[2] == 'r'
        && "param"@[3] == 'a' && "param"@[4] == 'm');
    assert("pre"@.len() == 3 && "pre"@[0] == 'p' && "pre"@[1] == 'r' && "pre"@[2] == 'e');
    assert("progress"@.len() == 8 && "progress"@[0] == 'p' && "progress"@[1] == 'r'
        && "progress"@[2] == 'o' && "progress"@[3] == 'g' && "progress"@[4] == 'r'
        && "progress"@[5] == 'e' && "progress"@[6] == 's' && "progress"@[7] == 's');
    assert("q"@.len() == 1 && "q"@[0] == 'q');
    assert("script"@.len() == 6 && "script"@[0] == 's' && "script"@[1] == 'c'
        && "script"@[2] == 'r' && "script"@[3] == 'i' && "script"@[4] == 'p'
        && "script"@[5] == 't');
    assert("select"@.len() == 6 && "select"@[0] == 's' && "select"@[1] == 'e'
        && "select"@[2] == 'l' && "select"@[3] == 'e' && "select"@[4] == 'c'
        && "select"@[5] == 't');
    assert("source"@.len() == 6 && "source"@[0] == 's' && "source"@[1] == 'o'
        && "source"@[2] == 'u' && "source"@[3] == 'r' && "source"@[4] == 'c'
        && "source"@[5] == 'e');
    assert("span"@.len() == 4 && "span"@[0] == 's' && "span"@[1] == 'p' && "span"@[2] == 'a'
        && "span"@[3] == 'n');
    assert("style"@.len() == 5 && "style"@[0] == 's' && "style"@[1] == 't' && "style"@[2] == 'y'
        && "style"@[3] == 'l' && "style"@[4] == 'e');
    assert("table"@.len() == 5 && "table"@[0] == 't' && "table"@[1] == 'a' && "table"@[2] == 'b'
        && "table"@[3] == 'l' && "table"@[4] == 'e');
    assert("caption"@.len() == 7 && "caption"@[0] == 'c' && "caption"@[1] == 'a'
        && "caption"@[2] == 'p' && "caption"@[3] == 't' && "caption"@[4] == 'i'
        && "caption"@[5] == 'o' && "caption"@[6] == 'n');
    assert("td"@.len() == 2 && "td"@[0] == 't' && "td"@[1] == 'd');
    assert("col"@.len() == 3 && "col"@[0] == 'c' && "col"@[1] == 'o' && "col"@[2] == 'l');
    assert("colgroup"@.len() == 8 && "colgroup"@[0] == 'c' && "colgroup"@[1] == 'o'
        && "colgroup"@[2] == 'l' && "colgroup"@[3] == 'g' && "colgroup"@[4] == 'r'
        && "colgroup"@[5] == 'o' && "colgroup"@[6] == 'u' && "colgroup"@[7] == 'p');
    assert("tbody"@.len() == 5 && "tbody"@[0] == 't' && "tbody"@[1] == 'b' && "tbody"@[2] == 'o'
        && "tbody"@[3] == 'd' && "tbody"@[4] == 'y');
    assert("template"@.len() == 8 && "template"@[0] == 't' && "template"@[1] == 'e'
        && "template"@[2] == 'm' && "template"@[3] == 'p' && "template"@[4] == 'l'
        && "template"@[5] == 'a' && "template"@[6] == 't' && "template"@[7] == 'e');
    assert("textarea"@.len() == 8 && "textarea"@[0] == 't' && "textarea"@[1] == 'e'
        && "textarea"@[2] == 'x' && "textarea"@[3] == 't' && "textarea"@[4] == 'a'
        && "textarea"@[5] == 'r' && "textarea"@[6] == 'e' && "textarea"@[7] == 'a');
    assert("time"@.len() == 4 && "time"@[0] == 't' && "time"@[1] == 'i' && "time"@[2] == 'm'
        && "time"@[3] == 'e');
    assert("title"@.len() == 5 && "title"@[0] == 't' && "title"@[1] == 'i' && "title"@[2] == 't'
        && "title"@[3] == 'l' && "title"@[4] == 'e');
    assert("tr"@.len() == 2 && "tr"@[0] == 't' && "tr"@[1] == 'r');
    assert("track"@.len() == 5 && "track"@[0] == 't' && "track"@[1] == 'r' && "track"@[2] == 'a'
        && "track"@[3] == 'c' && "track"@[4] == 'k');
    assert("ul"@.len() == 2 && "ul"@[0] == 'u' && "ul"@[1] == 'l');
    assert("img"@.len() == 3 && "img"@[0] == 'i' && "img"@[1] == 'm' && "img"@[2] == 'g');
    assert("iframe"@.len() == 6 && "iframe"@[0] == 'i' && "iframe"@[1] == 'f'
        && "iframe"@[2] == 'r' && "iframe"@[3] == 'a' && "iframe"@[4] == 'm'
        && "iframe"@[5] == 'e');
    assert("h1"@.len() == 2 && "h1"@[0] == 'h' && "h1"@[1] == '1');
    assert("h2"@.len() == 2 && "h2"@[0] == 'h' && "h2"@[1] == '2');
    assert("h3"@.len() == 2 && "h3"@[0] == 'h' && "h3"@[1] == '3');
    assert("h4"@.len() == 2 && "h4"@[0] == 'h' && "h4"@[1] == '4');
    assert("h5"@.len() == 2 && "h5"@[0] == 'h' && "h5"@[1] == '5');
    assert("h6"@.len() == 2 && "h6"@[0] == 'h' && "h6"@[1] == '6');
    assert("aside"@.len() == 5 && "aside"@[0] == 'a' && "aside"@[1] == 's' && "aside"@[2] == 'i'
        && "aside"@[3] == 'd' && "aside"@[4] == 'e');
    assert("b"@.len() == 1 && "b"@[0] == 'b');
    assert("i"@.len() == 1 && "i"@[0] == 'i');
    assert("section"@.len() == 7 && "section"@[0] == 's' && "section"@[1] == 'e'
        && "section"@[2] == 'c' && "section"@[3] == 't' && "section"@[4] == 'i'
        && "section"@[5] == 'o' && "section"@[6] == 'n');
    assert("small"@.len() == 5 && "small"@[0] == 's' && "small"@[1] == 'm' && "small"@[2] == 'a'
        && "small"@[3] == 'l' && "small"@[4] == 'l');
    assert("audio"@.len() == 5 && "audio"@[0] == 'a' && "audio"@[1] == 'u' && "audio"@[2] == 'd'
        && "audio"@[3] == 'i' && "audio"@[4] == 'o');
    assert("video"@.len() == 5 && "video"@[0] == 'v' && "video"@[1] == 'i' && "video"@[2] == 'd'
        && "video"@[3] == 'e' && "video"@[4] == 'o');
}

/// A listed tag name stands for the element type that it is listed with.
pub proof fn law_listed_tag(i: int)
    requires
        0 <= i < html_tags().len(),
    ensures
        element_type(html_tags()[i].0) == html_tags()[i].1,
{
    law_tags_listed_once();
}

/// The type of the element that a tag name stands for.
pub fn type_of_tag(tag: &str) -> (r: ElementTypeId)
    ensures
        r == element_type(tag@),
{
    if eq_slice(tag, "a") {
        proof {
            law_listed_tag(0);
        }
        return ElementTypeId::HTMLAnchorElementTypeId;
    }
    if eq_slice(tag, "applet") {
        proof {
            law_listed_tag(1);
        }
        return ElementTypeId::HTMLAppletElementTypeId;
    }
    if eq_slice(tag, "area") {
        proof {
            law_listed_tag(2);
        }
        return ElementTypeId::HTMLAreaElementTypeId;
    }
    if eq_slice(tag, "base") {
        proof {
            law_listed_tag(3);
        }
        return ElementTypeId::HTMLBaseElementTypeId;
    }
    if eq_slice(tag, "br") {
        proof {
            law_listed_tag(4);
        }
        return ElementTypeId::HTMLBRElementTypeId;
    }
    if eq_slice(tag, "body") {
        proof {
            law_listed_tag(5);
        }
        return ElementTypeId::HTMLBodyElementTypeId;
    }
    if eq_slice(tag, "button") {
        proof {
            law_listed_tag(6);
        }
        return ElementTypeId::HTMLButtonElementTypeId;
    }
    if eq_slice(tag, "canvas") {
        proof {
            law_listed_tag(7);
        }
        return ElementTypeId::HTMLCanvasElementTypeId;
    }
    if eq_slice(tag, "data") {
        proof {
            law_listed_tag(8);
        }
        return ElementTypeId::HTMLDataElementTypeId;
    }
    if eq_slice(tag, "datalist") {
        proof {
            law_listed_tag(9);
        }
        return ElementTypeId::HTMLDataListElementTypeId;
    }
    if eq_slice(tag, "directory") {
        proof {
            law_listed_tag(10);
        }
        return ElementTypeId::HTMLDirectoryElementTypeId;
    }
    if eq_slice(tag, "div") {
        proof {
            law_listed_tag(11);
        }
        return ElementTypeId::HTMLDivElementTypeId;
    }
    if eq_slice(tag, "dl") {
        proof {
            law_listed_tag(12);
        }
        return ElementTypeId::HTMLDListElementTypeId;
    }
    if eq_slice(tag, "embed") {
        proof {
            law_listed_tag(13);
        }
        return ElementTypeId::HTMLEmbedElementTypeId;
    }
    if eq_slice(tag, "fieldset") {
        proof {
            law_listed_tag(14);
        }
        return ElementTypeId::HTMLFieldSetElementTypeId;
    }
    if eq_slice(tag, "font") {
        proof {
            law_listed_tag(15);
        }
        return ElementTypeId::HTMLFontElementTypeId;
    }
    if eq_slice(tag, "form") {
        proof {
            law_listed_tag(16);
        }
        return ElementTypeId::HTMLFormElementTypeId;
    }
    if eq_slice(tag, "frame") {
        proof {
            law_listed_tag(17);
        }
        return ElementTypeId::HTMLFrameElementTypeId;
    }
    if eq_slice(tag, "frameset") {
        proof {
            law_listed_tag(18);
        }
        return ElementTypeId::HTMLFrameSetElementTypeId;
    }
    if eq_slice(tag, "hr") {
        proof {
            law_listed_tag(19);
        }
        return ElementTypeId::HTMLHRElementTypeId;
    }
    if eq_slice(tag, "head") {
        proof {
            law_listed_tag(20);
        }
        return ElementTypeId::HTMLHeadElementTypeId;
    }
    if eq_slice(tag, "html") {
        proof {
            law_listed_tag(21);
        }
        return ElementTypeId::HTMLHtmlElementTypeId;
    }
    if eq_slice(tag, "input") {
        proof {
            law_listed_tag(22);
        }
        return ElementTypeId::HTMLInputElementTypeId;
    }
    if eq_slice(tag, "label") {
        proof {
            law_listed_tag(23);
        }
        return ElementTypeId::HTMLLabelElementTypeId;
    }
    if eq_slice(tag, "legend") {
        proof {
            law_listed_tag(24);
        }
        return ElementTypeId::HTMLLegendElementTypeId;
    }
    if eq_slice(tag, "link") {
        proof {
            law_listed_tag(25);
        }
        return ElementTypeId::HTMLLinkElementTypeId;
    }
    if eq_slice(tag, "li") {
        proof {
            law_listed_tag(26);
        }
        return ElementTypeId::HTMLLIElementTypeId;
    }
    if eq_slice(tag, "map") {
        proof {
            law_listed_tag(27);
        }
        return ElementTypeId::HTMLMapElementTypeId;
    }
    if eq_slice(tag, "meta") {
        proof {
            law_listed_tag(28);
        }
        return ElementTypeId::HTMLMetaElementTypeId;
    }
    if eq_slice(tag, "meter") {
        proof {
            law_listed_tag(29);
        }
        return ElementTypeId::HTMLMeterElementTypeId;
    }
    if eq_slice(tag, "mod") {
        proof {
            law_listed_tag(30);
        }
        return ElementTypeId::HTMLModElementTypeId;
    }
    if eq_slice(tag, "object") {
        proof {
            law_listed_tag(31);
        }
        return ElementTypeId::HTMLObjectElementTypeId;
    }
    if eq_slice(tag, "ol") {
        proof {
            law_listed_tag(32);
        }
        return ElementTypeId::HTMLOListElementTypeId;
    }
    if eq_slice(tag, "option") {
        proof {
            law_listed_tag(33);
        }
        return ElementTypeId::HTMLOptionElementTypeId;
    }
    if eq_slice(tag, "optgroup") {
        proof {
            law_listed_tag(34);
        }
        return ElementTypeId::HTMLOptGroupElementTypeId;
    }
    if eq_slice(tag, "output") {
        proof {
            law_listed_tag(35);
        }
        return ElementTypeId::HTMLOutputElementTypeId;
    }
    if eq_slice(tag, "p") {
        proof {
            law_listed_tag(36);
        }
        return ElementTypeId::HTMLParagraphElementTypeId;
    }
    if eq_slice(tag, "param") {
        proof {
            law_listed_tag(37);
        }
        return ElementTypeId::HTMLParamElementTypeId;
    }
    if eq_slice(tag, "pre") {
        proof {
            law_listed_tag(38);
        }
        return ElementTypeId::HTMLPreElementTypeId;
    }
    if eq_slice(tag, "progress") {
        proof {
            law_listed_tag(39);
        }
        return ElementTypeId::HTMLProgressElementTypeId;
    }
    if eq_slice(tag, "q") {
        proof {
            law_listed_tag(40);
        }
        return ElementTypeId::HTMLQuoteElementTypeId;
    }
    if eq_slice(tag, "script") {
        proof {
            law_listed_tag(41);
        }
        return ElementTypeId::HTMLScriptElementTypeId;
    }
    if eq_slice(tag, "select") {
        proof {
            law_listed_tag(42);
        }
        return ElementTypeId::HTMLSelectElementTypeId;
    }
    if eq_slice(tag, "source") {
        proof {
            law_listed_tag(43);
        }
        return ElementTypeId::HTMLSourceElementTypeId;
    }
    if eq_slice(tag, "span") {
        proof {
            law_listed_tag(44);
        }
        return ElementTypeId::HTMLSpanElementTypeId;
    }
    if eq_slice(tag, "style") {
        proof {
            law_listed_tag(45);
        }
        return ElementTypeId::HTMLStyleElementTypeId;
    }
    if eq_slice(tag, "table") {
        proof {
            law_listed_tag(46);
        }
        return ElementTypeId::HTMLTableElementTypeId;
    }
    if eq_slice(tag, "caption") {
        proof {
            law_listed_tag(47);
        }
        return ElementTypeId::HTMLTableCaptionElementTypeId;
    }
    if eq_slice(tag, "td") {
        proof {
            law_listed_tag(48);
        }
        return ElementTypeId::HTMLTableCellElementTypeId;
    }
    if eq_slice(tag, "col") {
        proof {
            law_listed_tag(49);
        }
        return ElementTypeId::HTMLTableColElementTypeId;
    }
    if eq_slice(tag, "colgroup") {
        proof {
            law_listed_tag(50);
        }
        return ElementTypeId::HTMLTableColElementTypeId;
    }
    if eq_slice(tag, "tbody") {
        proof {
            law_listed_tag(51);
        }
        return ElementTypeId::HTMLTableSectionElementTypeId;
    }
    if eq_slice(tag, "template") {
        proof {
            law_listed_tag(52);
        }
        return ElementTypeId::HTMLTemplateElementTypeId;
    }
    if eq_slice(tag, "textarea") {
        proof {
            law_listed_tag(53);
        }
        return ElementTypeId::HTMLTextAreaElementTypeId;
    }
    if eq_slice(tag, "time") {
        proof {
            law_listed_tag(54);
        }
        return ElementTypeId::HTMLTimeElementTypeId;
    }
    if eq_slice(tag, "title") {
        proof {
            law_listed_tag(55);
        }
        return ElementTypeId::HTMLTitleElementTypeId;
    }
    if eq_slice(tag, "tr") {
        proof {
            law_listed_tag(56);
        }
        return ElementTypeId::HTMLTableRowElementTypeId;
    }
    if eq_slice(tag, "track") {
        proof {
            law_listed_tag(57);
        }
        return ElementTypeId::HTMLTrackElementTypeId;
    }
    if eq_slice(tag, "ul") {
        proof {
            law_listed_tag(58);
        }
        return ElementTypeId::HTMLUListElementTypeId;
    }
    if eq_slice(tag, "img") {
        proof {
            law_listed_tag(59);
        }
        return ElementTypeId::HTMLImageElementTypeId;
    }
    if eq_slice(tag, "iframe") {
        proof {
            law_listed_tag(60);
        }
        return ElementTypeId::HTMLIframeElementTypeId;
    }
    if eq_slice(tag, "h1") {
        proof {
            law_listed_tag(61);
        }
        return ElementTypeId::HTMLHeadingElementTypeId;
    }
    if eq_slice(tag, "h2") {
        proof {
            law_listed_tag(62);
        }
        return ElementTypeId::HTMLHeadingElementTypeId;
    }
    if eq_slice(tag, "h3") {
        proof {
            law_listed_tag(63);
        }
        return ElementTypeId::HTMLHeadingElementTypeId;
    }
    if eq_slice(tag, "h4") {
        proof {
            law_listed_tag(64);
        }
        return ElementTypeId::HTMLHeadingElementTypeId;
    }
    if eq_slice(tag, "h5") {
        proof {
            law_listed_tag(65);
        }
        return ElementTypeId::HTMLHeadingElementTypeId;
    }
    if eq_slice(tag, "h6") {
        proof {
            law_listed_tag(66);
        }
        return ElementTypeId::HTMLHeadingElementTypeId;
    }
    if eq_slice(tag, "aside") {
        proof {
            law_listed_tag(67);
        }
        return ElementTypeId::HTMLElementTypeId;
    }
    if eq_slice(tag, "b") {
        proof {
            law_listed_tag(68);
        }
        return ElementTypeId::HTMLElementTypeId;
    }
    if eq_slice(tag, "i") {
        proof {
            law_listed_tag(69);
        }
        return ElementTypeId::HTMLElementTypeId;
    }
    if eq_slice(tag, "section") {
        proof {
            law_listed_tag(70);
        }
        return ElementTypeId::HTMLElementTypeId;
    }
    if eq_slice(tag, "small") {
        proof {
            law_listed_tag(71);
        }
        return ElementTypeId::HTMLElementTypeId;
    }
    if eq_slice(tag, "audio") {
        proof {
            law_listed_tag(72);
        }
        return ElementTypeId::HTMLAudioElementTypeId;
    }
    if eq_slice(tag, "video") {
        proof {
            law_listed_tag(73);
        }
        return ElementTypeId::HTMLVideoElementTypeId;
    }
    ElementTypeId::HTMLUnknownElementTypeId
}

/// These element types are listed with these names only.
proof fn lemma_rows_a(i: int)
    requires
        0 <= i < html_tags().len(),
    ensures
        html_tags()[i].1 == ElementTypeId::HTMLAnchorElementTypeId ==> html_tags()[i].0 == "a"@,
        html_tags()[i].1 == ElementTypeId::HTMLAppletElementTypeId
            ==> html_tags()[i].0 == "applet"@,
        html_tags()[i].1 == ElementTypeId::HTMLAreaElementTypeId ==> html_tags()[i].0 == "area"@,
        html_tags()[i].1 == ElementTypeId::HTMLBaseElementTypeId ==> html_tags()[i].0 == "base"@,
        html_tags()[i].1 == ElementTypeId::HTMLBRElementTypeId ==> html_tags()[i].0 == "br"@,
        html_tags()[i].1 == ElementTypeId::HTMLBodyElementTypeId ==> html_tags()[i].0 == "body"@,
        html_tags()[i].1 == ElementTypeId::HTMLButtonElementTypeId
            ==> html_tags()[i].0 == "button"@,
        html_tags()[i].1 == ElementTypeId::HTMLCanvasElementTypeId
            ==> html_tags()[i].0 == "canvas"@,
        html_tags()[i].1 == ElementTypeId::HTMLDataElementTypeId ==> html_tags()[i].0 == "data"@,
        html_tags()[i].1 == ElementTypeId::HTMLDataListElementTypeId
            ==> html_tags()[i].0 == "datalist"@,
        html_tags()[i].1 == ElementTypeId::HTMLDirectoryElementTypeId
            ==> html_tags()[i].0 == "directory"@,
        html_tags()[i].1 == ElementTypeId::HTMLDivElementTypeId ==> html_tags()[i].0 == "div"@,
{
}

/// These element types are listed with these names only.
proof fn lemma_rows_b(i: int)
    requires
        0 <= i < html_tags().len(),
    ensures
        html_tags()[i].1 == ElementTypeId::HTMLDListElementTypeId ==> html_tags()[i].0 == "dl"@,
        html_tags()[i].1 == ElementTypeId::HTMLEmbedElementTypeId ==> html_tags()[i].0 == "embed"@,
        html_tags()[i].1 == ElementTypeId::HTMLFieldSetElementTypeId
            ==> html_tags()[i].0 == "fieldset"@,
        html_tags()[i].1 == ElementTypeId::HTMLFontElementTypeId ==> html_tags()[i].0 == "font"@,
        html_tags()[i].1 == ElementTypeId::HTMLFormElementTypeId ==> html_tags()[i].0 == "form"@,
        html_tags()[i].1 == ElementTypeId::HTMLFrameElementTypeId ==> html_tags()[i].0 == "frame"@,
        html_tags()[i].1 == ElementTypeId::HTMLFrameSetElementTypeId
            ==> html_tags()[i].0 == "frameset"@,
        html_tags()[i].1 == ElementTypeId::HTMLHRElementTypeId ==> html_tags()[i].0 == "hr"@,
        html_tags()[i].1 == ElementTypeId::HTMLHeadElementTypeId ==> html_tags()[i].0 == "head"@,
        html_tags()[i].1 == ElementTypeId::HTMLHtmlElementTypeId ==> html_tags()[i].0 == "html"@,
        html_tags()[i].1 == ElementTypeId::HTMLInputElementTypeId ==> html_tags()[i].0 == "input"@,
        html_tags()[i].1 == ElementTypeId::HTMLLabelElementTypeId ==> html_tags()[i].0 == "label"@,
{
}

/// These element types are listed with these names only.
proof fn lemma_rows_c(i: int)
    requires
        0 <= i < html_tags().len(),
    ensures
        html_tags()[i].1 == ElementTypeId::HTMLLegendElementTypeId
            ==> html_tags()[i].0 == "legend"@,
        html_tags()[i].1 == ElementTypeId::HTMLLinkElementTypeId ==> html_tags()[i].0 == "link"@,
        html_tags()[i].1 == ElementTypeId::HTMLLIElementTypeId ==> html_tags()[i].0 == "li"@,
        html_tags()[i].1 == ElementTypeId::HTMLMapElementTypeId ==> html_tags()[i].0 == "map"@,
        html_tags()[i].1 == ElementTypeId::HTMLMetaElementTypeId ==> html_tags()[i].0 == "meta"@,
        html_tags()[i].1 == ElementTypeId::HTMLMeterElementTypeId ==> html_tags()[i].0 == "meter"@,
        html_tags()[i].1 == ElementTypeId::HTMLModElementTypeId ==> html_tags()[i].0 == "mod"@,
        html_tags()[i].1 == ElementTypeId::HTMLObjectElementTypeId
            ==> html_tags()[i].0 == "object"@,
        html_tags()[i].1 == ElementTypeId::HTMLOListElementTypeId ==> html_tags()[i].0 == "ol"@,
        html_tags()[i].1 == ElementTypeId::HTMLOptionElementTypeId
            ==> html_tags()[i].0 == "option"@,
        html_tags()[i].1 == ElementTypeId::HTMLOptGroupElementTypeId
            ==> html_tags()[i].0 == "optgroup"@,
        html_tags()[i].1 == ElementTypeId::HTMLOutputElementTypeId
            ==> html_tags()[i].0 == "output"@,
{
}

/// These element types are listed with these names only.
proof fn lemma_rows_d(i: int)
    requires
        0 <= i < html_tags().len(),
    ensures
        html_tags()[i].1 == ElementTypeId::HTMLParagraphElementTypeId ==> html_tags()[i].0 == "p"@,
        html_tags()[i].1 == ElementTypeId::HTMLParamElementTypeId ==> html_tags()[i].0 == "param"@,
        html_tags()[i].1 == ElementTypeId::HTMLPreElementTypeId ==> html_tags()[i].0 == "pre"@,
        html_tags()[i].1 == ElementTypeId::HTMLProgressElementTypeId
            ==> html_tags()[i].0 == "progress"@,
        html_tags()[i].1 == ElementTypeId::HTMLQuoteElementTypeId ==> html_tags()[i].0 == "q"@,
        html_tags()[i].1 == ElementTypeId::HTMLScriptElementTypeId
            ==> html_tags()[i].0 == "script"@,
        html_tags()[i].1 == ElementTypeId::HTMLSelectElementTypeId
            ==> html_tags()[i].0 == "select"@,
        html_tags()[i].1 == ElementTypeId::HTMLSourceElementTypeId
            ==> html_tags()[i].0 == "source"@,
        html_tags()[i].1 == ElementTypeId::HTMLSpanElementTypeId ==> html_tags()[i].0 == "span"@,
        html_tags()[i].1 == ElementTypeId::HTMLStyleElementTypeId ==> html_tags()[i].0 == "style"@,
        html_tags()[i].1 == ElementTypeId::HTMLTableElementTypeId ==> html_tags()[i].0 == "table"@,
        html_tags()[i].1 == ElementTypeId::HTMLTableCaptionElementTypeId
            ==> html_tags()[i].0 == "caption"@,
{
}

/// These element types are listed with these names only.
proof fn lemma_rows_e(i: int)
    requires
        0 <= i < html_tags().len(),
    ensures
        html_tags()[i].1 == ElementTypeId::HTMLTableCellElementTypeId ==> html_tags()[i].0 == "td"@,
        html_tags()[i].1 == ElementTypeId::HTMLTableColElementTypeId
            ==> html_tags()[i].0 == "col"@ || html_tags()[i].0 == "colgroup"@,
        html_tags()[i].1 == ElementTypeId::HTMLTableSectionElementTypeId
            ==> html_tags()[i].0 == "tbody"@,
        html_tags()[i].1 == ElementTypeId::HTMLTemplateElementTypeId
            ==> html_tags()[i].0 == "template"@,
        html_tags()[i].1 == ElementTypeId::HTMLTextAreaElementTypeId
            ==> html_tags()[i].0 == "textarea"@,
        html_tags()[i].1 == ElementTypeId::HTMLTimeElementTypeId ==> html_tags()[i].0 == "time"@,
        html_tags()[i].1 == ElementTypeId::HTMLTitleElementTypeId ==> html_tags()[i].0 == "title"@,
        html_tags()[i].1 == ElementTypeId::HTMLTableRowElementTypeId ==> html_tags()[i].0 == "tr"@,
        html_tags()[i].1 == ElementTypeId::HTMLTrackElementTypeId ==> html_tags()[i].0 == "track"@,
        html_tags()[i].1 == ElementTypeId::HTMLUListElementTypeId ==> html_tags()[i].0 == "ul"@,
        html_tags()[i].1 == ElementTypeId::HTMLImageElementTypeId ==> html_tags()[i].0 == "img"@,
        html_tags()[i].1 == ElementTypeId::HTMLIframeElementTypeId
            ==> html_tags()[i].0 == "iframe"@,
{
}

/// These element types are listed with these names only.
proof fn lemma_rows_f(i: int)
    requires
        0 <= i < html_tags().len(),
    ensures
        html_tags()[i].1 == ElementTypeId::HTMLHeadingElementTypeId
            ==> html_tags()[i].0 == "h1"@ || html_tags()[i].0 == "h2"@ || html_tags()[i].0 == "h3"@
            || html_tags()[i].0 == "h4"@ || html_tags()[i].0 == "h5"@ || html_tags()[i].0 == "h6"@,
        html_tags()[i].1 == ElementTypeId::HTMLElementTypeId
            ==> html_tags()[i].0 == "aside"@ || html_tags()[i].0 == "b"@
            || html_tags()[i].0 == "i"@ || html_tags()[i].0 == "section"@
            || html_tags()[i].0 == "small"@,
        html_tags()[i].1 == ElementTypeId::HTMLAudioElementTypeId ==> html_tags()[i].0 == "audio"@,
        html_tags()[i].1 == ElementTypeId::HTMLVideoElementTypeId ==> html_tags()[i].0 == "video"@,
{
}

/// Each element type comes from its own tag names and from no others; a tag name
/// that is none of them stands for an unknown element.
#[verifier::rlimit(60)]
pub proof fn law_type_comes_from_its_tags(tag: Seq<char>)
    ensures
        element_type(tag) == ElementTypeId::HTMLAnchorElementTypeId <==> tag == "a"@,
        element_type(tag) == ElementTypeId::HTMLAppletElementTypeId <==> tag == "applet"@,
        element_type(tag) == ElementTypeId::HTMLAreaElementTypeId <==> tag == "area"@,
        element_type(tag) == ElementTypeId::HTMLBaseElementTypeId <==> tag == "base"@,
        element_type(tag) == ElementTypeId::HTMLBRElementTypeId <==> tag == "br"@,
        element_type(tag) == ElementTypeId::HTMLBodyElementTypeId <==> tag == "body"@,
        element_type(tag) == ElementTypeId::HTMLButtonElementTypeId <==> tag == "button"@,
        element_type(tag) == ElementTypeId::HTMLCanvasElementTypeId <==> tag == "canvas"@,
        element_type(tag) == ElementTypeId::HTMLDataElementTypeId <==> tag == "data"@,
        element_type(tag) == ElementTypeId::HTMLDataListElementTypeId <==> tag == "datalist"@,
        element_type(tag) == ElementTypeId::HTMLDirectoryElementTypeId <==> tag == "directory"@,
        element_type(tag) == ElementTypeId::HTMLDivElementTypeId <==> tag == "div"@,
        element_type(tag) == ElementTypeId::HTMLDListElementTypeId <==> tag == "dl"@,
        element_type(tag) == ElementTypeId::HTMLEmbedElementTypeId <==> tag == "embed"@,
        element_type(tag) == ElementTypeId::HTMLFieldSetElementTypeId <==> tag == "fieldset"@,
        element_type(tag) == ElementTypeId::HTMLFontElementTypeId <==> tag == "font"@,
        element_type(tag) == ElementTypeId::HTMLFormElementTypeId <==> tag == "form"@,
        element_type(tag) == ElementTypeId::HTMLFrameElementTypeId <==> tag == "frame"@,
        element_type(tag) == ElementTypeId::HTMLFrameSetElementTypeId <==> tag == "frameset"@,
        element_type(tag) == ElementTypeId::HTMLHRElementTypeId <==> tag == "hr"@,
        element_type(tag) == ElementTypeId::HTMLHeadElementTypeId <==> tag == "head"@,
        element_type(tag) == ElementTypeId::HTMLHtmlElementTypeId <==> tag == "html"@,
        element_type(tag) == ElementTypeId::HTMLInputElementTypeId <==> tag == "input"@,
        element_type(tag) == ElementTypeId::HTMLLabelElementTypeId <==> tag == "label"@,
        element_type(tag) == ElementTypeId::HTMLLegendElementTypeId <==> tag == "legend"@,
        element_type(tag) == ElementTypeId::HTMLLinkElementTypeId <==> tag == "link"@,
        element_type(tag) == ElementTypeId::HTMLLIElementTypeId <==> tag == "li"@,
        element_type(tag) == ElementTypeId::HTMLMapElementTypeId <==> tag == "map"@,
        element_type(tag) == ElementTypeId::HTMLMetaElementTypeId <==> tag == "meta"@,
        element_type(tag) == ElementTypeId::HTMLMeterElementTypeId <==> tag == "meter"@,
        element_type(tag) == ElementTypeId::HTMLModElementTypeId <==> tag == "mod"@,
        element_type(tag) == ElementTypeId::HTMLObjectElementTypeId <==> tag == "object"@,
        element_type(tag) == ElementTypeId::HTMLOListElementTypeId <==> tag == "ol"@,
        element_type(tag) == ElementTypeId::HTMLOptionElementTypeId <==> tag == "option"@,
        element_type(tag) == ElementTypeId::HTMLOptGroupElementTypeId <==> tag == "optgroup"@,
        element_type(tag) == ElementTypeId::HTMLOutputElementTypeId <==> tag == "output"@,
        element_type(tag) == ElementTypeId::HTMLParagraphElementTypeId <==> tag == "p"@,
        element_type(tag) == ElementTypeId::HTMLParamElementTypeId <==> tag == "param"@,
        element_type(tag) == ElementTypeId::HTMLPreElementTypeId <==> tag == "pre"@,
        element_type(tag) == ElementTypeId::HTMLProgressElementTypeId <==> tag == "progress"@,
        element_type(tag) == ElementTypeId::HTMLQuoteElementTypeId <==> tag == "q"@,
        element_type(tag) == ElementTypeId::HTMLScriptElementTypeId <==> tag == "script"@,
        element_type(tag) == ElementTypeId::HTMLSelectElementTypeId <==> tag == "select"@,
        element_type(tag) == ElementTypeId::HTMLSourceElementTypeId <==> tag == "source"@,
        element_type(tag) == ElementTypeId::HTMLSpanElementTypeId <==> tag == "span"@,
        element_type(tag) == ElementTypeId::HTMLStyleElementTypeId <==> tag == "style"@,
        element_type(tag) == ElementTypeId::HTMLTableElementTypeId <==> tag == "table"@,
        element_type(tag) == ElementTypeId::HTMLTableCaptionElementTypeId <==> tag == "caption"@,
        element_type(tag) == ElementTypeId::HTMLTableCellElementTypeId <==> tag == "td"@,
        element_type(tag) == ElementTypeId::HTMLTableColElementTypeId
            <==> tag == "col"@ || tag == "colgroup"@,
        element_type(tag) == ElementTypeId::HTMLTableSectionElementTypeId <==> tag == "tbody"@,
        element_type(tag) == ElementTypeId::HTMLTemplateElementTypeId <==> tag == "template"@,
        element_type(tag) == ElementTypeId::HTMLTextAreaElementTypeId <==> tag == "textarea"@,
        element_type(tag) == ElementTypeId::HTMLTimeElementTypeId <==> tag == "time"@,
        element_type(tag) == ElementTypeId::HTMLTitleElementTypeId <==> tag == "title"@,
        element_type(tag) == ElementTypeId::HTMLTableRowElementTypeId <==> tag == "tr"@,
        element_type(tag) == ElementTypeId::HTMLTrackElementTypeId <==> tag == "track"@,
        element_type(tag) == ElementTypeId::HTMLUListElementTypeId <==> tag == "ul"@,
        element_type(tag) == ElementTypeId::HTMLImageElementTypeId <==> tag == "img"@,
        element_type(tag) == ElementTypeId::HTMLIframeElementTypeId <==> tag == "iframe"@,
        element_type(tag) == ElementTypeId::HTMLHeadingElementTypeId
            <==> tag == "h1"@ || tag == "h2"@ || tag == "h3"@ || tag == "h4"@ || tag == "h5"@
            || tag == "h6"@,
        element_type(tag) == ElementTypeId::HTMLElementTypeId
            <==> tag == "aside"@ || tag == "b"@ || tag == "i"@ || tag == "section"@
            || tag == "small"@,
        element_type(tag) == ElementTypeId::HTMLAudioElementTypeId <==> tag == "audio"@,
        element_type(tag) == ElementTypeId::HTMLVideoElementTypeId <==> tag == "video"@,
        element_type(tag) == ElementTypeId::HTMLUnknownElementTypeId <==> !is_html_tag(tag),
{
    law_listed_tag(0);
    law_listed_tag(1);
    law_listed_tag(2);
    law_listed_tag(3);
    law_listed_tag(4);
    law_listed_tag(5);
    law_listed_tag(6);
    law_listed_tag(7);
    law_listed_tag(8);
    law_listed_tag(9);
    law_listed_tag(10);
    law_listed_tag(11);
    law_listed_tag(12);
    law_listed_tag(13);
    law_listed_tag(14);
    law_listed_tag(15);
    law_listed_tag(16);
    law_listed_tag(17);
    law_listed_tag(18);
    law_listed_tag(19);
    law_listed_tag(20);
    law_listed_tag(21);
    law_listed_tag(22);
    law_listed_tag(23);
    law_listed_tag(24);
    law_listed_tag(25);
    law_listed_tag(26);
    law_listed_tag(27);
    law_listed_tag(28);
    law_listed_tag(29);
    law_listed_tag(30);
    law_listed_tag(31);
    law_listed_tag(32);
    law_listed_tag(33);
    law_listed_tag(34);
    law_listed_tag(35);
    law_listed_tag(36);
    law_listed_tag(37);
    law_listed_tag(38);
    law_listed_tag(39);
    law_listed_tag(40);
    law_listed_tag(41);
    law_listed_tag(42);
    law_listed_tag(43);
    law_listed_tag(44);
    law_listed_tag(45);
    law_listed_tag(46);
    law_listed_tag(47);
    law_listed_tag(48);
    law_listed_tag(49);
    law_listed_tag(50);
    law_listed_tag(51);
    law_listed_tag(52);
    law_listed_tag(53);
    law_listed_tag(54);
    law_listed_tag(55);
    law_listed_tag(56);
    law_listed_tag(57);
    law_listed_tag(58);
    law_listed_tag(59);
    law_listed_tag(60);
    law_listed_tag(61);
    law_listed_tag(62);
    law_listed_tag(63);
    law_listed_tag(64);
    law_listed_tag(65);
    law_listed_tag(66);
    law_listed_tag(67);
    law_listed_tag(68);
    law_listed_tag(69);
    law_listed_tag(70);
    law_listed_tag(71);
    law_listed_tag(72);
    law_listed_tag(73);
    if is_html_tag(tag) {
        let i = choose|i: int|
            0 <= i < html_tags().len() && (#[trigger] html_tags()[i]).0 == tag;
        lemma_rows_a(i);
        lemma_rows_b(i);
        lemma_rows_c(i);
        lemma_rows_d(i);
        lemma_rows_e(i);
        lemma_rows_f(i);
    }
}

/// The element types that ask for something to be loaded are listed once each.
proof fn lemma_requesting_rows(i: int)
    requires
        0 <= i < html_tags().len(),
    ensures
        html_tags()[i].1 == ElementTypeId::HTMLLinkElementTypeId ==> html_tags()[i].0 == "link"@,
        html_tags()[i].1 == ElementTypeId::HTMLIframeElementTypeId ==> html_tags()[i].0
            == "iframe"@,
        html_tags()[i].1 == ElementTypeId::HTMLImageElementTypeId ==> html_tags()[i].0 == "img"@,
{
}

/// The element types that ask for something to be loaded each come from one tag
/// name: style sheets from `link`, frames from `iframe`, images from `img`.
pub proof fn law_requesting_types(tag: Seq<char>)
    ensures
        element_type(tag) == ElementTypeId::HTMLLinkElementTypeId <==> tag == "link"@,
        element_type(tag) == ElementTypeId::HTMLIframeElementTypeId <==> tag == "iframe"@,
        element_type(tag) == ElementTypeId::HTMLImageElementTypeId <==> tag == "img"@,
{
    law_listed_tag(25);
    law_listed_tag(60);
    law_listed_tag(59);
    if is_html_tag(tag) {
        lemma_requesting_rows(choose|i: int|
            0 <= i < html_tags().len() && (#[trigger] html_tags()[i]).0 == tag);
    }
}

} // verus!
