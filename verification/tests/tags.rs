use hubbub_html_parser::element::{build_element_from_tag, ElementData, HeadingLevel};
use hubbub_html_parser::tags::{type_of_tag, ElementTypeId};

#[test]
fn every_listed_tag_has_its_type() {
    let table = [
        ("a", ElementTypeId::HTMLAnchorElementTypeId),
        ("applet", ElementTypeId::HTMLAppletElementTypeId),
        ("area", ElementTypeId::HTMLAreaElementTypeId),
        ("base", ElementTypeId::HTMLBaseElementTypeId),
        ("br", ElementTypeId::HTMLBRElementTypeId),
        ("body", ElementTypeId::HTMLBodyElementTypeId),
        ("button", ElementTypeId::HTMLButtonElementTypeId),
        ("canvas", ElementTypeId::HTMLCanvasElementTypeId),
        ("data", ElementTypeId::HTMLDataElementTypeId),
        ("datalist", ElementTypeId::HTMLDataListElementTypeId),
        ("directory", ElementTypeId::HTMLDirectoryElementTypeId),
        ("div", ElementTypeId::HTMLDivElementTypeId),
        ("dl", ElementTypeId::HTMLDListElementTypeId),
        ("embed", ElementTypeId::HTMLEmbedElementTypeId),
        ("fieldset", ElementTypeId::HTMLFieldSetElementTypeId),
        ("font", ElementTypeId::HTMLFontElementTypeId),
        ("form", ElementTypeId::HTMLFormElementTypeId),
        ("frame", ElementTypeId::HTMLFrameElementTypeId),
        ("frameset", ElementTypeId::HTMLFrameSetElementTypeId),
        ("hr", ElementTypeId::HTMLHRElementTypeId),
        ("head", ElementTypeId::HTMLHeadElementTypeId),
        ("html", ElementTypeId::HTMLHtmlElementTypeId),
        ("input", ElementTypeId::HTMLInputElementTypeId),
        ("label", ElementTypeId::HTMLLabelElementTypeId),
        ("legend", ElementTypeId::HTMLLegendElementTypeId),
        ("link", ElementTypeId::HTMLLinkElementTypeId),
        ("li", ElementTypeId::HTMLLIElementTypeId),
        ("map", ElementTypeId::HTMLMapElementTypeId),
        ("meta", ElementTypeId::HTMLMetaElementTypeId),
        ("meter", ElementTypeId::HTMLMeterElementTypeId),
        ("mod", ElementTypeId::HTMLModElementTypeId),
        ("object", ElementTypeId::HTMLObjectElementTypeId),
        ("ol", ElementTypeId::HTMLOListElementTypeId),
        ("option", ElementTypeId::HTMLOptionElementTypeId),
        ("optgroup", ElementTypeId::HTMLOptGroupElementTypeId),
        ("output", ElementTypeId::HTMLOutputElementTypeId),
        ("p", ElementTypeId::HTMLParagraphElementTypeId),
        ("param", ElementTypeId::HTMLParamElementTypeId),
        ("pre", ElementTypeId::HTMLPreElementTypeId),
        ("progress", ElementTypeId::HTMLProgressElementTypeId),
        ("q", ElementTypeId::HTMLQuoteElementTypeId),
        ("script", ElementTypeId::HTMLScriptElementTypeId),
        ("select", ElementTypeId::HTMLSelectElementTypeId),
        ("source", ElementTypeId::HTMLSourceElementTypeId),
        ("span", ElementTypeId::HTMLSpanElementTypeId),
        ("style", ElementTypeId::HTMLStyleElementTypeId),
        ("table", ElementTypeId::HTMLTableElementTypeId),
        ("caption", ElementTypeId::HTMLTableCaptionElementTypeId),
        ("td", ElementTypeId::HTMLTableCellElementTypeId),
        ("col", ElementTypeId::HTMLTableColElementTypeId),
        ("colgroup", ElementTypeId::HTMLTableColElementTypeId),
        ("tbody", ElementTypeId::HTMLTableSectionElementTypeId),
        ("template", ElementTypeId::HTMLTemplateElementTypeId),
        ("textarea", ElementTypeId::HTMLTextAreaElementTypeId),
        ("time", ElementTypeId::HTMLTimeElementTypeId),
        ("title", ElementTypeId::HTMLTitleElementTypeId),
        ("tr", ElementTypeId::HTMLTableRowElementTypeId),
        ("track", ElementTypeId::HTMLTrackElementTypeId),
        ("ul", ElementTypeId::HTMLUListElementTypeId),
        ("img", ElementTypeId::HTMLImageElementTypeId),
        ("iframe", ElementTypeId::HTMLIframeElementTypeId),
        ("h1", ElementTypeId::HTMLHeadingElementTypeId),
        ("h2", ElementTypeId::HTMLHeadingElementTypeId),
        ("h3", ElementTypeId::HTMLHeadingElementTypeId),
        ("h4", ElementTypeId::HTMLHeadingElementTypeId),
        ("h5", ElementTypeId::HTMLHeadingElementTypeId),
        ("h6", ElementTypeId::HTMLHeadingElementTypeId),
        ("aside", ElementTypeId::HTMLElementTypeId),
        ("b", ElementTypeId::HTMLElementTypeId),
        ("i", ElementTypeId::HTMLElementTypeId),
        ("section", ElementTypeId::HTMLElementTypeId),
        ("small", ElementTypeId::HTMLElementTypeId),
        ("audio", ElementTypeId::HTMLAudioElementTypeId),
        ("video", ElementTypeId::HTMLVideoElementTypeId),
    ];
    for (tag, type_id) in table {
        let element = build_element_from_tag(tag);
        assert_eq!(element.type_id, type_id);
        assert_eq!(element.tag_name, tag);
        assert!(element.attrs.is_empty());
        assert_eq!(type_of_tag(tag), type_id);
    }
}

#[test]
fn other_tags_are_unknown() {
    for tag in ["", "A", "Link", "blink", "em", "h7", "strong", "iframes", " a", "\u{e9}"] {
        let element = build_element_from_tag(tag);
        assert_eq!(element.type_id, ElementTypeId::HTMLUnknownElementTypeId);
        assert_eq!(element.tag_name, tag);
        assert!(matches!(element.data, ElementData::Plain));
    }
}

#[test]
fn headings_have_their_level() {
    let levels = [
        ("h1", HeadingLevel::Heading1),
        ("h2", HeadingLevel::Heading2),
        ("h3", HeadingLevel::Heading3),
        ("h4", HeadingLevel::Heading4),
        ("h5", HeadingLevel::Heading5),
        ("h6", HeadingLevel::Heading6),
    ];
    for (tag, level) in levels {
        match build_element_from_tag(tag).data {
            ElementData::Heading(l) => assert_eq!(l, level),
            _ => panic!("{} is no heading", tag),
        }
    }
}

#[test]
fn images_frames_and_media_start_empty() {
    assert!(matches!(build_element_from_tag("img").data, ElementData::Image { image: None }));
    assert!(matches!(
        build_element_from_tag("iframe").data,
        ElementData::IFrame { frame: None, size: None, sandbox: None }
    ));
    assert!(matches!(build_element_from_tag("audio").data, ElementData::Media));
    assert!(matches!(build_element_from_tag("video").data, ElementData::Media));
    assert!(matches!(build_element_from_tag("div").data, ElementData::Plain));
}
