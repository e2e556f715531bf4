//! Start tags and attributes.

use vstd::prelude::*;

verus! {

/// An attribute, as hubbub reads it and as an element keeps it.
pub struct Attr {
    pub name: String,
    pub value: String,
}

/// The mathematical value of an [`Attr`].
pub struct AttrView {
    pub name: Seq<char>,
    pub value: Seq<char>,
}

impl View for Attr {
    type V = AttrView;

    open spec fn view(&self) -> AttrView {
        AttrView { name: self.name@, value: self.value@ }
    }
}

/// The values of a list of attributes.
pub open spec fn attrs_view(attrs: Seq<Attr>) -> Seq<AttrView> {
    attrs.map_values(|a: Attr| a@)
}

/// A start tag, as hubbub reads it.
pub struct Tag {
    pub name: String,
    pub attributes: Vec<Attr>,
}

/// The mathematical value of a [`Tag`].
pub struct TagView {
    pub name: Seq<char>,
    pub attributes: Seq<AttrView>,
}

impl View for Tag {
    type V = TagView;

    open spec fn view(&self) -> TagView {
        TagView { name: self.name@, attributes: attrs_view(self.attributes@) }
    }
}

/// The position of the attribute called `name`, or the length of the list where
/// there is none.
pub open spec fn attr_position(attrs: Seq<AttrView>, name: Seq<char>) -> int
    decreases attrs.len(),
{
    if attrs.len() == 0 {
        0
    } else if attrs[0].name == name {
        0
    } else {
        1 + attr_position(attrs.drop_first(), name)
    }
}

/// The value of the attribute called `name`.
pub open spec fn attr_value(attrs: Seq<AttrView>, name: Seq<char>) -> Option<Seq<char>> {
    let i = attr_position(attrs, name);
    if i < attrs.len() {
        Some(attrs[i].value)
    } else {
        None
    }
}

/// The list after the attribute called `name` has been set: it keeps its place
/// where it is there already, and comes last where it is new.
pub open spec fn with_attr(attrs: Seq<AttrView>, name: Seq<char>, value: Seq<char>) -> Seq<
    AttrView,
> {
    let i = attr_position(attrs, name);
    if i < attrs.len() {
        attrs.update(i, AttrView { name, value })
    } else {
        attrs.push(AttrView { name, value })
    }
}

/// Whether no two attributes of the list have the same name.
pub open spec fn distinct_names(attrs: Seq<AttrView>) -> bool {
    forall|i: int, j: int|
        #![trigger attrs[i], attrs[j]]
        0 <= i < j < attrs.len() ==> attrs[i].name != attrs[j].name
}

/// The value that the last attribute called `name` gives, in a list that may
/// name it more than once.
pub open spec fn last_value(attrs: Seq<AttrView>, name: Seq<char>) -> Option<Seq<char>>
    decreases attrs.len(),
{
    if attrs.len() == 0 {
        None
    } else if attrs.last().name == name {
        Some(attrs.last().value)
    } else {
        last_value(attrs.drop_last(), name)
    }
}

/// `attr_position` finds the first attribute of that name.
pub proof fn lemma_attr_position(attrs: Seq<AttrView>, name: Seq<char>)
    ensures
        0 <= attr_position(attrs, name) <= attrs.len(),
        forall|j: int|
            0 <= j < attr_position(attrs, name) ==> (#[trigger] attrs[j]).name != name,
        attr_position(attrs, name) < attrs.len() ==> attrs[attr_position(attrs, name)].name == name,
    decreases attrs.len(),
{
    if attrs.len() != 0 && attrs[0].name != name {
        let rest = attrs.drop_first();
        lemma_attr_position(rest, name);
        assert forall|j: int| 0 <= j < attr_position(attrs, name) implies (
        #[trigger] attrs[j]).name != name by {
            if j > 0 {
                assert(rest[j - 1] == attrs[j]);
            }
        }
    }
}

/// An index before which the name does not occur and at which it does is the
/// position of the attribute.
pub proof fn lemma_attr_position_is(attrs: Seq<AttrView>, name: Seq<char>, i: int)
    requires
        0 <= i <= attrs.len(),
        forall|j: int| 0 <= j < i ==> (#[trigger] attrs[j]).name != name,
        i < attrs.len() ==> attrs[i].name == name,
    ensures
        attr_position(attrs, name) == i,
{
    lemma_attr_position(attrs, name);
    let p = attr_position(attrs, name);
    if p < i {
        assert(attrs[p].name != name);
    }
    if i < p {
        assert(attrs[i].name != name);
    }
}

/// Setting an attribute and reading it back gives the value that was set;
/// reading any other attribute gives what it gave before. No name comes to be
/// there twice.
pub proof fn law_set_then_get(
    attrs: Seq<AttrView>,
    name: Seq<char>,
    value: Seq<char>,
    other: Seq<char>,
)
    ensures
        attr_value(with_attr(attrs, name, value), name) == Some(value),
        other != name ==> attr_value(with_attr(attrs, name, value), other) == attr_value(
            attrs,
            other,
        ),
        distinct_names(attrs) ==> distinct_names(with_attr(attrs, name, value)),
{
    let i = attr_position(attrs, name);
    let set = with_attr(attrs, name, value);
    lemma_attr_position(attrs, name);
    assert forall|j: int| 0 <= j < i implies (#[trigger] set[j]).name != name by {
        assert(attrs[j].name != name);
    }
    lemma_attr_position_is(set, name, i);
    if other != name {
        let k = attr_position(attrs, other);
        lemma_attr_position(attrs, other);
        assert forall|j: int| 0 <= j < k implies (#[trigger] set[j]).name != other by {
            assert(attrs[j].name != other);
        }
        if k < attrs.len() {
            assert(set[k] == attrs[k]);
            lemma_attr_position_is(set, other, k);
        } else {
            assert forall|j: int| 0 <= j < set.len() implies (#[trigger] set[j]).name != other by {
                if j < attrs.len() {
                    assert(attrs[j].name != other);
                }
            }
            lemma_attr_position_is(set, other, set.len() as int);
        }
    }
    if distinct_names(attrs) {
        assert forall|j: int, k: int|
            #![trigger set[j], set[k]]
            0 <= j < k < set.len() implies set[j].name != set[k].name by {
            if k < attrs.len() {
                assert(attrs[j].name != attrs[k].name);
            } else {
                assert(attrs[j].name != name);
            }
        }
    }
}

/// The list after all attributes of `list` have been set, one after the other.
pub open spec fn with_attrs(attrs: Seq<AttrView>, list: Seq<AttrView>) -> Seq<AttrView>
    decreases list.len(),
{
    if list.len() == 0 {
        attrs
    } else {
        with_attr(with_attrs(attrs, list.drop_last()), list.last().name, list.last().value)
    }
}

/// Of an element that gets the attributes of a tag one after the other, each
/// attribute has the last value that the tag gives it, and none occurs twice.
pub proof fn law_tag_attributes(list: Seq<AttrView>, name: Seq<char>)
    ensures
        attr_value(with_attrs(Seq::empty(), list), name) == last_value(list, name),
        distinct_names(with_attrs(Seq::empty(), list)),
    decreases list.len(),
{
    if list.len() != 0 {
        let before = with_attrs(Seq::empty(), list.drop_last());
        law_tag_attributes(list.drop_last(), name);
        law_set_then_get(before, list.last().name, list.last().value, name);
    }
}

/// The value of a list of attributes names each of them, and gives its value, as
/// they stand there.
pub proof fn law_attrs_view(attrs: Seq<Attr>, i: int)
    ensures
        attrs_view(attrs).len() == attrs.len(),
        0 <= i < attrs.len() ==> attrs_view(attrs)[i].name == attrs[i].name@
            && attrs_view(attrs)[i].value == attrs[i].value@,
{
}

/// The value of an attribute is that of the first one of its name; there is none
/// exactly where no attribute has that name.
pub proof fn law_attr_value(attrs: Seq<AttrView>, name: Seq<char>)
    ensures
        match attr_value(attrs, name) {
            Some(value) => exists|i: int|
                0 <= i < attrs.len() && (#[trigger] attrs[i]).name == name && attrs[i].value
                    == value && forall|j: int| 0 <= j < i ==> (#[trigger] attrs[j]).name != name,
            None => forall|i: int| 0 <= i < attrs.len() ==> (#[trigger] attrs[i]).name != name,
        },
{
    lemma_attr_position(attrs, name);
    let i = attr_position(attrs, name);
    if i < attrs.len() {
        assert(attrs[i].name == name);
    }
}

/// The last value of a name is that of the last attribute of this name; there is
/// none exactly where no attribute has that name.
pub proof fn law_last_value(attrs: Seq<AttrView>, name: Seq<char>)
    ensures
        match last_value(attrs, name) {
            Some(value) => exists|i: int|
                0 <= i < attrs.len() && (#[trigger] attrs[i]).name == name && attrs[i].value
                    == value && forall|j: int|
                    i < j < attrs.len() ==> (#[trigger] attrs[j]).name != name,
            None => forall|i: int| 0 <= i < attrs.len() ==> (#[trigger] attrs[i]).name != name,
        },
    decreases attrs.len(),
{
    if attrs.len() != 0 {
        let rest = attrs.drop_last();
        let n = attrs.len() - 1;
        if attrs.last().name == name {
            assert(attrs[n].name == name);
        } else {
            law_last_value(rest, name);
            if last_value(rest, name) is Some {
                let value = last_value(rest, name)->0;
                let i = choose|i: int|
                    0 <= i < rest.len() && (#[trigger] rest[i]).name == name && rest[i].value
                        == value && forall|j: int|
                        i < j < rest.len() ==> (#[trigger] rest[j]).name != name;
                assert(attrs[i].name == name);
                assert forall|j: int| i < j < attrs.len() implies (
                #[trigger] attrs[j]).name != name by {
                    if j < n {
                        assert(rest[j].name != name);
                    }
                }
            } else {
                assert forall|j: int| 0 <= j < attrs.len() implies (
                #[trigger] attrs[j]).name != name by {
                    if j < n {
                        assert(rest[j].name != name);
                    }
                }
            }
        }
    }
}

/// Setting an attribute changes the value of the first one of that name and
/// nothing else; where there is none, it adds one at the end and changes nothing
/// else.
pub proof fn law_set_changes_one(attrs: Seq<AttrView>, name: Seq<char>, value: Seq<char>, i: int)
    requires
        0 <= i <= attrs.len(),
        forall|j: int| 0 <= j < i ==> (#[trigger] attrs[j]).name != name,
        i < attrs.len() ==> attrs[i].name == name,
    ensures
        with_attr(attrs, name, value).len() == if i < attrs.len() {
            attrs.len()
        } else {
            attrs.len() + 1
        },
        with_attr(attrs, name, value)[i] == (AttrView { name, value }),
        forall|j: int|
            0 <= j < attrs.len() && j != i ==> #[trigger] with_attr(attrs, name, value)[j]
                == attrs[j],
{
    lemma_attr_position_is(attrs, name, i);
}

/// Where a name stands in a list that has grown by one attribute.
proof fn lemma_position_push(attrs: Seq<AttrView>, attr: AttrView, name: Seq<char>)
    ensures
        attr_position(attrs.push(attr), name) == if attr_position(attrs, name) < attrs.len() {
            attr_position(attrs, name)
        } else if attr.name == name {
            attrs.len() as int
        } else {
            (attrs.len() + 1) as int
        },
{
    let grown = attrs.push(attr);
    let i = attr_position(attrs, name);
    lemma_attr_position(attrs, name);
    assert forall|j: int| 0 <= j < i implies (#[trigger] grown[j]).name != name by {
        assert(attrs[j].name != name);
    }
    if i < attrs.len() || attr.name == name {
        lemma_attr_position_is(grown, name, i);
    } else {
        lemma_attr_position_is(grown, name, attrs.len() as int + 1);
    }
}

/// Where a name stands in a list in which an attribute has been set.
proof fn lemma_position_set(
    attrs: Seq<AttrView>,
    name: Seq<char>,
    value: Seq<char>,
    other: Seq<char>,
)
    ensures
        attr_position(attrs, name) < attrs.len() ==> attr_position(
            with_attr(attrs, name, value),
            other,
        ) == attr_position(attrs, other) && with_attr(attrs, name, value).len() == attrs.len(),
        attr_position(attrs, name) >= attrs.len() ==> with_attr(attrs, name, value) == attrs.push(
            AttrView { name, value },
        ),
{
    let set = with_attr(attrs, name, value);
    let i = attr_position(attrs, other);
    lemma_attr_position(attrs, name);
    lemma_attr_position(attrs, other);
    if attr_position(attrs, name) < attrs.len() {
        assert forall|j: int| 0 <= j < i implies (#[trigger] set[j]).name != other by {
            assert(attrs[j].name != other);
        }
        lemma_attr_position_is(set, other, i);
    }
}

/// An element keeps its attributes in the order in which its tag first names
/// them, and has those that its tag names and no others.
pub proof fn law_attributes_in_order(list: Seq<AttrView>, a: Seq<char>, b: Seq<char>)
    ensures
        ({
            let kept = with_attrs(Seq::empty(), list);
            &&& attr_position(kept, a) < kept.len() <==> attr_position(list, a) < list.len()
            &&& attr_position(kept, b) < kept.len() <==> attr_position(list, b) < list.len()
            &&& attr_position(list, a) < list.len() && attr_position(list, b) < list.len() ==> (
            attr_position(kept, a) < attr_position(kept, b) <==> attr_position(list, a)
                < attr_position(list, b))
        }),
    decreases list.len(),
{
    if list.len() != 0 {
        let rest = list.drop_last();
        let x = list.last();
        let kept = with_attrs(Seq::empty(), rest);
        law_attributes_in_order(rest, a, b);
        law_attributes_in_order(rest, x.name, x.name);
        assert(rest.push(x) =~= list);
        lemma_position_push(rest, x, a);
        lemma_position_push(rest, x, b);
        lemma_position_set(kept, x.name, x.value, a);
        lemma_position_set(kept, x.name, x.value, b);
        lemma_position_push(kept, x, a);
        lemma_position_push(kept, x, b);
        lemma_attr_position(kept, a);
        lemma_attr_position(kept, b);
        lemma_attr_position(rest, a);
        lemma_attr_position(rest, b);
        assert(x == (AttrView { name: x.name, value: x.value }));
    }
}

} // verus!
