use vstd::prelude::*;

use crate::html::{
    attr_test_view, compound_view, selector_view, AttrTest, AttrTestView, Compound, CompoundView,
    Selector,
};

verus! {

/// The compound `.class`.
pub open spec fn class_view(class: Seq<char>) -> CompoundView {
    CompoundView { tag: None, classes: seq![class], attributes: Seq::empty() }
}

/// The compound `tag`, with the attribute tests `attrs` (`tag[..]`).
pub open spec fn tag_view(tag: Seq<char>, attrs: Seq<AttrTestView>) -> CompoundView {
    CompoundView { tag: Some(tag), classes: Seq::empty(), attributes: attrs }
}

/// The attribute test `[name]`.
pub open spec fn present_view(name: Seq<char>) -> AttrTestView {
    AttrTestView { name: name, value: None, ascii_case_insensitive: false }
}

/// The attribute test `[name='value']`; where `ci` holds, it ignores ASCII case on HTML
/// elements.
pub open spec fn equals_view(name: Seq<char>, value: Seq<char>, ci: bool) -> AttrTestView {
    AttrTestView { name: name, value: Some(value), ascii_case_insensitive: ci }
}

/// The attribute test `[name]`.
pub fn present(name: &str) -> (r: AttrTest)
    ensures
        attr_test_view(r) == present_view(name@),
{
    AttrTest { name: String::from_str(name), value: None, ascii_case_insensitive: false }
}

/// The attribute test `[name='value']`; where `ci` holds, it ignores ASCII case on HTML
/// elements.
pub fn equals(name: &str, value: &str, ci: bool) -> (r: AttrTest)
    ensures
        attr_test_view(r) == equals_view(name@, value@, ci),
{
    AttrTest {
        name: String::from_str(name),
        value: Some(String::from_str(value)),
        ascii_case_insensitive: ci,
    }
}

/// The compound `.class`.
pub fn class(name: &str) -> (r: Compound)
    ensures
        compound_view(r) == class_view(name@),
{
    let mut classes: Vec<String> = Vec::new();
    classes.push(String::from_str(name));
    let r = Compound { tag: None, classes: classes, attributes: Vec::new() };
    assert(compound_view(r).classes =~= seq![name@]);
    assert(compound_view(r).attributes =~= Seq::<AttrTestView>::empty());
    r
}

/// The compound `tag`, with the attribute tests `attrs`.
pub fn tag(name: &str, attrs: Vec<AttrTest>) -> (r: Compound)
    ensures
        compound_view(r) == tag_view(name@, attrs@.map_values(|a: AttrTest| attr_test_view(a))),
{
    let r = Compound { tag: Some(String::from_str(name)), classes: Vec::new(), attributes: attrs };
    assert(compound_view(r).classes =~= Seq::<Seq<char>>::empty());
    r
}

/// The selector of one compound.
pub fn one(a: Compound) -> (r: Selector)
    ensures
        selector_view(r) == seq![compound_view(a)],
{
    let mut v: Vec<Compound> = Vec::new();
    v.push(a);
    let r = Selector { compounds: v };
    assert(selector_view(r) =~= seq![compound_view(a)]);
    r
}

/// The selector `a b`: `b` below `a`.
pub fn two(a: Compound, b: Compound) -> (r: Selector)
    ensures
        selector_view(r) == seq![compound_view(a), compound_view(b)],
{
    let mut v: Vec<Compound> = Vec::new();
    v.push(a);
    v.push(b);
    let r = Selector { compounds: v };
    assert(selector_view(r) =~= seq![compound_view(a), compound_view(b)]);
    r
}

/// No attribute tests.
pub fn no_attrs() -> (r: Vec<AttrTest>)
    ensures
        r@.map_values(|a: AttrTest| attr_test_view(a)) == Seq::<AttrTestView>::empty(),
{
    let r: Vec<AttrTest> = Vec::new();
    assert(r@.map_values(|a: AttrTest| attr_test_view(a)) =~= Seq::<AttrTestView>::empty());
    r
}

/// One attribute test.
pub fn attrs1(a: AttrTest) -> (r: Vec<AttrTest>)
    ensures
        r@.map_values(|x: AttrTest| attr_test_view(x)) == seq![attr_test_view(a)],
{
    let mut r: Vec<AttrTest> = Vec::new();
    r.push(a);
    assert(r@.map_values(|x: AttrTest| attr_test_view(x)) =~= seq![attr_test_view(a)]);
    r
}

/// Two attribute tests.
pub fn attrs2(a: AttrTest, b: AttrTest) -> (r: Vec<AttrTest>)
    ensures
        r@.map_values(|x: AttrTest| attr_test_view(x)) == seq![attr_test_view(a), attr_test_view(b)],
{
    let mut r: Vec<AttrTest> = Vec::new();
    r.push(a);
    r.push(b);
    assert(r@.map_values(|x: AttrTest| attr_test_view(x)) =~= seq![
        attr_test_view(a),
        attr_test_view(b),
    ]);
    r
}

} // verus!
