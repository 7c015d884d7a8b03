use vstd::prelude::*;

use crate::text::{str_eq, to_chars};

verus! {

/// An attribute of an element: its namespace (empty for none), local name and value.
pub struct Attribute {
    pub namespace: String,
    pub name: String,
    pub value: String,
}

/// The namespace of HTML elements.
pub const HTML_NAMESPACE: &'static str = "http://www.w3.org/1999/xhtml";

/// An element: its namespace and local name, its attributes (in the order in which the
/// parser keeps them: by namespace, then by local name), its children, and its serialized
/// markup (the element itself and its content, as the parser that built the tree writes
/// it back; `None` where that writing was not valid UTF-8).
pub struct Element {
    pub namespace: String,
    pub name: String,
    pub attributes: Vec<Attribute>,
    pub children: Vec<HtmlNode>,
    pub html: Option<String>,
}

/// A node of a parsed HTML document.
pub enum HtmlNode {
    /// An element.
    Element(Element),
    /// A run of text.
    Text(String),
    /// The root of a document or of a fragment, with its children.
    Document(Vec<HtmlNode>),
    /// A comment, a doctype or a processing instruction.
    Other,
}

/// The value of the first attribute without namespace named `name` among `attrs[from..]`.
pub open spec fn attr_from(attrs: Seq<Attribute>, name: Seq<char>, from: int) -> Option<Seq<char>>
    decreases attrs.len() - from,
{
    if from < 0 || from >= attrs.len() {
        None
    } else if attrs[from].namespace@.len() == 0 && attrs[from].name@ == name {
        Some(attrs[from].value@)
    } else {
        attr_from(attrs, name, from + 1)
    }
}

/// The value of the attribute `name` (without namespace) of `e`, if `e` has one.
pub open spec fn attr_spec(e: Element, name: Seq<char>) -> Option<Seq<char>> {
    attr_from(e.attributes@, name, 0)
}

/// The text of `n`: the contents of all its text nodes, in document order.
pub open spec fn text_spec(n: HtmlNode) -> Seq<char>
    decreases n,
{
    match n {
        HtmlNode::Element(e) => texts_spec(e.children@),
        HtmlNode::Text(t) => t@,
        HtmlNode::Document(ch) => texts_spec(ch@),
        HtmlNode::Other => Seq::empty(),
    }
}

/// The texts of the nodes `s`, one after another.
pub open spec fn texts_spec(s: Seq<HtmlNode>) -> Seq<char>
    decreases s,
{
    if s.len() == 0 {
        Seq::empty()
    } else {
        text_spec(s[0]) + texts_spec(s.drop_first())
    }
}

/// The text of an element.
pub open spec fn element_text_spec(e: Element) -> Seq<char> {
    texts_spec(e.children@)
}


proof fn lemma_texts_push(s: Seq<HtmlNode>, n: HtmlNode)
    ensures
        texts_spec(s.push(n)) == texts_spec(s) + text_spec(n),
    decreases s.len(),
{
    if s.len() == 0 {
        assert(s.push(n).drop_first() =~= Seq::<HtmlNode>::empty());
        assert(texts_spec(Seq::<HtmlNode>::empty()) =~= Seq::<char>::empty());
        assert(texts_spec(s.push(n)) =~= text_spec(n));
    } else {
        assert(s.push(n).drop_first() =~= s.drop_first().push(n));
        lemma_texts_push(s.drop_first(), n);
        assert(texts_spec(s.push(n)) =~= texts_spec(s) + text_spec(n));
    }
}

/// The text of `n` (`text_contents`): its text nodes' contents, in document order.
pub fn text_contents(n: &HtmlNode) -> (r: String)
    ensures
        r@ == text_spec(*n),
    decreases n,
{
    match n {
        HtmlNode::Element(e) => texts_of(&e.children),
        HtmlNode::Text(t) => t.clone(),
        HtmlNode::Document(ch) => texts_of(ch),
        HtmlNode::Other => String::new(),
    }
}

/// The texts of the nodes `s`, one after another.
pub fn texts_of(s: &Vec<HtmlNode>) -> (r: String)
    ensures
        r@ == texts_spec(s@),
    decreases s,
{
    let mut r = String::new();
    let mut i: usize = 0;
    assert(s@.take(0) =~= Seq::<HtmlNode>::empty());
    while i < s.len()
        invariant
            i <= s.len(),
            r@ == texts_spec(s@.take(i as int)),
        decreases s.len() - i,
    {
        assert(decreases_to!(s => s@[i as int]));
        let t = text_contents(&s[i]);
        proof {
            lemma_texts_push(s@.take(i as int), s@[i as int]);
            assert(s@.take(i as int).push(s@[i as int]) =~= s@.take(i + 1));
        }
        r.append(t.as_str());
        i = i + 1;
    }
    assert(s@.take(s.len() as int) =~= s@);
    r
}

/// The value of the attribute `name` of `e`, if `e` has one (the first, should `e` carry
/// the name twice).
pub fn get_attr<'a>(e: &'a Element, name: &str) -> (r: Option<&'a String>)
    ensures
        match attr_spec(*e, name@) {
            None => r is None,
            Some(v) => r matches Some(x) && x@ == v,
        },
{
    let mut i: usize = 0;
    while i < e.attributes.len()
        invariant
            i <= e.attributes.len(),
            attr_spec(*e, name@) == attr_from(e.attributes@, name@, i as int),
        decreases e.attributes.len() - i,
    {
        if e.attributes[i].namespace.as_str().unicode_len() == 0 && str_eq(
            e.attributes[i].name.as_str(),
            name,
        ) {
            return Some(&e.attributes[i].value);
        }
        i = i + 1;
    }
    None
}


/// A test on one attribute: present (`value` is `None`) or equal to `value` (`[name]`,
/// `[name='value']`), compared exactly, or, where `ascii_case_insensitive` holds, ignoring
/// ASCII case on elements in the HTML namespace only (the rule for HTML attributes such as
/// `selected`).
pub struct AttrTest {
    pub name: String,
    pub value: Option<String>,
    pub ascii_case_insensitive: bool,
}

/// A compound selector: an optional tag name, classes and attribute tests, all of which
/// an element must meet (`tag.class[attr='v']`).
pub struct Compound {
    pub tag: Option<String>,
    pub classes: Vec<String>,
    pub attributes: Vec<AttrTest>,
}

/// A chain of compound selectors joined by the descendant combinator, outermost first
/// (`a b c`): an element matches where it meets the last compound and it has ancestors,
/// from the outside in, that meet the others in order.
pub struct Selector {
    pub compounds: Vec<Compound>,
}

/// What an attribute test stands for.
pub ghost struct AttrTestView {
    pub name: Seq<char>,
    pub value: Option<Seq<char>>,
    pub ascii_case_insensitive: bool,
}

/// What a compound selector stands for.
pub ghost struct CompoundView {
    pub tag: Option<Seq<char>>,
    pub classes: Seq<Seq<char>>,
    pub attributes: Seq<AttrTestView>,
}

/// The value that `a` stands for.
pub open spec fn attr_test_view(a: AttrTest) -> AttrTestView {
    AttrTestView {
        name: a.name@,
        value: a.value.deep_view(),
        ascii_case_insensitive: a.ascii_case_insensitive,
    }
}

/// The value that `c` stands for.
pub open spec fn compound_view(c: Compound) -> CompoundView {
    CompoundView {
        tag: c.tag.deep_view(),
        classes: c.classes.deep_view(),
        attributes: c.attributes@.map_values(|a: AttrTest| attr_test_view(a)),
    }
}

/// The chain of compounds that `s` stands for, outermost first.
pub open spec fn selector_view(s: Selector) -> Seq<CompoundView> {
    s.compounds@.map_values(|c: Compound| compound_view(c))
}

/// White space inside a class attribute: space, tab, line feed, carriage return, form feed.
pub open spec fn is_selector_ws(c: char) -> bool {
    c == ' ' || c == '\t' || c == '\n' || c == '\r' || c == '\x0C'
}

/// Whether `t` stands in `s` at `i` as a whole white-space separated token.
pub open spec fn token_at(s: Seq<char>, t: Seq<char>, i: int) -> bool {
    &&& 0 <= i
    &&& i + t.len() <= s.len()
    &&& s.subrange(i, i + t.len()) == t
    &&& (i == 0 || is_selector_ws(s[i - 1]))
    &&& (i + t.len() == s.len() || is_selector_ws(s[i + t.len()]))
}

/// Whether splitting the class attribute `s` on white space gives the class name `t`
/// (never for an empty name or one holding white space).
pub open spec fn has_class_spec(s: Seq<char>, t: Seq<char>) -> bool {
    &&& t.len() > 0
    &&& forall|k: int| 0 <= k < t.len() ==> !is_selector_ws(#[trigger] t[k])
    &&& exists|i: int| token_at(s, t, i)
}

/// The code point of `c`, with ASCII upper case letters taken as lower case.
pub open spec fn ascii_lower(c: char) -> int {
    if 'A' <= c && c <= 'Z' {
        (c as u32) + 32
    } else {
        c as u32 as int
    }
}

/// Whether `a` and `b` are equal when ASCII letters are compared without case.
pub open spec fn ascii_ci_eq_spec(a: Seq<char>, b: Seq<char>) -> bool {
    a.len() == b.len() && forall|k: int| 0 <= k < a.len() ==> ascii_lower(#[trigger] a[k])
        == ascii_lower(b[k])
}

/// Whether `e` has a class attribute that holds the class name `name`.
pub open spec fn element_has_class(e: Element, name: Seq<char>) -> bool {
    match attr_spec(e, "class"@) {
        Some(v) => has_class_spec(v, name),
        None => false,
    }
}

/// Whether `e` passes the attribute test `a`.
pub open spec fn attr_test_spec(e: Element, a: AttrTestView) -> bool {
    match attr_spec(e, a.name) {
        None => false,
        Some(v) => match a.value {
            None => true,
            Some(x) => if a.ascii_case_insensitive && e.namespace@ == HTML_NAMESPACE@ {
                ascii_ci_eq_spec(v, x)
            } else {
                v == x
            },
        },
    }
}

/// Whether `e` meets the compound selector `c`.
pub open spec fn compound_spec(e: Element, c: CompoundView) -> bool {
    &&& (c.tag matches Some(t) ==> e.name@ == t)
    &&& forall|i: int| 0 <= i < c.classes.len() ==> element_has_class(e, #[trigger] c.classes[i])
    &&& forall|i: int| 0 <= i < c.attributes.len() ==> attr_test_spec(e, #[trigger] c.attributes[i])
}

/// Whether the compounds `cs` can be met, in order, by elements among the ancestors
/// `anc` (outermost first).
pub open spec fn embed_spec(anc: Seq<Element>, cs: Seq<CompoundView>) -> bool
    decreases anc.len(),
{
    if cs.len() == 0 {
        true
    } else if anc.len() == 0 {
        false
    } else {
        (compound_spec(anc.last(), cs.last()) && embed_spec(anc.drop_last(), cs.drop_last()))
            || embed_spec(anc.drop_last(), cs)
    }
}

/// Whether the element `e`, below the ancestors `anc`, matches `sel`.
pub open spec fn matches_spec(e: Element, anc: Seq<Element>, sel: Seq<CompoundView>) -> bool {
    sel.len() > 0 && compound_spec(e, sel.last()) && embed_spec(anc, sel.drop_last())
}


fn is_selector_ws_exec(c: char) -> (b: bool)
    ensures
        b == is_selector_ws(c),
{
    c == ' ' || c == '\t' || c == '\n' || c == '\r' || c == '\x0C'
}

/// Whether the class attribute `s` holds the class name `t` as one of its tokens.
pub fn has_class(s: &str, t: &str) -> (r: bool)
    ensures
        r == has_class_spec(s@, t@),
{
    let sv = to_chars(s);
    let tv = to_chars(t);
    let n = sv.len();
    let m = tv.len();
    if m == 0 {
        return false;
    }
    let mut k: usize = 0;
    while k < m
        invariant
            tv@ == t@,
            m == tv.len(),
            k <= m,
            forall|j: int| 0 <= j < k ==> !is_selector_ws(#[trigger] tv@[j]),
        decreases m - k,
    {
        if is_selector_ws_exec(tv[k]) {
            assert(is_selector_ws(t@[k as int]));
            return false;
        }
        k = k + 1;
    }
    if m > n {
        assert forall|i: int| !token_at(s@, t@, i) by {}
        return false;
    }
    let mut i: usize = 0;
    while i <= n - m
        invariant
            sv@ == s@,
            tv@ == t@,
            n == sv.len(),
            m == tv.len(),
            0 < m <= n,
            forall|j: int| 0 <= j < m ==> !is_selector_ws(#[trigger] tv@[j]),
            forall|j: int| 0 <= j < i ==> !token_at(s@, t@, j),
        decreases n - m + 1 - i,
    {
        let left_ok = i == 0 || is_selector_ws_exec(sv[i - 1]);
        let right_ok = i + m == n || is_selector_ws_exec(sv[i + m]);
        let mut same = true;
        let mut j: usize = 0;
        while j < m
            invariant
                sv@ == s@,
                tv@ == t@,
                n == sv.len(),
                m == tv.len(),
                i + m <= n,
                j <= m,
                same == (forall|q: int| 0 <= q < j ==> sv@[i + q] == tv@[q]),
            decreases m - j,
        {
            if sv[i + j] != tv[j] {
                same = false;
            }
            j = j + 1;
        }
        if same {
            assert(s@.subrange(i as int, i + m) =~= t@);
        } else {
            assert(s@.subrange(i as int, i + m) != t@) by {
                let q = choose|q: int| 0 <= q < m && sv@[i + q] != tv@[q];
                assert(s@.subrange(i as int, i + m)[q] != t@[q]);
            }
        }
        if left_ok && right_ok && same {
            assert(token_at(s@, t@, i as int));
            return true;
        }
        i = i + 1;
    }
    assert forall|j: int| !token_at(s@, t@, j) by {
        if 0 <= j < i {
        }
    }
    false
}

fn ascii_lower_exec(c: char) -> (r: u32)
    ensures
        r == ascii_lower(c),
{
    if 'A' <= c && c <= 'Z' {
        (c as u32) + 32
    } else {
        c as u32
    }
}

/// Whether `a` and `b` are equal when ASCII letters are compared without case.
pub fn ascii_ci_eq(a: &str, b: &str) -> (r: bool)
    ensures
        r == ascii_ci_eq_spec(a@, b@),
{
    let x = to_chars(a);
    let y = to_chars(b);
    if x.len() != y.len() {
        return false;
    }
    let mut i: usize = 0;
    while i < x.len()
        invariant
            x@ == a@,
            y@ == b@,
            x.len() == y.len(),
            i <= x.len(),
            forall|k: int| 0 <= k < i ==> ascii_lower(#[trigger] x@[k]) == ascii_lower(y@[k]),
        decreases x.len() - i,
    {
        if ascii_lower_exec(x[i]) != ascii_lower_exec(y[i]) {
            assert(ascii_lower(x@[i as int]) != ascii_lower(y@[i as int]));
            return false;
        }
        i = i + 1;
    }
    true
}

/// Whether `e` passes the attribute test `a`.
pub fn attr_test(e: &Element, a: &AttrTest) -> (r: bool)
    ensures
        r == attr_test_spec(*e, attr_test_view(*a)),
{
    match get_attr(e, a.name.as_str()) {
        None => false,
        Some(v) => match &a.value {
            None => true,
            Some(x) => if a.ascii_case_insensitive && str_eq(e.namespace.as_str(), HTML_NAMESPACE) {
                ascii_ci_eq(v.as_str(), x.as_str())
            } else {
                str_eq(v.as_str(), x.as_str())
            },
        },
    }
}

/// Whether `e` meets the compound selector `c`.
pub fn compound_matches(e: &Element, c: &Compound) -> (r: bool)
    ensures
        r == compound_spec(*e, compound_view(*c)),
{
    match &c.tag {
        Some(t) => {
            if !str_eq(e.name.as_str(), t.as_str()) {
                return false;
            }
        },
        None => {},
    }
    let mut i: usize = 0;
    while i < c.classes.len()
        invariant
            i <= c.classes.len(),
            (compound_view(*c).tag matches Some(t) ==> e.name@ == t),
            forall|k: int| 0 <= k < i ==> element_has_class(*e, #[trigger] compound_view(*c).classes[k]),
        decreases c.classes.len() - i,
    {
        match get_attr(e, "class") {
            None => {
                assert(!element_has_class(*e, compound_view(*c).classes[i as int]));
                return false;
            },
            Some(v) => {
                if !has_class(v.as_str(), c.classes[i].as_str()) {
                    assert(!element_has_class(*e, compound_view(*c).classes[i as int]));
                    return false;
                }
            },
        }
        i = i + 1;
    }
    let mut j: usize = 0;
    while j < c.attributes.len()
        invariant
            j <= c.attributes.len(),
            (compound_view(*c).tag matches Some(t) ==> e.name@ == t),
            forall|k: int| 0 <= k < c.classes.len() ==> element_has_class(*e, #[trigger] compound_view(*c).classes[k]),
            forall|k: int| 0 <= k < j ==> attr_test_spec(*e, #[trigger] compound_view(*c).attributes[k]),
        decreases c.attributes.len() - j,
    {
        if !attr_test(e, &c.attributes[j]) {
            assert(!attr_test_spec(*e, compound_view(*c).attributes[j as int]));
            return false;
        }
        j = j + 1;
    }
    true
}

/// The elements that the references `a` point to.
pub open spec fn deref_all(a: Seq<&Element>) -> Seq<Element> {
    a.map_values(|r: &Element| *r)
}

/// Whether the compounds `cs[..nc]` can be met in order by the ancestors `anc[..na]`.
fn embed(anc: &Vec<&Element>, na: usize, cs: &Vec<Compound>, nc: usize) -> (r: bool)
    requires
        na <= anc.len(),
        nc <= cs.len(),
    ensures
        r == embed_spec(
            deref_all(anc@).take(na as int),
            cs@.map_values(|c: Compound| compound_view(c)).take(nc as int),
        ),
    decreases na,
{
    let ghost a = deref_all(anc@).take(na as int);
    let ghost c = cs@.map_values(|c: Compound| compound_view(c)).take(nc as int);
    if nc == 0 {
        return true;
    }
    if na == 0 {
        return false;
    }
    assert(a.drop_last() =~= deref_all(anc@).take(na - 1));
    assert(c.drop_last() =~= cs@.map_values(|c: Compound| compound_view(c)).take(nc - 1));
    assert(c.last() == compound_view(cs@[nc - 1]));
    assert(a.last() == *anc@[na - 1]);
    if compound_matches(anc[na - 1], &cs[nc - 1]) && embed(anc, na - 1, cs, nc - 1) {
        return true;
    }
    embed(anc, na - 1, cs, nc)
}

/// Whether the element `e`, below the ancestors `anc`, matches `sel`.
pub fn element_matches(e: &Element, anc: &Vec<&Element>, sel: &Selector) -> (r: bool)
    ensures
        r == matches_spec(*e, deref_all(anc@), selector_view(*sel)),
{
    let n = sel.compounds.len();
    if n == 0 {
        return false;
    }
    if !compound_matches(e, &sel.compounds[n - 1]) {
        return false;
    }
    let r = embed(anc, anc.len(), &sel.compounds, n - 1);
    assert(deref_all(anc@).take(anc.len() as int) =~= deref_all(anc@));
    assert(selector_view(*sel).take(n - 1) =~= selector_view(*sel).drop_last());
    r
}


/// An element found by a selection, with its ancestors (outermost first).
pub ghost struct Found {
    pub element: Element,
    pub ancestors: Seq<Element>,
}

/// The elements among `e` and its descendants, in document order, that match `sel`,
/// where `anc` are the ancestors of `e` (`select` on `e`).
pub open spec fn select_element_spec(e: Element, anc: Seq<Element>, sel: Seq<CompoundView>) -> Seq<Found>
    decreases e,
{
    (if matches_spec(e, anc, sel) {
        seq![Found { element: e, ancestors: anc }]
    } else {
        Seq::empty()
    }) + select_list_spec(e.children@, anc.push(e), sel)
}

/// The elements among `n` and its descendants, in document order, that match `sel`,
/// where `anc` are the ancestors of `n`.
pub open spec fn select_node_spec(n: HtmlNode, anc: Seq<Element>, sel: Seq<CompoundView>) -> Seq<Found>
    decreases n,
{
    match n {
        HtmlNode::Element(e) => select_element_spec(e, anc, sel),
        HtmlNode::Document(ch) => select_list_spec(ch@, anc, sel),
        _ => Seq::empty(),
    }
}

/// The matches of `sel` in the nodes `s` (siblings below the ancestors `anc`), in order.
pub open spec fn select_list_spec(s: Seq<HtmlNode>, anc: Seq<Element>, sel: Seq<CompoundView>) -> Seq<Found>
    decreases s,
{
    if s.len() == 0 {
        Seq::empty()
    } else {
        select_node_spec(s[0], anc, sel) + select_list_spec(s.drop_first(), anc, sel)
    }
}

/// An element that a selection found, with references to its ancestors (outermost first).
pub struct Located<'a> {
    pub element: &'a Element,
    pub ancestors: Vec<&'a Element>,
}

/// What a `Located` stands for.
pub open spec fn found_of(l: Located) -> Found {
    Found { element: *l.element, ancestors: deref_all(l.ancestors@) }
}

/// What a sequence of `Located` stands for.
pub open spec fn founds_of(s: Seq<Located>) -> Seq<Found> {
    s.map_values(|l: Located| found_of(l))
}

proof fn lemma_select_list_push(s: Seq<HtmlNode>, n: HtmlNode, anc: Seq<Element>, sel: Seq<CompoundView>)
    ensures
        select_list_spec(s.push(n), anc, sel) == select_list_spec(s, anc, sel) + select_node_spec(
            n,
            anc,
            sel,
        ),
    decreases s.len(),
{
    if s.len() == 0 {
        assert(s.push(n).drop_first() =~= Seq::<HtmlNode>::empty());
        assert(select_list_spec(Seq::<HtmlNode>::empty(), anc, sel) =~= Seq::<Found>::empty());
        assert(s.push(n)[0] == n);
        assert(select_list_spec(s.push(n), anc, sel) =~= select_node_spec(n, anc, sel));
    } else {
        assert(s.push(n).drop_first() =~= s.drop_first().push(n));
        lemma_select_list_push(s.drop_first(), n, anc, sel);
        assert(select_list_spec(s.push(n), anc, sel) =~= select_list_spec(s, anc, sel)
            + select_node_spec(n, anc, sel));
    }
}

/// Whether every found element in `fs` matches `sel` where it stands.
pub open spec fn all_match(fs: Seq<Found>, sel: Seq<CompoundView>) -> bool {
    forall|i: int|
        #![trigger fs[i]]
        0 <= i < fs.len() ==> matches_spec(fs[i].element, fs[i].ancestors, sel)
}

proof fn lemma_all_match_concat(a: Seq<Found>, b: Seq<Found>, sel: Seq<CompoundView>)
    requires
        all_match(a, sel),
        all_match(b, sel),
    ensures
        all_match(a + b, sel),
{
    assert forall|i: int| 0 <= i < (a + b).len() implies matches_spec(
        (a + b)[i].element,
        (a + b)[i].ancestors,
        sel,
    ) by {
        if i < a.len() {
            assert((a + b)[i] == a[i]);
        } else {
            assert((a + b)[i] == b[i - a.len()]);
        }
    }
}

proof fn lemma_select_element_match(e: Element, anc: Seq<Element>, sel: Seq<CompoundView>)
    ensures
        all_match(select_element_spec(e, anc, sel), sel),
    decreases e,
{
    lemma_select_list_match(e.children@, anc.push(e), sel);
    let head = if matches_spec(e, anc, sel) {
        seq![Found { element: e, ancestors: anc }]
    } else {
        Seq::<Found>::empty()
    };
    assert(all_match(head, sel));
    lemma_all_match_concat(head, select_list_spec(e.children@, anc.push(e), sel), sel);
}

proof fn lemma_select_list_match(s: Seq<HtmlNode>, anc: Seq<Element>, sel: Seq<CompoundView>)
    ensures
        all_match(select_list_spec(s, anc, sel), sel),
    decreases s,
{
    if s.len() > 0 {
        law_selected_elements_match(s[0], anc, sel);
        lemma_select_list_match(s.drop_first(), anc, sel);
        lemma_all_match_concat(
            select_node_spec(s[0], anc, sel),
            select_list_spec(s.drop_first(), anc, sel),
            sel,
        );
    }
}

/// Every element that a selection finds matches the selector where it stands: it meets
/// the last compound, and its ancestors meet the others, in order.
pub proof fn law_selected_elements_match(n: HtmlNode, anc: Seq<Element>, sel: Seq<CompoundView>)
    ensures
        all_match(select_node_spec(n, anc, sel), sel),
    decreases n,
{
    match n {
        HtmlNode::Element(e) => lemma_select_element_match(e, anc, sel),
        HtmlNode::Document(ch) => lemma_select_list_match(ch@, anc, sel),
        _ => {},
    }
}

/// Whether the first of `fs` lies below `anc` and has no ancestor below `anc` that meets
/// `c`: no element between `anc` and the first match meets the compound.
pub open spec fn first_is_outermost(fs: Seq<Found>, anc: Seq<Element>, c: CompoundView) -> bool {
    fs.len() > 0 ==> {
        let f = fs[0];
        &&& anc.len() <= f.ancestors.len()
        &&& f.ancestors.subrange(0, anc.len() as int) == anc
        &&& forall|k: int|
            anc.len() <= k < f.ancestors.len() ==> !compound_spec(#[trigger] f.ancestors[k], c)
    }
}

proof fn lemma_first_outermost_element(e: Element, anc: Seq<Element>, sel: Seq<CompoundView>)
    requires
        sel.len() == 1,
    ensures
        first_is_outermost(select_element_spec(e, anc, sel), anc, sel[0]),
    decreases e,
{
    let fs = select_element_spec(e, anc, sel);
    let rest = select_list_spec(e.children@, anc.push(e), sel);
    lemma_first_outermost_list(e.children@, anc.push(e), sel);
    assert(sel.drop_last() =~= Seq::<CompoundView>::empty());
    if matches_spec(e, anc, sel) {
        assert(fs[0] == Found { element: e, ancestors: anc });
        assert(anc.subrange(0, anc.len() as int) =~= anc);
    } else {
        assert(fs =~= rest);
        if fs.len() > 0 {
            let f = fs[0];
            assert(f.ancestors.subrange(0, anc.len() as int) =~= anc.push(e).subrange(
                0,
                anc.len() as int,
            )) by {
                assert(f.ancestors.subrange(0, anc.push(e).len() as int) == anc.push(e));
            }
            assert(anc.push(e).subrange(0, anc.len() as int) =~= anc);
            assert(f.ancestors[anc.len() as int] == anc.push(e)[anc.len() as int]);
            assert(!compound_spec(e, sel[0]));
        }
    }
}

proof fn lemma_first_outermost_list(s: Seq<HtmlNode>, anc: Seq<Element>, sel: Seq<CompoundView>)
    requires
        sel.len() == 1,
    ensures
        first_is_outermost(select_list_spec(s, anc, sel), anc, sel[0]),
    decreases s,
{
    if s.len() > 0 {
        law_first_match_is_outermost(s[0], anc, sel);
        lemma_first_outermost_list(s.drop_first(), anc, sel);
        let a = select_node_spec(s[0], anc, sel);
        let b = select_list_spec(s.drop_first(), anc, sel);
        if a.len() > 0 {
            assert((a + b)[0] == a[0]);
        } else {
            assert(a + b =~= b);
        }
    }
}

/// Selection runs in document order, outermost first: the first element that a
/// one-compound selector finds has no ancestor (below the starting ancestors `anc`) that
/// meets the selector, so no match encloses it. Where the root itself matches, it is the
/// first match.
pub proof fn law_first_match_is_outermost(n: HtmlNode, anc: Seq<Element>, sel: Seq<CompoundView>)
    requires
        sel.len() == 1,
    ensures
        first_is_outermost(select_node_spec(n, anc, sel), anc, sel[0]),
        match n {
            HtmlNode::Element(e) => compound_spec(e, sel[0]) ==> select_node_spec(n, anc, sel)[0]
                == (Found { element: e, ancestors: anc }),
            _ => true,
        },
    decreases n,
{
    match n {
        HtmlNode::Element(e) => {
            lemma_first_outermost_element(e, anc, sel);
            assert(sel.drop_last() =~= Seq::<CompoundView>::empty());
        },
        HtmlNode::Document(ch) => lemma_first_outermost_list(ch@, anc, sel),
        _ => {},
    }
}

/// Whether every found element in `fs` lies at least `depth` elements deep.
pub open spec fn all_at_depth(fs: Seq<Found>, depth: nat) -> bool {
    forall|i: int| #![trigger fs[i]] 0 <= i < fs.len() ==> fs[i].ancestors.len() >= depth
}

proof fn lemma_all_at_depth_concat(a: Seq<Found>, b: Seq<Found>, depth: nat)
    requires
        all_at_depth(a, depth),
        all_at_depth(b, depth),
    ensures
        all_at_depth(a + b, depth),
{
    assert forall|i: int| 0 <= i < (a + b).len() implies (a + b)[i].ancestors.len() >= depth by {
        if i < a.len() {
            assert((a + b)[i] == a[i]);
        } else {
            assert((a + b)[i] == b[i - a.len()]);
        }
    }
}

proof fn lemma_depth_element(e: Element, anc: Seq<Element>, sel: Seq<CompoundView>)
    ensures
        all_at_depth(select_element_spec(e, anc, sel), anc.len()),
    decreases e,
{
    lemma_depth_list(e.children@, anc.push(e), sel);
    let head = if matches_spec(e, anc, sel) {
        seq![Found { element: e, ancestors: anc }]
    } else {
        Seq::<Found>::empty()
    };
    let rest = select_list_spec(e.children@, anc.push(e), sel);
    assert(all_at_depth(head, anc.len()));
    assert(all_at_depth(rest, anc.len()));
    lemma_all_at_depth_concat(head, rest, anc.len());
}

proof fn lemma_depth_list(s: Seq<HtmlNode>, anc: Seq<Element>, sel: Seq<CompoundView>)
    ensures
        all_at_depth(select_list_spec(s, anc, sel), anc.len()),
    decreases s,
{
    if s.len() > 0 {
        lemma_depth_node(s[0], anc, sel);
        lemma_depth_list(s.drop_first(), anc, sel);
        lemma_all_at_depth_concat(
            select_node_spec(s[0], anc, sel),
            select_list_spec(s.drop_first(), anc, sel),
            anc.len(),
        );
    }
}

proof fn lemma_depth_node(n: HtmlNode, anc: Seq<Element>, sel: Seq<CompoundView>)
    ensures
        all_at_depth(select_node_spec(n, anc, sel), anc.len()),
    decreases n,
{
    match n {
        HtmlNode::Element(e) => lemma_depth_element(e, anc, sel),
        HtmlNode::Document(ch) => lemma_depth_list(ch@, anc, sel),
        _ => {},
    }
}

/// An element that matches comes before every match below it: selecting from a matching
/// element gives that element first, and every later match lies deeper than it.
pub proof fn law_element_before_its_descendants(e: Element, anc: Seq<Element>, sel: Seq<CompoundView>)
    requires
        matches_spec(e, anc, sel),
    ensures
        select_element_spec(e, anc, sel).len() > 0,
        select_element_spec(e, anc, sel)[0] == (Found { element: e, ancestors: anc }),
        forall|k: int|
            0 < k < select_element_spec(e, anc, sel).len() ==> (#[trigger] select_element_spec(
                e,
                anc,
                sel,
            )[k]).ancestors.len() > anc.len(),
{
    let fs = select_element_spec(e, anc, sel);
    let rest = select_list_spec(e.children@, anc.push(e), sel);
    lemma_depth_list(e.children@, anc.push(e), sel);
    assert forall|k: int| 0 < k < fs.len() implies (#[trigger] fs[k]).ancestors.len() > anc.len() by {
        assert(fs[k] == rest[k - 1]);
    }
}

fn copy_refs<'a>(a: &Vec<&'a Element>) -> (r: Vec<&'a Element>)
    ensures
        r@ == a@,
{
    let mut r: Vec<&'a Element> = Vec::new();
    let mut i: usize = 0;
    while i < a.len()
        invariant
            i <= a.len(),
            r@ == a@.take(i as int),
        decreases a.len() - i,
    {
        r.push(a[i]);
        i = i + 1;
        assert(r@ =~= a@.take(i as int));
    }
    assert(a@.take(a.len() as int) =~= a@);
    r
}

fn select_element_into<'a>(
    e: &'a Element,
    anc: &mut Vec<&'a Element>,
    sel: &Selector,
    out: &mut Vec<Located<'a>>,
)
    ensures
        final(anc)@ == old(anc)@,
        founds_of(final(out)@) == founds_of(old(out)@) + select_element_spec(
            *e,
            deref_all(old(anc)@),
            selector_view(*sel),
        ),
    decreases e, 1nat,
{
    let ghost out0 = founds_of(out@);
    let ghost a0 = anc@;
    if element_matches(e, anc, sel) {
        let l = Located { element: e, ancestors: copy_refs(anc) };
        out.push(l);
        assert(founds_of(out@) =~= out0 + seq![Found { element: *e, ancestors: deref_all(a0) }]);
    } else {
        assert(founds_of(out@) =~= out0 + Seq::<Found>::empty());
    }
    let ghost out1 = founds_of(out@);
    anc.push(e);
    assert(deref_all(anc@) =~= deref_all(a0).push(*e));
    select_list_into(&e.children, anc, sel, out);
    anc.pop();
    assert(anc@ =~= a0);
    assert(founds_of(out@) =~= out0 + select_element_spec(*e, deref_all(a0), selector_view(*sel)));
}

fn select_node_into<'a>(
    n: &'a HtmlNode,
    anc: &mut Vec<&'a Element>,
    sel: &Selector,
    out: &mut Vec<Located<'a>>,
)
    ensures
        final(anc)@ == old(anc)@,
        founds_of(final(out)@) == founds_of(old(out)@) + select_node_spec(
            *n,
            deref_all(old(anc)@),
            selector_view(*sel),
        ),
    decreases n, 2nat,
{
    match n {
        HtmlNode::Element(e) => select_element_into(e, anc, sel, out),
        HtmlNode::Document(ch) => select_list_into(ch, anc, sel, out),
        _ => {
            assert(founds_of(out@) =~= founds_of(out@) + Seq::<Found>::empty());
        },
    }
}

fn select_list_into<'a>(
    s: &'a Vec<HtmlNode>,
    anc: &mut Vec<&'a Element>,
    sel: &Selector,
    out: &mut Vec<Located<'a>>,
)
    ensures
        final(anc)@ == old(anc)@,
        founds_of(final(out)@) == founds_of(old(out)@) + select_list_spec(
            s@,
            deref_all(old(anc)@),
            selector_view(*sel),
        ),
    decreases s, 0nat,
{
    let ghost out0 = founds_of(out@);
    let ghost a0 = anc@;
    let mut i: usize = 0;
    assert(s@.take(0) =~= Seq::<HtmlNode>::empty());
    assert(founds_of(out@) =~= out0 + select_list_spec(s@.take(0), deref_all(a0), selector_view(*sel)));
    while i < s.len()
        invariant
            i <= s.len(),
            anc@ == a0,
            founds_of(out@) == out0 + select_list_spec(s@.take(i as int), deref_all(a0), selector_view(*sel)),
        decreases s.len() - i,
    {
        assert(decreases_to!(s => s@[i as int]));
        select_node_into(&s[i], anc, sel, out);
        proof {
            lemma_select_list_push(s@.take(i as int), s@[i as int], deref_all(a0), selector_view(*sel));
            assert(s@.take(i as int).push(s@[i as int]) =~= s@.take(i + 1));
        }
        i = i + 1;
        assert(founds_of(out@) =~= out0 + select_list_spec(s@.take(i as int), deref_all(a0), selector_view(*sel)));
    }
    assert(s@.take(s.len() as int) =~= s@);
}

/// The elements among `root` and its descendants that match `sel`, in document order
/// (`select` on a document).
pub fn select<'a>(root: &'a HtmlNode, sel: &Selector) -> (r: Vec<Located<'a>>)
    ensures
        founds_of(r@) == select_node_spec(*root, Seq::empty(), selector_view(*sel)),
{
    let mut anc: Vec<&'a Element> = Vec::new();
    let mut out: Vec<Located<'a>> = Vec::new();
    assert(deref_all(anc@) =~= Seq::<Element>::empty());
    assert(founds_of(out@) =~= Seq::<Found>::empty());
    select_node_into(root, &mut anc, sel, &mut out);
    assert(founds_of(out@) =~= select_node_spec(*root, Seq::empty(), selector_view(*sel)));
    out
}

/// The elements among the found element `at` and its descendants that match `sel`, in
/// document order, with the ancestors of `at` taken into account (`select` on an element).
pub fn select_within<'a>(at: &Located<'a>, sel: &Selector) -> (r: Vec<Located<'a>>)
    ensures
        founds_of(r@) == select_element_spec(*at.element, deref_all(at.ancestors@), selector_view(*sel)),
{
    let mut anc = copy_refs(&at.ancestors);
    let mut out: Vec<Located<'a>> = Vec::new();
    assert(founds_of(out@) =~= Seq::<Found>::empty());
    select_element_into(at.element, &mut anc, sel, &mut out);
    assert(founds_of(out@) =~= select_element_spec(*at.element, deref_all(at.ancestors@), selector_view(*sel)));
    out
}

} // verus!
