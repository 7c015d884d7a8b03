use hkg::builder::parse_document;
use hkg::content::recursive;
use hkg::html::{HTML_NAMESPACE, 
    ascii_ci_eq, get_attr, has_class, select, select_within, text_contents, texts_of, Attribute, Element,
    HtmlNode,
};
use hkg::model::NodeType;
use hkg::selector::{attrs1, class, equals, no_attrs, one, present, tag, two};

fn attr(name: &str, value: &str) -> Attribute {
    Attribute { namespace: String::new(), name: name.to_string(), value: value.to_string() }
}

fn element(name: &str, attrs: &[(&str, &str)], children: Vec<HtmlNode>) -> Element {
    Element {
        namespace: String::from(HTML_NAMESPACE),
        name: name.to_string(),
        attributes: attrs.iter().map(|(k, v)| attr(k, v)).collect(),
        children,
        html: Some(format!("<{}>", name)),
    }
}

fn el(name: &str, attrs: &[(&str, &str)], children: Vec<HtmlNode>) -> HtmlNode {
    HtmlNode::Element(element(name, attrs, children))
}

fn text(t: &str) -> HtmlNode {
    HtmlNode::Text(t.to_string())
}

fn texts(body: &[NodeType]) -> Vec<String> {
    body.iter()
        .map(|n| match n {
            NodeType::Text(t) => format!("text:{}", t.data),
            NodeType::Image(i) => format!("img:{}:{}", i.data, i.alt),
            NodeType::Br(_) => String::from("br"),
            NodeType::BlockQuote(q) => format!("quote[{}]", texts(&q.data).join(",")),
        })
        .collect()
}

#[test]
fn has_class_finds_white_space_separated_tokens() {
    assert!(has_class("a repliers b", "repliers"));
    assert!(has_class("repliers", "repliers"));
    assert!(has_class("\trepliers\n", "repliers"));
    assert!(!has_class("repliers_header", "repliers"));
    assert!(!has_class("", "repliers"));
    assert!(!has_class("Repliers", "repliers"));
}

#[test]
fn ascii_ci_eq_ignores_ascii_case_only() {
    assert!(ascii_ci_eq("Selected", "selected"));
    assert!(ascii_ci_eq("", ""));
    assert!(!ascii_ci_eq("selected", "select"));
    assert!(!ascii_ci_eq("É", "é"));
}

#[test]
fn get_attr_takes_the_first_attribute_without_namespace() {
    let mut e = element("a", &[("href", "x"), ("href", "y")], vec![]);
    assert_eq!(get_attr(&e, "href").map(|s| s.as_str()), Some("x"));
    assert_eq!(get_attr(&e, "title"), None);
    e.attributes.insert(
        0,
        Attribute { namespace: String::from("http://www.w3.org/1999/xlink"), name: String::from("href"), value: String::from("z") },
    );
    assert_eq!(get_attr(&e, "href").map(|s| s.as_str()), Some("x"));
}

#[test]
fn text_contents_joins_descendant_texts() {
    let n = el("div", &[], vec![text("a "), el("b", &[], vec![text("b")]), HtmlNode::Other, text(" c")]);
    assert_eq!(text_contents(&n), "a b c");
}

#[test]
fn select_finds_descendants_in_document_order() {
    let doc = HtmlNode::Document(vec![el(
        "table",
        &[("class", "repliers")],
        vec![
            el("tr", &[("id", "1")], vec![el("td", &[], vec![text("one")])]),
            el("tr", &[], vec![el("td", &[], vec![text("two")])]),
            el("tr", &[("id", "3")], vec![el("td", &[], vec![text("three")])]),
        ],
    )]);
    let rows = select(&doc, &two(class("repliers"), tag("tr", attrs1(present("id")))));
    assert_eq!(rows.len(), 2);
    assert_eq!(texts_of(&rows[0].element.children), "one");
    assert_eq!(texts_of(&rows[1].element.children), "three");
    assert_eq!(rows[0].ancestors.len(), 1);
    assert_eq!(rows[0].ancestors[0].name, "table");
    let cells = select_within(&rows[1], &one(tag("td", no_attrs())));
    assert_eq!(cells.len(), 1);
    assert_eq!(cells[0].ancestors.len(), 2);
}

#[test]
fn select_needs_the_ancestor_of_a_descendant_selector() {
    let doc = HtmlNode::Document(vec![el("div", &[("class", "other")], vec![el("tr", &[("id", "1")], vec![])])]);
    let rows = select(&doc, &two(class("repliers"), tag("tr", no_attrs())));
    assert!(rows.is_empty());
}

#[test]
fn select_compares_attribute_values() {
    let doc = HtmlNode::Document(vec![
        el("select", &[("name", "page")], vec![el("option", &[("selected", "SELECTED")], vec![text("2")])]),
        el("select", &[("name", "other")], vec![]),
    ]);
    let exact = select(&doc, &one(tag("option", attrs1(equals("selected", "selected", false)))));
    assert!(exact.is_empty());
    let ci = select(&doc, &one(tag("option", attrs1(equals("selected", "selected", true)))));
    assert_eq!(ci.len(), 1);
    let named = select(&doc, &one(tag("select", attrs1(equals("name", "page", false)))));
    assert_eq!(named.len(), 1);
}

#[test]
fn recursive_walks_a_reply_body() {
    let content = element(
        "div",
        &[("class", "ContentGrid")],
        vec![
            text("  hello \n"),
            el("br", &[], vec![]),
            el("img", &[("src", "faces/smile.gif"), ("alt", ":)"), ("class", "emoji")], vec![]),
            el("blockquote", &[], vec![text(" quoted "), el("br", &[], vec![])]),
            el("span", &[], vec![el("b", &[], vec![text("bold")]), text("tail")]),
            HtmlNode::Other,
            text("\n"),
        ],
    );
    let body = recursive(&content, "alt");
    assert_eq!(
        texts(&body),
        vec!["text:hello", "br", "img:faces/smile.gif::)", "quote[text:quoted,br]", "text:bold", "text:tail", "text:"]
    );
    let by_class = recursive(&content, "class");
    assert_eq!(texts(&by_class)[2], "img:faces/smile.gif:emoji");
}

#[test]
fn recursive_takes_missing_image_attributes_as_empty() {
    let content = element("div", &[], vec![el("img", &[], vec![])]);
    assert_eq!(texts(&recursive(&content, "alt")), vec!["img::"]);
}

#[test]
fn recursive_never_gives_a_lone_line_feed() {
    let content = element("div", &[], vec![text("\n"), text(" \n "), text("\r\n")]);
    let body = recursive(&content, "alt");
    assert_eq!(body.len(), 3);
    for n in &body {
        match n {
            NodeType::Text(t) => assert_eq!(t.data, ""),
            _ => panic!("expected text"),
        }
    }
}

#[test]
fn parse_document_builds_the_tree_that_kuchiki_parses() {
    let doc = parse_document("<div class=\"a b\" id=x>hi <b>there</b></div><p>no</p>");
    let found = select(&doc, &one(class("b")));
    assert_eq!(found.len(), 1);
    let div = found[0].element;
    assert_eq!(div.name, "div");
    assert_eq!(get_attr(div, "id").map(|s| s.as_str()), Some("x"));
    assert_eq!(texts_of(&div.children), "hi there");
    assert_eq!(div.html.as_deref(), Some("<div class=\"a b\" id=\"x\">hi <b>there</b></div>"));
    let ancestors: Vec<&str> = found[0].ancestors.iter().map(|e| e.name.as_str()).collect();
    assert_eq!(ancestors, vec!["html", "body"]);
}
