use vstd::prelude::*;

use crate::html::{attr_spec, get_attr, Element, HtmlNode};
use crate::model::{
    lemma_node_views_append, lemma_node_views_push, node_view, node_views, BlockQuoteNode, BrNode,
    ImageNode, NodeType, NodeView, TextNode,
};
use crate::text::{
    is_white_space_spec, lemma_trim_end_last_char, lemma_trim_idempotent, str_eq, trim, trim_spec, trim_start_spec,
};

verus! {

/// The value of the attribute `key` of `e`, or the empty text where it has none.
pub open spec fn attr_or_empty(e: Element, key: Seq<char>) -> Seq<char> {
    match attr_spec(e, key) {
        Some(v) => v,
        None => Seq::empty(),
    }
}

/// The reply body pieces that the node `n` gives: a `blockquote` element gives a quote of
/// its children's pieces, `br` a line break, `img` an image (its `src`, and its attribute
/// `alt_key` as alternative text), any other element its children's pieces in line; a text
/// node gives its trimmed text; other nodes give nothing.
pub open spec fn content_of_node(n: HtmlNode, alt_key: Seq<char>) -> Seq<NodeView>
    decreases n,
{
    match n {
        HtmlNode::Element(e) => if trim_spec(e.name@) == "blockquote"@ {
            seq![NodeView::BlockQuote(content_of_list(e.children@, alt_key))]
        } else if trim_spec(e.name@) == "br"@ {
            seq![NodeView::Br]
        } else if trim_spec(e.name@) == "img"@ {
            seq![NodeView::Image(attr_or_empty(e, "src"@), attr_or_empty(e, alt_key))]
        } else {
            content_of_list(e.children@, alt_key)
        },
        HtmlNode::Text(t) => seq![NodeView::Text(trim_spec(t@))],
        _ => Seq::empty(),
    }
}

/// The reply body pieces that the nodes `s` give, one node after another.
pub open spec fn content_of_list(s: Seq<HtmlNode>, alt_key: Seq<char>) -> Seq<NodeView>
    decreases s,
{
    if s.len() == 0 {
        Seq::empty()
    } else {
        content_of_node(s[0], alt_key) + content_of_list(s.drop_first(), alt_key)
    }
}

proof fn lemma_content_push(s: Seq<HtmlNode>, n: HtmlNode, alt_key: Seq<char>)
    ensures
        content_of_list(s.push(n), alt_key) == content_of_list(s, alt_key) + content_of_node(
            n,
            alt_key,
        ),
    decreases s.len(),
{
    if s.len() == 0 {
        assert(s.push(n).drop_first() =~= Seq::<HtmlNode>::empty());
        assert(content_of_list(Seq::<HtmlNode>::empty(), alt_key) =~= Seq::<NodeView>::empty());
        assert(s.push(n)[0] == n);
        assert(content_of_list(s.push(n), alt_key) =~= content_of_node(n, alt_key));
    } else {
        assert(s.push(n).drop_first() =~= s.drop_first().push(n));
        lemma_content_push(s.drop_first(), n, alt_key);
        assert(content_of_list(s.push(n), alt_key) =~= content_of_list(s, alt_key)
            + content_of_node(n, alt_key));
    }
}

/// A trimmed text is never a lone line feed.
proof fn lemma_trimmed_not_newline(s: Seq<char>)
    ensures
        trim_spec(s) != seq!['\n'],
{
    lemma_trim_end_last_char(trim_start_spec(s));
    assert(is_white_space_spec('\n'));
}

/// The reply body pieces that the children of `elm` give, in order (the
/// `recursive` walk over a reply's content), with the attribute `alt_key` of an image
/// taken as its alternative text.
pub fn recursive(elm: &Element, alt_key: &str) -> (r: Vec<NodeType>)
    ensures
        node_views(r@) == content_of_list(elm.children@, alt_key@),
    decreases elm,
{
    let mut vec: Vec<NodeType> = Vec::new();
    let mut i: usize = 0;
    assert(elm.children@.take(0) =~= Seq::<HtmlNode>::empty());
    assert(node_views(vec@) =~= Seq::<NodeView>::empty());
    while i < elm.children.len()
        invariant
            i <= elm.children.len(),
            node_views(vec@) == content_of_list(elm.children@.take(i as int), alt_key@),
        decreases elm.children.len() - i,
    {
        let ghost before = vec@;
        let child = &elm.children[i];
        proof {
            lemma_content_push(elm.children@.take(i as int), elm.children@[i as int], alt_key@);
            assert(elm.children@.take(i as int).push(elm.children@[i as int]) =~= elm.children@.take(
                i + 1,
            ));
        }
        match child {
            HtmlNode::Element(e) => {
                assert(decreases_to!(elm => e));
                let name = trim(e.name.as_str());
                if str_eq(name.as_str(), "blockquote") {
                    let subvec = recursive(e, alt_key);
                    let node = NodeType::BlockQuote(BlockQuoteNode { data: subvec });
                    vec.push(node);
                    proof {
                        lemma_node_views_push(before, node);
                        assert(node_view(node) == NodeView::BlockQuote(
                            content_of_list(e.children@, alt_key@),
                        ));
                    }
                    assert(node_views(vec@) == node_views(before) + content_of_node(*child, alt_key@));
                } else if str_eq(name.as_str(), "br") {
                    let node = NodeType::Br(BrNode {});
                    vec.push(node);
                    proof {
                        lemma_node_views_push(before, node);
                    }
                    assert(node_views(vec@) == node_views(before) + content_of_node(*child, alt_key@));
                } else if str_eq(name.as_str(), "img") {
                    let url = match get_attr(e, "src") {
                        Some(v) => v.clone(),
                        None => String::new(),
                    };
                    let alt = match get_attr(e, alt_key) {
                        Some(v) => v.clone(),
                        None => String::new(),
                    };
                    let node = NodeType::Image(ImageNode { data: url, alt: alt });
                    vec.push(node);
                    proof {
                        lemma_node_views_push(before, node);
                    }
                    assert(node_views(vec@) == node_views(before) + content_of_node(*child, alt_key@));
                } else {
                    let subvec = recursive(e, alt_key);
                    proof {
                        lemma_node_views_append(before, subvec@);
                    }
                    let mut subvec = subvec;
                    vec.append(&mut subvec);
                    assert(node_views(vec@) == node_views(before) + content_of_node(*child, alt_key@));
                }
            },
            HtmlNode::Text(t) => {
                let s = trim(t.as_str());
                proof {
                    lemma_trimmed_not_newline(t@);
                    reveal_strlit("\n");
                    assert("\n"@ =~= seq!['\n']);
                }
                if !str_eq(s.as_str(), "\n") {
                    let node = NodeType::Text(TextNode { data: s });
                    vec.push(node);
                    proof {
                        lemma_node_views_push(before, node);
                    }
                }
                assert(node_views(vec@) == node_views(before) + content_of_node(*child, alt_key@));
            },
            _ => {
                assert(node_views(vec@) =~= node_views(before) + Seq::<NodeView>::empty());
            },
        }
        i = i + 1;
    }
    assert(elm.children@.take(elm.children.len() as int) =~= elm.children@);
    vec
}

/// Whether every text piece among `v`, inside quotes too, is trimmed and so never a
/// lone line feed.
pub open spec fn pieces_trimmed(v: Seq<NodeView>) -> bool
    decreases v,
{
    if v.len() == 0 {
        true
    } else {
        piece_trimmed(v[0]) && pieces_trimmed(v.drop_first())
    }
}

/// Whether the text pieces of `p`, inside a quote too, are trimmed and so never a lone
/// line feed.
pub open spec fn piece_trimmed(p: NodeView) -> bool
    decreases p,
{
    match p {
        NodeView::Text(t) => trim_spec(t) == t && t != seq!['\n'],
        NodeView::BlockQuote(q) => pieces_trimmed(q),
        _ => true,
    }
}

proof fn lemma_pieces_trimmed_concat(a: Seq<NodeView>, b: Seq<NodeView>)
    ensures
        pieces_trimmed(a + b) == (pieces_trimmed(a) && pieces_trimmed(b)),
    decreases a.len(),
{
    if a.len() == 0 {
        assert(a + b =~= b);
    } else {
        assert((a + b).drop_first() =~= a.drop_first() + b);
        lemma_pieces_trimmed_concat(a.drop_first(), b);
    }
}

proof fn lemma_single_piece_trimmed(p: NodeView)
    ensures
        pieces_trimmed(seq![p]) == piece_trimmed(p),
{
    assert(seq![p].drop_first() =~= Seq::<NodeView>::empty());
    assert(pieces_trimmed(Seq::<NodeView>::empty()));
}

proof fn lemma_node_pieces_trimmed(n: HtmlNode, alt_key: Seq<char>)
    ensures
        pieces_trimmed(content_of_node(n, alt_key)),
    decreases n,
{
    match n {
        HtmlNode::Element(e) => {
            law_body_texts_trimmed(e.children@, alt_key);
            let name = trim_spec(e.name@);
            if name == "blockquote"@ {
                lemma_single_piece_trimmed(
                    NodeView::BlockQuote(content_of_list(e.children@, alt_key)),
                );
            } else if name == "br"@ {
                lemma_single_piece_trimmed(NodeView::Br);
            } else if name == "img"@ {
                lemma_single_piece_trimmed(
                    NodeView::Image(attr_or_empty(e, "src"@), attr_or_empty(e, alt_key)),
                );
            }
        },
        HtmlNode::Text(t) => {
            lemma_trim_idempotent(t@);
            lemma_trimmed_not_newline(t@);
            lemma_single_piece_trimmed(NodeView::Text(trim_spec(t@)));
        },
        _ => {
            assert(pieces_trimmed(Seq::<NodeView>::empty()));
        },
    }
}

/// Every text piece of a reply body, inside quotes too, is trimmed, so none is a lone
/// line feed: the walk's check for one never drops anything.
pub proof fn law_body_texts_trimmed(s: Seq<HtmlNode>, alt_key: Seq<char>)
    ensures
        pieces_trimmed(content_of_list(s, alt_key)),
    decreases s,
{
    if s.len() > 0 {
        lemma_node_pieces_trimmed(s[0], alt_key);
        law_body_texts_trimmed(s.drop_first(), alt_key);
        lemma_pieces_trimmed_concat(
            content_of_node(s[0], alt_key),
            content_of_list(s.drop_first(), alt_key),
        );
    }
}

} // verus!
