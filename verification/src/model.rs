use vstd::prelude::*;

verus! {

/// The `type` (channel) and `message` (thread) values of a thread URL's query.
#[derive(Debug)]
pub struct UrlQueryItem {
    pub channel: String,
    pub message: String,
}

/// The title cell of a topic list row.
#[derive(Debug)]
pub struct ListTopicTitleItem {
    pub url: String,
    pub url_query: UrlQueryItem,
    pub text: String,
    pub num_of_pages: usize,
}

/// The author cell of a topic list row.
#[derive(Debug)]
pub struct ListTopicAuthorItem {
    pub url: String,
    pub name: String,
}

/// One row of a topic list.
#[derive(Debug)]
pub struct ListTopicItem {
    pub title: ListTopicTitleItem,
    pub author: ListTopicAuthorItem,
    pub last_replied_date: String,
    pub last_replied_time: String,
    pub reply_count: String,
    pub rating: String,
}

/// One page of a thread.
#[derive(Debug)]
pub struct ShowItem {
    pub url_query: UrlQueryItem,
    pub replies: Vec<ShowReplyItem>,
    pub page: usize,
    pub max_page: usize,
    pub reply_count: String,
    pub title: String,
}

/// One reply of a thread page.
#[derive(Debug)]
pub struct ShowReplyItem {
    pub userid: String,
    pub username: String,
    pub content: String,
    pub body: Vec<NodeType>,
    pub published_at: String,
}

/// A run of text in a reply body.
#[derive(Debug)]
pub struct TextNode {
    pub data: String,
}

/// An image in a reply body: its source and its alternative text.
#[derive(Debug)]
pub struct ImageNode {
    pub data: String,
    pub alt: String,
}

/// A line break in a reply body.
#[derive(Debug)]
pub struct BrNode {}

/// A quotation in a reply body, with its own content.
#[derive(Debug)]
pub struct BlockQuoteNode {
    pub data: Vec<NodeType>,
}

/// A piece of a reply body.
#[derive(Debug)]
pub enum NodeType {
    Text(TextNode),
    Image(ImageNode),
    Br(BrNode),
    BlockQuote(BlockQuoteNode),
}

/// What a piece of a reply body stands for.
pub ghost enum NodeView {
    Text(Seq<char>),
    Image(Seq<char>, Seq<char>),
    Br,
    BlockQuote(Seq<NodeView>),
}

/// The value that `n` stands for.
pub open spec fn node_view(n: NodeType) -> NodeView
    decreases n,
{
    match n {
        NodeType::Text(t) => NodeView::Text(t.data@),
        NodeType::Image(i) => NodeView::Image(i.data@, i.alt@),
        NodeType::Br(_) => NodeView::Br,
        NodeType::BlockQuote(q) => NodeView::BlockQuote(node_views(q.data@)),
    }
}

/// The values that the pieces `s` stand for.
pub open spec fn node_views(s: Seq<NodeType>) -> Seq<NodeView>
    decreases s,
{
    if s.len() == 0 {
        Seq::empty()
    } else {
        seq![node_view(s[0])] + node_views(s.drop_first())
    }
}

pub proof fn lemma_node_views_push(s: Seq<NodeType>, n: NodeType)
    ensures
        node_views(s.push(n)) == node_views(s).push(node_view(n)),
    decreases s.len(),
{
    if s.len() == 0 {
        assert(s.push(n).drop_first() =~= Seq::<NodeType>::empty());
        assert(node_views(Seq::<NodeType>::empty()) =~= Seq::<NodeView>::empty());
        assert(node_views(s.push(n)) =~= seq![node_view(n)]);
    } else {
        assert(s.push(n).drop_first() =~= s.drop_first().push(n));
        lemma_node_views_push(s.drop_first(), n);
        assert(node_views(s.push(n)) =~= node_views(s).push(node_view(n)));
    }
}

pub proof fn lemma_node_views_append(s: Seq<NodeType>, t: Seq<NodeType>)
    ensures
        node_views(s + t) == node_views(s) + node_views(t),
    decreases t.len(),
{
    if t.len() == 0 {
        assert(s + t =~= s);
        assert(node_views(t) =~= Seq::<NodeView>::empty());
        assert(node_views(s) + node_views(t) =~= node_views(s));
    } else {
        lemma_node_views_append(s, t.drop_last());
        lemma_node_views_push(s + t.drop_last(), t.last());
        lemma_node_views_push(t.drop_last(), t.last());
        assert((s + t.drop_last()).push(t.last()) =~= s + t);
        assert(t.drop_last().push(t.last()) =~= t);
        assert(node_views(s + t) =~= node_views(s) + node_views(t));
    }
}


/// What a reply stands for.
pub ghost struct ReplyView {
    pub userid: Seq<char>,
    pub username: Seq<char>,
    pub content: Seq<char>,
    pub body: Seq<NodeView>,
    pub published_at: Seq<char>,
}

/// The value that `r` stands for.
pub open spec fn reply_view(r: ShowReplyItem) -> ReplyView {
    ReplyView {
        userid: r.userid@,
        username: r.username@,
        content: r.content@,
        body: node_views(r.body@),
        published_at: r.published_at@,
    }
}

/// The values that the replies `s` stand for.
pub open spec fn reply_views(s: Seq<ShowReplyItem>) -> Seq<ReplyView> {
    s.map_values(|r: ShowReplyItem| reply_view(r))
}

/// What a thread page stands for.
pub ghost struct ShowView {
    pub channel: Seq<char>,
    pub message: Seq<char>,
    pub replies: Seq<ReplyView>,
    pub page: usize,
    pub max_page: usize,
    pub reply_count: Seq<char>,
    pub title: Seq<char>,
}

/// The value that `s` stands for.
pub open spec fn show_view(s: ShowItem) -> ShowView {
    ShowView {
        channel: s.url_query.channel@,
        message: s.url_query.message@,
        replies: reply_views(s.replies@),
        page: s.page,
        max_page: s.max_page,
        reply_count: s.reply_count@,
        title: s.title@,
    }
}

/// What a topic list row stands for.
pub ghost struct ListItemView {
    pub title_url: Seq<char>,
    pub channel: Seq<char>,
    pub message: Seq<char>,
    pub title_text: Seq<char>,
    pub num_of_pages: usize,
    pub author_url: Seq<char>,
    pub author_name: Seq<char>,
    pub last_replied_date: Seq<char>,
    pub last_replied_time: Seq<char>,
    pub reply_count: Seq<char>,
    pub rating: Seq<char>,
}

/// The value that `i` stands for.
pub open spec fn list_item_view(i: ListTopicItem) -> ListItemView {
    ListItemView {
        title_url: i.title.url@,
        channel: i.title.url_query.channel@,
        message: i.title.url_query.message@,
        title_text: i.title.text@,
        num_of_pages: i.title.num_of_pages,
        author_url: i.author.url@,
        author_name: i.author.name@,
        last_replied_date: i.last_replied_date@,
        last_replied_time: i.last_replied_time@,
        reply_count: i.reply_count@,
        rating: i.rating@,
    }
}

/// The values that the rows `s` stand for.
pub open spec fn list_item_views(s: Seq<ListTopicItem>) -> Seq<ListItemView> {
    s.map_values(|i: ListTopicItem| list_item_view(i))
}

/// A row with every text empty and no pages.
pub open spec fn empty_list_item_view() -> ListItemView {
    ListItemView {
        title_url: Seq::empty(),
        channel: Seq::empty(),
        message: Seq::empty(),
        title_text: Seq::empty(),
        num_of_pages: 0,
        author_url: Seq::empty(),
        author_name: Seq::empty(),
        last_replied_date: Seq::empty(),
        last_replied_time: Seq::empty(),
        reply_count: Seq::empty(),
        rating: Seq::empty(),
    }
}

/// A row with every text empty and no pages (`default_list_item`).
pub fn default_list_item() -> (r: ListTopicItem)
    ensures
        list_item_view(r) == empty_list_item_view(),
{
    ListTopicItem {
        title: ListTopicTitleItem {
            url: String::new(),
            url_query: UrlQueryItem { channel: String::new(), message: String::new() },
            text: String::new(),
            num_of_pages: 0,
        },
        author: ListTopicAuthorItem { url: String::new(), name: String::new() },
        last_replied_date: String::new(),
        last_replied_time: String::new(),
        reply_count: String::new(),
        rating: String::new(),
    }
}

/// A thread page with every text empty, no replies and page numbers 0.
pub open spec fn empty_show_view() -> ShowView {
    ShowView {
        channel: Seq::empty(),
        message: Seq::empty(),
        replies: Seq::empty(),
        page: 0,
        max_page: 0,
        reply_count: Seq::empty(),
        title: Seq::empty(),
    }
}

/// A thread page with every text empty, no replies and page numbers 0
/// (`default_show_item`).
pub fn default_show_item() -> (r: ShowItem)
    ensures
        show_view(r) == empty_show_view(),
{
    let r = ShowItem {
        url_query: UrlQueryItem { channel: String::new(), message: String::new() },
        replies: Vec::new(),
        page: 0,
        max_page: 0,
        reply_count: String::new(),
        title: String::new(),
    };
    assert(reply_views(r.replies@) =~= Seq::<ReplyView>::empty());
    r
}

} // verus!
