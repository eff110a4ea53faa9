//! The typed message payloads: a tagged union of the five message kinds, the
//! article value object carried by news messages, and the builder-style
//! constructors and setters.  The mathematical model of a message is
//! [`MessageView`], over which every contract speaks; the exact wire shape is
//! stated in the `wire` module.

use crate::image::Image;
use crate::image::base64_encode;
use crate::image::md5_hex_of;
use crate::json::json_string;
use crate::json::json_string_list;
use crate::json::write_json_string;
use crate::json::write_json_string_list;
use crate::text::push_char;
use vstd::prelude::*;
use vstd::string::StringExecFns;

verus! {

/// One article of a news message, as its four field values.
pub struct ArticleView {
    pub title: Seq<char>,
    pub description: Option<Seq<char>>,
    pub url: Seq<char>,
    pub pic_url: Option<Seq<char>>,
}

/// A clickable article shown inside a news message.
#[derive(Debug, Clone)]
pub struct Article {
    /// Shown as the article's headline.
    pub title: String,
    /// Optional longer text under the title; omitted from the wire when unset.
    pub description: Option<String>,
    /// The link opened when the article is clicked.
    pub url: String,
    /// Optional image link, sent under the wire name `picurl`; omitted when
    /// unset.
    pub pic_url: Option<String>,
}

impl View for Article {
    type V = ArticleView;

    open spec fn view(&self) -> ArticleView {
        ArticleView {
            title: self.title@,
            description: self.description.deep_view(),
            url: self.url@,
            pic_url: self.pic_url.deep_view(),
        }
    }
}

impl DeepView for Article {
    type V = ArticleView;

    open spec fn deep_view(&self) -> ArticleView {
        self.view()
    }
}

impl Article {
    /// A new article with the given title and link and nothing optional set.
    pub fn new(title: &str, url: &str) -> (a: Article)
        ensures
            a@ == (ArticleView { title: title@, description: None, url: url@, pic_url: None }),
    {
        Article { title: title.to_owned(), description: None, url: url.to_owned(), pic_url: None }
    }

    /// Sets the description shown under the title.
    pub fn desc(self, desc: &str) -> (a: Article)
        ensures
            a@ == (ArticleView { description: Some(desc@), ..self@ }),
    {
        Article { description: Some(desc.to_owned()), ..self }
    }

    /// Sets the image link shown on the article card.
    pub fn pic(self, pic: &str) -> (a: Article)
        ensures
            a@ == (ArticleView { pic_url: Some(pic@), ..self@ }),
    {
        Article { pic_url: Some(pic.to_owned()), ..self }
    }
}

/// The value of a message: exactly one of the five payload kinds.
pub enum MessageView {
    Text {
        content: Seq<char>,
        mentioned_list: Option<Seq<Seq<char>>>,
        mentioned_mobile_list: Option<Seq<Seq<char>>>,
    },
    Markdown { content: Seq<char> },
    Image { base64: Seq<char>, md5: Seq<char> },
    News { articles: Seq<ArticleView> },
    File { media_id: Seq<char> },
}

pub(crate) enum MessageBody {
    Text {
        content: String,
        mentioned_list: Option<Vec<String>>,
        mentioned_mobile_list: Option<Vec<String>>,
    },
    Markdown { content: String },
    Image { base64: String, md5: String },
    News { articles: Vec<Article> },
    File { media_id: String },
}

/// One outbound payload for the webhook, of exactly one kind.
pub struct Message {
    pub(crate) body: MessageBody,
}

impl View for Message {
    type V = MessageView;

    closed spec fn view(&self) -> MessageView {
        match self.body {
            MessageBody::Text { content, mentioned_list, mentioned_mobile_list } => {
                MessageView::Text {
                    content: content@,
                    mentioned_list: mentioned_list.deep_view(),
                    mentioned_mobile_list: mentioned_mobile_list.deep_view(),
                }
            },
            MessageBody::Markdown { content } => MessageView::Markdown { content: content@ },
            MessageBody::Image { base64, md5 } => {
                MessageView::Image { base64: base64@, md5: md5@ }
            },
            MessageBody::News { articles } => {
                MessageView::News { articles: articles.deep_view() }
            },
            MessageBody::File { media_id } => MessageView::File { media_id: media_id@ },
        }
    }
}

/// What setting the mentioned-list does to a message value: it replaces the
/// list on a text message and leaves every other kind untouched.
pub open spec fn spec_with_mentioned_list(m: MessageView, ids: Seq<Seq<char>>) -> MessageView {
    match m {
        MessageView::Text { content, mentioned_list: _, mentioned_mobile_list } => {
            MessageView::Text { content, mentioned_list: Some(ids), mentioned_mobile_list }
        },
        _ => m,
    }
}

/// What setting the mentioned-mobile-list does to a message value: it
/// replaces the list on a text message and leaves every other kind untouched.
pub open spec fn spec_with_mentioned_mobile_list(
    m: MessageView,
    ids: Seq<Seq<char>>,
) -> MessageView {
    match m {
        MessageView::Text { content, mentioned_list, mentioned_mobile_list: _ } => {
            MessageView::Text { content, mentioned_list, mentioned_mobile_list: Some(ids) }
        },
        _ => m,
    }
}

impl Message {
    /// A plain text message with both mention lists unset.
    pub fn text(content: &str) -> (m: Message)
        ensures
            m@ == (MessageView::Text {
                content: content@,
                mentioned_list: None,
                mentioned_mobile_list: None,
            }),
    {
        Message {
            body: MessageBody::Text {
                content: content.to_owned(),
                mentioned_list: None,
                mentioned_mobile_list: None,
            },
        }
    }

    /// A markdown message.
    pub fn markdown(content: &str) -> (m: Message)
        ensures
            m@ == (MessageView::Markdown { content: content@ }),
    {
        Message { body: MessageBody::Markdown { content: content.to_owned() } }
    }

    /// An image message: the payload carries the base64 encoding of the raw
    /// bytes and the md5 hex digest of the same (pre-encoding) bytes.
    pub fn image(image: Image) -> (m: Message)
        ensures
            m@ == (MessageView::Image {
                base64: base64_encode(image@),
                md5: md5_hex_of(image@),
            }),
    {
        let (base64, md5) = image.encode();
        Message { body: MessageBody::Image { base64, md5 } }
    }

    /// A news message carrying the given articles in their given order.  The
    /// remote endpoint accepts 1 to 8 articles; the count is the caller's
    /// contract and is not checked here.
    pub fn news(articles: Vec<Article>) -> (m: Message)
        ensures
            m@ == (MessageView::News { articles: articles.deep_view() }),
    {
        Message { body: MessageBody::News { articles } }
    }

    /// A file message referring to a media id obtained from a prior upload.
    pub fn file(media_id: &str) -> (m: Message)
        ensures
            m@ == (MessageView::File { media_id: media_id@ }),
    {
        Message { body: MessageBody::File { media_id: media_id.to_owned() } }
    }

    /// Sets the list of user ids to mention.  Takes effect only on a text
    /// message; on every other kind the message is returned unchanged.
    pub fn with_mentioned_list(self, ids: Vec<String>) -> (m: Message)
        ensures
            m@ == spec_with_mentioned_list(self@, ids.deep_view()),
    {
        match self.body {
            MessageBody::Text { content, mentioned_list: _, mentioned_mobile_list } => {
                Message {
                    body: MessageBody::Text {
                        content,
                        mentioned_list: Some(ids),
                        mentioned_mobile_list,
                    },
                }
            },
            body => Message { body },
        }
    }

    /// Sets the list of mobile numbers to mention.  Takes effect only on a
    /// text message; on every other kind the message is returned unchanged.
    pub fn with_mentioned_mobile_list(self, ids: Vec<String>) -> (m: Message)
        ensures
            m@ == spec_with_mentioned_mobile_list(self@, ids.deep_view()),
    {
        match self.body {
            MessageBody::Text { content, mentioned_list, mentioned_mobile_list: _ } => {
                Message {
                    body: MessageBody::Text {
                        content,
                        mentioned_list,
                        mentioned_mobile_list: Some(ids),
                    },
                }
            },
            body => Message { body },
        }
    }
}

/// The wire form of one article: `title` and `url` always present, the two
/// optional fields omitted entirely when unset, and the image link sent under
/// the wire name `picurl`.
pub open spec fn json_of_article(a: ArticleView) -> Seq<char> {
    "{\"title\":"@ + json_string(a.title) + (match a.description {
        Some(d) => ",\"description\":"@ + json_string(d),
        None => Seq::<char>::empty(),
    }) + ",\"url\":"@ + json_string(a.url) + (match a.pic_url {
        Some(p) => ",\"picurl\":"@ + json_string(p),
        None => Seq::<char>::empty(),
    }) + "}"@
}

/// The comma-separated wire forms of the articles, in their given order.
pub open spec fn json_of_article_items(l: Seq<ArticleView>) -> Seq<char>
    decreases l.len(),
{
    if l.len() == 0 {
        Seq::empty()
    } else if l.len() == 1 {
        json_of_article(l[0])
    } else {
        json_of_article_items(l.drop_last()) + seq![','] + json_of_article(l.last())
    }
}

/// The wire form of an article list: the items between square brackets.
pub open spec fn json_of_articles(l: Seq<ArticleView>) -> Seq<char> {
    seq!['['] + json_of_article_items(l) + seq![']']
}

/// The tag naming a message's kind, used both as the `msgtype` value and as
/// the key under which the payload fields sit.
pub open spec fn json_tag(m: MessageView) -> Seq<char> {
    match m {
        MessageView::Text { .. } => "text"@,
        MessageView::Markdown { .. } => "markdown"@,
        MessageView::Image { .. } => "image"@,
        MessageView::News { .. } => "news"@,
        MessageView::File { .. } => "file"@,
    }
}

/// The wire form of a message's payload object.  Unset mention lists are
/// omitted entirely, never written as null.
pub open spec fn json_of_body(m: MessageView) -> Seq<char> {
    match m {
        MessageView::Text { content, mentioned_list, mentioned_mobile_list } => {
            "{\"content\":"@ + json_string(content) + (match mentioned_list {
                Some(l) => ",\"mentioned_list\":"@ + json_string_list(l),
                None => Seq::<char>::empty(),
            }) + (match mentioned_mobile_list {
                Some(l) => ",\"mentioned_mobile_list\":"@ + json_string_list(l),
                None => Seq::<char>::empty(),
            }) + "}"@
        },
        MessageView::Markdown { content } => "{\"content\":"@ + json_string(content) + "}"@,
        MessageView::Image { base64, md5 } => {
            "{\"base64\":"@ + json_string(base64) + ",\"md5\":"@ + json_string(md5) + "}"@
        },
        MessageView::News { articles } => "{\"articles\":"@ + json_of_articles(articles) + "}"@,
        MessageView::File { media_id } => "{\"media_id\":"@ + json_string(media_id) + "}"@,
    }
}

/// The whole wire object: the `msgtype` tag, then the payload object under a
/// key equal to that same tag.
pub open spec fn json_of_message(m: MessageView) -> Seq<char> {
    "{\"msgtype\":\""@ + json_tag(m) + "\",\""@ + json_tag(m) + "\":"@ + json_of_body(m) + "}"@
}

/// Appends the wire form of one article.
fn write_article(out: &mut String, a: &Article)
    ensures
        final(out)@ == old(out)@ + json_of_article(a@),
{
    out.append("{\"title\":");
    write_json_string(out, a.title.as_str());
    match &a.description {
        Some(d) => {
            out.append(",\"description\":");
            write_json_string(out, d.as_str());
        },
        None => {},
    }
    out.append(",\"url\":");
    write_json_string(out, a.url.as_str());
    match &a.pic_url {
        Some(p) => {
            out.append(",\"picurl\":");
            write_json_string(out, p.as_str());
        },
        None => {},
    }
    out.append("}");
    assert(final(out)@ =~= old(out)@ + json_of_article(a@));
}

/// Appends the wire form of the article list.
#[verifier::spinoff_prover]
#[verifier::rlimit(50)]
fn write_articles(out: &mut String, items: &Vec<Article>)
    ensures
        final(out)@ == old(out)@ + json_of_articles(items.deep_view()),
{
    let ghost dv = items.deep_view();
    push_char(out, '[');
    let n = items.len();
    for i in 0..n
        invariant
            n == items@.len(),
            dv == items.deep_view(),
            dv.len() == n,
            forall|j: int| 0 <= j < n ==> dv[j] == items@[j]@,
            out@ == old(out)@ + seq!['['] + json_of_article_items(dv.take(i as int)),
    {
        if i > 0 {
            push_char(out, ',');
        }
        proof {
            assert(dv.take(i + 1).drop_last() =~= dv.take(i as int));
            assert(dv.take(i + 1).last() == dv[i as int]);
        }
        write_article(out, &items[i]);
        assert(out@ =~= old(out)@ + seq!['['] + json_of_article_items(dv.take(i + 1)));
    }
    proof {
        assert(dv.take(n as int) =~= dv);
    }
    push_char(out, ']');
    assert(final(out)@ =~= old(out)@ + json_of_articles(items.deep_view()));
}

impl Message {
    /// The exact JSON text of this message, as [`json_of_message`] states it.
    pub fn to_json(&self) -> (r: String)
        ensures
            r@ == json_of_message(self@),
    {
        let mut out = String::new();
        out.append("{\"msgtype\":\"");
        match &self.body {
            MessageBody::Text { content, mentioned_list, mentioned_mobile_list } => {
                out.append("text");
                out.append("\",\"");
                out.append("text");
                out.append("\":");
                out.append("{\"content\":");
                write_json_string(&mut out, content.as_str());
                match mentioned_list {
                    Some(l) => {
                        out.append(",\"mentioned_list\":");
                        write_json_string_list(&mut out, l);
                    },
                    None => {},
                }
                match mentioned_mobile_list {
                    Some(l) => {
                        out.append(",\"mentioned_mobile_list\":");
                        write_json_string_list(&mut out, l);
                    },
                    None => {},
                }
                out.append("}");
            },
            MessageBody::Markdown { content } => {
                out.append("markdown");
                out.append("\",\"");
                out.append("markdown");
                out.append("\":");
                out.append("{\"content\":");
                write_json_string(&mut out, content.as_str());
                out.append("}");
            },
            MessageBody::Image { base64, md5 } => {
                out.append("image");
                out.append("\",\"");
                out.append("image");
                out.append("\":");
                out.append("{\"base64\":");
                write_json_string(&mut out, base64.as_str());
                out.append(",\"md5\":");
                write_json_string(&mut out, md5.as_str());
                out.append("}");
            },
            MessageBody::News { articles } => {
                out.append("news");
                out.append("\",\"");
                out.append("news");
                out.append("\":");
                out.append("{\"articles\":");
                write_articles(&mut out, articles);
                out.append("}");
            },
            MessageBody::File { media_id } => {
                out.append("file");
                out.append("\",\"");
                out.append("file");
                out.append("\":");
                out.append("{\"media_id\":");
                write_json_string(&mut out, media_id.as_str());
                out.append("}");
            },
        }
        out.append("}");
        assert(out@ =~= json_of_message(self@));
        out
    }
}

} // verus!
