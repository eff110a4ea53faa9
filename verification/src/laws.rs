//! The wire-shape laws of the message model: for each message kind, the
//! serialized text spelled out in one piece, and the behaviour of the mention
//! setters across kinds.  Each law is proved once, for every value of its
//! inputs, from the public wire specification.

use crate::json::json_string;
use crate::json::json_string_list;
use crate::message::ArticleView;
use crate::message::MessageView;
use crate::message::json_of_article;
use crate::message::json_of_articles;
use crate::message::json_of_message;
use crate::message::spec_with_mentioned_list;
use crate::message::spec_with_mentioned_mobile_list;
use vstd::prelude::*;

verus! {

/// A text message with both mention lists unset serializes to exactly
/// `{"msgtype":"text","text":{"content":<content>}}`: no mention key appears
/// at all, and no null is written.
pub proof fn lemma_text_wire_shape(content: Seq<char>)
    ensures
        json_of_message(
            MessageView::Text { content, mentioned_list: None, mentioned_mobile_list: None },
        ) == "{\"msgtype\":\"text\",\"text\":{\"content\":"@ + json_string(content) + "}}"@,
{
    reveal_strlit("{\"msgtype\":\"");
    reveal_strlit("text");
    reveal_strlit("\",\"");
    reveal_strlit("\":");
    reveal_strlit("{\"content\":");
    reveal_strlit("}");
    reveal_strlit("{\"msgtype\":\"text\",\"text\":{\"content\":");
    reveal_strlit("}}");
    let pre = "{\"msgtype\":\""@ + "text"@ + "\",\""@ + "text"@ + "\":"@ + "{\"content\":"@;
    assert(pre =~= "{\"msgtype\":\"text\",\"text\":{\"content\":"@);
    assert("}"@ + "}"@ =~= "}}"@);
    assert(json_of_message(
        MessageView::Text { content, mentioned_list: None, mentioned_mobile_list: None },
    ) =~= "{\"msgtype\":\"text\",\"text\":{\"content\":"@ + json_string(content) + "}}"@);
}

/// A text message with a mentioned list set serializes to exactly
/// `{"msgtype":"text","text":{"content":<content>,"mentioned_list":<ids>}}`,
/// with the ids in their given order.
pub proof fn lemma_text_mentioned_list_wire_shape(content: Seq<char>, ids: Seq<Seq<char>>)
    ensures
        json_of_message(
            MessageView::Text {
                content,
                mentioned_list: Some(ids),
                mentioned_mobile_list: None,
            },
        ) == "{\"msgtype\":\"text\",\"text\":{\"content\":"@ + json_string(content)
            + ",\"mentioned_list\":"@ + json_string_list(ids) + "}}"@,
{
    reveal_strlit("{\"msgtype\":\"");
    reveal_strlit("text");
    reveal_strlit("\",\"");
    reveal_strlit("\":");
    reveal_strlit("{\"content\":");
    reveal_strlit("}");
    reveal_strlit("{\"msgtype\":\"text\",\"text\":{\"content\":");
    reveal_strlit("}}");
    let pre = "{\"msgtype\":\""@ + "text"@ + "\",\""@ + "text"@ + "\":"@ + "{\"content\":"@;
    assert(pre =~= "{\"msgtype\":\"text\",\"text\":{\"content\":"@);
    assert("}"@ + "}"@ =~= "}}"@);
    assert(json_of_message(
        MessageView::Text { content, mentioned_list: Some(ids), mentioned_mobile_list: None },
    ) =~= "{\"msgtype\":\"text\",\"text\":{\"content\":"@ + json_string(content)
        + ",\"mentioned_list\":"@ + json_string_list(ids) + "}}"@);
}

/// A markdown message serializes to exactly
/// `{"msgtype":"markdown","markdown":{"content":<content>}}`.
pub proof fn lemma_markdown_wire_shape(content: Seq<char>)
    ensures
        json_of_message(MessageView::Markdown { content })
            == "{\"msgtype\":\"markdown\",\"markdown\":{\"content\":"@ + json_string(content)
            + "}}"@,
{
    reveal_strlit("{\"msgtype\":\"");
    reveal_strlit("markdown");
    reveal_strlit("\",\"");
    reveal_strlit("\":");
    reveal_strlit("{\"content\":");
    reveal_strlit("}");
    reveal_strlit("{\"msgtype\":\"markdown\",\"markdown\":{\"content\":");
    reveal_strlit("}}");
    let pre = "{\"msgtype\":\""@ + "markdown"@ + "\",\""@ + "markdown"@ + "\":"@
        + "{\"content\":"@;
    assert(pre =~= "{\"msgtype\":\"markdown\",\"markdown\":{\"content\":"@);
    assert("}"@ + "}"@ =~= "}}"@);
    assert(json_of_message(MessageView::Markdown { content })
        =~= "{\"msgtype\":\"markdown\",\"markdown\":{\"content\":"@ + json_string(content)
        + "}}"@);
}

/// An image message serializes to exactly
/// `{"msgtype":"image","image":{"base64":<base64>,"md5":<md5>}}`.
pub proof fn lemma_image_wire_shape(base64: Seq<char>, md5: Seq<char>)
    ensures
        json_of_message(MessageView::Image { base64, md5 })
            == "{\"msgtype\":\"image\",\"image\":{\"base64\":"@ + json_string(base64)
            + ",\"md5\":"@ + json_string(md5) + "}}"@,
{
    reveal_strlit("{\"msgtype\":\"");
    reveal_strlit("image");
    reveal_strlit("\",\"");
    reveal_strlit("\":");
    reveal_strlit("{\"base64\":");
    reveal_strlit("}");
    reveal_strlit("{\"msgtype\":\"image\",\"image\":{\"base64\":");
    reveal_strlit("}}");
    let pre = "{\"msgtype\":\""@ + "image"@ + "\",\""@ + "image"@ + "\":"@ + "{\"base64\":"@;
    assert(pre =~= "{\"msgtype\":\"image\",\"image\":{\"base64\":"@);
    assert("}"@ + "}"@ =~= "}}"@);
    assert(json_of_message(MessageView::Image { base64, md5 })
        =~= "{\"msgtype\":\"image\",\"image\":{\"base64\":"@ + json_string(base64) + ",\"md5\":"@
        + json_string(md5) + "}}"@);
}

/// A news message serializes to exactly
/// `{"msgtype":"news","news":{"articles":<articles>}}`, with the articles in
/// their given order.
pub proof fn lemma_news_wire_shape(articles: Seq<ArticleView>)
    ensures
        json_of_message(MessageView::News { articles })
            == "{\"msgtype\":\"news\",\"news\":{\"articles\":"@ + json_of_articles(articles)
            + "}}"@,
{
    reveal_strlit("{\"msgtype\":\"");
    reveal_strlit("news");
    reveal_strlit("\",\"");
    reveal_strlit("\":");
    reveal_strlit("{\"articles\":");
    reveal_strlit("}");
    reveal_strlit("{\"msgtype\":\"news\",\"news\":{\"articles\":");
    reveal_strlit("}}");
    let pre = "{\"msgtype\":\""@ + "news"@ + "\",\""@ + "news"@ + "\":"@ + "{\"articles\":"@;
    assert(pre =~= "{\"msgtype\":\"news\",\"news\":{\"articles\":"@);
    assert("}"@ + "}"@ =~= "}}"@);
    assert(json_of_message(MessageView::News { articles })
        =~= "{\"msgtype\":\"news\",\"news\":{\"articles\":"@ + json_of_articles(articles)
        + "}}"@);
}

/// A file message serializes to exactly
/// `{"msgtype":"file","file":{"media_id":<id>}}`; in particular any media id
/// obtained from an upload response fits here unchanged.
pub proof fn lemma_file_wire_shape(media_id: Seq<char>)
    ensures
        json_of_message(MessageView::File { media_id })
            == "{\"msgtype\":\"file\",\"file\":{\"media_id\":"@ + json_string(media_id) + "}}"@,
{
    reveal_strlit("{\"msgtype\":\"");
    reveal_strlit("file");
    reveal_strlit("\",\"");
    reveal_strlit("\":");
    reveal_strlit("{\"media_id\":");
    reveal_strlit("}");
    reveal_strlit("{\"msgtype\":\"file\",\"file\":{\"media_id\":");
    reveal_strlit("}}");
    let pre = "{\"msgtype\":\""@ + "file"@ + "\",\""@ + "file"@ + "\":"@ + "{\"media_id\":"@;
    assert(pre =~= "{\"msgtype\":\"file\",\"file\":{\"media_id\":"@);
    assert("}"@ + "}"@ =~= "}}"@);
    assert(json_of_message(MessageView::File { media_id })
        =~= "{\"msgtype\":\"file\",\"file\":{\"media_id\":"@ + json_string(media_id) + "}}"@);
}

/// An article with neither description nor image link serializes to exactly
/// `{"title":<title>,"url":<url>}`: the optional keys are fully absent.
pub proof fn lemma_article_minimal_wire_shape(title: Seq<char>, url: Seq<char>)
    ensures
        json_of_article(ArticleView { title, description: None, url, pic_url: None })
            == "{\"title\":"@ + json_string(title) + ",\"url\":"@ + json_string(url) + "}"@,
{
    assert(json_of_article(ArticleView { title, description: None, url, pic_url: None })
        =~= "{\"title\":"@ + json_string(title) + ",\"url\":"@ + json_string(url) + "}"@);
}

/// An article with both optional fields set serializes with all four keys, the
/// image link under the wire name `picurl`.
pub proof fn lemma_article_full_wire_shape(
    title: Seq<char>,
    description: Seq<char>,
    url: Seq<char>,
    pic_url: Seq<char>,
)
    ensures
        json_of_article(
            ArticleView { title, description: Some(description), url, pic_url: Some(pic_url) },
        ) == "{\"title\":"@ + json_string(title) + ",\"description\":"@ + json_string(description)
            + ",\"url\":"@ + json_string(url) + ",\"picurl\":"@ + json_string(pic_url) + "}"@,
{
    assert(json_of_article(
        ArticleView { title, description: Some(description), url, pic_url: Some(pic_url) },
    ) =~= "{\"title\":"@ + json_string(title) + ",\"description\":"@ + json_string(description)
        + ",\"url\":"@ + json_string(url) + ",\"picurl\":"@ + json_string(pic_url) + "}"@);
}

/// The mention setters replace the respective list on a text message and
/// leave every other message kind entirely unchanged.
pub proof fn lemma_mention_setters(m: MessageView, ids: Seq<Seq<char>>)
    ensures
        !(m is Text) ==> spec_with_mentioned_list(m, ids) == m,
        !(m is Text) ==> spec_with_mentioned_mobile_list(m, ids) == m,
        m matches MessageView::Text { content, mentioned_mobile_list, .. }
            ==> spec_with_mentioned_list(m, ids) == (MessageView::Text {
            content,
            mentioned_list: Some(ids),
            mentioned_mobile_list,
        }),
        m matches MessageView::Text { content, mentioned_list, .. }
            ==> spec_with_mentioned_mobile_list(m, ids) == (MessageView::Text {
            content,
            mentioned_list,
            mentioned_mobile_list: Some(ids),
        }),
{
}

} // verus!
