use wecom_bot::Article;
use wecom_bot::Image;
use wecom_bot::Message;

#[test]
fn serialize_request() {
    serialize_text();
    serialize_markdown();
    serialize_image();
    serialize_article();
    serialize_file();
}

fn serialize_text() {
    let text = Message::text("Text-Only");
    assert_eq!(
        "{\"msgtype\":\"text\",\"text\":{\"content\":\"Text-Only\"}}",
        text.to_json()
    );

    let text = Message::text("Title")
        .with_mentioned_list(vec!["".to_string(), "uid2".to_string()]);
    assert_eq!(
        "{\"msgtype\":\"text\",\"text\":{\"content\":\"Title\",\"mentioned_list\":[\"\",\"uid2\"]}}",
        text.to_json()
    );

    let user_iter = vec!["uid1".to_string(), "uid2".to_string()];
    let text = Message::text("User-Iter").with_mentioned_list(user_iter);
    assert_eq!(
        "{\"msgtype\":\"text\",\"text\":{\"content\":\"User-Iter\",\"mentioned_list\":[\"uid1\",\"uid2\"]}}",
        text.to_json()
    );

    let text = Message::text("Title-2")
        .with_mentioned_mobile_list(vec!["".to_string(), "1234567890".to_string()]);
    assert_eq!(
        "{\"msgtype\":\"text\",\"text\":{\"content\":\"Title-2\",\"mentioned_mobile_list\":[\"\",\"1234567890\"]}}",
        text.to_json()
    );
}

fn serialize_markdown() {
    let md = Message::markdown(r"# Markdown");
    assert_eq!(
        "{\"msgtype\":\"markdown\",\"markdown\":{\"content\":\"# Markdown\"}}",
        md.to_json()
    );
}

fn serialize_image() {
    let img = Message::image(Image::new(b"image".to_vec()));
    assert_eq!(
        "{\"msgtype\":\"image\",\"image\":{\"base64\":\"aW1hZ2U=\",\"md5\":\"78805a221a988e79ef3f42d7c5bfd418\"}}",
        img.to_json()
    );
}

fn serialize_article() {
    let air = Article::new("中秋节礼品领取", "www.qq.com")
        .desc("今年中秋节公司有豪礼相送")
        .pic("http://res.mail.qq.com/node/ww/wwopenmng/images/independent/doc/test_pic_msg1.png");
    let news = Message::news(vec![Article::new("", ""), air]);
    assert_eq!(
        r#"{"msgtype":"news","news":{"articles":[{"title":"","url":""},{"title":"中秋节礼品领取","description":"今年中秋节公司有豪礼相送","url":"www.qq.com","picurl":"http://res.mail.qq.com/node/ww/wwopenmng/images/independent/doc/test_pic_msg1.png"}]}}"#,
        news.to_json()
    );
}

fn serialize_file() {
    let file = Message::file("3a8asd892asd8asd");
    assert_eq!(
        r#"{"msgtype":"file","file":{"media_id":"3a8asd892asd8asd"}}"#,
        file.to_json()
    );
}

#[test]
fn mention_setters_ignore_non_text() {
    let plain = Message::markdown("# hello").to_json();
    let touched = Message::markdown("# hello")
        .with_mentioned_list(vec!["uid1".to_string()])
        .with_mentioned_mobile_list(vec!["123".to_string()])
        .to_json();
    assert_eq!(plain, touched);

    let plain = Message::file("mid").to_json();
    let touched = Message::file("mid")
        .with_mentioned_list(vec!["uid1".to_string()])
        .to_json();
    assert_eq!(plain, touched);
}

#[test]
fn article_optional_fields_omitted() {
    let news = Message::news(vec![Article::new("t", "u")]);
    let json = news.to_json();
    assert_eq!(
        r#"{"msgtype":"news","news":{"articles":[{"title":"t","url":"u"}]}}"#,
        json
    );
    assert!(!json.contains("description"));
    assert!(!json.contains("picurl"));
    assert!(!json.contains("null"));

    let with_pic = Message::news(vec![Article::new("t", "u").pic("p")]).to_json();
    assert!(with_pic.contains("\"picurl\":\"p\""));
    assert!(!with_pic.contains("pic_url"));
}

#[test]
fn news_serializes_one_and_eight_articles_in_order() {
    let one = Message::news(vec![Article::new("a0", "u0")]).to_json();
    assert_eq!(
        r#"{"msgtype":"news","news":{"articles":[{"title":"a0","url":"u0"}]}}"#,
        one
    );

    let mut articles = Vec::new();
    let mut expected_items = Vec::new();
    for i in 0..8 {
        let title = format!("a{}", i);
        let url = format!("u{}", i);
        expected_items.push(format!("{{\"title\":\"{}\",\"url\":\"{}\"}}", title, url));
        articles.push(Article::new(&title, &url));
    }
    let eight = Message::news(articles).to_json();
    let expected = format!(
        "{{\"msgtype\":\"news\",\"news\":{{\"articles\":[{}]}}}}",
        expected_items.join(",")
    );
    assert_eq!(expected, eight);
}

#[test]
fn text_escapes_quotes_backslashes_and_controls() {
    let msg = Message::text("a\"b\\c\nd\te\ru{\u{01}}");
    assert_eq!(
        "{\"msgtype\":\"text\",\"text\":{\"content\":\"a\\\"b\\\\c\\nd\\te\\ru{\\u0001}\"}}",
        msg.to_json()
    );
}

#[test]
fn produced_json_is_valid_for_a_json_parser() {
    let air = Article::new("标题", "https://example.invalid/x?a=1&b=2").desc("描 述\n两行");
    let msg = Message::news(vec![air]).with_mentioned_list(vec!["ignored".to_string()]);
    let value: serde_json::Value = serde_json::from_str(&msg.to_json()).unwrap();
    assert_eq!(value["msgtype"].as_str(), Some("news"));
    assert_eq!(value["news"]["articles"][0]["title"].as_str(), Some("标题"));
    assert_eq!(value["news"]["articles"][0]["description"].as_str(), Some("描 述\n两行"));
    assert!(value["news"]["articles"][0].get("picurl").is_none());

    let text = Message::text("line1\nline2 \"quoted\"")
        .with_mentioned_mobile_list(vec!["@all".to_string()]);
    let value: serde_json::Value = serde_json::from_str(&text.to_json()).unwrap();
    assert_eq!(value["text"]["content"].as_str(), Some("line1\nline2 \"quoted\""));
    assert_eq!(value["text"]["mentioned_mobile_list"][0].as_str(), Some("@all"));
    assert!(value["text"].get("mentioned_list").is_none());
}
