use wecom_bot::Image;
use wecom_bot::Message;

#[test]
fn image_encoding_is_deterministic_and_exact() {
    let img = Image::new(b"image".to_vec());
    let (b64, md5) = img.encode();
    assert_eq!(b64, "aW1hZ2U=");
    assert_eq!(md5, "78805a221a988e79ef3f42d7c5bfd418");

    let again = Image::new(b"image".to_vec()).encode();
    assert_eq!(again.0, b64);
    assert_eq!(again.1, md5);
}

#[test]
fn base64_padding_follows_input_length() {
    assert_eq!(Image::new(b"".to_vec()).encode().0, "");
    assert_eq!(Image::new(b"f".to_vec()).encode().0, "Zg==");
    assert_eq!(Image::new(b"fo".to_vec()).encode().0, "Zm8=");
    assert_eq!(Image::new(b"foo".to_vec()).encode().0, "Zm9v");
    assert_eq!(Image::new(b"foob".to_vec()).encode().0, "Zm9vYg==");
    assert_eq!(Image::new(b"fooba".to_vec()).encode().0, "Zm9vYmE=");
    assert_eq!(Image::new(b"foobar".to_vec()).encode().0, "Zm9vYmFy");
}

#[test]
fn md5_of_empty_input_matches_the_known_digest() {
    let (_, md5) = Image::new(Vec::new()).encode();
    assert_eq!(md5, "d41d8cd98f00b204e9800998ecf8427e");
}

#[test]
fn image_message_embeds_both_encodings() {
    let msg = Message::image(Image::new(vec![0xff, 0x00]));
    let json = msg.to_json();
    assert_eq!(
        "{\"msgtype\":\"image\",\"image\":{\"base64\":\"/wA=\",\"md5\":\"e0e8bfafbb0689563b2fba789c97b3cc\"}}",
        json
    );
}
