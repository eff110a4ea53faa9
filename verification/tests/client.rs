use std::str::FromStr;

use wecom_bot::MediaType;
use wecom_bot::Message;
use wecom_bot::SendResp;
use wecom_bot::UploadResp;
use wecom_bot::WeComBot;
use wecom_bot::WeComError;
use wecom_bot::bot::response_outcome;
use wecom_bot::media::parse_media;

#[test]
fn build_fails_without_key() {
    let r = WeComBot::builder().build();
    assert_eq!(r.unwrap_err(), WeComError::KeyNotFound);
}

#[test]
fn build_fails_with_blank_key() {
    let r = WeComBot::builder().key("").build();
    assert_eq!(r.unwrap_err(), WeComError::KeyNotFound);

    let r = WeComBot::builder().key(" \t\r\n").build();
    assert_eq!(r.unwrap_err(), WeComError::KeyNotFound);

    let r = WeComBot::builder().key("\u{00a0}\u{3000} ").build();
    assert_eq!(r.unwrap_err(), WeComError::KeyNotFound);
}

#[test]
fn build_derives_both_urls_from_the_key() {
    let bot = WeComBot::builder().key("693a91f6").build().unwrap();
    assert_eq!(
        "https://qyapi.weixin.qq.com/cgi-bin/webhook/send?key=693a91f6",
        bot.url
    );
    assert_eq!(
        "https://qyapi.weixin.qq.com/cgi-bin/webhook/upload_media?key=693a91f6",
        bot.upload_base_url
    );
}

#[test]
fn server_error_status_is_reported_as_http_error() {
    let r: Result<SendResp, WeComError> = response_outcome(500, None, "SendResp");
    assert_eq!(r.unwrap_err(), WeComError::Http { status: 500 });

    let decoded = SendResp { err_code: 0, err_msg: "ok".to_string() };
    let r: Result<SendResp, WeComError> = response_outcome(503, Some(decoded), "SendResp");
    assert_eq!(r.unwrap_err(), WeComError::Http { status: 503 });
}

#[test]
fn undecodable_body_is_reported_as_data_type_error() {
    let r: Result<SendResp, WeComError> = response_outcome(200, None, "SendResp");
    assert_eq!(
        r.unwrap_err(),
        WeComError::DataType { typename: "SendResp".to_string() }
    );
}

#[test]
fn logical_error_in_body_is_not_a_transport_failure() {
    let decoded = SendResp { err_code: 93000, err_msg: "invalid webhook url".to_string() };
    let r: Result<SendResp, WeComError> = response_outcome(200, Some(decoded), "SendResp");
    let resp = r.unwrap();
    assert_eq!(resp.err_code, 93000);
    assert_eq!(resp.err_msg, "invalid webhook url");

    let decoded = SendResp { err_code: 0, err_msg: "ok".to_string() };
    let r: Result<SendResp, WeComError> = response_outcome(404, Some(decoded), "SendResp");
    assert_eq!(r.unwrap().err_code, 0);
}

#[test]
fn upload_media_id_flows_into_a_file_message() {
    let uploaded = UploadResp {
        err_code: 0,
        err_msg: "ok".to_string(),
        media_type: "file".to_string(),
        media_id: "3a8asd892asd8asd".to_string(),
        created_at: "1380000000".to_string(),
    };
    assert!(uploaded.is_ok());
    let msg = Message::file(&uploaded.media_id);
    assert_eq!(
        r#"{"msgtype":"file","file":{"media_id":"3a8asd892asd8asd"}}"#,
        msg.to_json()
    );
}

#[test]
fn upload_resp_default_means_success_with_nothing_uploaded() {
    let r = UploadResp::new();
    assert_eq!(r.err_code, 0);
    assert_eq!(r.err_msg, "success");
    assert_eq!(r.media_type, "file");
    assert_eq!(r.media_id, "");
    assert_eq!(r.created_at, "");
    assert!(r.is_ok());

    let failed = UploadResp { err_code: 1, ..UploadResp::default() };
    assert!(!failed.is_ok());

    let d = SendResp::default();
    assert_eq!(d.err_code, 0);
    assert_eq!(d.err_msg, "");
}

#[test]
fn media_types_parse_ignoring_case() {
    assert_eq!(parse_media("file").unwrap(), MediaType::File);
    assert_eq!(parse_media("IMAGE").unwrap(), MediaType::Image);
    assert_eq!(parse_media("Voice").unwrap(), MediaType::Voice);
    assert_eq!(parse_media("viDEo").unwrap(), MediaType::Video);
    assert_eq!(MediaType::from_str("video").unwrap(), MediaType::Video);

    let err = parse_media("gif").unwrap_err();
    assert_eq!(err, WeComError::MediaType("gif".to_string()));
}

#[test]
fn media_type_names_and_upload_urls() {
    assert_eq!(MediaType::File.to_str(), "file");
    assert_eq!(MediaType::Image.to_str(), "image");
    assert_eq!(MediaType::Voice.to_str(), "voice");
    assert_eq!(MediaType::Video.to_str(), "video");

    let bot = WeComBot::builder().key("k1").build().unwrap();
    let url = MediaType::Voice.format_upload_url(&bot.upload_base_url);
    assert_eq!(
        "https://qyapi.weixin.qq.com/cgi-bin/webhook/upload_media?key=k1&type=voice",
        url
    );
}

#[test]
fn error_messages_describe_each_kind() {
    assert_eq!(WeComError::KeyNotFound.message(), "wecom bot key not set");
    assert_eq!(
        WeComError::Http { status: 500 }.message(),
        "wecom bot server error: 500"
    );
    assert_eq!(
        WeComError::Network { message: "timed out".to_string() }.message(),
        "network failed: timed out"
    );
    assert_eq!(
        WeComError::DataType { typename: "SendResp".to_string() }.message(),
        "could not parse SendResp data from JSON"
    );
    assert_eq!(
        WeComError::MediaType("gif".to_string()).message(),
        "unknown upload media type: gif"
    );
    assert_eq!(
        WeComError::ImageRead { message: "not found".to_string() }.message(),
        "failed to read image file: not found"
    );
    assert_eq!(
        WeComError::FileRead { message: "denied".to_string() }.message(),
        "failed to read upload file: denied"
    );
}
