use carapax::methods::{RequestBody, RequestMethod, SetChatTitle, UnbanChatMember};
use carapax::types::ChatId;
use serde_json::Value;

#[test]
fn set_chat_title() {
    let request = SetChatTitle::new(ChatId::Id(1), "title")
        .into_request()
        .build("base-url", "token");
    assert_eq!(request.method, RequestMethod::Post);
    assert_eq!(request.url, "base-url/bottoken/setChatTitle");
    if let RequestBody::Json(data) = request.body {
        let data: Value = serde_json::from_slice(&data).unwrap();
        assert_eq!(data["chat_id"], 1);
        assert_eq!(data["title"], "title");
    } else {
        panic!("Unexpected request body: {:?}", request.body);
    }
}

#[test]
fn unban_chat_member() {
    let request = UnbanChatMember::new(ChatId::Id(1), 2)
        .into_request()
        .build("base-url", "token");
    assert_eq!(request.method, RequestMethod::Post);
    assert_eq!(request.url, "base-url/bottoken/unbanChatMember");
    if let RequestBody::Json(data) = request.body {
        let data: Value = serde_json::from_slice(&data).unwrap();
        assert_eq!(data["chat_id"], 1);
        assert_eq!(data["user_id"], 2);
    } else {
        panic!("Unexpected request body: {:?}", request.body);
    }
}

#[test]
fn set_chat_title_exact_bytes() {
    let request = SetChatTitle::new(ChatId::Id(-42), "title")
        .into_request()
        .build("b", "t");
    if let RequestBody::Json(data) = request.body {
        assert_eq!(data, b"{\"chat_id\":-42,\"title\":\"title\"}".to_vec());
    } else {
        panic!("Unexpected request body: {:?}", request.body);
    }
}

#[test]
fn username_chat_id_is_a_json_string() {
    let request = UnbanChatMember::new(ChatId::Username("@chan".to_string()), 9007199254740993)
        .into_request()
        .build("b", "t");
    if let RequestBody::Json(data) = request.body {
        assert_eq!(data, b"{\"chat_id\":\"@chan\",\"user_id\":9007199254740993}".to_vec());
        let parsed: Value = serde_json::from_slice(&data).unwrap();
        assert_eq!(parsed["chat_id"], "@chan");
    } else {
        panic!("Unexpected request body: {:?}", request.body);
    }
}

// Quotes, backslashes and control characters in a title are escaped so
// that the body stays valid JSON and decodes back to the same text.
#[test]
fn title_with_specials_survives_a_json_round_trip() {
    let title = "a \"b\"\\\n\tc \u{1}и😀";
    let request = SetChatTitle::new(ChatId::Id(5), title)
        .into_request()
        .build("b", "t");
    if let RequestBody::Json(data) = request.body {
        let parsed: Value = serde_json::from_slice(&data).unwrap();
        assert_eq!(parsed["title"], title);
    } else {
        panic!("Unexpected request body: {:?}", request.body);
    }
}

#[test]
fn extreme_user_ids_print_all_digits() {
    let request = UnbanChatMember::new(ChatId::Id(0), i64::MIN)
        .into_request()
        .build("b", "t");
    if let RequestBody::Json(data) = request.body {
        assert_eq!(
            data,
            b"{\"chat_id\":0,\"user_id\":-9223372036854775808}".to_vec()
        );
    } else {
        panic!("Unexpected request body: {:?}", request.body);
    }
}
