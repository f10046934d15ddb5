use teloxide_core::{
    encode_json, multipart_parts, ChatId, Encoding, FieldValue, FileSource, GetUserProfilePhotos, InputFile, PartBody,
    PayloadFields, SendMediaGroup,
};

#[test]
fn unset_optionals_are_omitted_from_json() {
    let p = GetUserProfilePhotos::new(42).fields();
    let body = encode_json(&p).unwrap();
    assert_eq!(body, r#"{"user_id":42}"#);
    assert!(!body.contains("null"));
}

#[test]
fn set_optionals_follow_required_in_json() {
    let p = GetUserProfilePhotos::new(-7).limit(100).offset(3).fields();
    assert_eq!(encode_json(&p).unwrap(), r#"{"user_id":-7,"offset":3,"limit":100}"#);
}

#[test]
fn extreme_integers_are_written_in_full() {
    let p = GetUserProfilePhotos::new(i64::MIN).offset(u32::MAX).limit(0).fields();
    assert_eq!(
        encode_json(&p).unwrap(),
        r#"{"user_id":-9223372036854775808,"offset":4294967295,"limit":0}"#
    );
}

#[test]
fn text_and_structured_values_in_json() {
    let p = SendMediaGroup::new(ChatId::ChannelUsername("@chan\"x".to_string()), r#"[{"type":"photo"}]"#.to_string())
        .allow_sending_without_reply(false)
        .fields();
    assert_eq!(
        encode_json(&p).unwrap(),
        r#"{"chat_id":"@chan\"x","media":[{"type":"photo"}],"allow_sending_without_reply":false}"#
    );
}

#[test]
fn file_field_cannot_go_as_json() {
    let p = PayloadFields {
        method: "SendDocument".to_string(),
        required: vec![(
            "document".to_string(),
            FieldValue::File(InputFile {
                file_name: "a.txt".to_string(),
                content_type: "text/plain".to_string(),
                source: FileSource::Memory(vec![1, 2]),
            }),
        )],
        optional: vec![],
    };
    assert_eq!(encode_json(&p), None);
}

#[test]
fn empty_payload_is_empty_object() {
    let p = PayloadFields { method: "GetMe".to_string(), required: vec![], optional: vec![("x".to_string(), None)] };
    assert_eq!(encode_json(&p).unwrap(), "{}");
}

#[test]
fn multipart_parts_follow_declaration_order() {
    let p = SendMediaGroup::new(ChatId::Id(-100), "[]".to_string())
        .allow_sending_without_reply(true)
        .disable_notification(true)
        .fields();
    let parts = multipart_parts(&p);
    let names: Vec<&str> = parts.iter().map(|q| q.name.as_str()).collect();
    assert_eq!(names, ["chat_id", "media", "disable_notification", "allow_sending_without_reply"]);
    assert_eq!(parts[0].body, PartBody::Text("-100".to_string()));
    assert_eq!(parts[1].body, PartBody::Text("[]".to_string()));
    assert_eq!(parts[2].body, PartBody::Text("true".to_string()));
}

#[test]
fn multipart_file_part_keeps_its_bytes() {
    let file = InputFile {
        file_name: "p.jpg".to_string(),
        content_type: "image/jpeg".to_string(),
        source: FileSource::Memory(vec![0xff, 0xd8]),
    };
    let p = PayloadFields {
        method: "SendPhoto".to_string(),
        required: vec![("chat_id".to_string(), FieldValue::Int(1)), ("photo".to_string(), FieldValue::File(file.clone()))],
        optional: vec![("caption".to_string(), Some(FieldValue::Text("hi".to_string())))],
    };
    let parts = multipart_parts(&p);
    assert_eq!(parts.len(), 3);
    assert_eq!(parts[1].name, "photo");
    assert_eq!(parts[1].body, PartBody::File(file));
    assert_eq!(parts[2].body, PartBody::Text("hi".to_string()));
}

#[test]
fn json_encoding_reads_back_to_the_same_fields() {
    let p = GetUserProfilePhotos::new(5).limit(9).fields();
    let body = encode_json(&p).unwrap();
    let back: serde_json::Map<String, serde_json::Value> = serde_json::from_str(&body).unwrap();
    assert_eq!(back.len(), 2);
    assert_eq!(back["user_id"], serde_json::Value::from(5));
    assert_eq!(back["limit"], serde_json::Value::from(9));
    assert!(!back.contains_key("offset"));
}

#[test]
fn file_part_from_a_path_keeps_name_and_content_type() {
    let file = InputFile {
        file_name: "v.mp4".to_string(),
        content_type: "video/mp4".to_string(),
        source: FileSource::Path("/tmp/v.mp4".to_string()),
    };
    let p = PayloadFields {
        method: "SendVideo".to_string(),
        required: vec![("video".to_string(), FieldValue::File(file.clone()))],
        optional: vec![],
    };
    let parts = multipart_parts(&p);
    assert_eq!(parts.len(), 1);
    assert_eq!(parts[0].body, PartBody::File(file.clone()));
    assert_eq!(file.copy(), file);
}

#[test]
fn each_payload_has_its_encoding() {
    assert_eq!(GetUserProfilePhotos::new(1).encoding(), Encoding::Json);
    assert_eq!(SendMediaGroup::new(ChatId::Id(1), "[]".to_string()).encoding(), Encoding::Multipart);
}
