use commit_crafter::config::Config;
use commit_crafter::prompt::{chat_request, get_system_prompt, user_content};
use commit_crafter::reply::{interpret_reply, message_from_reply, GenerateError};

fn config(language: &str) -> Config {
    Config {
        openai_api_key: "k".to_string(),
        openai_url: "https://api.example.com".to_string(),
        openai_model: "gpt-test".to_string(),
        user_language: language.to_string(),
    }
}

#[test]
fn system_prompt_per_language() {
    let en = get_system_prompt("en");
    assert!(en.starts_with("Generate minimal SVN commit message:\n1. Maximum 8 words"));
    assert!(get_system_prompt("zh").starts_with("生成精简的SVN提交信息"));
    assert!(get_system_prompt("ja").starts_with("簡潔なSVNコミットメッセージ"));
    for code in ["zh", "en", "ja", "fr", "", "EN"] {
        assert!(!get_system_prompt(code).is_empty());
        assert_eq!(get_system_prompt(code), get_system_prompt(code));
    }
    assert_eq!(get_system_prompt("fr"), en);
    assert_eq!(get_system_prompt(""), en);
    assert_eq!(get_system_prompt("EN"), en);
    assert_ne!(get_system_prompt("zh"), en);
}

#[test]
fn user_content_appends_extra() {
    assert_eq!(user_content("D", &None), "请根据以下代码变更生成提交信息：\n\nD");
    assert_eq!(
        user_content("D", &Some("mention refactor".to_string())),
        "请根据以下代码变更生成提交信息：\n\nD\n\n额外要求：mention refactor"
    );
}

#[test]
fn chat_request_shape() {
    let r = chat_request(&config("xx"), "a\"b", &None);
    assert_eq!(r.url, "https://api.example.com/v1/chat/completions");
    assert_eq!(r.authorization, "Bearer k");
    let v: serde_json::Value = serde_json::from_str(&r.body).unwrap();
    assert_eq!(v["model"], "gpt-test");
    assert_eq!(v["temperature"], 0.7);
    assert_eq!(v["messages"][0]["role"], "system");
    assert_eq!(v["messages"][0]["content"].as_str().unwrap(), get_system_prompt("en"));
    assert_eq!(v["messages"][1]["role"], "user");
    assert_eq!(
        v["messages"][1]["content"].as_str().unwrap(),
        "请根据以下代码变更生成提交信息：\n\na\"b"
    );
    assert!(r.body.contains("a\\\"b"));
}

#[test]
fn reply_with_content() {
    let r = interpret_reply(200, r#"{"choices":[{"message":{"content":"Fix bug"}}]}"#);
    assert_eq!(r.unwrap(), "Fix bug");
}

#[test]
fn reply_with_error_status() {
    match interpret_reply(401, "unauthorized: bad key") {
        Err(GenerateError::HttpStatus { status, body }) => {
            assert_eq!(status, 401);
            assert_eq!(body, "unauthorized: bad key");
        }
        other => panic!("unexpected {:?}", other),
    }
    assert!(matches!(interpret_reply(500, "{}"), Err(GenerateError::HttpStatus { status: 500, .. })));
    assert!(matches!(interpret_reply(199, "x"), Err(GenerateError::HttpStatus { .. })));
}

#[test]
fn reply_without_content() {
    let r = interpret_reply(200, r#"{"choices":[{"message":{"role":"assistant"}}]}"#);
    assert_eq!(r.unwrap(), "无法获取生成的提交信息");
    assert_eq!(interpret_reply(200, "{}").unwrap(), "无法获取生成的提交信息");
    let r = interpret_reply(204, r#"{"choices":[{"message":{"content":7}}]}"#);
    assert_eq!(r.unwrap(), "无法获取生成的提交信息");
}

#[test]
fn reply_not_json() {
    assert!(matches!(interpret_reply(200, "<html>"), Err(GenerateError::BadResponse(_))));
}

#[test]
fn reply_from_parsed_content() {
    assert_eq!(message_from_reply(200, "b", Ok(Some("m".to_string()))).unwrap(), "m");
    assert_eq!(message_from_reply(200, "b", Ok(None)).unwrap(), "无法获取生成的提交信息");
    match message_from_reply(200, "b", Err("eof".to_string())) {
        Err(GenerateError::BadResponse(e)) => assert_eq!(e, "eof"),
        other => panic!("unexpected {:?}", other),
    }
    assert!(matches!(
        message_from_reply(404, "nf", Ok(Some("m".to_string()))),
        Err(GenerateError::HttpStatus { status: 404, .. })
    ));
}

#[test]
fn chat_request_escapes_strings() {
    let r = chat_request(&config("en"), "q\"\\\u{8}\t\n\u{c}\r\u{1}\u{1f}é", &None);
    assert!(r.body.contains("q\\\"\\\\\\b\\t\\n\\f\\r\\u0001\\u001fé\"}],\"temperature\":0.7}"));
    assert!(r.body.starts_with("{\"model\":\"gpt-test\",\"messages\":[{\"role\":\"system\",\"content\":\"Generate minimal SVN commit message:\\n1."));
}
