use cloud_satchel::ai::{
    incomplete_reply_message, load_key, stream_outcome, stream_read_error,
    chat_url, clean_key, error_detail, friendly_net_error, get_ai_config, http_error_msg,
    normalize_base_url, save_encrypted_key, save_key, sse_line, SseLine, SseParser,
};

#[test]
fn clean_key_removes_all_whitespace() {
    assert_eq!(clean_key(" sk-abc \ndef\tghi \n"), "sk-abcdefghi");
    assert_eq!(clean_key("sk-abc"), "sk-abc");
    assert!(clean_key("  \n\t ").is_empty());
}

#[test]
fn base_url_normalization_and_chat_url() {
    assert_eq!(
        chat_url("https://api.deepseek.com"),
        "https://api.deepseek.com/chat/completions"
    );
    assert_eq!(
        chat_url("https://api.deepseek.com/v1/"),
        "https://api.deepseek.com/v1/chat/completions"
    );
    assert_eq!(
        chat_url("https://api.openai.com/v1"),
        "https://api.openai.com/v1/chat/completions"
    );
    assert_eq!(chat_url("  "), "https://api.openai.com/v1/chat/completions");
    assert_eq!(normalize_base_url("ftp://bad"), "https://api.openai.com/v1");
}

#[test]
fn base_url_trims_whitespace_and_all_trailing_slashes() {
    assert_eq!(normalize_base_url("  http://localhost:8080///  "), "http://localhost:8080");
    assert_eq!(normalize_base_url("\u{3000}https://x.y/v1/\u{a0}"), "https://x.y/v1");
    assert_eq!(normalize_base_url("localhost"), "https://api.openai.com/v1");
}

#[test]
fn clean_key_is_idempotent() {
    let once = clean_key(" a\u{2003}b \r\nc ");
    assert_eq!(once, "abc");
    assert_eq!(clean_key(&once), once);
}

#[test]
fn save_key_rejects_blank_keys_and_cleans_others() {
    assert_eq!(save_key(" \n ").err().unwrap(), "API Key 不能为空");
    let w = save_key(" sk-1 2 ").ok().unwrap();
    assert_eq!(w.file_name, "ai-key.bin");
    assert_eq!(w.key, "sk-12");
    let w = save_encrypted_key("ms-translate-key.bin", "k\tey").ok().unwrap();
    assert_eq!(w.file_name, "ms-translate-key.bin");
    assert_eq!(w.key, "key");
}

#[test]
fn ai_config_normalizes_base_url() {
    let c = get_ai_config(true, "gpt-4o-mini".to_string(), "https://api.deepseek.com/");
    assert!(c.has_key);
    assert_eq!(c.model, "gpt-4o-mini");
    assert_eq!(c.base_url, "https://api.deepseek.com");
}

#[test]
fn http_error_messages_by_status() {
    assert_eq!(http_error_msg(401, None), "API Key 无效（401 Unauthorized）");
    assert_eq!(
        http_error_msg(401, Some("Incorrect API key".to_string())),
        "API Key 无效（401）：Incorrect API key"
    );
    assert_eq!(http_error_msg(429, Some("x".to_string())), "请求过于频繁（429），请稍后再试");
    assert_eq!(http_error_msg(500, None), "接口返回错误（HTTP 500）");
    assert_eq!(http_error_msg(404, Some("nope".to_string())), "接口返回错误（HTTP 404）：nope");
}

#[test]
fn network_error_messages() {
    assert_eq!(friendly_net_error(true, false, "x"), "请求超时（超过 60 秒无响应）");
    assert_eq!(
        friendly_net_error(false, true, "x"),
        "无法连接到接口地址，请检查网络与 BaseURL 配置"
    );
    assert_eq!(friendly_net_error(false, false, "boom"), "网络请求失败: boom");
}

#[test]
fn error_detail_reads_error_message() {
    assert_eq!(
        error_detail(r#"{"error":{"message":"bad key"}}"#),
        Some("bad key".to_string())
    );
    assert_eq!(error_detail(r#"{"error":{"message":""}}"#), None);
    assert_eq!(error_detail("not json"), None);
}

#[test]
fn sse_parser_emits_deltas_across_chunk_boundaries() {
    let mut p = SseParser::new();
    let out = p.feed(b"data: {\"choices\":[{\"delta\":{\"content\":\"Hel\"}}]}\n\nda");
    assert_eq!(out, vec!["Hel".to_string()]);
    assert!(!p.finished());
    let out = p.feed(b"ta: {\"choices\":[{\"delta\":{\"content\":\"lo\"}}]}\r\n: keep-alive\n");
    assert_eq!(out, vec!["lo".to_string()]);
    let out = p.feed(b"data: {\"choices\":[{\"delta\":{}}]}\ndata: [DONE]\ndata: {\"choices\":[{\"delta\":{\"content\":\"late\"}}]}\n");
    assert!(out.is_empty());
    assert!(p.finished());
    assert!(p.feed(b"data: {\"choices\":[{\"delta\":{\"content\":\"x\"}}]}\n").is_empty());
}

#[test]
fn decrypted_key_must_be_utf8() {
    assert_eq!(load_key(Ok(b"sk-123".to_vec())), Ok("sk-123".to_string()));
    assert_eq!(load_key(Ok(vec![0xff, 0xfe])), Err("API Key 解码失败".to_string()));
    assert_eq!(load_key(Err("读取 Key 文件失败: x".into())), Err("读取 Key 文件失败: x".to_string()));
}

#[test]
fn stream_end_messages() {
    assert_eq!(stream_outcome(true), Ok(()));
    assert_eq!(stream_outcome(false), Err("连接意外中断".to_string()));
    assert_eq!(incomplete_reply_message(), "连接意外中断，回复不完整");
    assert_eq!(stream_read_error("reset"), "网络读取中断: reset");
}

#[test]
fn stream_chunking_does_not_change_the_deltas() {
    let body = b"data: {\"choices\":[{\"delta\":{\"content\":\"Hel\"}}]}\n\ndata: {\"choices\":[{\"delta\":{\"content\":\"lo\"}}]}\n\ndata: [DONE]\n";
    let mut whole = SseParser::new();
    let all = whole.feed(body);
    for cut in 0..body.len() {
        let mut p = SseParser::new();
        let mut out = p.feed(&body[..cut]);
        out.extend(p.feed(&body[cut..]));
        assert_eq!(out, all);
        assert!(p.finished());
    }
    assert_eq!(all, vec!["Hel".to_string(), "lo".to_string()]);
}

#[test]
fn stream_content_needs_choices_array() {
    let keyed = br#"data: {"choices":{"0":{"delta":{"content":"x"}}}}
"#;
    assert!(matches!(sse_line(keyed), SseLine::Skip));
    let listed = br#"data: {"choices":[{"delta":{"content":"x"}}]}
"#;
    assert!(matches!(sse_line(listed), SseLine::Chunk(ref c) if c == "x"));
    let mut p = SseParser::new();
    assert!(p.feed(keyed).is_empty());
    assert_eq!(p.feed(listed), vec!["x".to_string()]);
}
