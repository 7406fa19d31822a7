use cloud_satchel::geom::Rect;
use cloud_satchel::translate::{
    ai_prompt, button_position, clip_selection, engine_label, engine_of, friendly_net_error,
    hide_on_press, ms_http_error, ms_key_missing, ms_url, point_inside_any, popup_position,
    reply_translation, selection_end, should_detect, source_lang_label, target_lang_label,
    work_area_or_default, Engine, Selection, TranslateState, MAX_TEXT,
};

fn work() -> Rect {
    Rect { left: 0, top: 0, right: 1920, bottom: 1040 }
}

#[test]
fn language_labels() {
    assert_eq!(source_lang_label("auto"), "自动检测");
    assert_eq!(source_lang_label("en"), "英语");
    assert_eq!(source_lang_label("zh-Hans"), "简体中文");
    assert_eq!(source_lang_label("xx"), "自动检测");
    assert_eq!(target_lang_label("auto-zh-Hans"), "简体中文");
    assert_eq!(target_lang_label("ja"), "日语");
    assert_eq!(target_lang_label("es"), "西班牙语");
    assert_eq!(target_lang_label("xx"), "简体中文");
}

#[test]
fn microsoft_request_url() {
    assert_eq!(
        ms_url("auto-zh-Hans", "auto"),
        "https://api.cognitive.microsofttranslator.com/translate?api-version=3.0&to=zh-Hans"
    );
    assert_eq!(
        ms_url("en", "ja"),
        "https://api.cognitive.microsofttranslator.com/translate?api-version=3.0&to=en&from=ja"
    );
}

#[test]
fn assistant_prompt_names_the_languages() {
    assert_eq!(
        ai_prompt("hello", "auto-zh-Hans", "auto"),
        "把下面的文本翻译成简体中文。只输出译文本身，不要任何解释或额外内容。\n\nhello"
    );
    assert_eq!(
        ai_prompt("hola", "en", "es"),
        "把下面的西班牙语文本翻译成英语。只输出译文本身，不要任何解释或额外内容。\n\nhola"
    );
}

#[test]
fn engines_and_messages() {
    assert_eq!(engine_of("microsoft"), Engine::Microsoft);
    assert_eq!(engine_of("ai"), Engine::Ai);
    assert_eq!(engine_of(""), Engine::Ai);
    assert_eq!(engine_label(Engine::Microsoft), "微软翻译");
    assert_eq!(engine_label(Engine::Ai), "AI 助理");
    assert_eq!(friendly_net_error(false, true, "x"), "无法连接到翻译服务，请检查网络与配置");
    assert_eq!(friendly_net_error(true, false, "x"), "请求超时（超过 60 秒无响应）");
    assert_eq!(friendly_net_error(false, false, "dns"), "网络请求失败: dns");
    assert_eq!(ms_http_error(401, Some("bad key".into())), "微软翻译返回错误（HTTP 401）：bad key");
    assert_eq!(ms_http_error(500, Some(String::new())), "微软翻译返回错误（HTTP 500）");
    assert_eq!(ms_http_error(503, None), "微软翻译返回错误（HTTP 503）");
    assert!(ms_key_missing().starts_with("未配置微软翻译 API Key"));
}

#[test]
fn replies_give_the_trimmed_translation() {
    let ai = r#"{"choices":[{"message":{"content":"  你好 \n"}}]}"#;
    assert_eq!(reply_translation(Engine::Ai, Ok(ai.to_string())), Ok("你好".to_string()));
    let ms = r#"[{"translations":[{"text":"Hello","to":"en"}]}]"#;
    assert_eq!(reply_translation(Engine::Microsoft, Ok(ms.to_string())), Ok("Hello".to_string()));
    let blank = r#"{"choices":[{"message":{"content":"   "}}]}"#;
    assert_eq!(
        reply_translation(Engine::Ai, Ok(blank.to_string())),
        Err("AI 未返回译文，请检查模型 / 接口配置".to_string())
    );
    assert_eq!(
        reply_translation(Engine::Microsoft, Ok("{}".to_string())),
        Err("微软翻译未返回译文（请检查 Key 与区域配置）".to_string())
    );
    assert_eq!(
        reply_translation(Engine::Ai, Err("eof".to_string())),
        Err("解析 AI 回复失败: eof".to_string())
    );
    assert_eq!(
        reply_translation(Engine::Microsoft, Err("eof".to_string())),
        Err("解析翻译结果失败: eof".to_string())
    );
}

#[test]
fn selection_text_is_trimmed_and_cut() {
    assert_eq!(clip_selection("  hi there \n"), Some("hi there".to_string()));
    assert_eq!(clip_selection(" \t "), None);
    let long: String = "字".repeat(MAX_TEXT + 5);
    let clipped = clip_selection(&long).unwrap();
    assert_eq!(clipped.chars().count(), MAX_TEXT);
}

#[test]
fn button_goes_under_the_end_of_the_selection() {
    let end = selection_end(&[(10, 10, 100, 20), (10, 40, 50, 20), (0, 0, 0, 0)], (999, 999));
    assert_eq!(end, (60, 60));
    assert_eq!(selection_end(&[], (300, 400)), (300, 400));
    assert_eq!(selection_end(&[(5, 5, 0, 10)], (300, 400)), (300, 400));
    assert_eq!(button_position(60, 60, work()), (23, 68));
    // kept inside the work area
    assert_eq!(button_position(0, 1035, work()), (0, 1010));
    assert_eq!(button_position(5000, -50, work()), (1845, 0));
    assert_eq!(work_area_or_default(None), Rect { left: 0, top: 0, right: 1920, bottom: 1080 });
}

#[test]
fn popup_goes_under_the_button() {
    assert_eq!(popup_position(500, 100, work()), (337, 138));
    assert_eq!(popup_position(0, 900, work()), (0, 740));
    assert_eq!(popup_position(1900, 100, work()), (1520, 138));
}

#[test]
fn clicks_and_detection() {
    let wins = [Rect { left: 100, top: 100, right: 175, bottom: 130 }];
    assert!(point_inside_any(100, 100, &wins));
    assert!(!point_inside_any(175, 100, &wins));
    assert!(hide_on_press(true, false));
    assert!(!hide_on_press(true, true));
    assert!(!hide_on_press(false, false));
    assert!(should_detect(true, false, false, true, false));
    assert!(!should_detect(true, false, false, true, true));
    assert!(!should_detect(true, true, false, false, false));
    assert!(!should_detect(true, false, true, false, false));
    assert!(!should_detect(false, false, false, false, false));
}

#[test]
fn state_switches() {
    let mut t = TranslateState::new();
    assert!(t.start());
    assert!(!t.start());
    t.set_selection(Selection { text: "a".into(), x: 1, y: 2 });
    assert!(t.selection.is_some());
    assert!(t.set_enabled(false));
    assert!(t.selection.is_none());
    assert!(!t.set_enabled(true));
    t.stop();
    assert!(!t.running);
}

#[test]
fn reply_numbers_index_arrays_only() {
    let keyed = r#"{"choices":{"0":{"message":{"content":"你好"}}}}"#;
    assert_eq!(
        reply_translation(Engine::Ai, Ok(keyed.to_string())),
        Err("AI 未返回译文，请检查模型 / 接口配置".to_string())
    );
    let ms_keyed = r#"{"0":{"translations":[{"text":"Hello"}]}}"#;
    assert_eq!(
        reply_translation(Engine::Microsoft, Ok(ms_keyed.to_string())),
        Err("微软翻译未返回译文（请检查 Key 与区域配置）".to_string())
    );
    let ms_inner = r#"[{"translations":{"0":{"text":"Hello"}}}]"#;
    assert_eq!(
        reply_translation(Engine::Microsoft, Ok(ms_inner.to_string())),
        Err("微软翻译未返回译文（请检查 Key 与区域配置）".to_string())
    );
}
