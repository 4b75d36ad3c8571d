use amp_sim::assistant::{clean_reply, Assistant};
use amp_sim::text::trim_quotes;
use amp_sim::config::{AssistantConfig, AudioConfig, Config};

#[test]
fn new_assistant_has_nothing() {
    let a = Assistant::new();
    assert_eq!(a.api_key, None);
    assert_eq!(a.thread_id, None);
    assert_eq!(a.authorization(), None);
    assert_eq!(a.messages_url(), None);
    assert_eq!(a.run_status_url("run_1"), None);
}

#[test]
fn authorization_is_bearer_key() {
    let mut a = Assistant::new();
    a.api_key = Some("SECRET-REDACTED".to_string());
    assert_eq!(a.authorization(), Some("Bearer SECRET-REDACTED".to_string()));
}

#[test]
fn thread_endpoints() {
    let mut a = Assistant::new();
    a.thread_id = Some("thread_abc".to_string());
    assert_eq!(a.messages_url().unwrap(), "https://api.openai.com/v1/threads/thread_abc/messages");
    assert_eq!(a.runs_url().unwrap(), "https://api.openai.com/v1/threads/thread_abc/runs");
    assert_eq!(
        a.run_status_url("run_9").unwrap(),
        "https://api.openai.com/v1/threads/thread_abc/runs/run_9"
    );
}

#[test]
fn config_defaults_and_paths() {
    let a = <AudioConfig as Config>::default();
    assert!(a.previous_input_device.is_none() && a.previous_output_device.is_none());
    assert_eq!(AudioConfig::config_path(), "config/audio_device.json");
    let c = <AssistantConfig as Config>::default();
    assert!(c.api_key.is_none() && c.thread_id.is_none());
    assert_eq!(AssistantConfig::config_path(), "assistant.json");
}

#[test]
fn reply_markup_and_quotes_are_removed() {
    let raw = r#""```json\n{\"processors\": [{\"screamer\": {\"level\": 0.5}}]}\n```""#;
    assert_eq!(
        clean_reply(raw),
        Ok(r#"{"processors": [{"screamer": {"level": 0.5}}]}"#.to_string())
    );
}

#[test]
fn clean_reply_without_markup_only_trims_quotes() {
    assert_eq!(clean_reply("\"\"{}\""), Ok("{}".to_string()));
    assert_eq!(clean_reply("plain"), Ok("plain".to_string()));
    assert_eq!(clean_reply(""), Ok(String::new()));
}

#[test]
fn trim_quotes_edges() {
    assert_eq!(trim_quotes("\"\"\""), "");
    assert_eq!(trim_quotes("\"a\"b\""), "a\"b");
    assert_eq!(trim_quotes("é\""), "é");
    assert_eq!(trim_quotes(""), "");
}
