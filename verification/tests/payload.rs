use end_rs::config::Config;
use end_rs::ewwface::{
    eww_create_history_value, eww_create_notifications_value, eww_create_reply_widget,
    quote_hexator,
};
use end_rs::registry::{ActiveNotification, HistoryNotification, Notification};

fn entry(id: u32, summary: &str, body: &str, actions: Vec<(String, String)>) -> ActiveNotification {
    ActiveNotification {
        id,
        notification: Notification {
            app_name: "my \"app\"".to_string(),
            icon: "/tmp/icon.png".to_string(),
            app_icon: "".to_string(),
            summary: summary.to_string(),
            body: body.to_string(),
            urgency: "normal".to_string(),
            actions,
            timeout_cancelled: false,
            timer_generation: 0,
        },
    }
}

#[test]
fn hexator_escapes_both_quotes() {
    assert_eq!(quote_hexator("a\"b'c"), "a&#34;b&#39;c");
    assert_eq!(quote_hexator("plain"), "plain");
    assert_eq!(quote_hexator(""), "");
}

#[test]
fn active_payload_shape() {
    let cfg = Config::default();
    let entries = vec![entry(3, "hello", "world", Vec::new())];
    let payload = eww_create_notifications_value(&cfg, &entries);
    assert!(payload.starts_with("(box :space-evenly false :orientation \"v\" "));
    assert!(payload.ends_with(")"));
    assert!(payload.contains("(box (end-notification :notification '"));
}

#[test]
fn active_payload_json_round_trip() {
    let cfg = Config::default();
    let actions = vec![("default".to_string(), "O'pen \"now\"".to_string())];
    let entries = vec![entry(
        7,
        "he said \"hi\"",
        "line1\nline2 \\ <b>",
        actions,
    )];
    let payload = eww_create_notifications_value(&cfg, &entries);
    let start = payload.find(":notification '").unwrap() + ":notification '".len();
    let end = payload.rfind("'))").unwrap();
    let json = &payload[start..end];
    let v: serde_json::Value = serde_json::from_str(json).unwrap();
    assert_eq!(v["id"], serde_json::Value::from(7u32));
    assert_eq!(v["application"].as_str().unwrap(), "my &#34;app&#34;");
    assert_eq!(v["summary"].as_str().unwrap(), "he said &#34;hi&#34;");
    assert_eq!(v["body"].as_str().unwrap(), "line1\nline2 \\ <b>");
    assert_eq!(v["icon"].as_str().unwrap(), "/tmp/icon.png");
    assert_eq!(v["app_icon"].as_str().unwrap(), "");
    assert_eq!(v["urgency"].as_str().unwrap(), "normal");
    let acts = v["actions"].as_array().unwrap();
    assert_eq!(acts.len(), 1);
    assert_eq!(acts[0]["id"].as_str().unwrap(), "default");
    assert_eq!(acts[0]["text"].as_str().unwrap(), "O&#39;pen &#34;now&#34;");
}

#[test]
fn history_payload_is_newest_first() {
    let cfg = Config::default();
    let mut history: Vec<HistoryNotification> = Vec::new();
    for name in ["first", "second"] {
        history.push(HistoryNotification {
            app_name: name.to_string(),
            icon: "".to_string(),
            app_icon: "".to_string(),
            summary: name.to_string(),
            body: "".to_string(),
            urgency: "low".to_string(),
        });
    }
    let payload = eww_create_history_value(&cfg, &history);
    let first = payload.find("\"second\"").unwrap();
    let second = payload.find("\"first\"").unwrap();
    assert!(first < second);
    assert!(payload.contains("(box (end-history :history `"));
}

#[test]
fn history_payload_json_round_trip() {
    let cfg = Config::default();
    let history = vec![HistoryNotification {
        app_name: "app \"x\"".to_string(),
        icon: "i.png".to_string(),
        app_icon: "a.png".to_string(),
        summary: "sum".to_string(),
        body: "b\nc".to_string(),
        urgency: "critical".to_string(),
    }];
    let payload = eww_create_history_value(&cfg, &history);
    let start = payload.find(":history `").unwrap() + ":history `".len();
    let end = payload.rfind("`))").unwrap();
    let json = &payload[start..end];
    let v: serde_json::Value = serde_json::from_str(json).unwrap();
    assert_eq!(v["app_name"].as_str().unwrap(), "app \"x\"");
    assert_eq!(v["body"].as_str().unwrap(), "b\nc");
    assert_eq!(v["urgency"].as_str().unwrap(), "critical");
}

#[test]
fn reply_widget_embeds_id() {
    let cfg = Config::default();
    assert_eq!(eww_create_reply_widget(&cfg, 12), "(box (end-reply :id 12))");
}
