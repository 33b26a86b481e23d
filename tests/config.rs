use clawdbot_server::config::{
    default_bot_name, default_cors_origins, default_host, default_llm_url, default_max_tokens,
    default_port, default_rate_limit, origin_policy, AppConfig, OriginPolicy,
};

#[test]
fn defaults() {
    assert_eq!(default_host(), "0.0.0.0");
    assert_eq!(default_port(), 3000);
    assert_eq!(default_llm_url(), "http://127.0.0.1:8000");
    assert_eq!(default_max_tokens(), 512);
    assert_eq!(default_bot_name(), "ClawDBot");
    assert_eq!(default_cors_origins(), "*");
    assert_eq!(default_rate_limit(), 5);
    let c = AppConfig::with_defaults();
    assert_eq!(c.port, 3000);
    assert_eq!(c.bot_name, "ClawDBot");
}

#[test]
fn origins_are_split_and_trimmed() {
    assert!(matches!(origin_policy("*"), OriginPolicy::Any));
    match origin_policy("http://a.example, http://b.example ,") {
        OriginPolicy::List(v) => assert_eq!(v, vec!["http://a.example", "http://b.example", ""]),
        OriginPolicy::Any => panic!("expected a list"),
    }
    match origin_policy("") {
        OriginPolicy::List(v) => assert_eq!(v, vec![""]),
        OriginPolicy::Any => panic!("expected a list"),
    }
}
