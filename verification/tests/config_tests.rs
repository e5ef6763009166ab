use async_global_executor::config::{format_config_debug, format_config_pretty_debug, parse_thread_count, GlobalExecutorConfig, DEFAULT_ENV_VAR};

fn bounds(config: &GlobalExecutorConfig, env_value: Option<&str>, cpus: usize) -> Option<(usize, usize)> {
    config
        .seal_with(env_value, cpus)
        .map(|c| (c.min_threads(), c.max_threads()))
}

#[test]
fn parse_plain_digits() {
    assert_eq!(parse_thread_count("12"), Some(12));
    assert_eq!(parse_thread_count("0"), Some(0));
    assert_eq!(parse_thread_count("007"), Some(7));
}

#[test]
fn parse_plus_sign() {
    assert_eq!(parse_thread_count("+7"), Some(7));
    assert_eq!(parse_thread_count("+"), None);
    assert_eq!(parse_thread_count("++7"), None);
}

#[test]
fn parse_rejects_other_text() {
    assert_eq!(parse_thread_count(""), None);
    assert_eq!(parse_thread_count("-3"), None);
    assert_eq!(parse_thread_count(" 5"), None);
    assert_eq!(parse_thread_count("5 "), None);
    assert_eq!(parse_thread_count("1_000"), None);
    assert_eq!(parse_thread_count("four"), None);
    assert_eq!(parse_thread_count("٣"), None);
}

#[test]
fn parse_limits() {
    let max = usize::MAX.to_string();
    assert_eq!(parse_thread_count(&max), Some(usize::MAX));
    let over = format!("{}0", usize::MAX);
    assert_eq!(parse_thread_count(&over), None);
    assert_eq!(parse_thread_count("99999999999999999999999999"), None);
}

#[test]
fn parse_agrees_with_std() {
    for text in ["1", "+1", "42", "0042", "", "+", "-1", "x1", "1x", "18446744073709551615", "18446744073709551616"] {
        assert_eq!(parse_thread_count(text), text.parse::<usize>().ok(), "text {:?}", text);
    }
}

#[test]
fn default_env_var_name() {
    let config = GlobalExecutorConfig::default();
    assert_eq!(config.env_var_name(), "ASYNC_GLOBAL_EXECUTOR_THREADS");
    assert_eq!(DEFAULT_ENV_VAR, "ASYNC_GLOBAL_EXECUTOR_THREADS");
}

#[test]
fn custom_env_var_name() {
    let config = GlobalExecutorConfig::default().with_env_var("NUMBER_OF_THREADS");
    assert_eq!(config.env_var_name(), "NUMBER_OF_THREADS");
}

#[test]
fn seal_defaults_to_cpus() {
    let config = GlobalExecutorConfig::default();
    assert_eq!(bounds(&config, None, 4), Some((4, 16)));
    assert_eq!(bounds(&config, None, 1), Some((1, 4)));
}

#[test]
fn seal_at_least_one_thread() {
    let config = GlobalExecutorConfig::default();
    assert_eq!(bounds(&config, None, 0), Some((1, 4)));
    assert_eq!(bounds(&config, Some("0"), 8), Some((1, 4)));
    let config = GlobalExecutorConfig::default().with_min_threads(0);
    assert_eq!(bounds(&config, None, 8), Some((1, 4)));
}

#[test]
fn seal_configured_minimum() {
    let config = GlobalExecutorConfig::default().with_min_threads(2);
    assert_eq!(bounds(&config, None, 8), Some((2, 8)));
}

#[test]
fn seal_env_takes_precedence() {
    let config = GlobalExecutorConfig::default().with_min_threads(2);
    assert_eq!(bounds(&config, Some("6"), 8), Some((6, 24)));
    assert_eq!(bounds(&config, Some("+3"), 8), Some((3, 12)));
}

#[test]
fn seal_unparsable_env_is_ignored() {
    let config = GlobalExecutorConfig::default().with_min_threads(2);
    assert_eq!(bounds(&config, Some("many"), 8), Some((2, 8)));
    assert_eq!(bounds(&config, Some(""), 8), Some((2, 8)));
    let config = GlobalExecutorConfig::default();
    assert_eq!(bounds(&config, Some("-3"), 5), Some((5, 20)));
}

#[test]
fn seal_configured_maximum() {
    let config = GlobalExecutorConfig::default().with_min_threads(2).with_max_threads(10);
    assert_eq!(bounds(&config, None, 8), Some((2, 10)));
}

#[test]
fn seal_maximum_never_below_minimum() {
    let config = GlobalExecutorConfig::default().with_min_threads(5).with_max_threads(3);
    assert_eq!(bounds(&config, None, 8), Some((5, 5)));
}

#[test]
fn seal_builder_example() {
    let config = GlobalExecutorConfig::default()
        .with_env_var("NUMBER_OF_THREADS")
        .with_min_threads(4)
        .with_max_threads(6);
    assert_eq!(config.env_var_name(), "NUMBER_OF_THREADS");
    assert_eq!(bounds(&config, None, 16), Some((4, 6)));
}

#[test]
fn seal_fails_when_default_maximum_overflows() {
    let config = GlobalExecutorConfig::default().with_min_threads(usize::MAX);
    assert_eq!(bounds(&config, None, 1), None);
    let config = GlobalExecutorConfig::default().with_min_threads(usize::MAX / 4 + 1).with_max_threads(usize::MAX);
    assert_eq!(bounds(&config, None, 1), None);
    let config = GlobalExecutorConfig::default().with_min_threads(usize::MAX / 4);
    assert_eq!(bounds(&config, None, 1), Some((usize::MAX / 4, usize::MAX / 4 * 4)));
}

#[test]
fn seal_uses_machine_cpus() {
    let sealed = GlobalExecutorConfig::default().seal(None).unwrap();
    let cpus = num_cpus::get().max(1);
    assert_eq!(sealed.min_threads(), cpus);
    assert_eq!(sealed.max_threads(), cpus * 4);
}

#[test]
fn seal_machine_cpus_unused_when_configured() {
    let sealed = GlobalExecutorConfig::default().with_min_threads(3).seal(None).unwrap();
    assert_eq!((sealed.min_threads(), sealed.max_threads()), (3, 12));
    let sealed = GlobalExecutorConfig::default().seal(Some("9")).unwrap();
    assert_eq!((sealed.min_threads(), sealed.max_threads()), (9, 36));
}

#[test]
fn debug_text_unset() {
    let config = GlobalExecutorConfig::default();
    assert_eq!(
        config.debug_text(),
        "GlobalExecutorConfig { env_var: None, min_threads: None, max_threads: None }"
    );
}

#[test]
fn debug_text_set() {
    let config = GlobalExecutorConfig::default()
        .with_env_var("NUMBER_OF_THREADS")
        .with_min_threads(4)
        .with_max_threads(6);
    assert_eq!(
        config.debug_text(),
        "GlobalExecutorConfig { env_var: Some(\"NUMBER_OF_THREADS\"), min_threads: Some(4), max_threads: Some(6) }"
    );
}

#[test]
fn debug_text_matches_derived_layout() {
    #[derive(Debug)]
    #[allow(dead_code)]
    struct GlobalExecutorConfig {
        env_var: Option<&'static str>,
        min_threads: Option<usize>,
        max_threads: Option<usize>,
    }
    let expected = format!(
        "{:?}",
        GlobalExecutorConfig { env_var: Some("A \"quoted\"\tname"), min_threads: None, max_threads: Some(usize::MAX) }
    );
    let config = async_global_executor::config::GlobalExecutorConfig::default()
        .with_env_var("A \"quoted\"\tname")
        .with_max_threads(usize::MAX);
    assert_eq!(config.debug_text(), expected);
}

#[test]
fn format_config_debug_given_quoted_name() {
    assert_eq!(
        format_config_debug(Some("<name>"), Some(0), None),
        "GlobalExecutorConfig { env_var: Some(<name>), min_threads: Some(0), max_threads: None }"
    );
}

#[derive(Debug)]
#[allow(dead_code)]
struct DerivedLayout {
    env_var: Option<&'static str>,
    min_threads: Option<usize>,
    max_threads: Option<usize>,
}

fn derived_pretty(env_var: Option<&'static str>, min_threads: Option<usize>, max_threads: Option<usize>) -> String {
    format!("{:#?}", DerivedLayout { env_var, min_threads, max_threads }).replacen("DerivedLayout", "GlobalExecutorConfig", 1)
}

#[test]
fn pretty_debug_text_unset() {
    let config = GlobalExecutorConfig::default();
    assert_eq!(
        config.pretty_debug_text(),
        "GlobalExecutorConfig {\n    env_var: None,\n    min_threads: None,\n    max_threads: None,\n}"
    );
    assert_eq!(config.pretty_debug_text(), derived_pretty(None, None, None));
}

#[test]
fn pretty_debug_text_set() {
    let config = GlobalExecutorConfig::default()
        .with_env_var("NUMBER_OF_THREADS")
        .with_min_threads(4)
        .with_max_threads(6);
    assert_eq!(
        config.pretty_debug_text(),
        "GlobalExecutorConfig {\n    env_var: Some(\n        \"NUMBER_OF_THREADS\",\n    ),\n    min_threads: Some(\n        4,\n    ),\n    max_threads: Some(\n        6,\n    ),\n}"
    );
    assert_eq!(config.pretty_debug_text(), derived_pretty(Some("NUMBER_OF_THREADS"), Some(4), Some(6)));
}

#[test]
fn pretty_debug_text_escapes_name() {
    let config = GlobalExecutorConfig::default().with_env_var("A \"q\"\tname").with_max_threads(usize::MAX);
    assert_eq!(config.pretty_debug_text(), derived_pretty(Some("A \"q\"\tname"), None, Some(usize::MAX)));
}

#[test]
fn format_config_pretty_debug_given_quoted_name() {
    assert_eq!(
        format_config_pretty_debug(Some("<name>"), None, Some(0)),
        "GlobalExecutorConfig {\n    env_var: Some(\n        <name>,\n    ),\n    min_threads: None,\n    max_threads: Some(\n        0,\n    ),\n}"
    );
}
