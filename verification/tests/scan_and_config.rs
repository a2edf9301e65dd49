use cmdr::config::{Config, InferenceConfig, ShellConfig, UiConfig};
use cmdr::scan::{has_prefix, parse_u64, split, split_lines};

#[test]
fn parse_u64_agrees_with_std() {
    let samples = [
        "0", "7", "42", "007", "+5", "+", "", "-1", "1a", "a1", " 1", "1 ", "++1", "1+",
        "18446744073709551615", "18446744073709551616", "99999999999999999999",
        "184467440737095516150", "٣", "1_000",
    ];
    for sample in samples {
        assert_eq!(parse_u64(sample), sample.parse::<u64>().ok(), "for {:?}", sample);
    }
}

#[test]
fn parse_u64_reads_exact_values() {
    assert_eq!(parse_u64("16384256"), Some(16384256));
    assert_eq!(parse_u64("18446744073709551615"), Some(u64::MAX));
    assert_eq!(parse_u64("18446744073709551616"), None);
}

#[test]
fn split_lines_agrees_with_std_up_to_carriage_returns() {
    let samples = ["", "a", "a\n", "a\nb", "a\n\nb\n", "\n", "\n\n", "a b\nc d\n"];
    for sample in samples {
        let expected: Vec<String> = sample.lines().map(|l| l.to_string()).collect();
        assert_eq!(split_lines(sample), expected, "for {:?}", sample);
    }
    assert_eq!(split_lines("a\r\nb"), vec!["a\r", "b"]);
}

#[test]
fn split_keeps_empty_parts() {
    assert_eq!(split("a,b,,c", ','), vec!["a", "b", "", "c"]);
    assert_eq!(split("", ','), vec![""]);
    assert_eq!(split(",", ','), vec!["", ""]);
}

#[test]
fn has_prefix_compares_the_beginning() {
    assert!(has_prefix("MemTotal: 1", "MemTotal:"));
    assert!(has_prefix("abc", ""));
    assert!(has_prefix("", ""));
    assert!(!has_prefix("Mem", "MemTotal:"));
    assert!(!has_prefix(" MemTotal:", "MemTotal:"));
}

#[test]
fn shell_and_ui_defaults_are_as_documented() {
    let shell = ShellConfig::default();
    assert!(shell.auto_execute);
    assert!(shell.show_translation);
    assert_eq!(shell.default_shell, "bash");
    let ui = UiConfig::default();
    assert_eq!(ui.prompt, "[cmdr] ");
    assert!(ui.syntax_highlighting);
    assert_eq!(ui.history_file, Some("~/.cmdr_history".to_string()));
}

#[test]
fn inference_defaults_are_as_documented() {
    let config = InferenceConfig::for_cpus(8);
    assert_eq!(config.model_path, None);
    assert_eq!(config.threads, Some(8));
    assert_eq!(config.context_size, Some(2048));
    assert_eq!(config.temperature_milli, Some(700));
    assert_eq!(config.temperature_milli.unwrap() as f32 / 1000.0, 0.7);
    let here = InferenceConfig::default();
    assert!(here.threads.is_some());
    assert_eq!(here.context_size, Some(2048));
    assert_eq!(here.temperature_milli, Some(700));
    assert_eq!(here.model_path, None);
}

#[test]
fn default_config_combines_the_defaults() {
    let config = Config::default();
    assert_eq!(config.shell.default_shell, "bash");
    assert_eq!(config.ui.prompt, "[cmdr] ");
    assert_eq!(config.inference.context_size, Some(2048));
}
