use minigrep::config::ArgumentCountError;
use minigrep::config::Config;

fn args_of(parts: &[&str]) -> Vec<String> {
    parts.iter().map(|p| p.to_string()).collect()
}

#[test]
fn builds_config_from_three_args() {
    let args = args_of(&["prog", "hello", "poem.txt"]);
    let config = Config::new(&args).unwrap();
    assert_eq!(config.query, "hello");
    assert_eq!(config.file_path, "poem.txt");
}

#[test]
fn ignores_arguments_past_the_third() {
    let args = args_of(&["prog", "needle", "hay.txt", "extra", "more"]);
    let config = Config::new(&args).unwrap();
    assert_eq!(config.query, "needle");
    assert_eq!(config.file_path, "hay.txt");
}

#[test]
fn copies_arguments_verbatim() {
    let args = args_of(&["prog", "  MiXeD Case  ", "./some dir/File.TXT"]);
    let config = Config::new(&args).unwrap();
    assert_eq!(config.query, "  MiXeD Case  ");
    assert_eq!(config.file_path, "./some dir/File.TXT");
}

#[test]
fn accepts_empty_query() {
    let args = args_of(&["prog", "", "poem.txt"]);
    let config = Config::new(&args).unwrap();
    assert_eq!(config.query, "");
    assert_eq!(config.file_path, "poem.txt");
}

#[test]
fn rejects_empty_argument_list() {
    let args = args_of(&[]);
    assert!(matches!(Config::new(&args), Err(ArgumentCountError)));
}

#[test]
fn rejects_one_argument() {
    let args = args_of(&["prog"]);
    assert!(matches!(Config::new(&args), Err(ArgumentCountError)));
}

#[test]
fn rejects_two_arguments() {
    let args = args_of(&["prog", "x"]);
    assert!(matches!(Config::new(&args), Err(ArgumentCountError)));
}
