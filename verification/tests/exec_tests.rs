use cage_runtime::config::{build_argv, rewrite_exec_config, Config, EnvEntry, FileSpec};

fn old_config() -> Config {
    Config {
        steward: Some("https://steward.example".to_owned()),
        args: vec!["stale".to_owned(), "arguments".to_owned()],
        files: vec![FileSpec { name: "stdio".to_owned() }],
        env: vec![EnvEntry { key: "LANG".to_owned(), value: "C".to_owned() }],
    }
}

#[test]
fn exec_rewrites_args_dropping_program_name() {
    // Raw exec arguments ["prog", "a", "b"] become ["a", "b"], whatever
    // args the original configuration held.
    let raw = vec!["prog".to_owned(), "a".to_owned(), "b".to_owned()];
    let conf = rewrite_exec_config(&Some(old_config()), &raw);
    assert_eq!(conf.args, vec!["a".to_owned(), "b".to_owned()]);
}

#[test]
fn exec_keeps_everything_but_args() {
    let raw = vec!["prog".to_owned(), "a".to_owned()];
    let conf = rewrite_exec_config(&Some(old_config()), &raw);
    assert_eq!(conf.steward, Some("https://steward.example".to_owned()));
    assert_eq!(conf.files.len(), 1);
    assert_eq!(conf.files[0].name, "stdio");
    assert_eq!(conf.env.len(), 1);
    assert_eq!(conf.env[0].key, "LANG");
    assert_eq!(conf.env[0].value, "C");
}

#[test]
fn exec_synthesizes_default_config() {
    // With no configuration supplied at top level, a default one is
    // synthesized before the args override is applied.
    let raw = vec!["prog".to_owned(), "x".to_owned()];
    let conf = rewrite_exec_config(&None, &raw);
    assert_eq!(conf.args, vec!["x".to_owned()]);
    assert_eq!(conf.steward, None);
    assert!(conf.files.is_empty());
    assert!(conf.env.is_empty());
}

#[test]
fn exec_with_empty_raw_args_yields_empty_args() {
    let conf = rewrite_exec_config(&Some(old_config()), &vec![]);
    assert!(conf.args.is_empty());
    let conf2 = rewrite_exec_config(&Some(old_config()), &vec!["prog".to_owned()]);
    assert!(conf2.args.is_empty());
}

#[test]
fn argv_gets_placeholder_program_name() {
    // The module is loaded from a handle, not a path, so argv[0] is the
    // synthesized placeholder.
    let argv = build_argv(&vec!["alpha".to_owned(), "beta".to_owned()]);
    assert_eq!(
        argv,
        vec!["main.wasm".to_owned(), "alpha".to_owned(), "beta".to_owned()],
    );
    let bare = build_argv(&vec![]);
    assert_eq!(bare, vec!["main.wasm".to_owned()]);
}

#[test]
fn default_config_is_empty() {
    let conf = Config::default();
    assert_eq!(conf.steward, None);
    assert!(conf.args.is_empty());
    assert!(conf.files.is_empty());
    assert!(conf.env.is_empty());
}
