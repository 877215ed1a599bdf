use braidpool::cli::Cli;

// node --config-file=conf.toml
#[test]
fn cli_it_should_build_struct_for_parsing_cli_options() {
    let args = Cli::new(Some("conf.toml".to_string()));
    assert_eq!(args.config_file, "conf.toml");
}

// node
#[test]
fn cli_it_should_get_default_values_for_args() {
    let args = Cli::new(None);
    assert_eq!(args.config_file, "config.toml");
}
