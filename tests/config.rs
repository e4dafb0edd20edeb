use alfred::config::{
    alfred_dir, config_path, default_idle_timeout, default_model_path, default_port,
    get_daemon_config, get_model_path, join_path, lib_dir, models_dir, pid_file, Config,
    DaemonConfig,
};

#[test]
fn defaults() {
    assert_eq!(default_port(), 7654);
    assert_eq!(default_idle_timeout(), 30);
    let d = DaemonConfig::default();
    assert_eq!((d.port, d.idle_timeout_minutes, d.auto_start), (7654, 30, false));
    assert!(Config::default().model_path.is_none());
}

#[test]
fn locations_under_home() {
    assert_eq!(alfred_dir("/home/u"), "/home/u/.alfred");
    assert_eq!(config_path("/home/u"), "/home/u/.alfred/config.yaml");
    assert_eq!(models_dir("/home/u/"), "/home/u/.alfred/models");
    assert_eq!(lib_dir("/home/u"), "/home/u/.alfred/lib");
    assert_eq!(default_model_path("/h"), "/h/.alfred/models/phi-3-mini-q4.gguf");
    assert_eq!(pid_file("/h"), "/h/.alfred/alferd.pid");
    assert_eq!(join_path("", "x"), "x");
}

#[test]
fn configured_values_win() {
    let c = Config {
        model_path: Some("/m.gguf".to_string()),
        daemon: DaemonConfig { port: 1, idle_timeout_minutes: 0, auto_start: true },
    };
    assert_eq!(get_model_path(&Some(c.clone()), "/h"), "/m.gguf");
    assert_eq!(get_daemon_config(&Some(c)).port, 1);
    assert_eq!(get_model_path(&None, "/h"), "/h/.alfred/models/phi-3-mini-q4.gguf");
    assert_eq!(get_daemon_config(&None).idle_timeout_minutes, 30);
}
