use cattle_herd::config::{
    cattle_mode_allowed, herder_mode_allowed, CattleConfig, CattlePush, Config, HerderConfig,
    HerderPolls, Mode, Pull, DEFAULT_PORT,
};

#[test]
fn push_defaults() {
    let p = CattlePush::default();
    assert_eq!(p.server, "localhost".to_string());
    assert_eq!(p.port, DEFAULT_PORT);
    assert_eq!(p.port, 6543);
    assert_eq!(p.interval_seconds, 10);
}

#[test]
fn pull_defaults() {
    let p = Pull::default();
    assert_eq!(p.listen, DEFAULT_PORT);
}

#[test]
fn poll_defaults() {
    let p = HerderPolls::default();
    assert_eq!(p.cattle, vec!["localhost".to_string()]);
    assert_eq!(p.interval_seconds, 10);
}

#[test]
fn cattle_never_runs_poll() {
    assert!(cattle_mode_allowed(&Mode::Push(CattlePush::default())));
    assert!(cattle_mode_allowed(&Mode::Pull(Pull::default())));
    assert!(!cattle_mode_allowed(&Mode::Poll(HerderPolls::default())));
}

#[test]
fn herder_never_runs_push() {
    assert!(!herder_mode_allowed(&Mode::Push(CattlePush::default())));
    assert!(herder_mode_allowed(&Mode::Pull(Pull::default())));
    assert!(herder_mode_allowed(&Mode::Poll(HerderPolls::default())));
}

#[test]
fn configs_carry_their_mode() {
    let c = CattleConfig {
        herd_config: Config { mode: Mode::Push(CattlePush::default()) },
    };
    assert!(cattle_mode_allowed(&c.herd_config.mode));
    let h = HerderConfig {
        herd_config: Config { mode: Mode::Poll(HerderPolls::default()) },
        web_port: 8080,
    };
    assert!(herder_mode_allowed(&h.herd_config.mode));
    assert_eq!(h.web_port, 8080);
}
