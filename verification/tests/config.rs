use julia_jokes::config::Config;

#[test]
fn the_fractal_is_off_by_default() {
    assert!(!Config::default().run_fractal);
    assert_eq!(Config::default(), Config { run_fractal: false });
}

#[test]
fn the_fractal_can_be_switched_on() {
    let config = Config { run_fractal: true };
    assert!(config.run_fractal);
    assert_ne!(config, Config::default());
}
