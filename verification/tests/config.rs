use greeter::config::Config;

#[test]
fn default_binds_to_every_interface_on_8080() {
    assert_eq!(Config::default().bind_addr, "0.0.0.0:8080");
}

#[test]
fn absent_setting_gives_the_default() {
    assert_eq!(Config::from_setting(None), Config::default());
    assert_eq!(Config::from_setting(None).bind_addr, "0.0.0.0:8080");
}

#[test]
fn present_setting_is_taken() {
    let c = Config::from_setting(Some("127.0.0.1:3000".to_string()));
    assert_eq!(c.bind_addr, "127.0.0.1:3000");
    assert_eq!(c, Config::new("127.0.0.1:3000".to_string()));
}
