use blocks_game::config::{HostConfig, WindowOptions};

#[test]
fn window_defaults_override_nothing() {
    let w = WindowOptions::host_defaults();
    assert_eq!(w.size, None);
    assert_eq!(w.vsync, None);
    assert_eq!(w.resizable, None);
}

#[test]
fn blocks_game_configuration() {
    let c = HostConfig::blocks_game();
    assert_eq!(c.title, "Blocks Game");
    assert_eq!(c.organization, "ex");
    assert_eq!(c.window, WindowOptions::host_defaults());
}
