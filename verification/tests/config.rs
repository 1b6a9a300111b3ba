use miniview::ConfigBuilder;
use miniview::Source;

#[test]
fn default_configuration() {
    let config = ConfigBuilder::new(Source::StdinBytes).build();
    assert!(matches!(config.source(), Source::StdinBytes));
    assert!(!config.fullscreen());
    assert!(!config.resizable_window());
    assert!(!config.lazy_window());
    assert!(config.exit_on_esc());
    assert_eq!(config.window_name(), "miniview");
}

#[test]
fn from_path_sets_source() {
    let config = ConfigBuilder::from_path("plant.jpg").build();
    assert_eq!(*config.source(), Source::ByPath(String::from("plant.jpg")));
    assert!(!config.fullscreen());
    assert_eq!(config.window_name(), "miniview");
}

#[test]
fn builder_overrides_fullscreen() {
    let config = ConfigBuilder::new(Source::StdinBytes).set_fullscreen(true).build();
    assert!(config.fullscreen());
    assert!(!config.resizable_window());
}

#[test]
fn builder_overrides_resizable() {
    let config = ConfigBuilder::new(Source::StdinBytes).allow_resizable_window(true).build();
    assert!(config.resizable_window());
    assert!(!config.fullscreen());
}

#[test]
fn builder_overrides_lazy() {
    let config = ConfigBuilder::new(Source::StdinBytes).set_lazy_window(true).build();
    assert!(config.lazy_window());
}

#[test]
fn builder_overrides_exit_on_esc() {
    let config = ConfigBuilder::new(Source::StdinBytes).exit_on_esc(false).build();
    assert!(!config.exit_on_esc());
}

#[test]
fn builder_overrides_window_name() {
    let config = ConfigBuilder::new(Source::StdinBytes).window_name("inspector").build();
    assert_eq!(config.window_name(), "inspector");
}

#[test]
fn builder_replaces_source() {
    let config = ConfigBuilder::from_path("plant.jpg").source(Source::StdinBytes).build();
    assert!(matches!(config.source(), Source::StdinBytes));
}

#[test]
fn builder_chain_keeps_other_fields() {
    let config = ConfigBuilder::from_path("plant.jpg")
        .set_fullscreen(true)
        .set_lazy_window(false)
        .build();
    assert_eq!(*config.source(), Source::ByPath(String::from("plant.jpg")));
    assert!(config.fullscreen());
    assert!(!config.lazy_window());
    assert!(config.exit_on_esc());
}

#[test]
fn fullscreen_implies_effective_resizable() {
    let config = ConfigBuilder::new(Source::StdinBytes).set_fullscreen(true).build();
    assert!(!config.resizable_window());
    assert!(config.effective_resizable());
}

#[test]
fn plain_window_is_not_effectively_resizable() {
    let config = ConfigBuilder::new(Source::StdinBytes).build();
    assert!(!config.effective_resizable());
}

#[test]
fn resizable_window_is_effectively_resizable() {
    let config = ConfigBuilder::new(Source::StdinBytes).allow_resizable_window(true).build();
    assert!(config.effective_resizable());
}
