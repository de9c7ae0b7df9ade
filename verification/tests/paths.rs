use std::path::Path;

use workouts::paths::{
    config_home, config_path, data_path, import_path, sounds_path, Source, CONFIG_DIR, DATA_DIR,
    IMPORT_DIR, SOUNDS_DIR,
};

fn home() -> String {
    config_home(None, "/home/athlete")
}

#[test]
fn it_generates_config_path_with_config_dir() {
    let path = config_path(&home());
    assert_eq!(Path::new(&path).file_name().unwrap(), CONFIG_DIR);
}

#[test]
fn it_generates_data_path_with_data_dir() {
    let path = data_path(&home());
    assert_eq!(Path::new(&path).file_name().unwrap(), DATA_DIR);
}

#[test]
fn it_generates_import_path_with_import_dir() {
    let path = import_path(&home());
    assert_eq!(Path::new(&path).file_name().unwrap(), IMPORT_DIR);
}

#[test]
fn it_generates_sounds_path_with_sounds_dir() {
    let path = sounds_path(&home());
    assert_eq!(Path::new(&path).file_name().unwrap(), SOUNDS_DIR);
}

#[test]
fn config_home_prefers_the_configured_directory() {
    assert_eq!(config_home(Some("/etc/xdg".to_string()), "/home/athlete"), "/etc/xdg");
}

#[test]
fn config_home_defaults_to_dot_config_under_home() {
    let expected = Path::new("/home/athlete").join(".config");
    assert_eq!(Path::new(&config_home(None, "/home/athlete")), expected.as_path());
}

#[test]
fn paths_are_those_that_join_gives() {
    let base = Path::new("/etc/xdg").join("workouts");
    assert_eq!(Path::new(&config_path("/etc/xdg")), base.as_path());
    assert_eq!(Path::new(&data_path("/etc/xdg")), base.join("data").as_path());
    assert_eq!(Path::new(&import_path("/etc/xdg")), base.join("import").as_path());
    assert_eq!(Path::new(&sounds_path("/etc/xdg")), base.join("sounds").as_path());
}

#[test]
fn config_path_adds_a_component_to_its_argument() {
    let path = config_path("/etc/xdg");
    assert_ne!(path, "/etc/xdg");
    assert_eq!(Path::new(&path).parent().unwrap(), Path::new("/etc/xdg"));
}

#[test]
fn source_input_is_the_current_directory() {
    assert_eq!(Source::Input.path("/etc/xdg"), ".");
}

#[test]
fn source_output_is_the_config_path() {
    assert_eq!(Source::Output.path("/etc/xdg"), config_path("/etc/xdg"));
}
