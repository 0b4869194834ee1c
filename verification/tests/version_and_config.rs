use cauldron::config::{CauldronConfig, CauldronConfigGameSection, LogLevelConfig};
use cauldron::host::{is_plugin_library, nixxes_log_message, nul_terminated};
use cauldron::text::{decimal_string, join_strings, str_ends_with, str_equals};
use cauldron::version::{version, CauldronGameType};

#[test]
fn game_ids_round_trip() {
    for g in [
        CauldronGameType::HorizonForbiddenWest,
        CauldronGameType::HorizonZeroDawn,
        CauldronGameType::HorizonZeroDawnRemastered,
    ] {
        assert_eq!(CauldronGameType::from_id(&g.id()), Some(g));
    }
    assert_eq!(CauldronGameType::HorizonForbiddenWest.id(), "hfw");
    assert_eq!(CauldronGameType::HorizonZeroDawn.id(), "hzd");
    assert_eq!(CauldronGameType::HorizonZeroDawnRemastered.id(), "hzdr");
    assert_eq!(CauldronGameType::from_id("HFW"), None);
    assert_eq!(CauldronGameType::from_id(""), None);
}

#[test]
fn games_are_found_from_executables() {
    assert_eq!(
        CauldronGameType::find_from_exe("HorizonForbiddenWest.exe"),
        Some(CauldronGameType::HorizonForbiddenWest)
    );
    assert_eq!(CauldronGameType::find_from_exe("HorizonZeroDawn.exe"), Some(CauldronGameType::HorizonZeroDawn));
    assert_eq!(
        CauldronGameType::find_from_exe("HorizonZeroDawnRemastered.exe"),
        Some(CauldronGameType::HorizonZeroDawn)
    );
    assert_eq!(CauldronGameType::find_from_exe("notepad.exe"), None);
}

#[test]
fn file_versions_split_into_words() {
    let v = version(0x0001_0002, 0x0003_0004);
    assert_eq!((v.major, v.minor, v.patch, v.build), (1, 2, 3, 4));
    let v = version(0xFFFF_0000, 0x0000_FFFF);
    assert_eq!((v.major, v.minor, v.patch, v.build), (0xFFFF, 0, 0, 0xFFFF));
}

#[test]
fn log_levels_round_trip() {
    for l in [
        LogLevelConfig::Off,
        LogLevelConfig::Error,
        LogLevelConfig::Warn,
        LogLevelConfig::Info,
        LogLevelConfig::Debug,
        LogLevelConfig::Trace,
    ] {
        assert_eq!(LogLevelConfig::from_log(l.to_log()), l);
    }
    assert_eq!(LogLevelConfig::Warn.to_log(), log::LevelFilter::Warn);
    assert_eq!(LogLevelConfig::from_log(log::LevelFilter::Debug), LogLevelConfig::Debug);
    assert_eq!(LogLevelConfig::Trace.rank(), 5);
    assert!(LogLevelConfig::Error < LogLevelConfig::Trace);
}

#[test]
fn default_config() {
    let c = CauldronConfig::default();
    assert_eq!(c.config_version, 0);
    assert!(c.logging.show_console);
    assert_eq!(c.logging.console_level, LogLevelConfig::Info);
    assert_eq!(c.logging.file_level, LogLevelConfig::Info);
    assert_eq!(c.logging.file_path, "cauldron/cauldron.log");
    assert!(c.ui.enabled);
    assert_eq!(c.ui.key, "`");
    assert!(c.ui.enable_dx12_debug);
    assert!(!c.ui.enable_dx12_debug_gpu_validation);
    assert!(c.game.is_none());
}

#[test]
fn text_helpers() {
    assert_eq!(decimal_string(0), "0");
    assert_eq!(decimal_string(10), "10");
    assert_eq!(decimal_string(1234567), "1234567");
    assert_eq!(decimal_string(usize::MAX), usize::MAX.to_string());
    assert_eq!(join_strings(&vec![], ", "), "");
    assert_eq!(join_strings(&vec!["a".to_string()], ", "), "a");
    assert_eq!(join_strings(&vec!["a".to_string(), "b".to_string(), "c".to_string()], "-"), "a-b-c");
    assert!(str_equals("abc", "abc"));
    assert!(!str_equals("abc", "abd"));
    assert!(str_ends_with("x.dll", ".dll"));
    assert!(!str_ends_with("dll", ".dll"));
}

#[test]
fn plugin_libraries_end_with_dll() {
    assert!(is_plugin_library("plugins/hello.dll"));
    assert!(!is_plugin_library("plugins/hello.dll.txt"));
    assert!(!is_plugin_library("dll"));
}

#[test]
fn game_log_prefix_is_stripped() {
    assert_eq!(nixxes_log_message("01:40:32:458 (00041384) > hello"), "hello");
    assert_eq!(nixxes_log_message("01:40:32:458 (00041384) > "), "");
}

#[test]
fn c_strings_end_with_nul() {
    assert_eq!(nul_terminated("Cauldron"), "Cauldron\0");
    assert_eq!(nul_terminated(""), "\0");
}

#[test]
fn configured_game_overrides_the_detected_one() {
    let mut config = CauldronConfig::default();
    assert_eq!(config.game_type(Some(CauldronGameType::HorizonZeroDawn)), Some(CauldronGameType::HorizonZeroDawn));
    assert_eq!(config.game_type(None), None);
    config.game = Some(CauldronConfigGameSection { override_game: None, override_version: None });
    assert_eq!(config.game_type(Some(CauldronGameType::HorizonForbiddenWest)), Some(CauldronGameType::HorizonForbiddenWest));
    config.game = Some(CauldronConfigGameSection {
        override_game: Some(CauldronGameType::HorizonZeroDawnRemastered),
        override_version: None,
    });
    assert_eq!(config.game_type(Some(CauldronGameType::HorizonZeroDawn)), Some(CauldronGameType::HorizonZeroDawnRemastered));
    assert_eq!(config.game_type(None), Some(CauldronGameType::HorizonZeroDawnRemastered));
}
