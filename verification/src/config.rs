//! The loader's configuration file, with its defaults, and the log levels it names.
use vstd::prelude::*;
use crate::version::CauldronGameType;

verus! {

/// Only the configuration version, read before the whole configuration.
#[derive(Debug, Clone, Copy)]
pub struct CauldronConfigVersionOnly {
    pub config_version: u32,
}

/// The whole configuration.
#[derive(Debug, Clone)]
pub struct CauldronConfig {
    /// Identifies the layout of the configuration; not meant to be edited.
    pub config_version: u32,
    pub logging: CauldronConfigLoggingSection,
    pub ui: CauldronConfigUiSeciton,
    pub game: Option<CauldronConfigGameSection>,
}

/// How much is logged, from nothing to everything.
#[derive(Debug, Copy, Clone, PartialEq, Eq, Structural, PartialOrd, Ord)]
pub enum LogLevelConfig {
    Off,
    Error,
    Warn,
    Info,
    Debug,
    Trace,
}

/// Where and how much to log.
#[derive(Debug, Clone)]
pub struct CauldronConfigLoggingSection {
    pub show_console: bool,
    pub console_level: LogLevelConfig,
    pub file_level: LogLevelConfig,
    pub file_path: String,
}

/// Overrides of the detected game.
#[derive(Debug, Clone)]
pub struct CauldronConfigGameSection {
    /// Overrides the detected game type.
    pub override_game: Option<CauldronGameType>,
    /// Overrides the detected game version.
    pub override_version: Option<String>,
}

/// The in-game user interface.
#[derive(Debug, Clone)]
pub struct CauldronConfigUiSeciton {
    pub enabled: bool,
    pub key: String,
    pub enable_dx12_debug: bool,
    pub enable_dx12_debug_gpu_validation: bool,
}

/// The rank of a level, from `Off` (0) to `Trace` (5).
pub open spec fn level_rank(level: LogLevelConfig) -> nat {
    match level {
        LogLevelConfig::Off => 0,
        LogLevelConfig::Error => 1,
        LogLevelConfig::Warn => 2,
        LogLevelConfig::Info => 3,
        LogLevelConfig::Debug => 4,
        LogLevelConfig::Trace => 5,
    }
}

#[verifier::external_type_specification]
#[verifier::external_body]
pub struct ExLevelFilter(log::LevelFilter);

/// The `log::LevelFilter` variant at position `rank` of its declaration
/// (`Off`, `Error`, `Warn`, `Info`, `Debug`, `Trace`).
pub uninterp spec fn log_level_filter_at(rank: nat) -> log::LevelFilter;

/// The position of a `log::LevelFilter` in its declaration, its `usize`
/// representation (`LevelFilter` is `#[repr(usize)]` with variants from `Off`
/// to `Trace`); the filter is the variant at that position, and the variants
/// at other positions differ from it.
#[verifier::external_body]
fn level_filter_rank(filter: log::LevelFilter) -> (r: usize)
    ensures
        r <= 5,
        log_level_filter_at(r as nat) == filter,
        forall|other: nat| other <= 5 && other != r ==> log_level_filter_at(other) != filter,
{
    filter as usize
}

/// The `log::LevelFilter` variant at position `rank`, taken from
/// `LevelFilter::iter()`, which yields the variants from `Off` to `Trace`.
/// Variants at different positions differ.
#[verifier::external_body]
fn level_filter_from_rank(rank: usize) -> (r: log::LevelFilter)
    requires
        rank <= 5,
    ensures
        r == log_level_filter_at(rank as nat),
        forall|other: nat| other <= 5 && other != rank ==> log_level_filter_at(other) != r,
{
    log::LevelFilter::iter().nth(rank).unwrap()
}

impl LogLevelConfig {
    /// The rank of this level.
    pub fn rank(&self) -> (r: usize)
        ensures
            r == level_rank(*self),
    {
        match self {
            LogLevelConfig::Off => 0,
            LogLevelConfig::Error => 1,
            LogLevelConfig::Warn => 2,
            LogLevelConfig::Info => 3,
            LogLevelConfig::Debug => 4,
            LogLevelConfig::Trace => 5,
        }
    }

    /// The configured level of the `log` filter `level`: the one of the same rank.
    pub fn from_log(level: log::LevelFilter) -> (r: LogLevelConfig)
        ensures
            log_level_filter_at(level_rank(r)) == level,
            forall|other: LogLevelConfig| other != r ==> log_level_filter_at(level_rank(other)) != level,
    {
        let rank = level_filter_rank(level);
        if rank == 0 {
            LogLevelConfig::Off
        } else if rank == 1 {
            LogLevelConfig::Error
        } else if rank == 2 {
            LogLevelConfig::Warn
        } else if rank == 3 {
            LogLevelConfig::Info
        } else if rank == 4 {
            LogLevelConfig::Debug
        } else {
            LogLevelConfig::Trace
        }
    }

    /// The `log` filter of the same rank as this level.
    pub fn to_log(&self) -> (r: log::LevelFilter)
        ensures
            r == log_level_filter_at(level_rank(*self)),
            forall|other: LogLevelConfig| other != *self ==> log_level_filter_at(level_rank(other)) != r,
    {
        level_filter_from_rank(self.rank())
    }
}

/// Converting a level to a `log` filter and back gives the same level: when
/// `filter` is what `to_log` returns for `level` (as its `ensures` state it)
/// and `back` is what `from_log` returns for `filter`, `back` is `level`.
pub proof fn law_log_level_roundtrip(level: LogLevelConfig, filter: log::LevelFilter, back: LogLevelConfig)
    requires
        filter == log_level_filter_at(level_rank(level)),
        forall|other: LogLevelConfig| other != level ==> log_level_filter_at(level_rank(other)) != filter,
        log_level_filter_at(level_rank(back)) == filter,
    ensures
        back == level,
{
}

/// The position of a `log` filter among the variants from `Off` to `Trace`,
/// by which `log` orders its filters.
pub open spec fn filter_position(filter: log::LevelFilter) -> nat {
    choose|k: nat| k <= 5 && log_level_filter_at(k) == filter
}

/// A level whose rank is `k`, for `k` up to 5.
pub open spec fn level_of_rank(k: nat) -> LogLevelConfig {
    if k == 0 {
        LogLevelConfig::Off
    } else if k == 1 {
        LogLevelConfig::Error
    } else if k == 2 {
        LogLevelConfig::Warn
    } else if k == 3 {
        LogLevelConfig::Info
    } else if k == 4 {
        LogLevelConfig::Debug
    } else {
        LogLevelConfig::Trace
    }
}

/// Converting levels to `log` filters keeps their order: when `f1` and `f2`
/// are what `to_log` returns for `c1` and `c2` (as its `ensures` state it),
/// `c1` ranks at most `c2` exactly when `f1` stands at most where `f2` does.
pub proof fn law_to_log_keeps_order(c1: LogLevelConfig, c2: LogLevelConfig, f1: log::LevelFilter, f2: log::LevelFilter)
    requires
        f1 == log_level_filter_at(level_rank(c1)),
        forall|other: LogLevelConfig| other != c1 ==> log_level_filter_at(level_rank(other)) != f1,
        f2 == log_level_filter_at(level_rank(c2)),
        forall|other: LogLevelConfig| other != c2 ==> log_level_filter_at(level_rank(other)) != f2,
    ensures
        filter_position(f1) == level_rank(c1),
        filter_position(f2) == level_rank(c2),
        level_rank(c1) <= level_rank(c2) <==> filter_position(f1) <= filter_position(f2),
{
    let k1 = filter_position(f1);
    let k2 = filter_position(f2);
    assert(level_rank(c1) <= 5 && log_level_filter_at(level_rank(c1)) == f1);
    assert(level_rank(c2) <= 5 && log_level_filter_at(level_rank(c2)) == f2);
    assert(level_rank(level_of_rank(k1)) == k1);
    assert(level_rank(level_of_rank(k2)) == k2);
}

impl Default for CauldronConfig {
    /// The configuration written when there is none: version 0, default
    /// logging and interface sections, no game overrides.
    fn default() -> (r: CauldronConfig)
        ensures
            r.config_version == 0,
            r.logging.show_console,
            r.logging.console_level == LogLevelConfig::Info,
            r.logging.file_level == LogLevelConfig::Info,
            r.logging.file_path@ == "cauldron/cauldron.log"@,
            r.ui.enabled,
            r.ui.key@ == "`"@,
            r.ui.enable_dx12_debug,
            !r.ui.enable_dx12_debug_gpu_validation,
            r.game is None,
    {
        CauldronConfig {
            config_version: 0,
            logging: CauldronConfigLoggingSection::default(),
            ui: CauldronConfigUiSeciton::default(),
            game: None,
        }
    }
}

impl Default for CauldronConfigLoggingSection {
    /// Console shown, console and file at `Info`, file `cauldron/cauldron.log`.
    fn default() -> (r: CauldronConfigLoggingSection)
        ensures
            r.show_console,
            r.console_level == LogLevelConfig::Info,
            r.file_level == LogLevelConfig::Info,
            r.file_path@ == "cauldron/cauldron.log"@,
    {
        CauldronConfigLoggingSection {
            show_console: true,
            console_level: LogLevelConfig::Info,
            file_level: LogLevelConfig::Info,
            file_path: "cauldron/cauldron.log".to_owned(),
        }
    }
}

impl Default for CauldronConfigGameSection {
    /// No overrides.
    fn default() -> (r: CauldronConfigGameSection)
        ensures
            r.override_game is None,
            r.override_version is None,
    {
        CauldronConfigGameSection { override_game: None, override_version: None }
    }
}

impl Default for CauldronConfigUiSeciton {
    /// Interface enabled, opened with the backtick key, with the D3D12 debug
    /// layer on and GPU-based validation off.
    fn default() -> (r: CauldronConfigUiSeciton)
        ensures
            r.enabled,
            r.key@ == "`"@,
            r.enable_dx12_debug,
            !r.enable_dx12_debug_gpu_validation,
    {
        CauldronConfigUiSeciton {
            enabled: true,
            key: "`".to_owned(),
            enable_dx12_debug: true,
            enable_dx12_debug_gpu_validation: false,
        }
    }
}

/// The game to run as: the game section's `override_game` when one is
/// configured, the detected game otherwise.
pub open spec fn configured_game(config: CauldronConfig, detected: Option<CauldronGameType>) -> Option<CauldronGameType> {
    match config.game {
        Some(section) => match section.override_game {
            Some(game) => Some(game),
            None => detected,
        },
        None => detected,
    }
}

impl CauldronConfig {
    /// The game to run as (see `configured_game`): the configured override
    /// replaces the game detected from the executable.
    pub fn game_type(&self, detected: Option<CauldronGameType>) -> (r: Option<CauldronGameType>)
        ensures
            r == configured_game(*self, detected),
    {
        match &self.game {
            Some(section) => match section.override_game {
                Some(game) => Some(game),
                None => detected,
            },
            None => detected,
        }
    }
}

/// The rank of a level is its position in the declaration, from `Off`
/// (0) through `Error`, `Warn`, `Info` and `Debug` to `Trace` (5), so a level
/// goes to the `log` filter at the same position of `log`'s declaration, and
/// back.
pub proof fn law_level_ranks_follow_declaration_order(level: LogLevelConfig)
    ensures
        level_rank(level) == 0 <==> level == LogLevelConfig::Off,
        level_rank(level) == 1 <==> level == LogLevelConfig::Error,
        level_rank(level) == 2 <==> level == LogLevelConfig::Warn,
        level_rank(level) == 3 <==> level == LogLevelConfig::Info,
        level_rank(level) == 4 <==> level == LogLevelConfig::Debug,
        level_rank(level) == 5 <==> level == LogLevelConfig::Trace,
        level_of_rank(level_rank(level)) == level,
{
}

/// A configured `override_game` always wins over the detected game; without
/// one, the detected game stands.
pub proof fn law_override_wins(config: CauldronConfig, detected: Option<CauldronGameType>)
    ensures
        (config.game matches Some(section) && section.override_game is Some) ==> configured_game(config, detected)
            == config.game.unwrap().override_game,
        !(config.game matches Some(section) && section.override_game is Some) ==> configured_game(config, detected)
            == detected,
{
}

} // verus!
