//! Game identification and executable file versions.
use vstd::prelude::*;
use crate::text::str_equals;

verus! {

/// The four 16-bit parts of a Windows file version.
#[derive(Debug, Copy, Clone, PartialEq, Eq, Structural)]
pub struct GameVersion {
    pub major: u32,
    pub minor: u32,
    pub patch: u32,
    pub build: u32,
}

/// The games Cauldron knows how to load into.
#[derive(Debug, Copy, Clone, PartialEq, Eq, Structural, PartialOrd, Ord)]
pub enum CauldronGameType {
    HorizonForbiddenWest,
    HorizonZeroDawn,
    HorizonZeroDawnRemastered,
}

/// The short identifier of each game, as plugins name it in their dependencies.
pub open spec fn game_id(game: CauldronGameType) -> Seq<char> {
    match game {
        CauldronGameType::HorizonForbiddenWest => seq!['h', 'f', 'w'],
        CauldronGameType::HorizonZeroDawn => seq!['h', 'z', 'd'],
        CauldronGameType::HorizonZeroDawnRemastered => seq!['h', 'z', 'd', 'r'],
    }
}

impl CauldronGameType {
    /// The short identifier of this game.
    pub fn id(&self) -> (r: String)
        ensures
            r@ == game_id(*self),
    {
        let s = match self {
            CauldronGameType::HorizonForbiddenWest => "hfw",
            CauldronGameType::HorizonZeroDawn => "hzd",
            CauldronGameType::HorizonZeroDawnRemastered => "hzdr",
        };
        proof {
            reveal_strlit("hfw");
            reveal_strlit("hzd");
            reveal_strlit("hzdr");
        }
        s.to_owned()
    }
}

/// The game a short identifier names, if any.
pub open spec fn game_from_id(id: Seq<char>) -> Option<CauldronGameType> {
    if id == game_id(CauldronGameType::HorizonForbiddenWest) {
        Some(CauldronGameType::HorizonForbiddenWest)
    } else if id == game_id(CauldronGameType::HorizonZeroDawn) {
        Some(CauldronGameType::HorizonZeroDawn)
    } else if id == game_id(CauldronGameType::HorizonZeroDawnRemastered) {
        Some(CauldronGameType::HorizonZeroDawnRemastered)
    } else {
        None
    }
}

/// The game an executable file name belongs to. The remastered Zero Dawn
/// executable is reported as the original Zero Dawn.
pub open spec fn game_from_exe_name(name: Seq<char>) -> Option<CauldronGameType> {
    if name == "HorizonForbiddenWest.exe"@ {
        Some(CauldronGameType::HorizonForbiddenWest)
    } else if name == "HorizonZeroDawn.exe"@ {
        Some(CauldronGameType::HorizonZeroDawn)
    } else if name == "HorizonZeroDawnRemastered.exe"@ {
        Some(CauldronGameType::HorizonZeroDawn)
    } else {
        None
    }
}

impl CauldronGameType {
    /// The game whose short identifier is `id`.
    pub fn from_id(id: &str) -> (r: Option<Self>)
        ensures
            r == game_from_id(id@),
    {
        proof {
            reveal_strlit("hfw");
            reveal_strlit("hzd");
            reveal_strlit("hzdr");
            assert("hfw"@ =~= game_id(CauldronGameType::HorizonForbiddenWest));
            assert("hzd"@ =~= game_id(CauldronGameType::HorizonZeroDawn));
            assert("hzdr"@ =~= game_id(CauldronGameType::HorizonZeroDawnRemastered));
        }
        if str_equals(id, "hfw") {
            Some(CauldronGameType::HorizonForbiddenWest)
        } else if str_equals(id, "hzd") {
            Some(CauldronGameType::HorizonZeroDawn)
        } else if str_equals(id, "hzdr") {
            Some(CauldronGameType::HorizonZeroDawnRemastered)
        } else {
            None
        }
    }

    /// The game that the executable file `exe_name` (a file name, without
    /// directories) belongs to. The remastered executable,
    /// `HorizonZeroDawnRemastered.exe`, gives `HorizonZeroDawn`.
    pub fn find_from_exe(exe_name: &str) -> (r: Option<Self>)
        ensures
            r == game_from_exe_name(exe_name@),
    {
        if str_equals(exe_name, "HorizonForbiddenWest.exe") {
            Some(CauldronGameType::HorizonForbiddenWest)
        } else if str_equals(exe_name, "HorizonZeroDawn.exe") {
            Some(CauldronGameType::HorizonZeroDawn)
        } else if str_equals(exe_name, "HorizonZeroDawnRemastered.exe") {
            Some(CauldronGameType::HorizonZeroDawn)
        } else {
            None
        }
    }
}

/// Every game is found again from its own short identifier.
pub proof fn law_game_id_roundtrip(game: CauldronGameType)
    ensures
        game_from_id(game_id(game)) == Some(game),
{
    assert(game_id(CauldronGameType::HorizonZeroDawn).len() != game_id(CauldronGameType::HorizonZeroDawnRemastered).len());
}

/// Splits the two 32-bit halves of a fixed file version into its four parts:
/// the high and low 16 bits of `file_version_ms` are the major and minor
/// numbers, those of `file_version_ls` the patch and build numbers.
pub fn version(file_version_ms: u32, file_version_ls: u32) -> (r: GameVersion)
    ensures
        r.major == file_version_ms / 0x10000,
        r.minor == file_version_ms % 0x10000,
        r.patch == file_version_ls / 0x10000,
        r.build == file_version_ls % 0x10000,
{
    let major = (file_version_ms >> 16) & 0xffff;
    let minor = file_version_ms & 0xffff;
    let patch = (file_version_ls >> 16) & 0xffff;
    let build = file_version_ls & 0xffff;
    assert(major == file_version_ms / 0x10000) by (bit_vector)
        requires major == (file_version_ms >> 16) & 0xffff;
    assert(minor == file_version_ms % 0x10000) by (bit_vector)
        requires minor == file_version_ms & 0xffff;
    assert(patch == file_version_ls / 0x10000) by (bit_vector)
        requires patch == (file_version_ls >> 16) & 0xffff;
    assert(build == file_version_ls % 0x10000) by (bit_vector)
        requires build == file_version_ls & 0xffff;
    GameVersion { major, minor, patch, build }
}

/// The detected game and its executable's file version.
#[derive(Debug, Copy, Clone, PartialEq, Eq, Structural)]
pub struct GameInfo {
    pub game_type: CauldronGameType,
    pub version: GameVersion,
}

} // verus!
