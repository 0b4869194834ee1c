//! Decisions of the loader's start-up: which files are plugin libraries, and
//! the text handed to the game's log.
use vstd::prelude::*;
use vstd::string::StringSliceAdditionalSpecFns;
use vstd::utf8::is_char_boundary;
use crate::text::str_ends_with;

verus! {

/// Whether a file path names a plugin library: it ends with `.dll`.
pub fn is_plugin_library(path: &str) -> (r: bool)
    ensures
        r == (path@.len() >= 4 && path@.subrange(path@.len() - 4, path@.len() as int) == ".dll"@),
{
    proof {
        reveal_strlit(".dll");
    }
    str_ends_with(path, ".dll")
}

/// The number of bytes of the time stamp and thread prefix of a line of the
/// game's log, such as `"01:40:32:458 (00041384) > "`.
pub const NIXXES_LOG_PREFIX_LEN: usize = 26;

/// A line of the game's log without its time stamp and thread prefix.
pub fn nixxes_log_message(line: &str) -> (r: &str)
    requires
        is_char_boundary(line.spec_bytes(), NIXXES_LOG_PREFIX_LEN as int),
    ensures
        r.spec_bytes() == line.spec_bytes().subrange(NIXXES_LOG_PREFIX_LEN as int, line.spec_bytes().len() as int),
{
    line.split_at(NIXXES_LOG_PREFIX_LEN).1
}

/// `text` followed by a NUL character, as the game's C functions read it.
pub fn nul_terminated(text: &str) -> (r: String)
    ensures
        r@ == text@.push('\0'),
{
    let mut r = text.to_owned();
    crate::text::push_char(&mut r, '\0');
    r
}

} // verus!
