use vstd::prelude::*;
use crate::encoding::{numeral, numeral_text};
use crate::error::{CmdipassError, ErrorKind};

verus! {

/// The permission bits that give the group or others any access.
pub const OTHERS_MASK: u32 = 0o077;

/// Text of the failure where the config file is open to others, before the mode.
pub const PERMISSIONS_HEAD: &'static str = "Permissions ";

/// The same text, between the mode and the path.
pub const PERMISSIONS_ON: &'static str = " on '";

/// The same text, between the path and its second mention.
pub const PERMISSIONS_ADVICE: &'static str =
    "' are too open.\nIt is recommended that your cmdipass config file is not accessible to others.\nTry using `chmod 0600 '";

/// The same text, after the path.
pub const PERMISSIONS_TAIL: &'static str = "'` to solve this problem.";

/// What the caller found where the association is kept.
#[derive(Clone, Copy, Debug, PartialEq, Eq, Structural)]
pub enum StoreProbe {
    /// No file is there.
    Absent,
    /// A file is there, with these permission bits.
    Present { mode: u32 },
}

/// What to do about the association before any message is sent.
#[derive(Clone, Copy, Debug, PartialEq, Eq, Structural)]
pub enum StoreDecision {
    /// None is kept: make a new one, and keep it.
    Register,
    /// One is kept, and only its owner can reach it: load it.
    Load,
}

/// Whether an association is kept already.
pub fn config_exists(probe: &StoreProbe) -> (exists: bool)
    ensures
        exists == (*probe is Present),
{
    match probe {
        StoreProbe::Absent => false,
        StoreProbe::Present { .. } => true,
    }
}

/// Permission bits in octal, filled with zeros to four digits.
pub open spec fn mode_text(mode: u32) -> Seq<char> {
    if mode < 8 {
        "000"@ + numeral_text(mode as nat, 8)
    } else if mode < 64 {
        "00"@ + numeral_text(mode as nat, 8)
    } else if mode < 512 {
        "0"@ + numeral_text(mode as nat, 8)
    } else {
        numeral_text(mode as nat, 8)
    }
}

/// Writes permission bits in octal, filled with zeros to four digits.
pub fn format_mode(mode: u32) -> (text: String)
    ensures
        text@ == mode_text(mode),
{
    let mut text = if mode < 8 {
        String::from_str("000")
    } else if mode < 64 {
        String::from_str("00")
    } else if mode < 512 {
        String::from_str("0")
    } else {
        String::new()
    };
    let digits = numeral(mode as u64, 8);
    text.append(digits.as_str());
    text
}

/// Whether permission bits leave the file to its owner alone.
pub open spec fn owner_only(mode: u32) -> bool {
    mode & OTHERS_MASK == 0
}

/// The text of the failure for a file at `path` whose permission bits are `mode`.
pub open spec fn permissions_text(mode: u32, path: Seq<char>) -> Seq<char> {
    PERMISSIONS_HEAD@ + mode_text(mode) + PERMISSIONS_ON@ + path + PERMISSIONS_ADVICE@ + path
        + PERMISSIONS_TAIL@
}

/// Refuses a config file that its group or others can reach in any way: the failure is of
/// class `Config`, and names the mode, the path and the remedy.
pub fn ensure_owner_readable_only(mode: u32, path: &str) -> (result: Result<(), CmdipassError>)
    ensures
        result is Ok <==> owner_only(mode),
        result matches Err(e) ==> e.has(ErrorKind::Config, permissions_text(mode, path@)),
{
    if OTHERS_MASK & mode != 0 {
        assert(mode & OTHERS_MASK == OTHERS_MASK & mode) by (bit_vector);
        let mut text = String::from_str(PERMISSIONS_HEAD);
        let digits = format_mode(mode);
        text.append(digits.as_str());
        text.append(PERMISSIONS_ON);
        text.append(path);
        text.append(PERMISSIONS_ADVICE);
        text.append(path);
        text.append(PERMISSIONS_TAIL);
        Err(CmdipassError::new(ErrorKind::Config, text.as_str()))
    } else {
        assert(mode & OTHERS_MASK == OTHERS_MASK & mode) by (bit_vector);
        Ok(())
    }
}

/// Decides what to do about the association, from what was found at `path`, before any
/// message is sent: a new one is made where none is kept, a kept one is loaded where it is
/// its owner's alone, and refused else.
pub fn load_config(probe: &StoreProbe, path: &str) -> (result: Result<StoreDecision, CmdipassError>)
    ensures
        match *probe {
            StoreProbe::Absent => result == Ok::<StoreDecision, CmdipassError>(
                StoreDecision::Register,
            ),
            StoreProbe::Present { mode } => if owner_only(mode) {
                result == Ok::<StoreDecision, CmdipassError>(StoreDecision::Load)
            } else {
                result matches Err(e) && e.has(ErrorKind::Config, permissions_text(mode, path@))
            },
        },
{
    match probe {
        StoreProbe::Absent => Ok(StoreDecision::Register),
        StoreProbe::Present { mode } => {
            ensure_owner_readable_only(*mode, path)?;
            Ok(StoreDecision::Load)
        },
    }
}

/// A file that its group or the world can read is refused, whatever else its mode says.
pub proof fn lemma_readable_by_others_is_refused(mode: u32)
    requires
        mode & 0o044 != 0,
    ensures
        !owner_only(mode),
{
    assert(mode & 0o044 != 0 ==> mode & 0o077 != 0) by (bit_vector);
}

} // verus!
