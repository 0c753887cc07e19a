//! The Windows built-in voice catalog: a closed set of recognized voice
//! identifiers and their string names. Absence of a voice means the
//! platform default is used.

use crate::strutil::str_eq;
use super::VoiceParseError;
use vstd::prelude::*;

verus! {

/// Settings for the Windows built-in text-to-speech engine.
#[derive(Clone)]
pub struct WindowsConfig {
    pub voice: Option<VoiceKind>,
}

/// A voice recognized by the Windows built-in text-to-speech engine.
#[derive(Debug, Clone, Copy, PartialEq, Eq)]
pub enum VoiceKind {
    David,
    Hazel,
    Mark,
    Zira,
}

/// The catalog name of a voice.
pub open spec fn voice_name(v: VoiceKind) -> Seq<char> {
    match v {
        VoiceKind::David => "David"@,
        VoiceKind::Hazel => "Hazel"@,
        VoiceKind::Mark => "Mark"@,
        VoiceKind::Zira => "Zira"@,
    }
}

/// Catalog lookup: the voice whose name is `s`, if any.
pub open spec fn voice_of_name(s: Seq<char>) -> Option<VoiceKind> {
    if s == "David"@ {
        Some(VoiceKind::David)
    } else if s == "Hazel"@ {
        Some(VoiceKind::Hazel)
    } else if s == "Mark"@ {
        Some(VoiceKind::Mark)
    } else if s == "Zira"@ {
        Some(VoiceKind::Zira)
    } else {
        None
    }
}

/// Law: looking up a voice's own catalog name yields that voice back,
/// so `from_str` inverts `name`.
pub proof fn lemma_name_round_trip(v: VoiceKind)
    ensures
        voice_of_name(voice_name(v)) == Some(v),
{
    reveal_strlit("David");
    reveal_strlit("Hazel");
    reveal_strlit("Mark");
    reveal_strlit("Zira");
    assert("David"@.len() == 5 && "David"@[0] == 'D');
    assert("Hazel"@.len() == 5 && "Hazel"@[0] == 'H');
    assert("Mark"@.len() == 4 && "Mark"@[0] == 'M');
    assert("Zira"@.len() == 4 && "Zira"@[0] == 'Z');
}

impl VoiceKind {
    /// Parses a voice name against the catalog; on failure the error
    /// carries the unrecognized name.
    pub fn from_str(s: &str) -> (r: Result<VoiceKind, VoiceParseError>)
        ensures
            match r {
                Ok(v) => voice_of_name(s@) == Some(v),
                Err(e) => voice_of_name(s@) is None && e.voice@ == s@,
            },
    {
        if str_eq(s, "David") {
            Ok(VoiceKind::David)
        } else if str_eq(s, "Hazel") {
            Ok(VoiceKind::Hazel)
        } else if str_eq(s, "Mark") {
            Ok(VoiceKind::Mark)
        } else if str_eq(s, "Zira") {
            Ok(VoiceKind::Zira)
        } else {
            Err(VoiceParseError { voice: s.to_owned() })
        }
    }

    /// The catalog name of this voice.
    pub fn name(&self) -> (r: &'static str)
        ensures
            r@ == voice_name(*self),
    {
        match self {
            VoiceKind::David => "David",
            VoiceKind::Hazel => "Hazel",
            VoiceKind::Mark => "Mark",
            VoiceKind::Zira => "Zira",
        }
    }
}

} // verus!
