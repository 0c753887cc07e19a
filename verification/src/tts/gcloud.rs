//! The Google Cloud voice catalog: a closed set of recognized voice
//! identifiers and their string names.

use crate::strutil::str_eq;
use super::VoiceParseError;
use vstd::prelude::*;

verus! {

/// Connection settings for the Google Cloud text-to-speech service.
#[derive(Clone)]
pub struct GoogleCloudConfig {
    pub voice: VoiceKind,
    pub key: String,
}

/// A voice recognized by the Google Cloud text-to-speech service.
#[derive(Debug, Clone, Copy, PartialEq, Eq)]
pub enum VoiceKind {
    EnUsWavenetA,
    EnUsWavenetB,
    EnUsWavenetC,
    EnUsWavenetD,
    EnUsWavenetE,
    EnUsWavenetF,
    EnGbStandardA,
    EnGbStandardB,
    EnGbStandardC,
    EnGbStandardD,
}

/// The catalog name of a voice.
pub open spec fn voice_name(v: VoiceKind) -> Seq<char> {
    match v {
        VoiceKind::EnUsWavenetA => "en-US-Wavenet-A"@,
        VoiceKind::EnUsWavenetB => "en-US-Wavenet-B"@,
        VoiceKind::EnUsWavenetC => "en-US-Wavenet-C"@,
        VoiceKind::EnUsWavenetD => "en-US-Wavenet-D"@,
        VoiceKind::EnUsWavenetE => "en-US-Wavenet-E"@,
        VoiceKind::EnUsWavenetF => "en-US-Wavenet-F"@,
        VoiceKind::EnGbStandardA => "en-GB-Standard-A"@,
        VoiceKind::EnGbStandardB => "en-GB-Standard-B"@,
        VoiceKind::EnGbStandardC => "en-GB-Standard-C"@,
        VoiceKind::EnGbStandardD => "en-GB-Standard-D"@,
    }
}

/// Catalog lookup: the voice whose name is `s`, if any.
pub open spec fn voice_of_name(s: Seq<char>) -> Option<VoiceKind> {
    if s == "en-US-Wavenet-A"@ {
        Some(VoiceKind::EnUsWavenetA)
    } else if s == "en-US-Wavenet-B"@ {
        Some(VoiceKind::EnUsWavenetB)
    } else if s == "en-US-Wavenet-C"@ {
        Some(VoiceKind::EnUsWavenetC)
    } else if s == "en-US-Wavenet-D"@ {
        Some(VoiceKind::EnUsWavenetD)
    } else if s == "en-US-Wavenet-E"@ {
        Some(VoiceKind::EnUsWavenetE)
    } else if s == "en-US-Wavenet-F"@ {
        Some(VoiceKind::EnUsWavenetF)
    } else if s == "en-GB-Standard-A"@ {
        Some(VoiceKind::EnGbStandardA)
    } else if s == "en-GB-Standard-B"@ {
        Some(VoiceKind::EnGbStandardB)
    } else if s == "en-GB-Standard-C"@ {
        Some(VoiceKind::EnGbStandardC)
    } else if s == "en-GB-Standard-D"@ {
        Some(VoiceKind::EnGbStandardD)
    } else {
        None
    }
}

/// Law: looking up a voice's own catalog name yields that voice back,
/// so `from_str` inverts `name`.
pub proof fn lemma_name_round_trip(v: VoiceKind)
    ensures
        voice_of_name(voice_name(v)) == Some(v),
{
    reveal_strlit("en-US-Wavenet-A");
    reveal_strlit("en-US-Wavenet-B");
    reveal_strlit("en-US-Wavenet-C");
    reveal_strlit("en-US-Wavenet-D");
    reveal_strlit("en-US-Wavenet-E");
    reveal_strlit("en-US-Wavenet-F");
    reveal_strlit("en-GB-Standard-A");
    reveal_strlit("en-GB-Standard-B");
    reveal_strlit("en-GB-Standard-C");
    reveal_strlit("en-GB-Standard-D");
    assert("en-US-Wavenet-A"@.len() == 15 && "en-US-Wavenet-A"@[14] == 'A');
    assert("en-US-Wavenet-B"@.len() == 15 && "en-US-Wavenet-B"@[14] == 'B');
    assert("en-US-Wavenet-C"@.len() == 15 && "en-US-Wavenet-C"@[14] == 'C');
    assert("en-US-Wavenet-D"@.len() == 15 && "en-US-Wavenet-D"@[14] == 'D');
    assert("en-US-Wavenet-E"@.len() == 15 && "en-US-Wavenet-E"@[14] == 'E');
    assert("en-US-Wavenet-F"@.len() == 15 && "en-US-Wavenet-F"@[14] == 'F');
    assert("en-GB-Standard-A"@.len() == 16 && "en-GB-Standard-A"@[15] == 'A');
    assert("en-GB-Standard-B"@.len() == 16 && "en-GB-Standard-B"@[15] == 'B');
    assert("en-GB-Standard-C"@.len() == 16 && "en-GB-Standard-C"@[15] == 'C');
    assert("en-GB-Standard-D"@.len() == 16 && "en-GB-Standard-D"@[15] == 'D');
}

impl VoiceKind {
    /// Parses a voice name against the catalog; on failure the error
    /// carries the unrecognized name.
    pub fn from_str(s: &str) -> (r: Result<VoiceKind, VoiceParseError>)
        ensures
            match r {
                Ok(v) => voice_of_name(s@) == Some(v),
                Err(e) => voice_of_name(s@) is None && e.voice@ == s@,
            },
    {
        if str_eq(s, "en-US-Wavenet-A") {
            Ok(VoiceKind::EnUsWavenetA)
        } else if str_eq(s, "en-US-Wavenet-B") {
            Ok(VoiceKind::EnUsWavenetB)
        } else if str_eq(s, "en-US-Wavenet-C") {
            Ok(VoiceKind::EnUsWavenetC)
        } else if str_eq(s, "en-US-Wavenet-D") {
            Ok(VoiceKind::EnUsWavenetD)
        } else if str_eq(s, "en-US-Wavenet-E") {
            Ok(VoiceKind::EnUsWavenetE)
        } else if str_eq(s, "en-US-Wavenet-F") {
            Ok(VoiceKind::EnUsWavenetF)
        } else if str_eq(s, "en-GB-Standard-A") {
            Ok(VoiceKind::EnGbStandardA)
        } else if str_eq(s, "en-GB-Standard-B") {
            Ok(VoiceKind::EnGbStandardB)
        } else if str_eq(s, "en-GB-Standard-C") {
            Ok(VoiceKind::EnGbStandardC)
        } else if str_eq(s, "en-GB-Standard-D") {
            Ok(VoiceKind::EnGbStandardD)
        } else {
            Err(VoiceParseError { voice: s.to_owned() })
        }
    }

    /// The catalog name of this voice.
    pub fn name(&self) -> (r: &'static str)
        ensures
            r@ == voice_name(*self),
    {
        match self {
            VoiceKind::EnUsWavenetA => "en-US-Wavenet-A",
            VoiceKind::EnUsWavenetB => "en-US-Wavenet-B",
            VoiceKind::EnUsWavenetC => "en-US-Wavenet-C",
            VoiceKind::EnUsWavenetD => "en-US-Wavenet-D",
            VoiceKind::EnUsWavenetE => "en-US-Wavenet-E",
            VoiceKind::EnUsWavenetF => "en-US-Wavenet-F",
            VoiceKind::EnGbStandardA => "en-GB-Standard-A",
            VoiceKind::EnGbStandardB => "en-GB-Standard-B",
            VoiceKind::EnGbStandardC => "en-GB-Standard-C",
            VoiceKind::EnGbStandardD => "en-GB-Standard-D",
        }
    }
}

} // verus!
