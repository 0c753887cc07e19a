//! The Amazon Web Services voice catalog: a closed set of recognized
//! voice identifiers and their string names.

use crate::strutil::str_eq;
use super::VoiceParseError;
use vstd::prelude::*;

verus! {

/// Connection settings for the Amazon Web Services text-to-speech
/// service.
#[derive(Clone)]
pub struct AmazonWebServicesConfig {
    pub voice: VoiceKind,
    pub key: String,
    pub secret: String,
    pub region: String,
}

/// A voice recognized by the Amazon Web Services text-to-speech service.
#[derive(Debug, Clone, Copy, PartialEq, Eq)]
pub enum VoiceKind {
    Amy,
    Brian,
    Emma,
    Joanna,
    Joey,
    Kendra,
    Matthew,
    Salli,
}

/// The catalog name of a voice.
pub open spec fn voice_name(v: VoiceKind) -> Seq<char> {
    match v {
        VoiceKind::Amy => "Amy"@,
        VoiceKind::Brian => "Brian"@,
        VoiceKind::Emma => "Emma"@,
        VoiceKind::Joanna => "Joanna"@,
        VoiceKind::Joey => "Joey"@,
        VoiceKind::Kendra => "Kendra"@,
        VoiceKind::Matthew => "Matthew"@,
        VoiceKind::Salli => "Salli"@,
    }
}

/// Catalog lookup: the voice whose name is `s`, if any.
pub open spec fn voice_of_name(s: Seq<char>) -> Option<VoiceKind> {
    if s == "Amy"@ {
        Some(VoiceKind::Amy)
    } else if s == "Brian"@ {
        Some(VoiceKind::Brian)
    } else if s == "Emma"@ {
        Some(VoiceKind::Emma)
    } else if s == "Joanna"@ {
        Some(VoiceKind::Joanna)
    } else if s == "Joey"@ {
        Some(VoiceKind::Joey)
    } else if s == "Kendra"@ {
        Some(VoiceKind::Kendra)
    } else if s == "Matthew"@ {
        Some(VoiceKind::Matthew)
    } else if s == "Salli"@ {
        Some(VoiceKind::Salli)
    } else {
        None
    }
}

/// Law: looking up a voice's own catalog name yields that voice back,
/// so `from_str` inverts `name`.
pub proof fn lemma_name_round_trip(v: VoiceKind)
    ensures
        voice_of_name(voice_name(v)) == Some(v),
{
    reveal_strlit("Amy");
    reveal_strlit("Brian");
    reveal_strlit("Emma");
    reveal_strlit("Joanna");
    reveal_strlit("Joey");
    reveal_strlit("Kendra");
    reveal_strlit("Matthew");
    reveal_strlit("Salli");
    assert("Amy"@.len() == 3 && "Amy"@[0] == 'A');
    assert("Brian"@.len() == 5 && "Brian"@[0] == 'B');
    assert("Emma"@.len() == 4 && "Emma"@[0] == 'E');
    assert("Joanna"@.len() == 6 && "Joanna"@[0] == 'J');
    assert("Joey"@.len() == 4 && "Joey"@[0] == 'J' && "Joey"@[1] == 'o' && "Emma"@[1] == 'm');
    assert("Kendra"@.len() == 6 && "Kendra"@[0] == 'K');
    assert("Matthew"@.len() == 7 && "Matthew"@[0] == 'M');
    assert("Salli"@.len() == 5 && "Salli"@[0] == 'S');
}

impl VoiceKind {
    /// Parses a voice name against the catalog; on failure the error
    /// carries the unrecognized name.
    pub fn from_str(s: &str) -> (r: Result<VoiceKind, VoiceParseError>)
        ensures
            match r {
                Ok(v) => voice_of_name(s@) == Some(v),
                Err(e) => voice_of_name(s@) is None && e.voice@ == s@,
            },
    {
        if str_eq(s, "Amy") {
            Ok(VoiceKind::Amy)
        } else if str_eq(s, "Brian") {
            Ok(VoiceKind::Brian)
        } else if str_eq(s, "Emma") {
            Ok(VoiceKind::Emma)
        } else if str_eq(s, "Joanna") {
            Ok(VoiceKind::Joanna)
        } else if str_eq(s, "Joey") {
            Ok(VoiceKind::Joey)
        } else if str_eq(s, "Kendra") {
            Ok(VoiceKind::Kendra)
        } else if str_eq(s, "Matthew") {
            Ok(VoiceKind::Matthew)
        } else if str_eq(s, "Salli") {
            Ok(VoiceKind::Salli)
        } else {
            Err(VoiceParseError { voice: s.to_owned() })
        }
    }

    /// The catalog name of this voice.
    pub fn name(&self) -> (r: &'static str)
        ensures
            r@ == voice_name(*self),
    {
        match self {
            VoiceKind::Amy => "Amy",
            VoiceKind::Brian => "Brian",
            VoiceKind::Emma => "Emma",
            VoiceKind::Joanna => "Joanna",
            VoiceKind::Joey => "Joey",
            VoiceKind::Kendra => "Kendra",
            VoiceKind::Matthew => "Matthew",
            VoiceKind::Salli => "Salli",
        }
    }
}

} // verus!
