//! Selection of a text-to-speech provider and voice from a compact
//! string encoding of the form `[PREFIX:]VOICE_NAME`, where the prefix
//! (case-insensitive `GC`, `AWS` or `WIN`) picks the provider and the
//! rest names a voice in that provider's catalog. Malformed input never
//! fails: it falls back to the default provider.

pub mod aws;
pub mod gcloud;
pub mod win;

use vstd::prelude::*;
use vstd::string::StringExecFns;

verus! {

/// Error returned when a recognized provider was asked for a voice name
/// that its catalog does not contain; `voice` is the offending name.
#[derive(Debug, Clone, PartialEq, Eq)]
pub struct VoiceParseError {
    pub voice: String,
}

/// Which text-to-speech provider to speak with, and with which voice.
/// A missing Windows voice means the platform default voice.
#[derive(Debug, Clone, PartialEq, Eq)]
pub enum TextToSpeechProvider {
    GoogleCloud { voice: gcloud::VoiceKind },
    AmazonWebServices { voice: aws::VoiceKind },
    Windows { voice: Option<win::VoiceKind> },
}

/// How to authenticate and connect to a provider's service, kept apart
/// from the voice selection above.
#[derive(Clone)]
pub enum TextToSpeechConfig {
    GoogleCloud(gcloud::GoogleCloudConfig),
    AmazonWebServices(aws::AmazonWebServicesConfig),
    Windows(win::WindowsConfig),
}

/// The fallback provider used when the input selects none.
pub open spec fn default_provider() -> TextToSpeechProvider {
    TextToSpeechProvider::Windows { voice: None }
}

impl Default for TextToSpeechProvider {
    /// The default provider: Windows with the platform default voice.
    fn default() -> (r: Self)
        ensures
            r == default_provider(),
    {
        TextToSpeechProvider::Windows { voice: None }
    }
}

/// Case-insensitive match against the prefix `GC`.
pub open spec fn is_gc_str(s: Seq<char>) -> bool {
    &&& s.len() == 2
    &&& (s[0] == 'G' || s[0] == 'g')
    &&& (s[1] == 'C' || s[1] == 'c')
}

/// Case-insensitive match against the prefix `AWS`.
pub open spec fn is_aws_str(s: Seq<char>) -> bool {
    &&& s.len() == 3
    &&& (s[0] == 'A' || s[0] == 'a')
    &&& (s[1] == 'W' || s[1] == 'w')
    &&& (s[2] == 'S' || s[2] == 's')
}

/// Case-insensitive match against the word `WIN`.
pub open spec fn is_win_str(s: Seq<char>) -> bool {
    &&& s.len() == 3
    &&& (s[0] == 'W' || s[0] == 'w')
    &&& (s[1] == 'I' || s[1] == 'i')
    &&& (s[2] == 'N' || s[2] == 'n')
}

/// Index of the first `:` in `s`, if any.
pub open spec fn first_colon_idx(s: Seq<char>) -> Option<int>
    decreases s.len(),
{
    if s.len() == 0 {
        None
    } else if s[0] == ':' {
        Some(0)
    } else {
        match first_colon_idx(s.drop_first()) {
            Some(i) => Some(i + 1),
            None => None,
        }
    }
}

/// `first_colon_idx` finds a colon with no colon before it, or reports
/// that the string holds none.
pub proof fn lemma_first_colon_idx_props(s: Seq<char>)
    ensures
        match first_colon_idx(s) {
            Some(i) => 0 <= i < s.len() && s[i] == ':' && (forall|j: int|
                0 <= j < i ==> s[j] != ':'),
            None => forall|j: int| 0 <= j < s.len() ==> s[j] != ':',
        },
    decreases s.len(),
{
    if s.len() > 0 && s[0] != ':' {
        lemma_first_colon_idx_props(s.drop_first());
        match first_colon_idx(s.drop_first()) {
            Some(i) => {
                assert forall|j: int| 0 <= j < i + 1 implies s[j] != ':' by {
                    if j > 0 {
                        assert(s.drop_first()[j - 1] != ':');
                    }
                }
            },
            None => {
                assert forall|j: int| 0 <= j < s.len() implies s[j] != ':' by {
                    if j > 0 {
                        assert(s.drop_first()[j - 1] != ':');
                    }
                }
            },
        }
    }
}

/// A position that holds a colon with none before it is the first one.
pub proof fn lemma_first_colon_at(s: Seq<char>, i: int)
    requires
        0 <= i < s.len(),
        s[i] == ':',
        forall|j: int| 0 <= j < i ==> s[j] != ':',
    ensures
        first_colon_idx(s) == Some(i),
{
    lemma_first_colon_idx_props(s);
    match first_colon_idx(s) {
        Some(k) => {
            if k < i {
                assert(s[k] != ':');
            } else if i < k {
                assert(s[i] != ':');
            }
        },
        None => {
            assert(s[i] != ':');
        },
    }
}

/// A string without a colon has no first colon.
pub proof fn lemma_no_colon(s: Seq<char>)
    requires
        forall|j: int| 0 <= j < s.len() ==> s[j] != ':',
    ensures
        first_colon_idx(s) is None,
{
    lemma_first_colon_idx_props(s);
    match first_colon_idx(s) {
        Some(k) => {
            assert(s[k] != ':');
        },
        None => {},
    }
}

/// What parsing an encoded provider string yields: either the selected
/// provider, or the voice name that the selected catalog rejected.
///
/// The input is split at its first colon. A recognized prefix selects
/// that provider's catalog for the remainder; an unknown prefix falls
/// back to the default. Without a colon, the word `WIN` (any case)
/// selects Windows with its default voice, an empty string falls back
/// to the default, and anything else is looked up in the Google
/// catalog, the implicit default provider.
pub open spec fn parse_spec(s: Seq<char>) -> Result<TextToSpeechProvider, Seq<char>> {
    match first_colon_idx(s) {
        Some(i) => {
            let prefix = s.subrange(0, i);
            let rest = s.subrange(i + 1, s.len() as int);
            if is_gc_str(prefix) {
                match gcloud::voice_of_name(rest) {
                    Some(v) => Ok(TextToSpeechProvider::GoogleCloud { voice: v }),
                    None => Err(rest),
                }
            } else if is_aws_str(prefix) {
                match aws::voice_of_name(rest) {
                    Some(v) => Ok(TextToSpeechProvider::AmazonWebServices { voice: v }),
                    None => Err(rest),
                }
            } else if is_win_str(prefix) {
                match win::voice_of_name(rest) {
                    Some(v) => Ok(TextToSpeechProvider::Windows { voice: Some(v) }),
                    None => Err(rest),
                }
            } else {
                Ok(default_provider())
            }
        },
        None => {
            if s.len() == 0 {
                Ok(default_provider())
            } else if is_win_str(s) {
                Ok(TextToSpeechProvider::Windows { voice: None })
            } else {
                match gcloud::voice_of_name(s) {
                    Some(v) => Ok(TextToSpeechProvider::GoogleCloud { voice: v }),
                    None => Err(s),
                }
            }
        },
    }
}

/// Index of the first `:` in `s`, with no colon at smaller indices.
fn find_colon(s: &str) -> (r: Option<usize>)
    ensures
        match r {
            Some(i) => i < s@.len() && s@[i as int] == ':' && (forall|j: int|
                0 <= j < i ==> s@[j] != ':'),
            None => forall|j: int| 0 <= j < s@.len() ==> s@[j] != ':',
        },
{
    let len = s.unicode_len();
    let mut i: usize = 0;
    while i < len
        invariant
            i <= len,
            len == s@.len(),
            forall|j: int| 0 <= j < i ==> s@[j] != ':',
        decreases len - i,
    {
        if s.get_char(i) == ':' {
            return Some(i);
        }
        i += 1;
    }
    None
}

/// Case-insensitive test for the prefix `GC`.
fn is_gc(s: &str) -> (r: bool)
    ensures
        r == is_gc_str(s@),
{
    if s.unicode_len() != 2 {
        return false;
    }
    let c0 = s.get_char(0);
    let c1 = s.get_char(1);
    (c0 == 'G' || c0 == 'g') && (c1 == 'C' || c1 == 'c')
}

/// Case-insensitive test for the prefix `AWS`.
fn is_aws(s: &str) -> (r: bool)
    ensures
        r == is_aws_str(s@),
{
    if s.unicode_len() != 3 {
        return false;
    }
    let c0 = s.get_char(0);
    let c1 = s.get_char(1);
    let c2 = s.get_char(2);
    (c0 == 'A' || c0 == 'a') && (c1 == 'W' || c1 == 'w') && (c2 == 'S' || c2 == 's')
}

/// Case-insensitive test for the word `WIN`.
fn is_win(s: &str) -> (r: bool)
    ensures
        r == is_win_str(s@),
{
    if s.unicode_len() != 3 {
        return false;
    }
    let c0 = s.get_char(0);
    let c1 = s.get_char(1);
    let c2 = s.get_char(2);
    (c0 == 'W' || c0 == 'w') && (c1 == 'I' || c1 == 'i') && (c2 == 'N' || c2 == 'n')
}

impl TextToSpeechProvider {
    /// Parses an encoded provider string, exactly as `parse_spec` says:
    /// the only failure is a voice name that its catalog rejected, and
    /// the error carries that name.
    pub fn from_str(s: &str) -> (r: Result<TextToSpeechProvider, VoiceParseError>)
        ensures
            match r {
                Ok(p) => parse_spec(s@) == Ok::<TextToSpeechProvider, Seq<char>>(p),
                Err(e) => parse_spec(s@) == Err::<TextToSpeechProvider, Seq<char>>(e.voice@),
            },
    {
        let len = s.unicode_len();
        match find_colon(s) {
            Some(i) => {
                proof {
                    lemma_first_colon_at(s@, i as int);
                }
                let prefix = s.substring_char(0, i);
                let rest = s.substring_char(i + 1, len);
                if is_gc(prefix) {
                    match gcloud::VoiceKind::from_str(rest) {
                        Ok(v) => Ok(TextToSpeechProvider::GoogleCloud { voice: v }),
                        Err(e) => Err(e),
                    }
                } else if is_aws(prefix) {
                    match aws::VoiceKind::from_str(rest) {
                        Ok(v) => Ok(TextToSpeechProvider::AmazonWebServices { voice: v }),
                        Err(e) => Err(e),
                    }
                } else if is_win(prefix) {
                    match win::VoiceKind::from_str(rest) {
                        Ok(v) => Ok(TextToSpeechProvider::Windows { voice: Some(v) }),
                        Err(e) => Err(e),
                    }
                } else {
                    Ok(TextToSpeechProvider::Windows { voice: None })
                }
            },
            None => {
                proof {
                    lemma_no_colon(s@);
                }
                if len == 0 {
                    Ok(TextToSpeechProvider::Windows { voice: None })
                } else if is_win(s) {
                    Ok(TextToSpeechProvider::Windows { voice: None })
                } else {
                    match gcloud::VoiceKind::from_str(s) {
                        Ok(v) => Ok(TextToSpeechProvider::GoogleCloud { voice: v }),
                        Err(e) => Err(e),
                    }
                }
            },
        }
    }

    /// A human-readable description of the selection, naming the
    /// provider and the chosen voice.
    pub fn describe(&self) -> (r: String)
        ensures
            r@ == describe_spec(*self),
    {
        let mut out = String::new();
        match self {
            TextToSpeechProvider::GoogleCloud { voice } => {
                out.append("Google Cloud (Voice: ");
                out.append(voice.name());
                out.append(")");
            },
            TextToSpeechProvider::AmazonWebServices { voice } => {
                out.append("Amazon Web Services (Voice: ");
                out.append(voice.name());
                out.append(")");
            },
            TextToSpeechProvider::Windows { voice: Some(v) } => {
                out.append("Windows built-in TTS (Voice: \"");
                out.append(v.name());
                out.append("\")");
            },
            TextToSpeechProvider::Windows { voice: None } => {
                out.append("Windows built-in TTS (Voice: \"Default\")");
            },
        }
        proof {
            assert(out@ =~= describe_spec(*self));
        }
        out
    }
}

/// Joining a colon-free prefix, a colon and a remainder puts the first
/// colon exactly at the end of the prefix.
pub proof fn lemma_first_colon_of_join(prefix: Seq<char>, name: Seq<char>)
    requires
        forall|j: int| 0 <= j < prefix.len() ==> prefix[j] != ':',
    ensures
        first_colon_idx(prefix + seq![':'] + name) == Some(prefix.len() as int),
{
    let s = prefix + seq![':'] + name;
    assert(s[prefix.len() as int] == ':');
    assert forall|j: int| 0 <= j < prefix.len() implies s[j] != ':' by {
        assert(s[j] == prefix[j]);
    }
    lemma_first_colon_at(s, prefix.len() as int);
}

/// Law: a `GC` prefix in any case, joined by a colon to a voice name in
/// the Google catalog, parses to that Google Cloud voice.
pub proof fn lemma_parse_prefixed_gcloud(prefix: Seq<char>, name: Seq<char>, v: gcloud::VoiceKind)
    requires
        is_gc_str(prefix),
        gcloud::voice_of_name(name) == Some(v),
    ensures
        parse_spec(prefix + seq![':'] + name) == Ok::<TextToSpeechProvider, Seq<char>>(
            (TextToSpeechProvider::GoogleCloud { voice: v }),
        ),
{
    let s = prefix + seq![':'] + name;
    lemma_first_colon_of_join(prefix, name);
    assert(s.subrange(0, prefix.len() as int) =~= prefix);
    assert(s.subrange(prefix.len() as int + 1, s.len() as int) =~= name);
}

/// Law: an `AWS` prefix in any case, joined by a colon to a voice name
/// in the Amazon catalog, parses to that Amazon Web Services voice.
pub proof fn lemma_parse_prefixed_aws(prefix: Seq<char>, name: Seq<char>, v: aws::VoiceKind)
    requires
        is_aws_str(prefix),
        aws::voice_of_name(name) == Some(v),
    ensures
        parse_spec(prefix + seq![':'] + name) == Ok::<TextToSpeechProvider, Seq<char>>(
            (TextToSpeechProvider::AmazonWebServices { voice: v }),
        ),
{
    let s = prefix + seq![':'] + name;
    lemma_first_colon_of_join(prefix, name);
    assert(s.subrange(0, prefix.len() as int) =~= prefix);
    assert(s.subrange(prefix.len() as int + 1, s.len() as int) =~= name);
}

/// Law: a `WIN` prefix in any case, joined by a colon to a voice name
/// in the Windows catalog, parses to Windows with that voice selected.
pub proof fn lemma_parse_prefixed_win(prefix: Seq<char>, name: Seq<char>, v: win::VoiceKind)
    requires
        is_win_str(prefix),
        win::voice_of_name(name) == Some(v),
    ensures
        parse_spec(prefix + seq![':'] + name) == Ok::<TextToSpeechProvider, Seq<char>>(
            (TextToSpeechProvider::Windows { voice: Some(v) }),
        ),
{
    let s = prefix + seq![':'] + name;
    lemma_first_colon_of_join(prefix, name);
    assert(s.subrange(0, prefix.len() as int) =~= prefix);
    assert(s.subrange(prefix.len() as int + 1, s.len() as int) =~= name);
}

/// Law: the empty input parses to the default provider.
pub proof fn lemma_parse_empty()
    ensures
        parse_spec(Seq::<char>::empty()) == Ok::<TextToSpeechProvider, Seq<char>>(
            default_provider(),
        ),
{
}

/// Law: a colon-free prefix recognized by no provider, joined by a
/// colon to anything at all, parses to the default provider rather
/// than an error.
pub proof fn lemma_parse_unknown_prefix(prefix: Seq<char>, name: Seq<char>)
    requires
        !is_gc_str(prefix),
        !is_aws_str(prefix),
        !is_win_str(prefix),
        forall|j: int| 0 <= j < prefix.len() ==> prefix[j] != ':',
    ensures
        parse_spec(prefix + seq![':'] + name) == Ok::<TextToSpeechProvider, Seq<char>>(
            default_provider(),
        ),
{
    let s = prefix + seq![':'] + name;
    lemma_first_colon_of_join(prefix, name);
    assert(s.subrange(0, prefix.len() as int) =~= prefix);
}

/// Law: the bare word `WIN` in any case parses to Windows with the
/// platform default voice.
pub proof fn lemma_parse_win_word(s: Seq<char>)
    requires
        is_win_str(s),
    ensures
        parse_spec(s) == Ok::<TextToSpeechProvider, Seq<char>>(
            (TextToSpeechProvider::Windows { voice: None }),
        ),
{
    lemma_no_colon(s);
}

/// Law: a non-empty colon-free input other than the word `WIN` is
/// looked up in the Google catalog, the implicit default provider: a
/// cataloged name parses to that Google Cloud voice and any other name
/// is the one parse error.
pub proof fn lemma_parse_bare_voice(s: Seq<char>)
    requires
        s.len() > 0,
        !is_win_str(s),
        forall|j: int| 0 <= j < s.len() ==> s[j] != ':',
    ensures
        parse_spec(s) == match gcloud::voice_of_name(s) {
            Some(v) => Ok::<TextToSpeechProvider, Seq<char>>(
                (TextToSpeechProvider::GoogleCloud { voice: v }),
            ),
            None => Err::<TextToSpeechProvider, Seq<char>>(s),
        },
{
    lemma_no_colon(s);
}

/// What `describe` returns for each selection. The Windows voice is
/// rendered in quotes, with `"Default"` standing for an absent one.
pub open spec fn describe_spec(p: TextToSpeechProvider) -> Seq<char> {
    match p {
        TextToSpeechProvider::GoogleCloud { voice } => "Google Cloud (Voice: "@
            + gcloud::voice_name(voice) + ")"@,
        TextToSpeechProvider::AmazonWebServices { voice } => "Amazon Web Services (Voice: "@
            + aws::voice_name(voice) + ")"@,
        TextToSpeechProvider::Windows { voice } => match voice {
            Some(v) => "Windows built-in TTS (Voice: \""@ + win::voice_name(v) + "\")"@,
            None => "Windows built-in TTS (Voice: \"Default\")"@,
        },
    }
}

} // verus!
