use datis_core::tts::{aws, gcloud, win, TextToSpeechProvider};

#[test]
fn fallback_on_empty_string() {
    assert_eq!(
        TextToSpeechProvider::from_str("").unwrap(),
        TextToSpeechProvider::default()
    )
}

#[test]
fn fallback_on_unknown_prefix() {
    assert_eq!(
        TextToSpeechProvider::from_str("UNK:foobar").unwrap(),
        TextToSpeechProvider::default()
    )
}

#[test]
fn no_prefix_defaults_to_gcloud() {
    assert_eq!(
        TextToSpeechProvider::from_str("en-US-Wavenet-A").unwrap(),
        TextToSpeechProvider::GoogleCloud {
            voice: gcloud::VoiceKind::EnUsWavenetA
        }
    )
}

#[test]
fn prefix_gc() {
    assert_eq!(
        TextToSpeechProvider::from_str("GC:en-US-Wavenet-B").unwrap(),
        TextToSpeechProvider::GoogleCloud {
            voice: gcloud::VoiceKind::EnUsWavenetB
        }
    )
}

#[test]
fn gc_en_gp() {
    assert_eq!(
        TextToSpeechProvider::from_str("GC:en-GB-Standard-A").unwrap(),
        TextToSpeechProvider::GoogleCloud {
            voice: gcloud::VoiceKind::EnGbStandardA
        }
    )
}

#[test]
fn prefix_aws() {
    assert_eq!(
        TextToSpeechProvider::from_str("AWS:Brian").unwrap(),
        TextToSpeechProvider::AmazonWebServices {
            voice: aws::VoiceKind::Brian
        }
    )
}

#[test]
fn prefix_case_does_not_matter() {
    let expected = TextToSpeechProvider::GoogleCloud {
        voice: gcloud::VoiceKind::EnUsWavenetB,
    };
    assert_eq!(
        TextToSpeechProvider::from_str("gc:en-US-Wavenet-B").unwrap(),
        expected
    );
    assert_eq!(
        TextToSpeechProvider::from_str("gC:en-US-Wavenet-B").unwrap(),
        expected
    );
    assert_eq!(
        TextToSpeechProvider::from_str("aws:Brian").unwrap(),
        TextToSpeechProvider::from_str("AWS:Brian").unwrap()
    );
    assert_eq!(
        TextToSpeechProvider::from_str("aWs:Brian").unwrap(),
        TextToSpeechProvider::from_str("AWS:Brian").unwrap()
    );
}

#[test]
fn bare_win_selects_default_windows_voice() {
    assert_eq!(
        TextToSpeechProvider::from_str("WIN").unwrap(),
        TextToSpeechProvider::Windows { voice: None }
    );
    assert_eq!(
        TextToSpeechProvider::from_str("win").unwrap(),
        TextToSpeechProvider::Windows { voice: None }
    );
}

#[test]
fn prefix_win_selects_cataloged_voice() {
    assert_eq!(
        TextToSpeechProvider::from_str("WIN:David").unwrap(),
        TextToSpeechProvider::Windows {
            voice: Some(win::VoiceKind::David)
        }
    );
    assert_eq!(
        TextToSpeechProvider::from_str("win:Zira").unwrap(),
        TextToSpeechProvider::Windows {
            voice: Some(win::VoiceKind::Zira)
        }
    );
}

#[test]
fn empty_prefix_falls_back_to_default() {
    assert_eq!(
        TextToSpeechProvider::from_str(":en-US-Wavenet-A").unwrap(),
        TextToSpeechProvider::default()
    )
}

#[test]
fn unknown_voice_with_recognized_prefix_errors() {
    let err = TextToSpeechProvider::from_str("GC:no-such-voice").unwrap_err();
    assert_eq!(err.voice, "no-such-voice");
    let err = TextToSpeechProvider::from_str("AWS:").unwrap_err();
    assert_eq!(err.voice, "");
    let err = TextToSpeechProvider::from_str("WIN:Cortana").unwrap_err();
    assert_eq!(err.voice, "Cortana");
}

#[test]
fn bare_voice_unknown_to_google_errors() {
    // Without a prefix the Google catalog decides, so even a valid AWS
    // voice name is rejected.
    let err = TextToSpeechProvider::from_str("Brian").unwrap_err();
    assert_eq!(err.voice, "Brian");
}

#[test]
fn voice_kind_parses_its_own_name() {
    assert_eq!(
        gcloud::VoiceKind::from_str("en-GB-Standard-D").unwrap(),
        gcloud::VoiceKind::EnGbStandardD
    );
    assert_eq!(aws::VoiceKind::from_str("Salli").unwrap(), aws::VoiceKind::Salli);
    assert_eq!(win::VoiceKind::from_str("Hazel").unwrap(), win::VoiceKind::Hazel);
    assert_eq!(aws::VoiceKind::Brian.name(), "Brian");
    assert_eq!(gcloud::VoiceKind::EnUsWavenetF.name(), "en-US-Wavenet-F");
    assert_eq!(win::VoiceKind::from_str("brian").unwrap_err().voice, "brian");
}

#[test]
fn describe_names_provider_and_voice() {
    assert_eq!(
        TextToSpeechProvider::default().describe(),
        "Windows built-in TTS (Voice: \"Default\")"
    );
    assert_eq!(
        TextToSpeechProvider::GoogleCloud {
            voice: gcloud::VoiceKind::EnUsWavenetA
        }
        .describe(),
        "Google Cloud (Voice: en-US-Wavenet-A)"
    );
    assert_eq!(
        TextToSpeechProvider::AmazonWebServices {
            voice: aws::VoiceKind::Emma
        }
        .describe(),
        "Amazon Web Services (Voice: Emma)"
    );
    assert_eq!(
        TextToSpeechProvider::Windows {
            voice: Some(win::VoiceKind::Mark)
        }
        .describe(),
        "Windows built-in TTS (Voice: \"Mark\")"
    );
}
