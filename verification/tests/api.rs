use supertonic_openai::app_state::{
    request_language, request_model, request_response_format, request_total_step,
    trimmed_audio_len, AppState,
};
use supertonic_openai::error::{AppJson, OpenAIError};
use supertonic_openai::file_name::{file_extension, file_stem, split_file_name};
use supertonic_openai::models::{get_model, list_models, models};
use supertonic_openai::response_format::ResponseFormat;
use supertonic_openai::tts::load_model;
use supertonic_openai::voice::{
    lazy_init_voices, list_voice_names, voice_file_path, voice_styles_dir, Voice, Voices,
};

fn strings(v: &[&str]) -> Vec<String> {
    v.iter().map(|s| s.to_string()).collect()
}

fn sorted(mut v: Vec<String>) -> Vec<String> {
    v.sort();
    v
}

#[test]
fn split_names_like_std_path() {
    for name in ["M1.json", "noext", ".hidden", ".a.json", "a.", "..", "a.b.c", "", "F5.JSON"] {
        let p = std::path::Path::new(name);
        let (stem, ext) = split_file_name(name);
        if name != "" && name != ".." {
            assert_eq!(Some(stem.as_str()), p.file_stem().and_then(|s| s.to_str()), "{name}");
            assert_eq!(ext.as_deref(), p.extension().and_then(|s| s.to_str()), "{name}");
        }
    }
    assert_eq!(file_stem("M1.json"), "M1");
    assert_eq!(file_extension("M1.json").as_deref(), Some("json"));
    assert_eq!(file_stem(".hidden"), ".hidden");
    assert_eq!(file_extension(".hidden"), None);
    assert_eq!(file_stem("a."), "a");
    assert_eq!(file_extension("a.").as_deref(), Some(""));
    assert_eq!(file_stem(".."), "..");
    assert_eq!(file_extension(".."), None);
    assert_eq!(split_file_name("a.b.c"), ("a.b".to_string(), Some("c".to_string())));
    assert_eq!(split_file_name("héllo.wörld"), ("héllo".to_string(), Some("wörld".to_string())));
}

#[test]
fn voice_paths() {
    assert_eq!(voice_styles_dir("./assets"), "./assets/voice_styles");
    assert_eq!(voice_file_path("./assets", "M1.json"), "./assets/voice_styles/M1.json");
}

#[test]
fn voices_from_directory_entries() {
    let files = strings(&["M1.json", "F1.json", "readme.txt", ".json", "notes"]);
    let voices = lazy_init_voices("assets", &files);
    assert_eq!(voices.len(), 2);
    assert_eq!(sorted(voices.name_list()), strings(&["F1", "M1"]));
    assert_eq!(voices.get(&"M1".to_string()).unwrap().file_path(), "assets/voice_styles/M1.json");
    assert!(voices.get(&"readme".to_string()).is_none());
    assert!(voices.get(&".json".to_string()).is_none());
}

#[test]
fn voice_table_insert_replaces() {
    let mut voices = Voices::new();
    assert_eq!(voices.len(), 0);
    voices.insert("M1".to_string(), Voice::new("a".to_string()));
    voices.insert("F1".to_string(), Voice::new("b".to_string()));
    voices.insert("M1".to_string(), Voice::new("c".to_string()));
    assert_eq!(voices.len(), 2);
    assert_eq!(voices.name_list(), strings(&["M1", "F1"]));
    assert_eq!(voices.get(&"M1".to_string()).unwrap().file_path(), "c");
    assert_eq!(voices.get(&"F1".to_string()).unwrap().file_path(), "b");
}

#[test]
fn voice_names_are_stems_of_all_entries() {
    let files = strings(&["M1.json", "x.txt", "y"]);
    assert_eq!(list_voice_names(&files), strings(&["M1", "x", "y"]));
    let state = AppState::new("assets", &files);
    for name in state.list_voice_names() {
        assert!(list_voice_names(&files).contains(&name));
    }
}

#[test]
fn app_state_lookups() {
    let files = strings(&["M1.json", "M2.json", "F1.json"]);
    let state = AppState::new("/srv/assets", &files);
    assert_eq!(sorted(state.list_voice_names()), strings(&["F1", "M1", "M2"]));
    assert_eq!(state.get_voice("F1").unwrap().file_path(), "/srv/assets/voice_styles/F1.json");
    assert!(state.get_voice("F9").is_none());
    assert!(state.get_voice("m1").is_none());
}

#[test]
fn request_voice_defaults_to_m1() {
    let state = AppState::new("assets", &strings(&["M1.json", "F2.json"]));
    let v = state.request_voice(None).unwrap();
    assert_eq!(v.file_path(), "assets/voice_styles/M1.json");
    let v = state.request_voice(Some("F2".to_string())).unwrap();
    assert_eq!(v.file_path(), "assets/voice_styles/F2.json");
}

#[test]
fn request_voice_unknown_is_not_found() {
    let state = AppState::new("assets", &strings(&["M1.json"]));
    match state.request_voice(Some("F3".to_string())) {
        Err(OpenAIError::VoiceNotFound(name)) => assert_eq!(name, "F3"),
        other => panic!("unexpected {:?}", other.map(|v| v.file_path().clone())),
    }
    let empty = AppState::new("assets", &Vec::new());
    assert!(matches!(empty.request_voice(None), Err(OpenAIError::VoiceNotFound(n)) if n == "M1"));
}

#[test]
fn total_step_defaults_to_ten() {
    assert_eq!(request_total_step(None), 10);
    assert_eq!(request_total_step(Some(5)), 5);
    assert_eq!(request_total_step(Some(255)), 255);
}

#[test]
fn language_defaults_to_english() {
    assert_eq!(request_language(None), "en");
    assert_eq!(request_language(Some("ko".to_string())), "ko");
}

#[test]
fn model_must_be_supertonic() {
    assert!(request_model("supertonic").is_ok());
    assert!(matches!(request_model("tts-1"), Err(OpenAIError::ModelNotFound())));
    assert!(matches!(request_model("Supertonic"), Err(OpenAIError::ModelNotFound())));
}

#[test]
fn response_format_parsing_ignores_case() {
    assert_eq!(ResponseFormat::try_from("wav".to_string()).unwrap(), ResponseFormat::Wav);
    assert_eq!(ResponseFormat::try_from("WAV".to_string()).unwrap(), ResponseFormat::Wav);
    assert_eq!(ResponseFormat::try_from("Opus".to_string()).unwrap(), ResponseFormat::OpusOgg);
    assert_eq!(ResponseFormat::from_lowercase_name("opus"), Some(ResponseFormat::OpusOgg));
    assert_eq!(ResponseFormat::from_lowercase_name("OPUS"), None);
}

#[test]
fn response_format_unsupported_message() {
    let e = ResponseFormat::try_from("mp3".to_string()).unwrap_err();
    assert_eq!(e.value, "mp3");
    assert_eq!(e.message(), "Unsupported response format: mp3. Supported formats are wav and opus.");
    assert!(ResponseFormat::try_from(String::new()).is_err());
}

#[test]
fn request_response_format_defaults_to_wav() {
    assert_eq!(request_response_format(None).unwrap(), ResponseFormat::Wav);
    assert_eq!(request_response_format(Some("OPUS".to_string())).unwrap(), ResponseFormat::OpusOgg);
    match request_response_format(Some("Flac".to_string())) {
        Err(OpenAIError::Other(m)) => assert_eq!(
            m,
            "Unsupported response format: Flac. Supported formats are wav and opus."
        ),
        other => panic!("unexpected {:?}", other),
    }
}

#[test]
fn content_types() {
    assert_eq!(ResponseFormat::Wav.content_type(), "audio/wav");
    assert_eq!(ResponseFormat::OpusOgg.content_type(), "audio/opus");
}

#[test]
fn audio_is_trimmed_to_spoken_length() {
    assert_eq!(trimmed_audio_len(100, 250), 100);
    assert_eq!(trimmed_audio_len(300, 250), 250);
    assert_eq!(trimmed_audio_len(0, 0), 0);
}

#[test]
fn error_responses() {
    let r = OpenAIError::VoiceNotFound("F9".to_string()).into_response();
    assert_eq!((r.status, r.message.as_str()), (404, "F9"));
    let r = OpenAIError::ModelNotFound().into_response();
    assert_eq!((r.status, r.message.as_str()), (404, "model not found"));
    let r = OpenAIError::Io("disk".to_string()).into_response();
    assert_eq!((r.status, r.message.as_str()), (500, "disk"));
    let r = OpenAIError::Other("boom".to_string()).into_response();
    assert_eq!((r.status, r.message.as_str()), (500, "boom"));
}

#[test]
fn models_list_and_lookup() {
    let ms = models();
    assert_eq!(ms.len(), 1);
    assert_eq!(ms[0].id, "supertonic");
    assert_eq!(ms[0].object, "model");
    assert_eq!(ms[0].created, 0);
    assert_eq!(ms[0].owned_by, "unknown");
    let AppJson(listed) = list_models();
    assert_eq!(listed.len(), 1);
    let AppJson(m) = get_model("supertonic".to_string()).unwrap();
    assert_eq!(m.id, "supertonic");
    assert!(matches!(get_model("tts-1".to_string()), Err(OpenAIError::ModelNotFound())));
}

#[test]
fn app_json_wraps_value() {
    let j = AppJson::new(vec![1, 2, 3]);
    assert_eq!(j.0, vec![1, 2, 3]);
}

#[test]
fn model_is_loaded_from_onnx_dir() {
    let m = load_model("./assets", true);
    assert_eq!(m.onnx_dir, "./assets/onnx");
    assert!(m.use_gpu);
    assert!(!load_model("x", false).use_gpu);
}

use supertonic_openai::speech::{plan_response_format, SpeechRequest};

fn speech_request(model: &str, voice: Option<&str>, format: Option<&str>) -> SpeechRequest {
    SpeechRequest {
        input: "Hello".to_string(),
        model: model.to_string(),
        voice: voice.map(|s| s.to_string()),
        instructions: None,
        response_format: format.map(|s| s.to_string()),
        stream_format: None,
        total_step: None,
        language: None,
    }
}

#[test]
fn plan_inference_uses_defaults() {
    let state = AppState::new("assets", &strings(&["M1.json", "F2.json"]));
    let plan = state.plan_inference(&speech_request("supertonic", None, None)).unwrap();
    assert_eq!(plan.voice_file, "assets/voice_styles/M1.json");
    assert_eq!(plan.total_step, 10);
    assert_eq!(plan.language, "en");
    let mut req = speech_request("supertonic", Some("F2"), None);
    req.total_step = Some(20);
    req.language = Some("ko".to_string());
    let plan = state.plan_inference(&req).unwrap();
    assert_eq!(plan.voice_file, "assets/voice_styles/F2.json");
    assert_eq!(plan.total_step, 20);
    assert_eq!(plan.language, "ko");
}

#[test]
fn plan_inference_checks_model_before_voice() {
    let state = AppState::new("assets", &strings(&["M1.json"]));
    assert!(matches!(
        state.plan_inference(&speech_request("tts-1", Some("X"), None)),
        Err(OpenAIError::ModelNotFound())
    ));
    assert!(matches!(
        state.plan_inference(&speech_request("supertonic", Some("X"), None)),
        Err(OpenAIError::VoiceNotFound(n)) if n == "X"
    ));
}

#[test]
fn plan_response_format_of_requests() {
    let req = speech_request("supertonic", None, None);
    assert_eq!(plan_response_format(&req).unwrap(), ResponseFormat::Wav);
    let req = speech_request("supertonic", None, Some("Opus"));
    assert_eq!(plan_response_format(&req).unwrap(), ResponseFormat::OpusOgg);
    let req = speech_request("supertonic", None, Some("aac"));
    assert!(matches!(plan_response_format(&req), Err(OpenAIError::Other(_))));
}

#[test]
fn instructions_and_stream_format_are_ignored() {
    let state = AppState::new("assets", &strings(&["M1.json"]));
    let a = speech_request("supertonic", None, Some("opus"));
    let mut b = speech_request("supertonic", None, Some("opus"));
    b.instructions = Some("whisper".to_string());
    b.stream_format = Some("sse".to_string());
    let (pa, pb) = (state.plan_inference(&a).unwrap(), state.plan_inference(&b).unwrap());
    assert_eq!(pa.voice_file, pb.voice_file);
    assert_eq!(pa.total_step, pb.total_step);
    assert_eq!(pa.language, pb.language);
    assert_eq!(plan_response_format(&a).unwrap(), plan_response_format(&b).unwrap());
}
