use whspr_app::model_menu::{
    apply_asr, apply_refine, asr_option_text, asr_options, refine_option_text, refine_options,
    selected_asr, selected_refine, AsrChoice, AsrOption, ModelConfig, RefineChoice, RefineOption,
};
use whspr_app::models::{
    account_line, dir_rows, download_dir, effective_model_dirs, files_placeholder, is_signed_in,
    model_file_name, repo_toggle_label, search_status_line, update, DownloadRequest, ModelsEffect,
    ModelsMessage, ModelsState,
};
use whspr_app::platform::{close_hides_to_tray, frontmost_app_name, Platform};
use whspr_app::secrets::{
    browser_chips, clear_secret, cookie_browsers, keystore_label, locate_secret, location_caption,
    managed_secrets, store_secret, KeystoreOutcome, SecretConfig, SecretLocation, SecretSlot,
    API_KEY_FIELDS,
};

fn model_config() -> ModelConfig {
    ModelConfig {
        asr: AsrChoice::WhisperLocal,
        whisper_model_path: None,
        refine: RefineChoice::Noop,
        llama_model_path: None,
    }
}

fn same_asr(a: &AsrOption, b: &AsrOption) -> bool {
    match (a, b) {
        (AsrOption::Local(x), AsrOption::Local(y)) => x == y,
        (AsrOption::Cloud(x), AsrOption::Cloud(y)) => x == y,
        _ => false,
    }
}

fn same_refine(a: &RefineOption, b: &RefineOption) -> bool {
    match (a, b) {
        (RefineOption::Raw, RefineOption::Raw) => true,
        (RefineOption::Cloud(x), RefineOption::Cloud(y)) => x == y,
        (RefineOption::Local(x), RefineOption::Local(y)) => x == y,
        _ => false,
    }
}

fn strings(list: &[&str]) -> Vec<String> {
    list.iter().map(|s| s.to_string()).collect()
}

fn models_state(dirs: &[&str], default: Option<&str>) -> ModelsState {
    ModelsState::new(model_config(), None, None, strings(dirs), default.map(str::to_string))
}

#[test]
fn apply_asr_local_selects_whisper_local_and_roundtrips() {
    let mut config = model_config();
    let option = AsrOption::Local("/models/ggml-base.bin".to_string());
    apply_asr(&mut config, &option);
    assert_eq!(config.asr, AsrChoice::WhisperLocal);
    assert_eq!(config.whisper_model_path.as_deref(), Some("/models/ggml-base.bin"));
    assert!(same_asr(&selected_asr(&config).unwrap(), &option));
}

#[test]
fn apply_asr_cloud_switches_backend_without_touching_model_path() {
    let mut config = model_config();
    config.whisper_model_path = Some("/models/ggml-base.bin".to_string());
    apply_asr(&mut config, &AsrOption::Cloud(AsrChoice::OpenAi));
    assert_eq!(config.asr, AsrChoice::OpenAi);
    assert_eq!(config.whisper_model_path.as_deref(), Some("/models/ggml-base.bin"));
    assert!(same_asr(&selected_asr(&config).unwrap(), &AsrOption::Cloud(AsrChoice::OpenAi)));
}

#[test]
fn asr_options_lists_cloud_then_local_and_appends_offscan_selection() {
    let models = strings(&["/models/ggml-base.bin"]);
    let mut config = model_config();
    config.asr = AsrChoice::WhisperLocal;
    config.whisper_model_path = Some("/elsewhere/ggml-small.bin".to_string());
    let options = asr_options(&models, &config);
    assert!(same_asr(&options[0], &AsrOption::Cloud(AsrChoice::OpenAi)));
    assert!(same_asr(&options[1], &AsrOption::Cloud(AsrChoice::Deepgram)));
    assert!(options.iter().any(|o| same_asr(o, &AsrOption::Local("/models/ggml-base.bin".to_string()))));
    assert!(options
        .iter()
        .any(|o| same_asr(o, &AsrOption::Local("/elsewhere/ggml-small.bin".to_string()))));
    assert_eq!(options.len(), 4);
}

#[test]
fn asr_options_do_not_repeat_a_scanned_selection() {
    let models = strings(&["/models/ggml-base.bin"]);
    let mut config = model_config();
    config.whisper_model_path = Some("/models/ggml-base.bin".to_string());
    assert_eq!(asr_options(&models, &config).len(), 3);
    config.asr = AsrChoice::Mock;
    assert!(selected_asr(&config).is_none());
}

#[test]
fn apply_refine_none_and_local_roundtrip() {
    let mut config = model_config();
    apply_refine(&mut config, &RefineOption::Raw);
    assert_eq!(config.refine, RefineChoice::Noop);
    assert!(same_refine(&selected_refine(&config).unwrap(), &RefineOption::Raw));
    let option = RefineOption::Local("/models/qwen.gguf".to_string());
    apply_refine(&mut config, &option);
    assert_eq!(config.refine, RefineChoice::LlamaLocal);
    assert_eq!(config.llama_model_path.as_deref(), Some("/models/qwen.gguf"));
    assert!(same_refine(&selected_refine(&config).unwrap(), &option));
}

#[test]
fn refine_options_always_offers_none_and_both_cloud_refiners() {
    let options = refine_options(&Vec::new(), &model_config());
    assert!(same_refine(&options[0], &RefineOption::Raw));
    assert!(options.iter().any(|o| same_refine(o, &RefineOption::Cloud(RefineChoice::OpenAi))));
    assert!(options.iter().any(|o| same_refine(o, &RefineOption::Cloud(RefineChoice::Anthropic))));
}

#[test]
fn option_display_labels_are_distinct() {
    assert_ne!(
        asr_option_text(&AsrOption::Cloud(AsrChoice::OpenAi), ""),
        asr_option_text(&AsrOption::Cloud(AsrChoice::Deepgram), "")
    );
    assert_ne!(
        refine_option_text(&RefineOption::Raw, ""),
        refine_option_text(&RefineOption::Cloud(RefineChoice::OpenAi), "")
    );
    assert!(asr_option_text(&AsrOption::Local("/x/ggml-base.bin".to_string()), "ggml-base.bin")
        .contains("local"));
    assert_eq!(refine_option_text(&RefineOption::Raw, ""), "None (raw transcript)");
}

#[test]
fn models_dir_prefers_configured_over_default() {
    assert_eq!(
        download_dir(&Vec::new(), &Some("/explicit/models".to_string())).as_deref(),
        Some("/explicit/models")
    );
    assert_eq!(download_dir(&Vec::new(), &None), None);
}

#[test]
fn effective_model_dirs_includes_the_default_and_user_dirs() {
    let dirs = effective_model_dirs(&strings(&["/user/ggufs"]), &Some("/default/models".to_string()));
    assert!(dirs.contains(&"/user/ggufs".to_string()));
    assert!(dirs.contains(&"/default/models".to_string()));
}

#[test]
fn effective_model_dirs_does_not_duplicate_the_default() {
    let dirs = effective_model_dirs(&strings(&["/models"]), &Some("/models".to_string()));
    assert_eq!(dirs.iter().filter(|d| d.as_str() == "/models").count(), 1);
}

#[test]
fn download_dir_prefers_first_user_dir() {
    assert_eq!(
        download_dir(&strings(&["/first", "/second"]), &Some("/default".to_string())).as_deref(),
        Some("/first")
    );
}

#[test]
fn model_file_name_takes_the_last_component() {
    assert_eq!(model_file_name("/models/ggml-base.bin"), "ggml-base.bin");
    assert_eq!(model_file_name("/models/dir/"), "dir");
    assert_eq!(model_file_name("/"), "/");
}

#[test]
fn a_download_arms_the_progress_and_reports_the_file() {
    let mut st = models_state(&[], Some("/models"));
    let effect = update(&mut st, ModelsMessage::Download(DownloadRequest::Whisper("base".to_string())));
    assert!(matches!(effect, ModelsEffect::Download(DownloadRequest::Whisper(ref id), ref dir)
        if id == "base" && dir == "/models"));
    assert!(st.busy);
    assert_eq!(st.downloading.as_deref(), Some("base"));
    let done = update(&mut st, ModelsMessage::Downloaded(false, Ok("/models/ggml-base.bin".to_string())));
    assert!(matches!(done, ModelsEffect::Rescan));
    assert!(!st.busy);
    assert!(st.downloading.is_none());
    assert_eq!(
        st.status.as_deref(),
        Some("Downloaded ggml-base.bin. Select it in the ASR list to use it.")
    );
}

#[test]
fn a_download_without_a_directory_says_so() {
    let mut st = models_state(&[], None);
    let effect = update(&mut st, ModelsMessage::Download(DownloadRequest::Llm("qwen".to_string())));
    assert!(matches!(effect, ModelsEffect::Nothing));
    assert_eq!(
        st.status.as_deref(),
        Some("Could not determine a models directory to download into.")
    );
}

#[test]
fn signing_in_and_out() {
    let mut st = models_state(&[], None);
    assert!(!is_signed_in(&st));
    assert!(matches!(update(&mut st, ModelsMessage::SignIn), ModelsEffect::Login(None)));
    assert!(matches!(
        update(&mut st, ModelsMessage::SignedIn(Ok(("ada".to_string(), "hf_x".to_string())))),
        ModelsEffect::PersistAndRescan
    ));
    assert!(is_signed_in(&st));
    assert_eq!(account_line(&st), "Signed in as ada.");
    assert_eq!(st.token.as_deref(), Some("hf_x"));
    assert!(matches!(update(&mut st, ModelsMessage::SignOut), ModelsEffect::Persist));
    assert!(!is_signed_in(&st));
    assert_eq!(st.status.as_deref(), Some("Signed out."));
}

#[test]
fn a_saved_token_reads_as_signed_in() {
    let st = ModelsState::new(model_config(), Some("hf_x".to_string()), None, Vec::new(), None);
    assert!(is_signed_in(&st));
    assert_eq!(st.status.as_deref(), Some("Signed in with a saved token."));
    assert_eq!(account_line(&st), "Signed in with a saved token.");
}

#[test]
fn a_pasted_token_is_trimmed_and_cleared() {
    let mut st = models_state(&[], None);
    update(&mut st, ModelsMessage::TokenInput("  hf_abc ".to_string()));
    assert!(matches!(update(&mut st, ModelsMessage::TokenSubmit),
        ModelsEffect::TokenLogin(ref t) if t == "hf_abc"));
    assert!(st.token_input.is_empty());
    assert!(matches!(update(&mut st, ModelsMessage::TokenSubmit), ModelsEffect::Nothing));
}

#[test]
fn the_search_status_line() {
    let mut st = models_state(&[], None);
    assert_eq!(search_status_line(&st, false), None);
    update(&mut st, ModelsMessage::SearchInput("  qwen ".to_string()));
    assert!(matches!(update(&mut st, ModelsMessage::SearchSubmit),
        ModelsEffect::Search(ref q) if q == "qwen"));
    assert_eq!(search_status_line(&st, false).as_deref(), Some("Searching HuggingFace..."));
    update(&mut st, ModelsMessage::SearchFinished(Ok(())));
    assert_eq!(
        search_status_line(&st, false).as_deref(),
        Some("No GGUF models found for that search.")
    );
    assert_eq!(search_status_line(&st, true), None);
    assert!(matches!(
        update(&mut st, ModelsMessage::SearchFinished(Err("offline".to_string()))),
        ModelsEffect::ClearResults
    ));
    assert_eq!(search_status_line(&st, true).as_deref(), Some("Search failed: offline"));
}

#[test]
fn selecting_the_open_repo_collapses_it() {
    let mut st = models_state(&[], None);
    assert!(matches!(update(&mut st, ModelsMessage::SelectRepo("a/b".to_string())),
        ModelsEffect::ListFiles(ref r) if r == "a/b"));
    assert!(matches!(
        update(&mut st, ModelsMessage::SelectRepo("a/b".to_string())),
        ModelsEffect::CollapseFiles
    ));
    assert!(st.search.selected_repo.is_none());
}

#[test]
fn model_dirs_are_added_once_and_removed() {
    let mut st = models_state(&["/a"], None);
    assert!(matches!(
        update(&mut st, ModelsMessage::ModelDirPicked(Some("/b".to_string()))),
        ModelsEffect::PersistAndRescan
    ));
    assert!(matches!(
        update(&mut st, ModelsMessage::ModelDirPicked(Some("/b".to_string()))),
        ModelsEffect::Nothing
    ));
    assert_eq!(st.model_dirs, strings(&["/a", "/b"]));
    update(&mut st, ModelsMessage::RemoveModelDir("/a".to_string()));
    assert_eq!(st.model_dirs, strings(&["/b"]));
}

#[test]
fn every_api_key_row_is_a_managed_secret() {
    let managed = managed_secrets();
    for (id, _) in API_KEY_FIELDS {
        assert!(managed.contains(&SecretSlot::ApiKey(id)), "{id} is not a managed secret");
    }
}

#[test]
fn captions_name_the_store_without_showing_the_key() {
    for platform in [Platform::MacOs, Platform::Windows, Platform::Linux] {
        assert!(location_caption(SecretLocation::Keystore, platform)
            .contains(keystore_label(platform)));
        assert!(location_caption(SecretLocation::ConfigFile, platform).contains("config.toml"));
        assert_eq!(location_caption(SecretLocation::Missing, platform), "Not set");
    }
}

#[test]
fn a_persistent_keystore_takes_the_secret_and_scrubs_plaintext() {
    let mut config = SecretConfig::new();
    config.api_keys.insert("openai", "old-plaintext".to_string());
    let slot = SecretSlot::ApiKey("openai");
    let location =
        store_secret(&mut config, slot, "sk-new", &KeystoreOutcome::Done, Platform::MacOs).unwrap();
    assert_eq!(location, SecretLocation::Keystore);
    assert!(config.api_keys.get("openai").is_none());
    assert_eq!(locate_secret(&config, true, slot), SecretLocation::Keystore);
}

#[test]
fn a_non_persistent_keystore_keeps_the_secret_in_config() {
    let mut config = SecretConfig::new();
    let location = store_secret(
        &mut config,
        SecretSlot::HfToken,
        "hf_abc",
        &KeystoreOutcome::NotPersistent,
        Platform::Linux,
    )
    .unwrap();
    assert_eq!(location, SecretLocation::ConfigFile);
    assert_eq!(config.hf_token.as_deref(), Some("hf_abc"));
    assert_eq!(locate_secret(&config, false, SecretSlot::HfToken), SecretLocation::ConfigFile);
}

#[test]
fn a_refusing_keystore_leaves_the_config_and_says_why() {
    let mut config = SecretConfig::new();
    let error = store_secret(
        &mut config,
        SecretSlot::HfToken,
        "hf_abc",
        &KeystoreOutcome::Failed("locked".to_string()),
        Platform::Windows,
    )
    .unwrap_err();
    assert_eq!(error, "could not save to the Credential Manager: locked");
    assert!(config.hf_token.is_none());
}

#[test]
fn clearing_removes_the_secret_from_both_stores() {
    let mut config = SecretConfig::new();
    config.hf_token = Some("hf_plain".to_string());
    clear_secret(&mut config, SecretSlot::HfToken, &KeystoreOutcome::Done, Platform::MacOs).unwrap();
    assert_eq!(locate_secret(&config, false, SecretSlot::HfToken), SecretLocation::Missing);
}

#[test]
fn cookie_browsers_follow_the_platform() {
    assert_eq!(
        cookie_browsers(Platform::Windows),
        vec![("chrome", "Chrome"), ("firefox", "Firefox"), ("edge", "Edge")]
    );
    assert_eq!(
        cookie_browsers(Platform::MacOs),
        vec![("firefox", "Firefox"), ("chrome", "Chrome"), ("safari", "Safari")]
    );
    assert_eq!(
        cookie_browsers(Platform::Linux),
        vec![("firefox", "Firefox"), ("chrome", "Chrome"), ("chromium", "Chromium")]
    );
}

#[test]
fn only_macos_reports_a_frontmost_app() {
    assert_eq!(frontmost_app_name(Platform::MacOs, Some("Notes".to_string())).as_deref(), Some("Notes"));
    assert_eq!(frontmost_app_name(Platform::Linux, Some("Notes".to_string())), None);
    assert_eq!(frontmost_app_name(Platform::Windows, None), None);
}

#[test]
fn only_linux_quits_on_close() {
    assert!(close_hides_to_tray(Platform::MacOs));
    assert!(close_hides_to_tray(Platform::Windows));
    assert!(!close_hides_to_tray(Platform::Linux));
}

#[test]
fn the_default_dir_is_listed_first_and_kept() {
    let st = models_state(&["/a", "/b"], Some("/models"));
    let rows: Vec<(String, bool)> = dir_rows(&st).into_iter().map(|r| (r.path, r.removable)).collect();
    assert_eq!(
        rows,
        vec![("/models".to_string(), false), ("/a".to_string(), true), ("/b".to_string(), true)]
    );
    assert_eq!(dir_rows(&models_state(&[], None)).len(), 0);
}

#[test]
fn repository_files_toggle_and_placeholders() {
    let mut st = models_state(&[], None);
    assert_eq!(repo_toggle_label(&st, "a/b"), "Show files");
    update(&mut st, ModelsMessage::SelectRepo("a/b".to_string()));
    assert_eq!(repo_toggle_label(&st, "a/b"), "Hide files");
    assert_eq!(repo_toggle_label(&st, "c/d"), "Show files");
    assert_eq!(files_placeholder(&st, false), Some("Loading files..."));
    update(&mut st, ModelsMessage::FilesListed(Ok(())));
    assert_eq!(files_placeholder(&st, false), Some("No .gguf files in this repo."));
    assert_eq!(files_placeholder(&st, true), None);
}

#[test]
fn the_sign_in_picker_marks_the_current_browser() {
    let chips = browser_chips(Platform::Linux, Some("chrome"));
    let view: Vec<(&str, Option<&str>, bool)> =
        chips.iter().map(|c| (c.label, c.browser, c.selected)).collect();
    assert_eq!(
        view,
        vec![
            ("No sign-in", None, false),
            ("Firefox", Some("firefox"), false),
            ("Chrome", Some("chrome"), true),
            ("Chromium", Some("chromium"), false),
        ]
    );
    assert!(browser_chips(Platform::MacOs, None)[0].selected);
}
