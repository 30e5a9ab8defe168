use voxforge::models::{
    download_url, find_model, is_bin_file, status_for, ModelError, ModelManager, ModelStatus,
};

fn manager() -> ModelManager {
    ModelManager::new("/nonexistent-voxforge-test/models".to_string())
}

#[test]
fn catalog_lists_five_models() {
    let m = manager();
    let models = m.available_models(&[false; 5]);
    let ids: Vec<&str> = models.iter().map(|x| x.id.as_str()).collect();
    assert_eq!(ids, vec!["tiny", "base", "small", "medium", "large-v3"]);
    assert_eq!(models[1].size_bytes, 142_000_000);
    assert!(models[1].recommended);
    assert_eq!(models.iter().filter(|x| x.recommended).count(), 1);
    assert_eq!(models[4].filename, "ggml-large-v3.bin");
    assert_eq!(
        models[0].download_url,
        "https://huggingface.co/ggerganov/whisper.cpp/resolve/main/ggml-tiny.bin"
    );
    assert_eq!(models[3].name, "Medium");
    assert_eq!(models[2].description, "Better accuracy, moderate speed.");
    assert!(models.iter().all(|x| x.status == ModelStatus::NotDownloaded));
}

#[test]
fn lookup_by_id() {
    assert_eq!(find_model("tiny"), 0);
    assert_eq!(find_model("large-v3"), 4);
    assert_eq!(find_model("huge"), 5);
    assert_eq!(find_model("Tiny"), 5);
}

#[test]
fn model_path_errors() {
    let m = manager();
    match m.model_path("huge", false) {
        Err(ModelError::NotFound(id)) => assert_eq!(id, "huge"),
        other => panic!("unexpected {:?}", other),
    }
    match m.model_path("base", false) {
        Err(ModelError::NotDownloaded(id)) => assert_eq!(id, "base"),
        other => panic!("unexpected {:?}", other),
    }
    assert_eq!(ModelError::NotFound("x".to_string()).message(), "Model not found: x");
    assert_eq!(ModelError::NotDownloaded("y".to_string()).message(), "Model not downloaded: y");
}

#[test]
fn set_active_model_fails_without_file() {
    let mut m = manager();
    assert!(m.set_active_model("small", false).is_err());
    assert!(m.active_model().is_none());
    assert!(m.set_active_model("nope", true).is_err());
    assert!(m.active_model().is_none());
}

#[test]
fn set_active_model_with_file_on_disk() {
    let mut m = manager();
    let p = m.set_active_model("small", true).expect("the file is there");
    assert_eq!(Some(p.clone()), m.model_file_path("small"));
    assert_eq!(m.active_model().as_deref(), Some("ggml-small.bin"));
    // making it active again changes nothing
    assert_eq!(m.set_active_model("small", true).ok(), Some(p));
    assert_eq!(m.active_model().as_deref(), Some("ggml-small.bin"));
    let present = [true, true, true, false, false];
    let models = m.available_models(&present);
    let statuses: Vec<ModelStatus> = models.iter().map(|x| x.status).collect();
    assert_eq!(
        statuses,
        vec![
            ModelStatus::Downloaded,
            ModelStatus::Downloaded,
            ModelStatus::Active,
            ModelStatus::NotDownloaded,
            ModelStatus::NotDownloaded,
        ]
    );
    assert_eq!(m.get_model_status("ggml-small.bin", true), ModelStatus::Active);
    assert_eq!(m.get_model_status("ggml-small.bin", false), ModelStatus::NotDownloaded);
}

#[test]
fn probed_paths_are_the_model_files() {
    let m = manager();
    let paths = m.catalog_file_paths();
    assert_eq!(paths.len(), 5);
    assert_eq!(paths[0], "/nonexistent-voxforge-test/models/ggml-tiny.bin");
    assert_eq!(paths[4], "/nonexistent-voxforge-test/models/ggml-large-v3.bin");
    assert_eq!(m.model_file_path("base").as_deref(), Some("/nonexistent-voxforge-test/models/ggml-base.bin"));
    assert_eq!(m.model_file_path("huge"), None);
    assert_eq!(m.file_path("notes.txt"), "/nonexistent-voxforge-test/models/notes.txt");
}

#[test]
fn status_from_presence_and_active() {
    let active = Some("ggml-base.bin".to_string());
    assert_eq!(status_for(false, &active, "ggml-base.bin"), ModelStatus::NotDownloaded);
    assert_eq!(status_for(true, &active, "ggml-base.bin"), ModelStatus::Active);
    assert_eq!(status_for(true, &active, "ggml-tiny.bin"), ModelStatus::Downloaded);
    assert_eq!(status_for(true, &None, "ggml-base.bin"), ModelStatus::Downloaded);
}

#[test]
fn download_target_paths() {
    let m = ModelManager::new("/tmp/vf-models".to_string());
    let (url, dest) = m.download_target("medium").unwrap();
    assert_eq!(url, "https://huggingface.co/ggerganov/whisper.cpp/resolve/main/ggml-medium.bin");
    assert_eq!(dest, "/tmp/vf-models/ggml-medium.bin");
    assert!(m.download_target("gigantic").is_err());
    assert_eq!(download_url("x.bin"), "https://huggingface.co/ggerganov/whisper.cpp/resolve/main/x.bin");
}

#[test]
fn autoload_order() {
    let m = ModelManager::new("/data/models/".to_string());
    let paths = m.autoload_paths();
    assert_eq!(
        paths,
        vec![
            "/data/models/ggml-base.bin",
            "/data/models/ggml-small.bin",
            "/data/models/ggml-tiny.bin",
            "/data/models/ggml-medium.bin",
            "/data/models/ggml-large-v3.bin"
        ]
    );
    assert_eq!(m.models_dir(), "/data/models/");
}

#[test]
fn model_files_are_the_bin_files() {
    assert!(is_bin_file("ggml-base.bin"));
    assert!(is_bin_file("x.bin"));
    assert!(is_bin_file("a.tar.bin"));
    assert!(!is_bin_file(".bin"));
    assert!(!is_bin_file("bin"));
    assert!(!is_bin_file("model.bin.part"));
    assert!(!is_bin_file("model.BIN"));
    assert!(!is_bin_file("notes.txt"));
}

#[test]
fn disk_usage_adds_up_model_files() {
    let m = manager();
    assert_eq!(m.disk_usage(&[]), 0);
    let files = vec![
        ("ggml-tiny.bin".to_string(), 75_000_000u64),
        ("readme.txt".to_string(), 1_000),
        ("ggml-base.bin".to_string(), 142_000_000),
        (".bin".to_string(), 7),
    ];
    assert_eq!(m.disk_usage(&files), 217_000_000);
}

#[test]
fn locating_a_model_follows_the_disk_answer() {
    let m = manager();
    match m.model_path("base", true) {
        Ok(p) => assert!(p.ends_with("ggml-base.bin") && p.starts_with("/nonexistent-voxforge-test/models")),
        Err(e) => panic!("expected a path, got {:?}", e),
    }
    match m.model_path("base", false) {
        Err(ModelError::NotDownloaded(id)) => assert_eq!(id, "base"),
        other => panic!("expected NotDownloaded, got {:?}", other),
    }
    match m.model_path("huge", true) {
        Err(ModelError::NotFound(id)) => assert_eq!(id, "huge"),
        other => panic!("expected NotFound, got {:?}", other),
    }
}
