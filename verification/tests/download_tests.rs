use voxtral::download::{
    after_download, file_roles, model_directory, model_repository, model_revision, needed_files,
    plan_model_files, required_file, FileRoles, FilesStep, REQUIRED_FILES,
};
use voxtral::error::PipelineError;

fn required_names() -> Vec<&'static str> {
    (0..REQUIRED_FILES).map(|i| required_file(i).unwrap()).collect()
}

#[test]
fn test_required_files_structure() {
    // Verify that the expected file structure is correct
    let expected_files = vec![
        "config.json",
        "tekken.json",
        "model-00001-of-00002.safetensors",
        "model-00002-of-00002.safetensors",
    ];

    // Verify the expected files match what the code looks for
    assert_eq!(required_names(), expected_files);
    assert_eq!(expected_files.len(), 4);
    assert!(expected_files.contains(&"config.json"));
    assert!(expected_files.contains(&"tekken.json"));
    assert!(expected_files.contains(&"model-00001-of-00002.safetensors"));
    assert!(expected_files.contains(&"model-00002-of-00002.safetensors"));
}

#[test]
fn test_model_revision_handling() {
    // The code uses "main" as revision
    let revision = model_revision();
    assert_eq!(revision, "main");
}

#[test]
fn test_pathbuf_operations() {
    // Test PathBuf operations used in the module
    let model_dir = std::path::PathBuf::from("test_model");
    let config_file = "config.json";

    let full_path = model_dir.join(config_file);
    assert!(full_path.to_string_lossy().contains("test_model"));
    assert!(full_path.to_string_lossy().ends_with("config.json"));

    let in_model_dir = std::path::PathBuf::from(model_directory()).join(required_file(0).unwrap());
    assert!(in_model_dir.to_string_lossy().contains("Voxtral-Mini-3B-2507"));
    assert!(in_model_dir.to_string_lossy().ends_with("config.json"));
}

#[test]
fn test_download_api_pattern() {
    // hf_hub uses Repo::with_revision pattern
    let repo_name = model_repository();
    let repo_type = hf_hub::RepoType::Model;
    let revision = model_revision();

    // Verify the components used to construct the repo
    assert!(repo_name.contains("mistralai"));
    assert!(repo_name.contains("Voxtral"));
    assert_eq!(revision, "main");

    let repo = hf_hub::Repo::with_revision(repo_name.to_string(), repo_type, revision.to_string());
    assert!(repo.url().contains("mistralai/Voxtral-Mini-3B-2507"));
}

#[test]
fn test_model_files_filtering_logic() {
    // Test the filtering logic used to find existing files
    let model_files = vec![
        "config.json",
        "tekken.json",
        "model-00001-of-00002.safetensors",
        "model-00002-of-00002.safetensors",
    ];

    let existing_files = vec!["config.json", "tekken.json"];

    // Find files that don't exist yet
    let present: Vec<bool> = model_files.iter().map(|p| existing_files.contains(p)).collect();
    let needed_files: Vec<&str> =
        needed_files(&present).iter().map(|&i| model_files[i]).collect();

    assert_eq!(needed_files.len(), 2);
    assert!(needed_files.contains(&"model-00001-of-00002.safetensors"));
    assert!(needed_files.contains(&"model-00002-of-00002.safetensors"));
}

#[test]
fn test_slice_operations_on_files() {
    // Test the slicing logic: files[1..files.len() - 1]
    let files = vec![
        std::path::PathBuf::from("config.json"),
        std::path::PathBuf::from("model-00001.safetensors"),
        std::path::PathBuf::from("model-00002.safetensors"),
        std::path::PathBuf::from("tekken.json"),
    ];

    let roles = file_roles(files.len()).unwrap();
    let safetensors_slice = &files[roles.weights_start..roles.weights_end];

    assert_eq!(safetensors_slice.len(), 2);
    assert!(safetensors_slice[0].to_string_lossy().contains("model-00001"));
    assert!(safetensors_slice[1].to_string_lossy().contains("model-00002"));

    let config = &files[roles.config];
    assert_eq!(config, files.first().unwrap());
    assert!(config.to_string_lossy().ends_with("config.json"));

    let tokenizer = &files[roles.tokenizer];
    assert_eq!(tokenizer, files.last().unwrap());
    assert!(tokenizer.to_string_lossy().ends_with("tekken.json"));
}

#[test]
fn test_load_model_weights_memory_mapping() {
    // Memory-mapped loading is used for efficiency
    let model_files = vec![
        std::path::PathBuf::from("model-00001-of-00002.safetensors"),
        std::path::PathBuf::from("model-00002-of-00002.safetensors"),
    ];
    let device = &voxtral::config::Device::Cpu;
    let dtype = candle_core::DType::F16;

    // Verify we have the expected number of files
    assert_eq!(model_files.len(), 2);
    assert!(model_files[0].to_string_lossy().contains("model-00001"));
    assert!(model_files[1].to_string_lossy().contains("model-00002"));

    assert_eq!(*device, voxtral::config::select_device(true, true));
    assert_eq!(dtype.size_in_bytes(), 2);
    for (i, file) in model_files.iter().enumerate() {
        assert_eq!(file.to_string_lossy(), required_file(i + 2).unwrap());
    }
}

#[test]
fn required_file_has_no_name_beyond_the_last() {
    assert_eq!(REQUIRED_FILES, 4);
    assert_eq!(required_file(3), Some("model-00002-of-00002.safetensors"));
    assert_eq!(required_file(4), None);
    assert_eq!(required_file(usize::MAX), None);
}

#[test]
fn needed_files_are_the_missing_ones_in_order() {
    assert_eq!(needed_files(&vec![true, true, true, true]), Vec::<usize>::new());
    assert_eq!(needed_files(&vec![false, false, false, false]), vec![0, 1, 2, 3]);
    assert_eq!(needed_files(&vec![true, false, true, false]), vec![1, 3]);
    // a file without an entry counts as not found
    assert_eq!(needed_files(&vec![true]), vec![1, 2, 3]);
    assert_eq!(needed_files(&vec![]), vec![0, 1, 2, 3]);
    // entries beyond the files of the model are not looked at
    assert_eq!(needed_files(&vec![true, true, true, true, false]), Vec::<usize>::new());
}

#[test]
fn plan_uses_existing_files_only_when_all_are_there() {
    assert_eq!(plan_model_files(true, &vec![true, true, true, true]), FilesStep::UseExisting);
    assert_eq!(
        plan_model_files(true, &vec![true, true, false, true]),
        FilesStep::Download { needed: vec![2] }
    );
    assert_eq!(
        plan_model_files(true, &vec![false, false, false, false]),
        FilesStep::Download { needed: vec![0, 1, 2, 3] }
    );
}

#[test]
fn plan_for_a_missing_directory_fetches_everything() {
    assert_eq!(
        plan_model_files(false, &vec![]),
        FilesStep::CreateAndDownload { needed: vec![0, 1, 2, 3] }
    );
    // what was reported as found in a directory that is not there does not count
    assert_eq!(
        plan_model_files(false, &vec![true, true, true, true]),
        FilesStep::CreateAndDownload { needed: vec![0, 1, 2, 3] }
    );
}

#[test]
fn a_round_that_fetched_nothing_is_an_error() {
    assert_eq!(after_download(0), Err(PipelineError::Config));
    assert_eq!(after_download(1), Ok(()));
    assert_eq!(after_download(4), Ok(()));
}

#[test]
fn file_roles_need_two_files() {
    assert_eq!(file_roles(0), None);
    assert_eq!(file_roles(1), None);
    assert_eq!(
        file_roles(2),
        Some(FileRoles { config: 0, weights_start: 1, weights_end: 1, tokenizer: 1 })
    );
    assert_eq!(
        file_roles(4),
        Some(FileRoles { config: 0, weights_start: 1, weights_end: 3, tokenizer: 3 })
    );
}
