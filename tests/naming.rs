use file_encryptor::naming::{
    decrypted_file_name, default_decrypted_dir, default_encrypted_dir, encrypted_file_name,
    has_encrypted_extension,
};
use file_encryptor::{select_encrypted, BatchRun, Commands};

#[test]
fn extension_policy_with_extension() {
    let e = encrypted_file_name("report.txt");
    assert_eq!(e, "report.txt.encrypted");
    assert!(has_encrypted_extension(&e));
    assert_eq!(decrypted_file_name(&e), "report.txt");
}

#[test]
fn extension_policy_without_extension() {
    let e = encrypted_file_name("README");
    assert_eq!(e, "README.encrypted");
    assert_eq!(decrypted_file_name(&e), "README");
}

#[test]
fn extension_policy_nested_path() {
    let e = encrypted_file_name("out/docs/a.tar.gz");
    assert_eq!(e, "out/docs/a.tar.gz.encrypted");
    assert_eq!(decrypted_file_name(&e), "out/docs/a.tar.gz");
}

#[test]
fn decrypted_name_falls_back_to_suffix() {
    assert_eq!(decrypted_file_name("data.bin"), "data.bin.decrypted");
    assert_eq!(decrypted_file_name(".encrypted"), ".encrypted.decrypted");
    assert_eq!(decrypted_file_name("dir/.encrypted"), "dir/.encrypted.decrypted");
}

#[test]
fn encrypted_extension_detection() {
    assert!(has_encrypted_extension("a.encrypted"));
    assert!(has_encrypted_extension("x/y/a.txt.encrypted"));
    assert!(!has_encrypted_extension(".encrypted"));
    assert!(!has_encrypted_extension("x/.encrypted"));
    assert!(!has_encrypted_extension("a.encrypted.txt"));
    assert!(!has_encrypted_extension("aencrypted"));
    assert!(!has_encrypted_extension(""));
}

#[test]
fn default_directories() {
    assert_eq!(default_encrypted_dir("photos"), "photos.encrypted");
    assert_eq!(default_decrypted_dir("photos.encrypted"), "photos");
    assert_eq!(default_decrypted_dir("photos"), "photos_decrypted");
    assert_eq!(default_decrypted_dir(default_encrypted_dir("a/b").as_str()), "a/b");
}

#[test]
fn command_output_paths() {
    let c = Commands::Encrypt { input: "report.txt".to_string(), output: None };
    assert_eq!(c.output_path(), "report.txt.encrypted");
    assert_eq!(c.input_path(), "report.txt");
    let c = Commands::Decrypt { input: "report.txt.encrypted".to_string(), output: None };
    assert_eq!(c.output_path(), "report.txt");
    let c = Commands::Decrypt { input: "in.enc".to_string(), output: Some("plain".to_string()) };
    assert_eq!(c.output_path(), "plain");
    let c = Commands::EncryptDir { input: "tree".to_string(), output: None };
    assert_eq!(c.output_path(), "tree.encrypted");
    let c = Commands::DecryptDir { input: "tree.encrypted".to_string(), output: None };
    assert_eq!(c.output_path(), "tree");
    let c = Commands::DecryptDir { input: "tree".to_string(), output: None };
    assert_eq!(c.output_path(), "tree_decrypted");
}

#[test]
fn select_encrypted_keeps_walk_order() {
    let walked: Vec<String> = ["t/a.txt.encrypted", "t/notes.txt", "t/sub/README.encrypted", "t/.encrypted", "t/b.encrypted.bak"]
        .iter()
        .map(|s| s.to_string())
        .collect();
    assert_eq!(select_encrypted(&walked), vec!["t/a.txt.encrypted".to_string(), "t/sub/README.encrypted".to_string()]);
    assert!(select_encrypted(&Vec::new()).is_empty());
}

#[test]
fn batch_run_is_fail_fast() {
    let mut run = BatchRun::new(3);
    assert_eq!(run.next_index(), Some(0));
    run.record(true);
    assert_eq!(run.next_index(), Some(1));
    run.record(false);
    assert_eq!(run.next_index(), None);
    assert_eq!(run.succeeded_count(), 1);
    assert!(!run.is_complete());
}

#[test]
fn batch_run_completes_and_empty_batch_is_done() {
    let empty = BatchRun::new(0);
    assert_eq!(empty.next_index(), None);
    assert!(empty.is_complete());
    let mut run = BatchRun::new(2);
    while let Some(_) = run.next_index() {
        run.record(true);
    }
    assert_eq!(run.succeeded_count(), 2);
    assert!(run.is_complete());
}

#[test]
fn encrypted_tree_names_all_selected_and_restored() {
    let tree = ["root/a.txt", "root/sub/README", "root/sub/deeper/empty", "root/.hidden"];
    let encrypted: Vec<String> = tree.iter().map(|p| encrypted_file_name(p)).collect();
    let selected = select_encrypted(&encrypted);
    assert_eq!(selected, encrypted);
    let restored: Vec<String> = selected.iter().map(|p| decrypted_file_name(p)).collect();
    assert_eq!(restored, tree.iter().map(|p| p.to_string()).collect::<Vec<_>>());
}
