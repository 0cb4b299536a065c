use base64::Engine;
use catch_cli::code_reader::{
    find_and_read_files, is_whitelisted, read_file, relative_path, wants, SourceFile,
};
use catch_cli::cryptography::EncryptionContext;

fn source(components: &[&str], content: &str) -> SourceFile {
    SourceFile {
        components: components.iter().map(|c| c.to_string()).collect(),
        content: content.to_string(),
    }
}

fn create_test_files() -> Vec<SourceFile> {
    vec![
        source(&["test.js"], "Test content"),
        source(&["subfolder", "test.py"], "Test content"),
        source(&["AndroidManifest.xml"], "Test content"),
        source(&["test.txt"], "This should be ignored"),
    ]
}

#[test]
fn test_find_and_read_files() {
    let tree = create_test_files();

    let context = EncryptionContext::generate();
    let encryption_key = context.symmetric_key;
    let iv = context.iv;

    let files = find_and_read_files(&tree, &encryption_key, &iv).unwrap();

    assert_eq!(files.len(), 3, "Expected to find 3 files");

    let file_names: Vec<&str> = files.iter().map(|f| f.path.as_str()).collect();
    assert!(file_names.contains(&"test.js"));
    assert!(file_names.contains(&"subfolder/test.py"));
    assert!(file_names.contains(&"AndroidManifest.xml"));

    for file in &files {
        assert_ne!(file.encrypted_file_content, "Test content");

        assert!(base64::engine::general_purpose::STANDARD
            .decode(&file.encrypted_file_content)
            .is_ok());
    }
}

#[test]
fn scan_then_decrypt_returns_the_original_bytes() {
    let tree = create_test_files();
    let context = EncryptionContext::generate();
    let files = find_and_read_files(&tree, &context.symmetric_key, &context.iv).unwrap();
    let js = files.iter().find(|f| f.path == "test.js").unwrap();
    let ciphertext = base64::engine::general_purpose::STANDARD
        .decode(&js.encrypted_file_content)
        .unwrap();
    let plain = libaes::Cipher::new_256(&context.symmetric_key).cbc_decrypt(&context.iv, &ciphertext);
    assert_eq!(plain, b"Test content");
}

#[test]
fn scan_keeps_walk_order_and_depth_plays_no_part() {
    let tree = vec![
        source(&["a", "b", "c", "d", "deep.kt"], "1"),
        source(&["a", "b", "c", "d", "deep.txt"], "2"),
        source(&["z.swift"], "3"),
        source(&["a.js", "README"], "4"),
        source(&["src", "Podfile"], "5"),
        source(&[], "6"),
    ];
    let key = [1u8; 32];
    let iv = [2u8; 16];
    let files = find_and_read_files(&tree, &key, &iv).unwrap();
    let paths: Vec<&str> = files.iter().map(|f| f.path.as_str()).collect();
    assert_eq!(paths, vec!["a/b/c/d/deep.kt", "z.swift", "src/Podfile"]);
    let again = find_and_read_files(&tree, &key, &iv).unwrap();
    assert_eq!(files[0].encrypted_file_content, again[0].encrypted_file_content);
    assert_eq!(
        files[1].encrypted_file_content,
        read_file(&tree[2], &key, &iv).encrypted_file_content
    );
}

#[test]
fn scan_of_nothing_wanted_is_empty() {
    let tree = vec![source(&["notes.txt"], "x"), source(&["dir", "image.png"], "y")];
    assert!(find_and_read_files(&tree, &[0u8; 32], &[0u8; 16]).unwrap().is_empty());
    assert!(find_and_read_files(&vec![], &[0u8; 32], &[0u8; 16]).unwrap().is_empty());
}

#[test]
fn whitelist_by_suffix() {
    for name in [
        "test.js", "a.ts", "x.py", "Main.java", "App.kt", "View.swift", "obj.m", "obj.mm",
        "build.gradle", "build.gradle.kts", "Cargo.toml", "app.entitlements", "Info.plist",
        "PrivacyInfo.xcprivacy", ".js", "weird name.py", "日本語.ts", "a.b.c.kts",
    ] {
        assert!(is_whitelisted(name), "{name}");
    }
}

#[test]
fn whitelist_by_exact_name() {
    assert!(is_whitelisted("AndroidManifest.xml"));
    assert!(is_whitelisted("Podfile"));
    assert!(!is_whitelisted("androidmanifest.xml"));
    assert!(!is_whitelisted("MyAndroidManifest.xml"));
    assert!(!is_whitelisted("AndroidManifest.xml.bak"));
    assert!(!is_whitelisted("Podfile.lock"));
    assert!(!is_whitelisted("podfile"));
    assert!(!is_whitelisted("xPodfile"));
}

#[test]
fn whitelist_rejects_other_names() {
    for name in [
        "test.txt", "", "js", "test.JS", "test.Js", "test.jsx", "test.js ", "test.pyc", "a.rs",
        "Makefile", "test.tsx", "*.js.bak", "m", "file.M", "strings.xml", "a.toml~", "*",
    ] {
        assert!(!is_whitelisted(name), "{name}");
    }
    assert!(is_whitelisted("*.js"));
}

#[test]
fn wanted_goes_by_the_last_name() {
    let yes: Vec<String> = vec!["txt".to_string(), "a.py".to_string()];
    let no: Vec<String> = vec!["a.py".to_string(), "txt".to_string()];
    let none: Vec<String> = vec![];
    assert!(wants(&yes));
    assert!(!wants(&no));
    assert!(!wants(&none));
}

#[test]
fn relative_paths_use_forward_slashes() {
    let parts = |list: &[&str]| -> Vec<String> { list.iter().map(|c| c.to_string()).collect() };
    assert_eq!(relative_path(&parts(&[])), "");
    assert_eq!(relative_path(&parts(&["test.js"])), "test.js");
    assert_eq!(relative_path(&parts(&["subfolder", "test.py"])), "subfolder/test.py");
    assert_eq!(relative_path(&parts(&["a", "", "b"])), "a//b");
    assert_eq!(relative_path(&parts(&["", "x"])), "/x");
    assert_eq!(relative_path(&parts(&["dir é", "ファイル.kt"])), "dir é/ファイル.kt");
}
