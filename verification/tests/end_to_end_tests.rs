use base64::Engine;
use catch_cli::api_client::session_status_entity::{
    CatchSessionProcessInfo, CatchSessionStatusResponse,
};
use catch_cli::api_client::CatchApiClient;
use catch_cli::code_candidate_selector::filter_code_files;
use catch_cli::code_reader::{find_and_read_files, SourceFile};
use catch_cli::cryptography::EncryptionContext;
use catch_cli::ongoing_session::active_session_checker::is_session_valid;
use catch_cli::ongoing_session::handle_sessions;

fn file(components: &[&str], content: &str) -> SourceFile {
    SourceFile {
        components: components.iter().map(|c| c.to_string()).collect(),
        content: content.to_string(),
    }
}

#[test]
fn session_scan_and_round_trip() {
    // the temporary directory holds one marker
    let temp = vec!["catch_session_abc".to_string()];
    let session_id = handle_sessions(&temp).unwrap();
    assert_eq!(session_id, "abc");

    // the status endpoint answers with an empty process
    let answer = CatchApiClient::handle_response(
        200,
        Some(Ok(CatchSessionStatusResponse {
            process: CatchSessionProcessInfo { id: None, status: None, output: None },
        })),
    );
    assert_eq!(is_session_valid(answer), Ok(true));

    // the project holds four files, one of which is not source
    let project = vec![
        file(&["test.js"], "console.log('héllo');"),
        file(&["subfolder", "test.py"], "print('hi')"),
        file(&["AndroidManifest.xml"], "<manifest/>"),
        file(&["test.txt"], "This should be ignored"),
    ];
    let context = EncryptionContext::generate();
    let files = find_and_read_files(&project, &context.symmetric_key, &context.iv).unwrap();
    let paths: Vec<&str> = files.iter().map(|f| f.path.as_str()).collect();
    assert_eq!(paths, vec!["test.js", "subfolder/test.py", "AndroidManifest.xml"]);

    // decrypting with the run's key and vector gives the content back
    let js = &files[0];
    let ciphertext = base64::engine::general_purpose::STANDARD
        .decode(&js.encrypted_file_content)
        .unwrap();
    let plain = libaes::Cipher::new_256(&context.symmetric_key).cbc_decrypt(&context.iv, &ciphertext);
    assert_eq!(plain, "console.log('héllo');".as_bytes());

    // the service's candidates narrow the files
    let kept = filter_code_files(
        files,
        vec!["subfolder/test.py".to_string(), "not/scanned.js".to_string()],
    );
    assert_eq!(kept.len(), 1);
    assert_eq!(kept[0].path, "subfolder/test.py");
}
