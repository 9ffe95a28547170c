//! Round-trip scenarios for the three-phase upload protocol, driven with a
//! recording stub in place of the backend store.

use upload_facade::controller::Uploader;
use upload_facade::models::Config;
use upload_facade::models::ContinueUploadRequest;
use upload_facade::models::Credential;
use upload_facade::models::FinishUploadRequest;
use upload_facade::models::StartUploadRequest;
use upload_facade::models::MAX_CHUNK_SIZE;
use upload_facade::models::MULTIPART_BODY_LIMIT;
use upload_facade::models::UPLOAD_ID_FIELD_LIMIT;

fn new_uploader() -> Uploader {
    Uploader::new(Config::new(&"acct".to_string(), &"bucket".to_string()))
}

fn start_request(file_name: &str, content_type: &str) -> StartUploadRequest {
    StartUploadRequest {
        file_name: file_name.to_string(),
        file_size: 5,
        file_hash: "h".to_string(),
        content_type: content_type.to_string(),
    }
}

/// Starts a session and reports the handle, simulating a healthy backend.
fn start_session(up: &mut Uploader, file_name: &str, content_type: &str) -> String {
    let req = start_request(file_name, content_type);
    let action = up
        .start_upload(&req, Some(Credential { id: 1 }))
        .expect("start accepted");
    let resp = Uploader::start_upload_done(action.upload_id, true).expect("created");
    resp.upload_id
}

#[test]
fn advertised_limits() {
    assert_eq!(MAX_CHUNK_SIZE, 16777216);
    assert_eq!(MULTIPART_BODY_LIMIT, 134217728);
    assert_eq!(UPLOAD_ID_FIELD_LIMIT, 1024);
}

#[test]
fn start_single_chunk_happy_path() {
    let mut backend: Vec<String> = Vec::new();
    let mut up = new_uploader();
    let req = start_request("a.txt", "text/plain");
    let action = up
        .start_upload(&req, Some(Credential { id: 1 }))
        .expect("start accepted");
    assert_eq!(action.account, "acct");
    assert_eq!(action.container, "bucket");
    assert_eq!(action.blob_name, "a.txt");
    assert_eq!(action.content_type, "text/plain");
    backend.push(format!("create_append({})", action.content_type));
    let resp = Uploader::start_upload_done(action.upload_id.clone(), true).expect("created");
    assert_eq!(resp.chunk_size, Some(16777216));
    let u = resp.upload_id;
    assert_eq!(u, action.upload_id);

    let creq = ContinueUploadRequest {
        upload_id: u.clone(),
        chunk_data: Some(b"hello".to_vec()),
    };
    let append = up.continue_upload(creq).expect("continue accepted");
    assert_eq!(append.account, "acct");
    assert_eq!(append.container, "bucket");
    assert_eq!(append.blob_name, "a.txt");
    assert_eq!(append.data, b"hello".to_vec());
    backend.push(format!(
        "append_block({})",
        String::from_utf8(append.data.clone()).unwrap()
    ));
    let resp2 = Uploader::continue_upload_done(append.upload_id, true).expect("appended");
    assert_eq!(resp2.upload_id, u);
    assert_eq!(resp2.chunk_size, None);

    let fin = up
        .finish_upload(&FinishUploadRequest {
            upload_id: u.clone(),
        })
        .expect("finish answers");
    assert_eq!(fin.upload_id, u);
    assert_eq!(fin.file_hash, "");

    assert_eq!(
        backend,
        vec![
            "create_append(text/plain)".to_string(),
            "append_block(hello)".to_string()
        ]
    );
}

#[test]
fn serial_continues_append_in_order() {
    let mut up = new_uploader();
    let u = start_session(&mut up, "big.bin", "application/octet-stream");
    let mut backend: Vec<Vec<u8>> = Vec::new();
    let chunks = vec![b"AAA".to_vec(), b"BBB".to_vec(), b"CCC".to_vec()];
    for chunk in chunks.clone() {
        let a = up
            .continue_upload(ContinueUploadRequest {
                upload_id: u.clone(),
                chunk_data: Some(chunk),
            })
            .expect("continue accepted");
        backend.push(a.data.clone());
        Uploader::continue_upload_done(a.upload_id, true).expect("appended");
    }
    assert_eq!(backend, chunks);
}

#[test]
fn unknown_session_rejected() {
    let mut up = new_uploader();
    let err = match up.continue_upload(ContinueUploadRequest {
        upload_id: "does-not-exist".to_string(),
        chunk_data: Some(b"x".to_vec()),
    }) {
        Err(e) => e,
        Ok(_) => panic!("continue accepted an unknown session"),
    };
    assert_eq!(err.error, "query failed");
}

#[test]
fn missing_chunk_rejected() {
    let mut up = new_uploader();
    let u = start_session(&mut up, "a.txt", "text/plain");
    let err = match up.continue_upload(ContinueUploadRequest {
        upload_id: u,
        chunk_data: None,
    }) {
        Err(e) => e,
        Ok(_) => panic!("continue accepted a request without a chunk"),
    };
    assert_eq!(err.error, "continue_upload chunk_data not found");
}

#[test]
fn evicted_credential_rejected_row_remains() {
    let mut up = new_uploader();
    let u = start_session(&mut up, "a.txt", "text/plain");
    assert!(up.store.remove_credential(&u));
    let err = match up.continue_upload(ContinueUploadRequest {
        upload_id: u.clone(),
        chunk_data: Some(b"x".to_vec()),
    }) {
        Err(e) => e,
        Ok(_) => panic!("continue accepted a session without a credential"),
    };
    assert_eq!(err.error, "continue_upload credentials not found");
    // the persistent row is still there
    let row = up.store.lookup(&u).unwrap();
    assert_eq!(row.upload_id, u);
    assert!(up.store.fetch_credential(&u).is_none());
}

#[test]
fn append_failure_leaves_session_open() {
    let mut up = new_uploader();
    let u = start_session(&mut up, "a.txt", "text/plain");

    let a = up
        .continue_upload(ContinueUploadRequest {
            upload_id: u.clone(),
            chunk_data: Some(b"first".to_vec()),
        })
        .expect("continue accepted");
    // the backend fails this append
    let err = match Uploader::continue_upload_done(a.upload_id, false) {
        Err(e) => e,
        Ok(_) => panic!("a failed append was reported as success"),
    };
    assert_eq!(err.error, "put block failed");

    // the session stayed open: the next chunk goes through a healed backend
    let a2 = up
        .continue_upload(ContinueUploadRequest {
            upload_id: u.clone(),
            chunk_data: Some(b"second".to_vec()),
        })
        .expect("session still open");
    assert_eq!(a2.data, b"second".to_vec());
    let resp = Uploader::continue_upload_done(a2.upload_id, true).expect("appended");
    assert_eq!(resp.upload_id, u);
}

#[test]
fn blob_creation_failure_reported() {
    let mut up = new_uploader();
    let req = start_request("a.txt", "text/plain");
    let action = up
        .start_upload(&req, Some(Credential { id: 1 }))
        .expect("start accepted");
    let err = match Uploader::start_upload_done(action.upload_id, false) {
        Err(e) => e,
        Ok(_) => panic!("a failed blob creation was reported as success"),
    };
    assert_eq!(err.error, "put block failed");
}

#[test]
fn rejected_start_without_credential() {
    let mut up = new_uploader();
    let req = start_request("a.txt", "text/plain");
    let err = match up.start_upload(&req, None) {
        Err(e) => e,
        Ok(_) => panic!("start accepted without a credential"),
    };
    assert_eq!(err.error, "Failed to get token");
    assert!(up.store.lookup(&"a.txt".to_string()).is_none());
}

#[test]
fn rejected_start_without_extension() {
    let mut up = new_uploader();
    let err = match up.start_upload(&start_request("README", "text/plain"), Some(Credential { id: 1 })) {
        Err(e) => e,
        Ok(_) => panic!("start accepted a name without an extension"),
    };
    assert_eq!(err.error, "file_ext not found");

    let err = match up.start_upload(&start_request("name.", "text/plain"), Some(Credential { id: 1 })) {
        Err(e) => e,
        Ok(_) => panic!("start accepted a name with a trailing dot"),
    };
    assert_eq!(err.error, "file_ext not found");
}

#[test]
fn handles_are_fresh_per_start() {
    let mut up = new_uploader();
    let u1 = start_session(&mut up, "a.txt", "text/plain");
    let u2 = start_session(&mut up, "b.txt", "text/plain");
    assert_ne!(u1, u2);
    assert_eq!(u1.len(), 36);
    assert_eq!(u2.len(), 36);
}

#[test]
fn resolved_type_stored_client_type_sent() {
    let mut up = new_uploader();
    let req = start_request("page.html", "text/plain");
    let action = up
        .start_upload(&req, Some(Credential { id: 7 }))
        .expect("start accepted");
    // the blob is created with the client-supplied content type
    assert_eq!(action.content_type, "text/plain");
    // the persisted row holds the server-resolved one
    let row = up.store.lookup(&action.upload_id).unwrap();
    assert_eq!(row.content_type, "text/html");
    assert_eq!(row.file_name, "page.html");
    assert_eq!(row.file_size, 5);
    assert_eq!(row.file_hash, "h");
    assert_eq!(row.blob_access_token, "-");
    assert_eq!(row.blob_file_hash, "-");
    // the credential of the session is the one handed in
    assert_eq!(up.store.fetch_credential(&action.upload_id), Some(Credential { id: 7 }));
}
