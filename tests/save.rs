use async_openai::naming::{decimal_text, image_file_name_text};
use async_openai::resolve::{check_fetch_status, payload_of, AssetError, Payload};
use async_openai::save::{plan_jobs, SaveAction, SaveEvent, SaveFailure, SaveSession};
use async_openai::types::{ImageData, ImageInput, ImageResponse, ImageSize, ResponseFormat};

fn response_of(data: Vec<ImageData>) -> ImageResponse {
    ImageResponse { created: 1700000000, data }
}

fn inline(text: &str) -> ImageData {
    ImageData::B64Json(text.to_string())
}

fn started(response: &ImageResponse) -> (SaveSession, usize) {
    let mut session = SaveSession::new(response, "run7");
    match session.step(SaveEvent::DirectoryChecked(Ok(true))) {
        SaveAction::RunJobs(jobs) => (session, jobs.len()),
        other => panic!("expected jobs, got {:?}", other),
    }
}

#[test]
fn image_size_names() {
    assert_eq!(ImageSize::S256x256.as_str(), "256x256");
    assert_eq!(ImageSize::S512x512.as_str(), "512x512");
    assert_eq!(ImageSize::S1024x1024.as_str(), "1024x1024");
}

#[test]
fn response_format_names() {
    assert_eq!(ResponseFormat::Url.as_str(), "url");
    assert_eq!(ResponseFormat::B64Json.as_str(), "b64_json");
}

#[test]
fn image_input_keeps_path() {
    let input = ImageInput::new("./images/cake.png");
    assert_eq!(input.path, "./images/cake.png");
}

#[test]
fn decimal_text_values() {
    assert_eq!(decimal_text(0), "0");
    assert_eq!(decimal_text(9), "9");
    assert_eq!(decimal_text(10), "10");
    assert_eq!(decimal_text(907), "907");
    assert_eq!(decimal_text(usize::MAX), usize::MAX.to_string());
}

#[test]
fn file_name_of_position() {
    assert_eq!(image_file_name_text("batch", 12), "batch-12.png");
    assert_eq!(image_file_name_text("", 0), "-0.png");
}

#[test]
fn plan_has_one_job_per_image_with_distinct_names() {
    let data = vec![inline("aGk="), ImageData::Url("https://example.com/a.png".to_string()), inline("aGk=")];
    let jobs = plan_jobs(&data, "t");
    assert_eq!(jobs.len(), 3);
    let names: Vec<&str> = jobs.iter().map(|j| j.file_name.as_str()).collect();
    assert_eq!(names, vec!["t-0.png", "t-1.png", "t-2.png"]);
    assert!(matches!(&jobs[1].source, ImageData::Url(u) if u == "https://example.com/a.png"));
    assert!(matches!(&jobs[2].source, ImageData::B64Json(t) if t == "aGk="));
}

#[test]
fn plan_of_many_images_never_repeats_a_name() {
    let data: Vec<ImageData> = (0..120).map(|_| inline("aGk=")).collect();
    let jobs = plan_jobs(&data, "x");
    let mut names: Vec<String> = jobs.iter().map(|j| j.file_name.clone()).collect();
    names.sort();
    names.dedup();
    assert_eq!(names.len(), data.len());
}

#[test]
fn inline_payload_is_decoded() {
    match payload_of(&inline("aGVsbG8=")) {
        Ok(Payload::Bytes(bytes)) => assert_eq!(bytes, b"hello".to_vec()),
        other => panic!("unexpected {:?}", other),
    }
}

#[test]
fn invalid_inline_payload_is_a_decode_error() {
    match payload_of(&inline("not base64!")) {
        Err(AssetError::Decode(detail)) => assert!(!detail.is_empty()),
        other => panic!("unexpected {:?}", other),
    }
}

#[test]
fn link_payload_is_fetched() {
    match payload_of(&ImageData::Url("https://example.com/x.png".to_string())) {
        Ok(Payload::Fetch(url)) => assert_eq!(url, "https://example.com/x.png"),
        other => panic!("unexpected {:?}", other),
    }
}

#[test]
fn fetch_status_success_range() {
    assert!(check_fetch_status("u", 200).is_ok());
    assert!(check_fetch_status("u", 299).is_ok());
    match check_fetch_status("https://example.com/x.png", 404) {
        Err(AssetError::Fetch(detail)) => {
            assert_eq!(detail, "https://example.com/x.png answered with status 404")
        }
        other => panic!("unexpected {:?}", other),
    }
    assert!(check_fetch_status("u", 199).is_err());
    assert!(check_fetch_status("u", 300).is_err());
}

#[test]
fn error_messages() {
    assert_eq!(AssetError::Directory("denied".to_string()).message(), "cannot prepare directory: denied");
    assert_eq!(AssetError::Decode("bad".to_string()).message(), "cannot decode image: bad");
    assert_eq!(AssetError::Fetch("404".to_string()).message(), "cannot fetch image: 404");
    assert_eq!(AssetError::Write("full".to_string()).message(), "cannot write image: full");
    assert_eq!(AssetError::Task("panicked".to_string()).message(), "image task failed: panicked");
}

#[test]
fn failure_message_joins_reasons() {
    let failure = SaveFailure { reasons: vec!["a".to_string(), "b c".to_string(), "d".to_string()] };
    assert_eq!(failure.message(), "a; b c; d");
    let one = SaveFailure { reasons: vec!["only".to_string()] };
    assert_eq!(one.message(), "only");
    let none = SaveFailure { reasons: vec![] };
    assert_eq!(none.message(), "");
}

#[test]
fn empty_response_succeeds_without_jobs() {
    let response = response_of(vec![]);
    let mut session = SaveSession::new(&response, "e");
    assert!(matches!(session.step(SaveEvent::DirectoryChecked(Ok(true))), SaveAction::Finish(Ok(()))));

    let mut fresh = SaveSession::new(&response, "e");
    assert!(matches!(fresh.step(SaveEvent::DirectoryChecked(Ok(false))), SaveAction::CreateDirectory));
    assert!(matches!(fresh.step(SaveEvent::DirectoryCreated(Ok(()))), SaveAction::Finish(Ok(()))));
}

#[test]
fn all_jobs_succeed() {
    let response = response_of(vec![inline("aGk="), inline("aGk="), inline("aGk=")]);
    let (mut session, n) = started(&response);
    assert_eq!(n, 3);
    assert!(matches!(session.step(SaveEvent::JobFinished(Ok(()))), SaveAction::Wait));
    assert!(matches!(session.step(SaveEvent::JobFinished(Ok(()))), SaveAction::Wait));
    assert!(matches!(session.step(SaveEvent::JobFinished(Ok(()))), SaveAction::Finish(Ok(()))));
}

#[test]
fn partial_failures_are_all_reported() {
    let response = response_of(vec![inline("aGk="), inline("!!"), inline("aGk="), inline("??")]);
    let (mut session, n) = started(&response);
    assert_eq!(n, 4);
    session.step(SaveEvent::JobFinished(Ok(())));
    session.step(SaveEvent::JobFinished(Err(AssetError::Decode("first".to_string()))));
    session.step(SaveEvent::JobFinished(Err(AssetError::Task("second".to_string()))));
    match session.step(SaveEvent::JobFinished(Ok(()))) {
        SaveAction::Finish(Err(failure)) => assert_eq!(
            failure.reasons,
            vec!["cannot decode image: first".to_string(), "image task failed: second".to_string()]
        ),
        other => panic!("unexpected {:?}", other),
    }
}

#[test]
fn failing_job_does_not_hide_successful_one() {
    let response = response_of(vec![inline("!!"), inline("aGk=")]);
    let (mut session, n) = started(&response);
    assert_eq!(n, 2);
    assert!(matches!(
        session.step(SaveEvent::JobFinished(Err(AssetError::Write("disk full".to_string())))),
        SaveAction::Wait
    ));
    match session.step(SaveEvent::JobFinished(Ok(()))) {
        SaveAction::Finish(Err(failure)) => {
            assert_eq!(failure.reasons, vec!["cannot write image: disk full".to_string()])
        }
        other => panic!("unexpected {:?}", other),
    }
}

#[test]
fn missing_directory_is_created_before_jobs() {
    let response = response_of(vec![inline("aGk="), inline("aGk=")]);
    let mut session = SaveSession::new(&response, "d");
    assert!(matches!(session.step(SaveEvent::JobFinished(Ok(()))), SaveAction::Wait));
    assert!(matches!(session.step(SaveEvent::DirectoryChecked(Ok(false))), SaveAction::CreateDirectory));
    match session.step(SaveEvent::DirectoryCreated(Ok(()))) {
        SaveAction::RunJobs(jobs) => {
            assert_eq!(jobs.len(), 2);
            assert_eq!(jobs[0].file_name, "d-0.png");
            assert_eq!(jobs[1].file_name, "d-1.png");
        }
        other => panic!("unexpected {:?}", other),
    }
}

#[test]
fn directory_creation_failure_is_single_reason() {
    let response = response_of(vec![inline("aGk="), inline("aGk=")]);
    let mut session = SaveSession::new(&response, "d");
    session.step(SaveEvent::DirectoryChecked(Ok(false)));
    match session.step(SaveEvent::DirectoryCreated(Err("File exists".to_string()))) {
        SaveAction::Finish(Err(failure)) => {
            assert_eq!(failure.reasons, vec!["cannot prepare directory: File exists".to_string()])
        }
        other => panic!("unexpected {:?}", other),
    }
    assert!(matches!(session.step(SaveEvent::DirectoryCreated(Ok(()))), SaveAction::Wait));
    assert!(matches!(session.step(SaveEvent::JobFinished(Ok(()))), SaveAction::Wait));
}

#[test]
fn directory_check_failure_is_single_reason() {
    let response = response_of(vec![inline("aGk=")]);
    let mut session = SaveSession::new(&response, "d");
    match session.step(SaveEvent::DirectoryChecked(Err("permission denied".to_string()))) {
        SaveAction::Finish(Err(failure)) => assert_eq!(failure.reasons.len(), 1),
        other => panic!("unexpected {:?}", other),
    }
    assert!(matches!(session.step(SaveEvent::DirectoryChecked(Ok(true))), SaveAction::Wait));
}
