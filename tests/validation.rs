use std::cell::Cell;

use bikprep::{
    check_encoder_in_folder, encoder_path_in, precheck, precheck_with, resolve_encoder_folder,
    resolve_output_path, GameFormat, LaunchRequest, ValidationError,
};

fn request(infile: &str, folder: Option<&str>, outfile: Option<&str>) -> LaunchRequest {
    LaunchRequest {
        infile: infile.to_string(),
        format: GameFormat::N100F,
        overwrite: false,
        radvideo_path: folder.map(|s| s.to_string()),
        outfile: outfile.map(|s| s.to_string()),
    }
}

/// A search path holding the encoder in `/opt/rad`, and encoders installed
/// in `/opt/rad` and `/valid/encoder/dir`.
fn installed(name: &str) -> Option<String> {
    match name {
        "radvideo64.exe" => Some("/opt/rad/radvideo64.exe".to_string()),
        "/opt/rad/radvideo64.exe" | "/valid/encoder/dir/radvideo64.exe" => Some(name.to_string()),
        _ => None,
    }
}

/// Encoders installed in `/valid/encoder/dir` only, nothing on the search path.
fn installed_off_path(name: &str) -> Option<String> {
    match name {
        "/valid/encoder/dir/radvideo64.exe" => Some(name.to_string()),
        _ => None,
    }
}

#[test]
fn resolution_of_every_game() {
    assert_eq!(GameFormat::N100F._get_resolution(), (640, 480));
    assert_eq!(GameFormat::Battle._get_resolution(), (640, 480));
    assert_eq!(GameFormat::Movie._get_resolution(), (512, 480));
    assert_eq!(GameFormat::ROTU._get_resolution(), (512, 480));
    assert_eq!(GameFormat::Incredibles._get_resolution(), (512, 448));
}

#[test]
fn derived_output_replaces_extension() {
    let r = resolve_output_path(&"video.mp4".to_string(), None);
    assert_eq!(r, "video.bik");
}

#[test]
fn derived_output_keeps_directory() {
    let r = resolve_output_path(&"clips/intro.avi".to_string(), None);
    assert_eq!(r, "clips/intro.bik");
}

#[test]
fn derived_output_adds_missing_extension() {
    let r = resolve_output_path(&"intro".to_string(), None);
    assert_eq!(r, "intro.bik");
}

#[test]
fn explicit_output_is_kept_verbatim() {
    let r = resolve_output_path(&"video.mp4".to_string(), Some("out/custom.bik".to_string()));
    assert_eq!(r, "out/custom.bik");
}

#[test]
fn explicit_folder_wins_over_search_path() {
    let a = resolve_encoder_folder(
        Some("/valid/encoder/dir".to_string()),
        Some("/elsewhere/radvideo64.exe".to_string()),
    );
    let b = resolve_encoder_folder(Some("/valid/encoder/dir".to_string()), None);
    assert_eq!(a.unwrap(), "/valid/encoder/dir");
    assert_eq!(b.unwrap(), "/valid/encoder/dir");
    let checked = check_encoder_in_folder("/valid/encoder/dir".to_string(), true);
    assert_eq!(checked.unwrap(), "/valid/encoder/dir");
}

#[test]
fn search_path_gives_containing_directory() {
    let r = resolve_encoder_folder(None, Some("/opt/radvideo/radvideo64.exe".to_string()));
    assert_eq!(r.unwrap(), "/opt/radvideo");
}

#[test]
fn no_folder_and_nothing_on_search_path() {
    let r = resolve_encoder_folder(None, None);
    assert!(matches!(r, Err(ValidationError::EncoderNotFound)));
}

#[test]
fn found_path_without_parent_is_not_a_folder() {
    let r = resolve_encoder_folder(None, Some(String::new()));
    assert!(matches!(r, Err(ValidationError::EncoderNotFound)));
}

#[test]
fn folder_without_encoder_is_named() {
    let r = check_encoder_in_folder("/tmp/empty".to_string(), false);
    match r {
        Err(ValidationError::EncoderNotInFolder { folder }) => assert_eq!(folder, "/tmp/empty"),
        _ => panic!("expected EncoderNotInFolder"),
    }
}

#[test]
fn encoder_path_is_inside_folder() {
    assert_eq!(encoder_path_in(&"/opt/rad".to_string()), "/opt/rad/radvideo64.exe");
}

#[test]
fn explicit_folder_with_encoder_passes() {
    let req = request("video.mp4", Some("/valid/encoder/dir"), None);
    let (handle, c) = precheck_with(req, installed_off_path, |_: &str| Some(7u8)).unwrap();
    assert_eq!(handle, 7);
    assert_eq!(c.radvideo_path(), "/valid/encoder/dir");
    assert_eq!(c.outfile(), "video.bik");
}

#[test]
fn explicit_folder_ignores_search_hit() {
    let req = request("video.mp4", Some("/valid/encoder/dir"), None);
    let (_, c) = precheck_with(req, installed, |_: &str| Some(())).unwrap();
    assert_eq!(c.radvideo_path(), "/valid/encoder/dir");
}

#[test]
fn search_path_hit_gives_its_directory() {
    let req = request("video.mp4", None, None);
    let (_, c) = precheck_with(req, installed, |_: &str| Some(())).unwrap();
    assert_eq!(c.radvideo_path(), "/opt/rad");
}

#[test]
fn search_path_miss_fails_before_input_is_opened() {
    let opened = Cell::new(false);
    let req = request("missing.mp4", None, None);
    let r = precheck_with(req, installed_off_path, |_: &str| {
        opened.set(true);
        None::<()>
    });
    assert!(matches!(r, Err(ValidationError::EncoderNotFound)));
    assert!(!opened.get());
}

#[test]
fn explicit_folder_without_encoder_fails_before_input_is_opened() {
    let opened = Cell::new(false);
    let req = request("missing.mp4", Some("/empty/dir"), None);
    let r = precheck_with(req, installed, |_: &str| {
        opened.set(true);
        None::<()>
    });
    match r {
        Err(ValidationError::EncoderNotInFolder { folder }) => assert_eq!(folder, "/empty/dir"),
        _ => panic!("expected EncoderNotInFolder"),
    }
    assert!(!opened.get());
}

#[test]
fn missing_input_is_named() {
    let asked = Cell::new(String::new());
    let req = request("missing.mp4", Some("/valid/encoder/dir"), None);
    let r = precheck_with(req, installed_off_path, |p: &str| {
        asked.set(p.to_string());
        None::<()>
    });
    match r {
        Err(ValidationError::InputNotFound { path }) => assert_eq!(path, "missing.mp4"),
        _ => panic!("expected InputNotFound"),
    }
    assert_eq!(asked.take(), "missing.mp4");
}

#[test]
fn readable_input_gives_full_configuration() {
    let mut req = request("video.mp4", Some("/valid/encoder/dir"), None);
    req.format = GameFormat::Incredibles;
    req.overwrite = true;
    let (_, c) = precheck_with(req, installed_off_path, |_: &str| Some(())).unwrap();
    assert_eq!(c.format(), GameFormat::Incredibles);
    assert!(c.overwrite());
    assert_eq!(c.radvideo_path(), "/valid/encoder/dir");
    assert_eq!(c.outfile(), "video.bik");
    assert_eq!(c.format()._get_resolution(), (512, 448));
}

#[test]
fn readable_input_keeps_explicit_output() {
    let req = request("video.mp4", Some("/valid/encoder/dir"), Some("final.bik"));
    let (_, c) = precheck_with(req, installed_off_path, |_: &str| Some(())).unwrap();
    assert_eq!(c.outfile(), "final.bik");
    assert!(!c.overwrite());
}

#[test]
fn real_lookup_rejects_folder_without_encoder() {
    let dir = "/no/such/encoder/folder/anywhere";
    let req = request("video.mp4", Some(dir), None);
    let r = precheck(req, |_: &str| Some(()));
    match r {
        Err(ValidationError::EncoderNotInFolder { folder }) => assert_eq!(folder, dir),
        _ => panic!("expected EncoderNotInFolder"),
    }
}
