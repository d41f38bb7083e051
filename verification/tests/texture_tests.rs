use blueachive::errors::RegistrationError;
use blueachive::texture::{classify_path, TextureKind, TextureManager};

#[test]
fn engine_formats_are_loaded_directly() {
    assert_eq!(classify_path("assets/bg.png"), Some(TextureKind::Direct));
    assert_eq!(classify_path("a.bmp"), Some(TextureKind::Direct));
    assert_eq!(classify_path("a.tga"), Some(TextureKind::Direct));
    assert_eq!(classify_path("a.gif"), Some(TextureKind::Direct));
}

#[test]
fn other_formats_are_decoded_first() {
    assert_eq!(classify_path("photo.jpg"), Some(TextureKind::Decoded));
    assert_eq!(classify_path("photo.jpeg"), Some(TextureKind::Decoded));
    assert_eq!(classify_path("assets/BG_GameDevRoom.webp"), Some(TextureKind::Decoded));
}

#[test]
fn extension_case_is_ignored() {
    assert_eq!(classify_path("a.PNG"), Some(TextureKind::Direct));
    assert_eq!(classify_path("a.JpEg"), Some(TextureKind::Decoded));
}

#[test]
fn unknown_extensions_are_refused() {
    assert_eq!(classify_path("notes.txt"), None);
    assert_eq!(classify_path("archive.tar.gz"), None);
    assert_eq!(classify_path("trailing-dot."), None);
    assert_eq!(classify_path(""), None);
}

#[test]
fn a_dotless_path_is_its_own_extension() {
    // Splitting on '.' and taking the last piece leaves a dotless path
    // whole, so a bare "png" counts as the png format.
    assert_eq!(classify_path("png"), Some(TextureKind::Direct));
    assert_eq!(classify_path("story"), None);
}

#[test]
fn only_the_last_dot_counts() {
    assert_eq!(classify_path("a.b.png"), Some(TextureKind::Direct));
    assert_eq!(classify_path("a.png.txt"), None);
}

#[test]
fn recorded_textures_are_found_under_their_key() {
    let mut manager = TextureManager::new();
    let kind = manager.record_texture("assets/bg.png", None).unwrap();
    assert_eq!(kind, TextureKind::Direct);

    let entry = manager.get("assets/bg.png").expect("recorded under its path");
    assert_eq!(entry.path, String::from("assets/bg.png"));
    assert_eq!(entry.kind, TextureKind::Direct);
}

#[test]
fn a_name_overrides_the_path_as_key() {
    let mut manager = TextureManager::new();
    manager.record_texture("textures/Growth_Bg.png", Some("chioce_box")).unwrap();
    assert!(manager.get("textures/Growth_Bg.png").is_none());
    let entry = manager.get("chioce_box").expect("recorded under its name");
    assert_eq!(entry.path, String::from("textures/Growth_Bg.png"));
}

#[test]
fn unsupported_formats_are_not_recorded() {
    let mut manager = TextureManager::new();
    let r = manager.record_texture("story.ink", None);
    assert_eq!(r, Err(RegistrationError::UnsupportedFormat));
    assert!(manager.get("story.ink").is_none());
}

#[test]
fn re_recording_a_key_replaces_the_entry() {
    let mut manager = TextureManager::new();
    manager.record_texture("old.png", Some("bg")).unwrap();
    manager.record_texture("new.webp", Some("bg")).unwrap();
    let entry = manager.get("bg").unwrap();
    assert_eq!(entry.path, String::from("new.webp"));
    assert_eq!(entry.kind, TextureKind::Decoded);
}
