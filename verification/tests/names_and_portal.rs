use colorful_picker::palette::{palette_from_entries, ColorEntry};
use colorful_picker::portal::{screenshot_uri, PortalError};

fn entry(name: &str, hex: &str) -> ColorEntry {
    ColorEntry { name: name.to_string(), hex: hex.to_string() }
}

#[test]
fn palette_keeps_readable_entries_in_order() {
    let entries = vec![
        entry("Black", "#000000"),
        entry("Broken", "#12"),
        entry("Dodger Blue", "#1e90ff"),
        entry("Bad digits", "#zz0000"),
        entry("White", "ffffff"),
    ];
    let p = palette_from_entries(&entries);
    assert_eq!(p.names, vec!["Black", "Dodger Blue", "White"]);
    assert_eq!(p.colors, vec![(0, 0, 0), (30, 144, 255), (255, 255, 255)]);
}

#[test]
fn palette_of_nothing_is_empty() {
    let p = palette_from_entries(&Vec::new());
    assert!(p.names.is_empty());
    assert!(p.colors.is_empty());
}

#[test]
fn portal_success_gives_uri() {
    assert_eq!(
        screenshot_uri(0, Some("file:///tmp/shot.png".to_string())),
        Ok("file:///tmp/shot.png".to_string())
    );
}

#[test]
fn portal_failures() {
    assert_eq!(screenshot_uri(1, Some("file:///x".to_string())), Err(PortalError::Failed(1)));
    assert_eq!(screenshot_uri(2, None), Err(PortalError::Failed(2)));
    assert_eq!(screenshot_uri(0, None), Err(PortalError::MissingUri));
}
