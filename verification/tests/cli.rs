use clive::cli::{cli, is_image_extension, is_image_path, Args};

fn strings(items: &[&str]) -> Vec<String> {
    items.iter().map(|s| s.to_string()).collect()
}

#[test]
fn the_five_extensions_are_images() {
    for ext in ["jpg", "jpeg", "png", "bmp", "webp"] {
        assert!(is_image_extension(ext));
    }
}

#[test]
fn the_case_of_an_extension_does_not_matter() {
    for ext in ["JPG", "Jpeg", "pNg", "BMP", "WebP", "jPG", "WEBP"] {
        assert!(is_image_extension(ext));
    }
}

#[test]
fn other_extensions_are_no_images() {
    for ext in ["", "j", "jp", "jpgx", "xjpg", "gif", "tiff", "txt", "pgn", "jpe", "webm", "j\u{f0}g", "\u{212a}pg"] {
        assert!(!is_image_extension(ext));
    }
}

#[test]
fn a_character_that_is_no_letter_matches_no_letter() {
    assert!(!is_image_extension("*pg"));
    assert!(!is_image_extension("jp\u{47}\u{0}"));
    assert!(!is_image_extension("\u{2a}PG"));
    assert!(is_image_extension("\u{4a}PG"));
}

#[test]
fn a_path_is_an_image_by_its_extension() {
    assert!(is_image_path("a.jpg"));
    assert!(is_image_path("dir/sub/photo.JPEG"));
    assert!(is_image_path("archive.tar.png"));
    assert!(is_image_path("dir.d/x.webp"));
    assert!(!is_image_path("a.txt"));
    assert!(!is_image_path("jpg"));
    assert!(!is_image_path(".jpg"));
    assert!(!is_image_path("dir.jpg/readme"));
    assert!(!is_image_path("a.jpg.bak"));
    assert!(!is_image_path("a."));
    assert!(!is_image_path(""));
}

#[test]
fn only_images_are_kept_in_their_order() {
    let found = strings(&["b.png", "notes.txt", "a.JPG", "jpg", "c/d.bmp", "e.gif", "b.png", "f.webp", "g.jpeg"]);
    let args = cli(found, "./keep".to_string());
    assert_eq!(args.files, strings(&["b.png", "a.JPG", "c/d.bmp", "b.png", "f.webp", "g.jpeg"]));
    assert_eq!(args.dest_folder, "./keep");
}

#[test]
fn nothing_found_gives_no_files() {
    let args = cli(Vec::new(), "out".to_string());
    assert!(args.files.is_empty());
    assert_eq!(args.dest_folder, "out");
}

#[test]
fn no_image_among_the_files_gives_no_files() {
    let args = cli(strings(&["a.txt", "png", "b.mp4"]), "out".to_string());
    assert!(args.files.is_empty());
}

#[test]
fn args_can_be_made_by_hand() {
    let args = Args { files: strings(&["x.png"]), dest_folder: "keep".to_string() };
    assert_eq!(args.files.len(), 1);
    assert_eq!(args.dest_folder, "keep");
}
