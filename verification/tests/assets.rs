use mini_ops::assets::{media_type, media_type_or_bytes, serve_file, FileResponse};

#[test]
fn media_type_goes_by_the_extension() {
    assert_eq!(media_type("index.html"), "text/html");
    assert_eq!(media_type("assets/app.JS"), "text/javascript");
    assert_eq!(media_type("assets/style.css"), "text/css");
    assert_eq!(media_type("logo.png"), "image/png");
    assert_eq!(media_type("README"), "application/octet-stream");
    assert_eq!(media_type("archive.unknownext"), "application/octet-stream");
    assert_eq!(media_type(""), "application/octet-stream");
}

#[test]
fn existing_file_is_served_under_its_type() {
    match serve_file("assets/style.css", Some(b"body{}".to_vec()), Some(b"<html>".to_vec())) {
        FileResponse::Found(media, body) => {
            assert_eq!(media, "text/css");
            assert_eq!(body, b"body{}");
        }
        other => panic!("expected the file, got {:?}", other),
    }
}

#[test]
fn missing_asset_is_not_found() {
    match serve_file("assets/missing.js", None, Some(b"<html>".to_vec())) {
        FileResponse::NotFound(words) => assert_eq!(words, "Asset not found"),
        other => panic!("expected nothing, got {:?}", other),
    }
}

#[test]
fn other_paths_get_the_entry_page() {
    match serve_file("settings/profile", None, Some(b"<html>".to_vec())) {
        FileResponse::Found(media, body) => {
            assert_eq!(media, "text/html");
            assert_eq!(body, b"<html>");
        }
        other => panic!("expected the entry page, got {:?}", other),
    }
    match serve_file("settings/profile", None, None) {
        FileResponse::NotFound(words) => assert_eq!(words, "index.html not found"),
        other => panic!("expected nothing, got {:?}", other),
    }
}

#[test]
fn guess_is_taken_where_there_is_one() {
    assert_eq!(media_type_or_bytes(Some("image/gif".to_string())), "image/gif");
    assert_eq!(media_type_or_bytes(None), "application/octet-stream");
}
