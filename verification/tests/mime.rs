use huali_desktop::mime::mime_of;

#[test]
fn known_extensions() {
    assert_eq!(mime_of("C:\\a\\report.pdf"), "application/pdf");
    assert_eq!(mime_of("x.png"), "image/png");
    assert_eq!(mime_of("x.jpg"), "image/jpeg");
    assert_eq!(mime_of("x.jpeg"), "image/jpeg");
    assert_eq!(mime_of("x.gif"), "image/gif");
    assert_eq!(mime_of("x.webp"), "image/webp");
    assert_eq!(mime_of("x.svg"), "image/svg+xml");
    assert_eq!(mime_of("x.mp4"), "video/mp4");
    assert_eq!(mime_of("x.webm"), "video/webm");
    assert_eq!(mime_of("x.mp3"), "audio/mpeg");
    assert_eq!(mime_of("x.txt"), "text/plain");
    assert_eq!(mime_of("x.log"), "text/plain");
    assert_eq!(mime_of("x.md"), "text/plain");
    assert_eq!(mime_of("x.csv"), "text/csv");
    assert_eq!(mime_of("x.json"), "application/json");
}

#[test]
fn case_does_not_matter() {
    assert_eq!(mime_of("PHOTO.JPG"), "image/jpeg");
    assert_eq!(mime_of("Notes.Md"), "text/plain");
}

#[test]
fn only_last_extension_counts() {
    assert_eq!(mime_of("archive.pdf.zip"), "application/octet-stream");
    assert_eq!(mime_of("dir.v1/file.csv"), "text/csv");
}

#[test]
fn no_extension() {
    assert_eq!(mime_of("pdf"), "application/pdf");
    assert_eq!(mime_of("README"), "application/octet-stream");
    assert_eq!(mime_of("trailing."), "application/octet-stream");
    assert_eq!(mime_of(""), "application/octet-stream");
}
