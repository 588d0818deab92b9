//! Tests of the runtime primitives the pool is built on: bounded channels
//! and URL path extraction.

use std::sync::mpsc;

#[test]
fn test_sync_channel_capacity() {
    let (tx, rx) = mpsc::sync_channel::<i32>(5);

    // Fill the channel
    for i in 0..5 {
        tx.send(i).unwrap();
    }

    // Verify all messages received
    for i in 0..5 {
        assert_eq!(rx.recv().unwrap(), i);
    }
}

#[test]
fn test_url_path_extraction() {
    let urls = [
        ("https://example.com/", "/"),
        ("https://example.com/page", "/page"),
        ("https://example.com/path/to/page", "/path/to/page"),
        ("https://example.com/page?query=1", "/page"),
        ("/relative/path", "/relative/path"),
    ];

    for (url, expected_path) in urls {
        let path = if url.starts_with('/') {
            url.split('?').next().unwrap()
        } else if let Some(start) = url.find("://") {
            let rest = &url[start + 3..];
            if let Some(path_start) = rest.find('/') {
                rest[path_start..].split('?').next().unwrap()
            } else {
                "/"
            }
        } else {
            "/"
        };

        assert_eq!(path, expected_path, "Failed for URL: {}", url);
    }
}
