use bulkpixel::opened::OpenedFiles;

fn paths(v: &[&str]) -> Vec<String> {
    v.iter().map(|s| s.to_string()).collect()
}

#[test]
fn queues_each_opened_file_once_until_the_window_takes_them() {
    let mut files = OpenedFiles::default();
    files.queue_before_frontend_ready(&paths(&["/a.png", "/b.jpg", "/a.png"]));
    files.queue_before_frontend_ready(&paths(&["/b.jpg", "/c.webp"]));
    assert_eq!(files.pending_paths, paths(&["/a.png", "/b.jpg", "/c.webp"]));
    let taken = files.take_initial_files();
    assert_eq!(taken, paths(&["/a.png", "/b.jpg", "/c.webp"]));
    assert!(files.frontend_ready);
    assert!(files.pending_paths.is_empty());
    files.queue_before_frontend_ready(&paths(&["/d.png"]));
    assert!(files.pending_paths.is_empty());
    assert!(files.take_initial_files().is_empty());
}
