use ndclient::workspace::{cartoned_path, new_job_id, new_temp_file, temp_dir_for};

fn is_safe(c: char) -> bool {
    c.is_ascii_alphanumeric() || c == '_' || c == '-'
}

#[test]
fn job_ids_are_ten_safe_characters() {
    let a = new_job_id();
    let b = new_job_id();
    assert_eq!(a.chars().count(), 10);
    assert!(a.chars().all(is_safe));
    assert_ne!(a, b);
}

#[test]
fn workspace_directory_of_a_job() {
    let root = "./temp".to_owned();
    assert_eq!(temp_dir_for(&root, &"abc".to_owned()), "./temp/abc");
    assert_ne!(temp_dir_for(&root, &"abc".to_owned()), temp_dir_for(&root, &"abd".to_owned()));
    assert_eq!(temp_dir_for(&"/var/jobs".to_owned(), &"x".to_owned()), "/var/jobs/x");
}

#[test]
fn fresh_temp_files() {
    let p = new_temp_file(&"/w/j".to_owned(), "-final.wav");
    assert!(p.starts_with("/w/j/"));
    assert!(p.ends_with("-final.wav"));
    assert_eq!(p.len(), "/w/j/".len() + 21 + "-final.wav".len());
    assert_ne!(p, new_temp_file(&"/w/j".to_owned(), "-final.wav"));
}

#[test]
fn cartoned_copy_names() {
    assert_eq!(cartoned_path(&"./temp/abc.wav".to_owned()).unwrap(), "./temp/abc-cartoned.wav");
    assert_eq!(cartoned_path(&"x.tar.gz".to_owned()).unwrap(), "x.tar-cartoned.gz");
    assert_eq!(cartoned_path(&"/a.b/clip.wav".to_owned()).unwrap(), "/a.b/clip-cartoned.wav");
    assert_eq!(cartoned_path(&"语音.wav".to_owned()).unwrap(), "语音-cartoned.wav");
    assert_eq!(cartoned_path(&"./temp/.wav".to_owned()), None);
    assert_eq!(cartoned_path(&"a.b/clip".to_owned()), None);
    assert_eq!(cartoned_path(&"clip".to_owned()), None);
}
