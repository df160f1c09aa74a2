use tutorial_container::media_dir::{get_media_path, starts_with};
use tutorial_container::template::{find_bundled_template, is_valid_exe, MIN_TEMPLATE_SIZE};

#[test]
fn template_must_be_larger_than_a_megabyte() {
    assert_eq!(MIN_TEMPLATE_SIZE, 1_000_000);
    assert!(!is_valid_exe(None));
    assert!(!is_valid_exe(Some(0)));
    assert!(!is_valid_exe(Some(999_999)));
    assert!(!is_valid_exe(Some(1_000_000)));
    assert!(is_valid_exe(Some(1_000_001)));
    assert!(is_valid_exe(Some(u64::MAX)));
}

#[test]
fn first_usable_template_is_picked() {
    assert_eq!(find_bundled_template(&vec![]), None);
    assert_eq!(find_bundled_template(&vec![None, None]), None);
    assert_eq!(find_bundled_template(&vec![None, Some(10), Some(1_000_000)]), None);
    assert_eq!(
        find_bundled_template(&vec![None, Some(10), Some(2_000_000), Some(3_000_000)]),
        Some(2)
    );
    assert_eq!(find_bundled_template(&vec![Some(5_000_000), Some(3_000_000)]), Some(0));
}

#[test]
fn names_match_by_prefix() {
    assert!(starts_with("img1.png", "img1"));
    assert!(starts_with("img1.png", ""));
    assert!(starts_with("img1", "img1"));
    assert!(!starts_with("img", "img1"));
    assert!(!starts_with("ximg1.png", "img1"));
    assert!(!starts_with("", "a"));
}

#[test]
fn first_listed_media_file_with_the_id_is_found() {
    let names = vec![
        "other.png".to_string(),
        "clip7.mp4".to_string(),
        "clip70.mp4".to_string(),
        "clip.mp4".to_string(),
    ];
    assert_eq!(get_media_path(&names, "clip7"), Some(1));
    assert_eq!(get_media_path(&names, "clip70"), Some(2));
    assert_eq!(get_media_path(&names, "clip"), Some(1));
    assert_eq!(get_media_path(&names, "o"), Some(0));
    assert_eq!(get_media_path(&names, "clip8"), None);
    assert_eq!(get_media_path(&Vec::new(), "clip"), None);
}
