use site_core::photos::{
    existing_directory, folder_prefix, get_photo_directories, get_photos, PhotoFolder,
};
use site_core::text::{title_case, u64_to_string};

#[test]
fn folders_are_derived_from_prefixes_in_order() {
    let prefixes = vec!["vacations/".to_string(), "city-trips/".to_string()];
    let folders = get_photo_directories(&prefixes);
    assert_eq!(folders.len(), 2);
    assert_eq!(folders[0].name, "vacations");
    assert_eq!(folders[0].display_name, "vacations");
    assert_eq!(folders[1].name, "city-trips");
    assert_eq!(folders[1].display_name, "city trips");
}

#[test]
fn folder_exists_iff_listed() {
    let prefixes = vec!["vacations/".to_string(), "city-trips/".to_string()];
    let folders = get_photo_directories(&prefixes);
    assert!(existing_directory(&folders, "vacations"));
    assert!(existing_directory(&folders, "city-trips"));
    assert!(!existing_directory(&folders, "city trips"));
    assert!(!existing_directory(&folders, "portraits"));
    assert!(!existing_directory(&folders, ""));
}

#[test]
fn listing_excludes_keys_that_denote_subprefixes() {
    let keys = vec![
        "vacations/a.jpg".to_string(),
        "vacations/sub/".to_string(),
        "vacations/b.png".to_string(),
    ];
    assert_eq!(
        get_photos(&keys),
        vec!["vacations/a.jpg".to_string(), "vacations/b.png".to_string()]
    );
}

#[test]
fn listing_of_only_subprefixes_is_empty() {
    let keys = vec!["a/".to_string(), "b/".to_string()];
    assert_eq!(get_photos(&keys), Vec::<String>::new());
}

#[test]
fn folder_prefix_appends_exactly_one_separator() {
    assert_eq!(folder_prefix("vacations"), "vacations/");
    assert_eq!(folder_prefix("vacations/"), "vacations/");
    assert_eq!(folder_prefix(""), "/");
}

#[test]
fn display_name_replaces_dashes() {
    let folder = PhotoFolder::from_name("city-trips-2024".to_string());
    assert_eq!(folder.name, "city-trips-2024");
    assert_eq!(folder.display_name, "city trips 2024");
}

#[test]
fn title_case_capitalizes_each_word() {
    assert_eq!(title_case("hello world"), "Hello World");
    assert_eq!(title_case("rust"), "Rust");
    assert_eq!(title_case("Already Upper"), "Already Upper");
    assert_eq!(title_case("city trips 2024"), "City Trips 2024");
}

#[test]
fn decimal_rendering_is_exact() {
    assert_eq!(u64_to_string(0), "0");
    assert_eq!(u64_to_string(7), "7");
    assert_eq!(u64_to_string(1234567890), "1234567890");
    assert_eq!(u64_to_string(u64::MAX), "18446744073709551615");
}
