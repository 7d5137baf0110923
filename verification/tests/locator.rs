use delivery::config::Config;
use delivery::location::{is_listed, Location};
use delivery::locator::{candidate_files, config_dir, config_file};

fn place(root: &str, parts: &[&str]) -> Location {
    Location {
        root: root.to_string(),
        parts: parts.iter().map(|part| part.to_string()).collect(),
    }
}

#[test]
fn nearest_ancestor_wins() {
    let files = vec![
        place("", &["a", ".delivery", "cli.toml"]),
        place("", &["a", "b", ".delivery", "cli.toml"]),
    ];
    let found = Config::have_dot_delivery_cli(&place("", &["a", "b", "c"]), &files);
    assert_eq!(found, Some(place("", &["a", "b", ".delivery", "cli.toml"])));
}

#[test]
fn the_starting_directory_is_searched_first() {
    let files = vec![
        place("/", &["a", ".delivery", "cli.toml"]),
        place("/", &["a", "b", ".delivery", "cli.toml"]),
    ];
    let found = Config::have_dot_delivery_cli(&place("/", &["a", "b"]), &files);
    assert_eq!(found, Some(place("/", &["a", "b", ".delivery", "cli.toml"])));
}

#[test]
fn a_far_ancestor_is_found() {
    let files = vec![place("/", &["a", ".delivery", "cli.toml"])];
    let found = Config::have_dot_delivery_cli(&place("/", &["a", "b", "c", "d"]), &files);
    assert_eq!(found, Some(place("/", &["a", ".delivery", "cli.toml"])));
}

#[test]
fn the_root_is_searched_last() {
    let files = vec![place("/", &[".delivery", "cli.toml"])];
    let found = Config::have_dot_delivery_cli(&place("/", &["a", "b"]), &files);
    assert_eq!(found, Some(place("/", &[".delivery", "cli.toml"])));
}

#[test]
fn search_without_a_file_ends_with_none() {
    let files: Vec<Location> = Vec::new();
    assert_eq!(Config::have_dot_delivery_cli(&place("/", &["a", "b", "c"]), &files), None);
    assert_eq!(Config::have_dot_delivery_cli(&place("/", &[]), &files), None);
    assert_eq!(Config::have_dot_delivery_cli(&place("", &[]), &files), None);
}

#[test]
fn files_off_the_way_up_are_not_found() {
    let files = vec![
        place("/", &["a", "x", ".delivery", "cli.toml"]),
        place("/", &["a", "b", "c", "d", ".delivery", "cli.toml"]),
        place("", &["a", ".delivery", "cli.toml"]),
        place("/", &["a", ".delivery"]),
        place("/", &["a", "cli.toml"]),
    ];
    assert_eq!(Config::have_dot_delivery_cli(&place("/", &["a", "b", "c"]), &files), None);
}

#[test]
fn check_looks_at_one_directory() {
    let files = vec![place("/", &["a", ".delivery", "cli.toml"])];
    assert_eq!(
        Config::check_dot_delivery_cli(place("/", &["a"]), &files),
        Some(place("/", &["a", ".delivery", "cli.toml"]))
    );
    assert_eq!(Config::check_dot_delivery_cli(place("/", &["a", "b"]), &files), None);
    assert_eq!(Config::check_dot_delivery_cli(place("/", &[]), &files), None);
}

#[test]
fn join_and_parent() {
    let dir = place("/", &["a", "b"]);
    assert_eq!(dir.join("c"), place("/", &["a", "b", "c"]));
    assert_eq!(dir.parent(), Some(place("/", &["a"])));
    assert_eq!(place("/", &["a"]).parent(), Some(place("/", &[])));
    assert_eq!(place("/", &[]).parent(), None);
    assert_eq!(place("", &[]).parent(), None);
    assert_eq!(dir.duplicate(), dir);
}

#[test]
fn same_compares_root_and_names() {
    let dir = place("/", &["a", "b"]);
    assert!(dir.same(&place("/", &["a", "b"])));
    assert!(!dir.same(&place("", &["a", "b"])));
    assert!(!dir.same(&place("/", &["a"])));
    assert!(!dir.same(&place("/", &["a", "c"])));
    assert!(!dir.same(&place("/", &["a", "b", "c"])));
}

#[test]
fn listed_finds_a_place_among_files() {
    let files = vec![place("/", &["a"]), place("/", &["b", "c"])];
    assert!(is_listed(&files, &place("/", &["b", "c"])));
    assert!(!is_listed(&files, &place("/", &["b"])));
    assert!(!is_listed(&Vec::new(), &place("/", &["a"])));
}

#[test]
fn candidates_go_from_the_start_to_the_root() {
    assert_eq!(
        candidate_files(&place("/", &["a", "b"])),
        vec![
            place("/", &["a", "b", ".delivery", "cli.toml"]),
            place("/", &["a", ".delivery", "cli.toml"]),
            place("/", &[".delivery", "cli.toml"]),
        ]
    );
    assert_eq!(candidate_files(&place("", &[])), vec![place("", &[".delivery", "cli.toml"])]);
}

#[test]
fn the_file_lies_in_dot_delivery() {
    assert_eq!(config_dir(&place("/", &["a"])), place("/", &["a", ".delivery"]));
    assert_eq!(config_file(&place("/", &["a"])), place("/", &["a", ".delivery", "cli.toml"]));
}

#[test]
fn search_finds_the_first_candidate_that_exists() {
    let start = place("/", &["a", "b", "c"]);
    let candidates = candidate_files(&start);
    for first in 0..candidates.len() {
        let files: Vec<Location> = candidates[first..].to_vec();
        assert_eq!(
            Config::have_dot_delivery_cli(&start, &files),
            Some(candidates[first].clone())
        );
    }
}
