use std::path::PathBuf;
use tmg::paths::{
    app_dir_under, file_name, file_stem, get_app_dir, get_report_folder_path, get_report_path,
    join, report_folder_under, report_path_under,
};

#[test]
fn report_path_under_a_home() {
    assert_eq!(
        report_path_under(Some("/home/alice"), 2024, 3),
        "/home/alice/.tmg/reports/2024-03.txt"
    );
}

#[test]
fn report_path_without_a_home() {
    assert_eq!(report_path_under(None, 2024, 11), ".tmg/reports/2024-11.txt");
}

#[test]
fn report_path_is_the_same_each_time() {
    assert_eq!(
        report_path_under(Some("/home/alice"), 2024, 3),
        report_path_under(Some("/home/alice"), 2024, 3)
    );
}

#[test]
fn report_folder_and_app_dir() {
    assert_eq!(app_dir_under(Some("/home/alice")), "/home/alice/.tmg");
    assert_eq!(app_dir_under(None), ".tmg");
    assert_eq!(report_folder_under(Some("/home/alice")), "/home/alice/.tmg/reports");
    assert_eq!(report_folder_under(Some("/")), "/.tmg/reports");
    assert_eq!(report_folder_under(Some("")), ".tmg/reports");
}

#[test]
fn file_names() {
    assert_eq!(file_stem(2024, 3), "2024-03");
    assert_eq!(file_stem(2024, 12), "2024-12");
    assert_eq!(file_name(2024, 3), "2024-03.txt");
    assert_eq!(file_name(-5, 1), "-5-01.txt");
}

#[test]
fn join_puts_one_separator() {
    assert_eq!(join("a", "b"), "a/b");
    assert_eq!(join("a/", "b"), "a/b");
    assert_eq!(join("", "b"), "b");
    assert_eq!(join("/", "b"), "/b");
    assert_eq!(join("a", ""), "a/");
}

#[test]
fn paths_are_those_of_std() {
    let homes = ["/home/alice", "/home/alice/", "", "/", "relative/dir", "/h\u{e9}/\u{4e2d}"];
    for home in homes.iter() {
        let mut dir = PathBuf::from(home);
        dir.push(".tmg");
        assert_eq!(PathBuf::from(app_dir_under(Some(*home))), dir);
        dir.push("reports");
        assert_eq!(PathBuf::from(report_folder_under(Some(*home))), dir);
        dir.push(format!("{}-{:0>2}", 2024, 3));
        dir.set_extension("txt");
        assert_eq!(report_path_under(Some(*home), 2024, 3), dir.to_str().unwrap());
    }
}

#[test]
fn paths_under_the_users_home() {
    let app_dir = get_app_dir();
    assert!(app_dir.ends_with(".tmg"));
    let expected = match dirs::home_dir() {
        Some(home) => home.join(".tmg"),
        None => PathBuf::from(".tmg"),
    };
    assert_eq!(PathBuf::from(&app_dir), expected);
    assert_eq!(PathBuf::from(get_report_folder_path()), expected.join("reports"));
    assert_eq!(
        PathBuf::from(get_report_path(2024, 3)),
        expected.join("reports").join("2024-03.txt")
    );
}
