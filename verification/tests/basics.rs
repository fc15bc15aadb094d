use tomoon::helper::{get_file_path, is_clash_running};
use tomoon::{NAME, VERSION};

#[test]
fn check_systemd_resolved() {}

#[test]
fn get_version() {
    let version = VERSION;
    println!("{} {}", NAME, version);
}

#[test]
fn read_dns() {
    let processes = vec![String::from("systemd"), String::from("clash"), String::from("steam")];
    assert_eq!(is_clash_running(&processes), true);
}

#[test]
fn regex_test() {
    let url = String::from("file:///home/dek/b.yaml");
    if let Some(path) = get_file_path(url) {
        println!("{}", path);
        assert_eq!(path, "/home/dek/b.yaml");
    } else {
        panic!("a file:// URL names a local file");
    }
}
