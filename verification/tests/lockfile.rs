use chord_ws::workspace::lockfile::same_text;
use chord_ws::workspace::Lockfile;

#[test]
fn lockfile_insert_get_remove() {
    let mut lockfile = Lockfile::new();
    assert!(lockfile.get("chord").is_none());
    lockfile.insert(String::from("chord"), String::from("abc"));
    lockfile.insert(String::from("other"), String::from("def"));
    assert_eq!(lockfile.get("chord").unwrap(), "abc");
    lockfile.insert(String::from("chord"), String::from("123"));
    assert_eq!(lockfile.get("chord").unwrap(), "123");
    assert_eq!(lockfile.entries().len(), 2);
    assert_eq!(lockfile.remove("chord"), Some(String::from("123")));
    assert!(lockfile.get("chord").is_none());
    assert_eq!(lockfile.remove("chord"), None);
    assert_eq!(lockfile.get("other").unwrap(), "def");
    assert_eq!(lockfile.entries().len(), 1);
}

#[test]
fn texts_compare_by_content() {
    assert!(same_text("abc", "abc"));
    assert!(!same_text("abc", "abd"));
    assert!(!same_text("", "a"));
}

fn names(lockfile: &Lockfile) -> Vec<String> {
    lockfile.entries().iter().map(|(k, _)| k.clone()).collect()
}

#[test]
fn pins_keep_the_order_they_were_made_in() {
    let mut lockfile = Lockfile::new();
    lockfile.insert(String::from("b"), String::from("1"));
    lockfile.insert(String::from("a"), String::from("2"));
    lockfile.insert(String::from("c"), String::from("3"));
    assert_eq!(names(&lockfile), vec!["b", "a", "c"]);
    lockfile.insert(String::from("b"), String::from("4"));
    assert_eq!(names(&lockfile), vec!["b", "a", "c"]);
    assert_eq!(lockfile.get("b").unwrap(), "4");
    lockfile.remove("a");
    assert_eq!(names(&lockfile), vec!["b", "c"]);
}

#[test]
fn removing_a_new_pin_gives_back_the_lockfile() {
    let mut lockfile = Lockfile::new();
    lockfile.insert(String::from("x"), String::from("1"));
    lockfile.insert(String::from("y"), String::from("2"));
    let before = lockfile.entries().clone();
    lockfile.insert(String::from("z"), String::from("3"));
    assert_eq!(lockfile.get("z").unwrap(), "3");
    assert_eq!(lockfile.remove("z"), Some(String::from("3")));
    assert_eq!(lockfile.entries(), &before);
}
