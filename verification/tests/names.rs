use unixcli::progname::{derive_progname, file_name_of, NameStore, SharedNameStore};

#[test]
fn all() {
    // A store whose executable-path lookup yielded nothing has no name.
    let mut store = NameStore::new(None);
    assert_eq!(store.getprogname(), "");

    // basic: a set name reads back, repeatedly, and can be replaced.
    store.setprogname("test");
    assert_eq!(store.getprogname(), "test");
    assert_eq!(store.getprogname(), "test");
    store.setprogname("test2");
    assert_eq!(store.getprogname(), "test2");
    assert_eq!(store.getprogname(), "test2");

    // old_in_use: a snapshot keeps the name it was taken under.
    store.setprogname("test3");
    let arc = store.getprogname_arc();
    store.setprogname("test4");
    assert_eq!(store.getprogname(), "test4");
    assert_eq!(*arc, Some(String::from("test3")));

    // components: only the final path component is kept.
    store.setprogname("/path/to/a/command");
    assert_eq!(store.getprogname(), "command");

    // Many interleaved replacements and reads on the shared store.
    let shared = SharedNameStore::new(None);
    for i in 0..1000 {
        shared.setprogname(&format!("child1: {}", i));
        assert_eq!(shared.getprogname(), format!("child1: {}", i));
    }
}

#[test]
fn final_component_edges() {
    assert_eq!(derive_progname("/a/b/command"), "command");
    assert_eq!(derive_progname("a/b/"), "b");
    assert_eq!(derive_progname("a//b"), "b");
    assert_eq!(derive_progname("a/."), "a");
    assert_eq!(derive_progname("./a"), "a");
    assert_eq!(derive_progname("name"), "name");
    // No final component: the raw input is kept verbatim.
    assert_eq!(derive_progname(""), "");
    assert_eq!(derive_progname("."), ".");
    assert_eq!(derive_progname(".."), "..");
    assert_eq!(derive_progname("/"), "/");
    assert_eq!(derive_progname("a/.."), "a/..");
}

#[test]
fn file_name_edges() {
    assert_eq!(file_name_of("/a/b/command"), Some(String::from("command")));
    assert_eq!(file_name_of("tool"), Some(String::from("tool")));
    assert_eq!(file_name_of("a/b/"), Some(String::from("b")));
    assert_eq!(file_name_of(""), None);
    assert_eq!(file_name_of("/"), None);
    assert_eq!(file_name_of("."), None);
    assert_eq!(file_name_of(".."), None);
    assert_eq!(file_name_of("a/.."), None);
    assert_eq!(file_name_of("a/../"), None);
}

#[test]
fn initial_seed() {
    let store = NameStore::new(Some("/usr/bin/tool"));
    assert_eq!(store.getprogname(), "tool");
    // A seed without a final component leaves the name absent.
    let store = NameStore::new(Some("/"));
    assert_eq!(store.getprogname(), "");
    assert_eq!(*store.getprogname_arc(), None);
}

#[test]
fn snapshot_isolation_shared() {
    let shared = SharedNameStore::new(None);
    shared.setprogname("before");
    let snap = shared.getprogname_arc();
    shared.setprogname("after");
    assert_eq!(shared.getprogname(), "after");
    assert_eq!(*snap, Some(String::from("before")));
}

#[test]
fn non_ascii_names() {
    let mut store = NameStore::new(None);
    store.setprogname("/tmp/wërkzeug");
    assert_eq!(store.getprogname(), "wërkzeug");
    store.setprogname("片仮名");
    assert_eq!(store.getprogname(), "片仮名");
}
