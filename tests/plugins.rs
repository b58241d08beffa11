use desktop::plugins::{startup_plugins, Plugin};

#[test]
fn plugins_attach_in_order() {
    assert_eq!(startup_plugins(), vec![Plugin::Sql, Plugin::Shell, Plugin::Updater]);
}

#[test]
fn plugins_are_distinct() {
    let p = startup_plugins();
    for i in 0..p.len() {
        for j in (i + 1)..p.len() {
            assert_ne!(p[i], p[j]);
        }
    }
}
