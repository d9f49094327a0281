use int_interval::crate_root::{lib_rs_source, workspace_root};

#[test]
fn crate_root_lists_every_width() {
    let s = lib_rs_source("// head\n");
    assert!(s.starts_with("// head\nmod res;\nmod u8;\nmod i8;\nmod u16;\n"));
    assert!(s.contains("mod isize;\n\npub use res::{OneTwo, ZeroOneTwo};\n"));
    assert!(s.ends_with("pub use i128::I128CO;\npub use isize::IsizeCO;\n"));
    assert_eq!(s.lines().filter(|l| l.starts_with("mod ")).count(), 13);
    assert_eq!(s.lines().filter(|l| l.starts_with("pub use ")).count(), 13);
    assert_eq!(lib_rs_source("").len() + 8, s.len());
}

#[test]
fn workspace_root_is_the_grandparent() {
    assert_eq!(workspace_root("/ws/xtask/codegen"), Some("/ws".to_string()));
    assert_eq!(workspace_root("ws/xtask/codegen"), Some("ws".to_string()));
    assert_eq!(workspace_root("xtask/codegen"), Some("".to_string()));
    assert_eq!(workspace_root("codegen"), None);
    assert_eq!(workspace_root("/"), None);
}
