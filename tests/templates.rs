use hotreload_watcher::{StandardTemplateFiles, Template, Templates};

fn layout<'a>(t: &Template<'a>) -> Vec<(String, &'a [u8])> {
    t.file_templates.iter().map(|f| (f.relative_path.clone(), f.contents)).collect()
}

#[test]
fn hot_reload_watcher_layout() {
    let t = Template::hot_reload_watcher(b"fn main() {}", b"[package]");
    assert_eq!(
        layout(&t),
        vec![
            ("src/main.rs".to_string(), &b"fn main() {}"[..]),
            ("Cargo.toml".to_string(), &b"[package]"[..]),
        ]
    );
}

#[test]
fn standard_template_layout() {
    let files = StandardTemplateFiles {
        main_rs: b"main",
        lib_rs: b"lib",
        editor_plugin_rs: b"editor",
        terminal_rs: b"terminal",
        cargo_config: b"config",
        bevy_logo: &[0x89, b'P', b'N', b'G'],
        cargo_toml: b"toml",
        cargo_lock: b"lock",
    };
    let t = Template::get_standard_template(&files);
    let paths: Vec<String> = t.file_templates.iter().map(|f| f.relative_path.clone()).collect();
    assert_eq!(
        paths,
        vec![
            "src/main.rs",
            "src/lib.rs",
            "src/editor_plugin.rs",
            "src/terminal.rs",
            ".cargo/config.toml",
            "assets/bevy_logo.png",
            "Cargo.toml",
            "Cargo.lock",
        ]
    );
    let contents: Vec<&[u8]> = t.file_templates.iter().map(|f| f.contents).collect();
    assert_eq!(
        contents,
        vec![
            &b"main"[..],
            &b"lib"[..],
            &b"editor"[..],
            &b"terminal"[..],
            &b"config"[..],
            &[0x89, b'P', b'N', b'G'][..],
            &b"toml"[..],
            &b"lock"[..],
        ]
    );
}

#[test]
fn template_choices() {
    assert_eq!(Templates::StandardHotReloadTemplate, Templates::StandardHotReloadTemplate);
}
