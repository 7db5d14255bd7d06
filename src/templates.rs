//! The file layouts of the project templates. The bytes of each file are
//! embedded by the program that expands a template; the library pairs them
//! with the place each file takes in a new project.
use vstd::prelude::*;

verus! {

/// The templates a new project can be created from.
#[derive(Clone, Copy, Debug, PartialEq, Eq, Structural)]
pub enum Templates {
    StandardHotReloadTemplate,
}

/// One file of a template: where it goes, relative to the project's root,
/// with `/` between components, and what it holds.
pub struct FileTemplate<'a> {
    pub relative_path: String,
    pub contents: &'a [u8],
}

/// A set of files that make up a new project.
pub struct Template<'a> {
    pub file_templates: Vec<FileTemplate<'a>>,
}

/// The bytes of each file of the standard hot-reload project.
pub struct StandardTemplateFiles<'a> {
    pub main_rs: &'a [u8],
    pub lib_rs: &'a [u8],
    pub editor_plugin_rs: &'a [u8],
    pub terminal_rs: &'a [u8],
    pub cargo_config: &'a [u8],
    pub bevy_logo: &'a [u8],
    pub cargo_toml: &'a [u8],
    pub cargo_lock: &'a [u8],
}

impl<'a> Template<'a> {
    /// The files of the template as (relative path, contents) pairs, in order.
    pub open spec fn files(&self) -> Seq<(Seq<char>, Seq<u8>)> {
        self.file_templates@.map_values(|f: FileTemplate<'a>| (f.relative_path@, f.contents@))
    }

    /// The standard project: a Bevy game with the editor plugin and the
    /// in-game terminal, its cargo configuration, logo, manifest and lock file.
    pub fn get_standard_template(files: &StandardTemplateFiles<'a>) -> (r: Template<'a>)
        ensures
            r.files() == seq![
                ("src/main.rs"@, files.main_rs@),
                ("src/lib.rs"@, files.lib_rs@),
                ("src/editor_plugin.rs"@, files.editor_plugin_rs@),
                ("src/terminal.rs"@, files.terminal_rs@),
                (".cargo/config.toml"@, files.cargo_config@),
                ("assets/bevy_logo.png"@, files.bevy_logo@),
                ("Cargo.toml"@, files.cargo_toml@),
                ("Cargo.lock"@, files.cargo_lock@),
            ],
    {
        let mut file_templates: Vec<FileTemplate<'a>> = Vec::new();
        file_templates.push(
            FileTemplate { relative_path: String::from_str("src/main.rs"), contents: files.main_rs },
        );
        file_templates.push(
            FileTemplate { relative_path: String::from_str("src/lib.rs"), contents: files.lib_rs },
        );
        file_templates.push(
            FileTemplate {
                relative_path: String::from_str("src/editor_plugin.rs"),
                contents: files.editor_plugin_rs,
            },
        );
        file_templates.push(
            FileTemplate {
                relative_path: String::from_str("src/terminal.rs"),
                contents: files.terminal_rs,
            },
        );
        file_templates.push(
            FileTemplate {
                relative_path: String::from_str(".cargo/config.toml"),
                contents: files.cargo_config,
            },
        );
        file_templates.push(
            FileTemplate {
                relative_path: String::from_str("assets/bevy_logo.png"),
                contents: files.bevy_logo,
            },
        );
        file_templates.push(
            FileTemplate { relative_path: String::from_str("Cargo.toml"), contents: files.cargo_toml },
        );
        file_templates.push(
            FileTemplate { relative_path: String::from_str("Cargo.lock"), contents: files.cargo_lock },
        );
        let r = Template { file_templates };
        assert(r.files() =~= seq![
            ("src/main.rs"@, files.main_rs@),
            ("src/lib.rs"@, files.lib_rs@),
            ("src/editor_plugin.rs"@, files.editor_plugin_rs@),
            ("src/terminal.rs"@, files.terminal_rs@),
            (".cargo/config.toml"@, files.cargo_config@),
            ("assets/bevy_logo.png"@, files.bevy_logo@),
            ("Cargo.toml"@, files.cargo_toml@),
            ("Cargo.lock"@, files.cargo_lock@),
        ]);
        r
    }

    /// The watcher project that supervises a game: its source and its manifest.
    pub fn hot_reload_watcher(main_rs: &'a [u8], cargo_toml: &'a [u8]) -> (r: Template<'a>)
        ensures
            r.files() == seq![("src/main.rs"@, main_rs@), ("Cargo.toml"@, cargo_toml@)],
    {
        let mut file_templates: Vec<FileTemplate<'a>> = Vec::new();
        file_templates.push(
            FileTemplate { relative_path: String::from_str("src/main.rs"), contents: main_rs },
        );
        file_templates.push(
            FileTemplate { relative_path: String::from_str("Cargo.toml"), contents: cargo_toml },
        );
        let r = Template { file_templates };
        assert(r.files() =~= seq![("src/main.rs"@, main_rs@), ("Cargo.toml"@, cargo_toml@)]);
        r
    }
}

} // verus!
