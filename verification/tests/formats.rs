use qeap::file::{FileFormat, FileMechanism};

struct Yaml;

impl FileFormat for Yaml {
    fn ext() -> &'static str {
        "yaml"
    }
}

#[test]
fn a_format_of_the_caller_names_its_files() {
    let mechanism = FileMechanism::<Yaml>::new("kept".to_string());
    assert_eq!(mechanism.root_dir(), "kept");
    let path = mechanism.file_path("Settings");
    assert_eq!(std::path::Path::new(&path), std::path::Path::new("kept").join("settings.yaml"));
}
