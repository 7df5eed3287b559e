use painite::{Ide, UNSUPPORTED};

fn entry_file(name: &str, comment: &str) -> Ide {
    let mut parsed = Ide::new();
    parsed.name = name.to_string();
    parsed.comment = comment.to_string();
    parsed
}

#[test]
fn it_successfully_returns_name() {
    let archive_name = "RustRover-2023.0.1/";
    let path = "/opt/JetBrains";
    let mut ide = Ide::new();

    assert!(&ide
        .build(archive_name, path, entry_file("Rust Rover", "Focus on what matters"))
        .is_ok());
    assert_eq!("Rust Rover", &ide.get_name().to_owned());
}

#[test]
fn it_successfully_build_rustrover() {
    let archive_name = "RustRover-2023.0.1/";
    let path = "/opt/JetBrains";
    let mut ide = Ide::new();

    assert!(&ide.build(archive_name, path, entry_file("RustRover", "")).is_ok());
    assert_eq!(ide.short_name, "rustrover");
    assert_eq!(ide.exec_path, "/opt/JetBrains/RustRover-2023.0.1/bin/rustrover.sh");
    assert_eq!(ide.icon, "/opt/JetBrains/RustRover-2023.0.1/bin/rustrover.png");
}

#[test]
fn it_successfully_build_idea() {
    let archive_name = "idea-IU-2023.0.1/";
    let path = "/opt/JetBrains";
    let mut ide = Ide::new();

    assert!(&ide.build(archive_name, path, entry_file("IntelliJ IDEA", "")).is_ok());
    assert_eq!(ide.short_name, "idea");
    assert_eq!(ide.exec_path, "/opt/JetBrains/idea-IU-2023.0.1/bin/idea.sh");
    assert_eq!(ide.icon, "/opt/JetBrains/idea-IU-2023.0.1/bin/idea.png");
}

#[test]
fn it_successfully_build_pycharm() {
    let archive_name = "PyCharm-2023.0.1/";
    let path = "/opt/JetBrains";
    let mut ide = Ide::new();

    assert!(&ide.build(archive_name, path, entry_file("PyCharm", "")).is_ok());
    assert_eq!(ide.short_name, "pycharm");
    assert_eq!(ide.exec_path, "/opt/JetBrains/PyCharm-2023.0.1/bin/pycharm.sh");
    assert_eq!(ide.icon, "/opt/JetBrains/PyCharm-2023.0.1/bin/pycharm.png");
}

#[test]
fn it_successfully_build_goland() {
    let archive_name = "GoLand-2023.0.1/";
    let path = "/opt/JetBrains";
    let mut ide = Ide::new();

    assert!(&ide.build(archive_name, path, entry_file("GoLand", "")).is_ok());
    assert_eq!(ide.short_name, "goland");
    assert_eq!(ide.exec_path, "/opt/JetBrains/GoLand-2023.0.1/bin/goland.sh");
    assert_eq!(ide.icon, "/opt/JetBrains/GoLand-2023.0.1/bin/goland.png");
}

#[test]
fn it_successfully_detect_rustrover() {
    assert_eq!(
        (String::from("rustrover"), String::from("1.0")),
        Ide::detect_ide("RustRover-1.0").unwrap()
    );
}

#[test]
fn it_successfully_detect_idea() {
    assert_eq!(
        (String::from("idea"), String::from("1.0")),
        Ide::detect_ide("Idea-IU-1.0").unwrap()
    );
}

#[test]
fn it_successfully_detect_goland() {
    assert_eq!(
        (String::from("goland"), String::from("1.0")),
        Ide::detect_ide("GoLand-1.0").unwrap()
    );
}

#[test]
fn it_successfully_detect_pycharm() {
    assert_eq!(
        (String::from("pycharm"), String::from("1.0")),
        Ide::detect_ide("PyCharm-1.0").unwrap()
    );
}

#[test]
fn it_throws_error_unknown_ide() {
    assert!(Ide::detect_ide("unknown-ide").is_err());
}

#[test]
fn installer_build_copies_entry_file_metadata() {
    let mut ide = Ide::new();
    assert!(ide
        .build("idea-IU-2023.0.1/", "/opt/JetBrains", entry_file("IntelliJ IDEA", "Java IDE"))
        .is_ok());
    assert_eq!(ide.name, "IntelliJ IDEA");
    assert_eq!(ide.comment, "Java IDE");
    assert_eq!(ide.version, "2023.0.1");
}

#[test]
fn installer_build_unknown_archive_changes_nothing() {
    let mut ide = Ide::new();
    assert!(ide
        .build("unknown-tool-1.0", "/opt/JetBrains", entry_file("X", "Y"))
        .is_err());
    assert_eq!(ide.name, "");
    assert_eq!(ide.short_name, "");
    assert_eq!(ide.exec_path, "");
    assert_eq!(ide.icon, "");
    assert_eq!(ide.version, "");
}

#[test]
fn installer_detects_rubymine_and_strips_separators_from_version() {
    assert_eq!(
        (String::from("rubymine"), String::from("2023.3.4")),
        Ide::detect_ide("RubyMine-2023.3.4/").unwrap()
    );
}

#[test]
fn installer_version_without_dash_is_whole_name() {
    assert_eq!(
        (String::from("goland"), String::from("goland")),
        Ide::detect_ide("goland/").unwrap()
    );
}

#[test]
fn installer_entry_text_is_desktop_entry_format() {
    let mut ide = Ide::new();
    assert!(ide
        .build("GoLand-2023.3.4/", "/opt/JetBrains", entry_file("GoLand", "For Gophers"))
        .is_ok());
    assert_eq!(
        ide.entry_text(),
        "[Desktop Entry]\nType=Application\nName=GoLand\n\
Icon=/opt/JetBrains/GoLand-2023.3.4/bin/goland.png\n\
Exec=/opt/JetBrains/GoLand-2023.3.4/bin/goland.sh\nComment=For Gophers\n\
Categories=Development;IDE;\nTerminal=false\nStartupWMClass=jetbrains-goland"
    );
}

#[test]
fn installer_unknown_archive_gives_unsupported_error() {
    assert_eq!(Ide::detect_ide("unknown-tool-1.0"), Err(UNSUPPORTED));
    let mut ide = Ide::new();
    assert_eq!(
        ide.build("unknown-tool-1.0", "/opt/JetBrains", entry_file("X", "Y")),
        Err("> IDE not supported, symbolic link and desktop entry NOT created")
    );
}
