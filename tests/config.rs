use worker_bridge::config::{get_exe_config, BuildMode, ConfigError, PathLookup};

#[test]
fn development_config() {
    let c = get_exe_config(BuildMode::Development).unwrap();
    assert_eq!(c.exe_path, "python");
    assert_eq!(c.working_dir, "../..");
    assert_eq!(c.args, vec!["-u".to_string(), "./src/Chat.py".to_string()]);
}

#[test]
fn packaged_config() {
    let c = get_exe_config(BuildMode::Packaged {
        executable: PathLookup::Found("/opt/app/resources/Chat".to_string()),
        data_dir: PathLookup::Found("/home/u/.local/share/app".to_string()),
    })
    .unwrap();
    assert_eq!(c.exe_path, "/opt/app/resources/Chat");
    assert_eq!(c.working_dir, "/home/u/.local/share/app");
    assert!(c.args.is_empty());
}

#[test]
fn packaged_executable_unresolved() {
    let r = get_exe_config(BuildMode::Packaged {
        executable: PathLookup::Failed("missing".to_string()),
        data_dir: PathLookup::NotUtf8,
    });
    match r {
        Err(ConfigError::ExecutableUnresolved(d)) => assert_eq!(d, "missing"),
        other => panic!("unexpected {:?}", other),
    }
}

#[test]
fn packaged_executable_not_utf8() {
    let r = get_exe_config(BuildMode::Packaged {
        executable: PathLookup::NotUtf8,
        data_dir: PathLookup::Found("/d".to_string()),
    });
    assert!(matches!(r, Err(ConfigError::ExecutableNotUtf8)));
}

#[test]
fn packaged_data_dir_unavailable() {
    let r = get_exe_config(BuildMode::Packaged {
        executable: PathLookup::Found("/x".to_string()),
        data_dir: PathLookup::Failed("no home".to_string()),
    });
    match r {
        Err(ConfigError::DataDirUnavailable(d)) => assert_eq!(d, "no home"),
        other => panic!("unexpected {:?}", other),
    }
}

#[test]
fn packaged_data_dir_not_utf8() {
    let r = get_exe_config(BuildMode::Packaged {
        executable: PathLookup::Found("/x".to_string()),
        data_dir: PathLookup::NotUtf8,
    });
    assert!(matches!(r, Err(ConfigError::DataDirNotUtf8)));
}
