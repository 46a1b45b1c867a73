use dfiles::apps::chrome::new;
use dfiles::error::Error;
use dfiles::host::{DirEntry, Environment, HostFacts};

fn host() -> HostFacts {
    HostFacts {
        env: Environment {
            home: Some("/home/wayne".to_string()),
            xdg_runtime_dir: Some("/run/user/1000".to_string()),
            display: Some(":1".to_string()),
            lc_all: None,
            lc_ctype: None,
            lang: None,
        },
        dev_entries: Some(vec![
            DirEntry { file_name: "video0".to_string(), path: "/dev/video0".to_string() },
            DirEntry { file_name: "tty".to_string(), path: "/dev/tty".to_string() },
        ]),
        uid: 1000,
        gid: 1000,
        user_name: None,
        gid_account_name: None,
        current_username: None,
        groups: vec![],
        data_dir: None,
    }
}

fn entry(name: &str) -> DirEntry {
    DirEntry { file_name: name.to_string(), path: format!("/run/user/1000/{}", name) }
}

#[test]
fn image_has_repository_and_tag() {
    let chrome = new("/srv/dockerfiles/chrome".to_string());
    assert_eq!(chrome.image(), "waynr/chrome:v0");
    assert_eq!(chrome.build_path(), "/srv/dockerfiles/chrome");
}

#[test]
fn launch_arguments_switch_everything_on() {
    let chrome = new("/srv/dockerfiles/chrome".to_string());
    let listing = Some(vec![entry("bus"), entry("pulse-old"), entry("pulse"), entry("gnupg")]);
    assert_eq!(
        chrome.run_args(&host(), &listing).unwrap(),
        vec![
            "-i", "-t", "--rm",
            "--net", "host",
            "--cpu-shares", "512",
            "--memory", "3072mb",
            "--cap-add", "SYS_ADMIN",
            "-v", "/dev/shm:/dev/shm",
            "-v", "/home/wayne/.config/google-chrome:/data",
            "-v", "/home/wayne/downloads:/home/wayne/Downloads",
            "-e", "DISPLAY=unix:1",
            "-v", "/tmp/.X11-unix:/tmp/.X11-unix",
            "--device", "/dev/dri",
            "-v", "/home/wayne/.pulse:/home/wayne/.pulse",
            "-v", "/run/user/1000/pulse:/run/user/1000/pulse",
            "-v", "/run/user/1000/bus:/run/user/1000/bus",
            "-v", "/var/run/dbus/system_bus_socket:/var/run/dbus/system_bus_socket",
            "-v", "/home/wayne/.dbus/session-bus:/home/wayne/.dbus/session-bus",
            "-e", "DBUS_SESSION_BUS_ADDRESS=unix:path=/run/user/1000/bus",
            "--name", "chrome",
            "--device", "/dev/video0",
            "waynr/chrome:v0", "google-chrome", "--user-data-dir=/data",
        ]
    );
}

#[test]
fn without_pulse_directory_the_volume_is_empty() {
    let chrome = new("/x".to_string());
    let args = chrome.run_args(&host(), &Some(vec![entry("bus")])).unwrap();
    assert_eq!(args[26], ":");
}

#[test]
fn missing_facts_are_reported() {
    let chrome = new("/x".to_string());
    assert!(matches!(
        chrome.run_args(&host(), &None),
        Err(Error::MissingDevices { aspect }) if aspect == "chrome"
    ));
    let mut h = host();
    h.dev_entries = None;
    assert!(matches!(
        chrome.run_args(&h, &Some(vec![])),
        Err(Error::MissingDevices { aspect }) if aspect == "chrome"
    ));
    h.env.display = None;
    assert!(matches!(
        chrome.run_args(&h, &Some(vec![])),
        Err(Error::MissingEnvironment { variable, .. }) if variable == "DISPLAY"
    ));
    h.env.xdg_runtime_dir = None;
    assert!(matches!(
        chrome.run_args(&h, &Some(vec![])),
        Err(Error::MissingEnvironment { variable, .. }) if variable == "XDG_RUNTIME_DIR"
    ));
    h.env.home = None;
    assert!(matches!(
        chrome.run_args(&h, &Some(vec![])),
        Err(Error::MissingEnvironment { aspect, variable }) if aspect == "chrome" && variable == "HOME"
    ));
}
