use dfiles::applications::chrome::Chrome;
use dfiles::applications::discord::Discord;
use dfiles::applications::drawio::Drawio;
use dfiles::applications::firefox::Firefox;
use dfiles::applications::signal::Signal;
use dfiles::applications::skype::Skype;
use dfiles::applications::steam::Steam;
use dfiles::applications::thinkorswim::Thinkorswim;
use dfiles::applications::zoom::Zoom;
use dfiles::aspects::{ContainerAspect, CurrentUser};
use dfiles::cli::CliInput;
use dfiles::containermanager::ContainerManager;
use dfiles::host::{Environment, HostFacts, HostGroup};

fn user() -> CurrentUser {
    CurrentUser::from_lookup(1000, Some("alice".to_string())).unwrap()
}

fn host() -> HostFacts {
    HostFacts {
        env: Environment {
            home: Some("/home/alice".to_string()),
            xdg_runtime_dir: Some("/run/user/1000".to_string()),
            display: Some(":0".to_string()),
            lc_all: None,
            lc_ctype: None,
            lang: None,
        },
        dev_entries: Some(vec![]),
        uid: 1000,
        gid: 1000,
        user_name: Some("alice".to_string()),
        gid_account_name: Some("alice".to_string()),
        current_username: Some("alice".to_string()),
        groups: vec![
            HostGroup { name: "audio".to_string(), gid: 29 },
            HostGroup { name: "video".to_string(), gid: 44 },
        ],
        data_dir: Some("/data/dfiles".to_string()),
    }
}

fn input() -> CliInput {
    CliInput {
        mounts: None,
        timezone: None,
        memory: None,
        cpu_shares: None,
        network: None,
        locale: None,
        profile: None,
        container_name: None,
        command: None,
    }
}

fn tail(m: &ContainerManager, n: usize) -> Vec<String> {
    let args = m.run(&input(), &host()).unwrap().args;
    args[args.len() - n..].to_vec()
}

#[test]
fn firefox_is_installed_last_and_run_with_its_profile() {
    let m = Firefox::container_manager("/home/alice", user(), "/tmp/w".to_string()).unwrap();
    assert_eq!(m.name(), "firefox");
    assert_eq!(m.image(), "waynr/firefox:109.0.1");
    let text = m.dockerfile();
    assert!(text.starts_with("FROM debian:bookworm\n\n"));
    assert!(text.ends_with(
        "    libxt6 \\\n  && apt-get purge --autoremove \\\n  && rm -rf /var/lib/apt/lists/* \\\n  && rm -rf /src/*.deb \n\n\
         WORKDIR /opt/\n\
         ADD https://archive.mozilla.org/pub/firefox/releases/109.0.1/linux-x86_64/en-US/firefox-109.0.1.tar.bz2 ./\n\
         RUN tar -xjvf /opt/firefox-109.0.1.tar.bz2\n\
         RUN ln -sf /opt/firefox/firefox-bin /usr/local/bin/firefox"
    ));
    assert_eq!(
        tail(&m, 5),
        vec![
            "waynr/firefox:109.0.1",
            "/opt/firefox/firefox-bin",
            "--no-remote",
            "--profile",
            "/home/alice/.mozilla/firefox/profile",
        ]
    );
    assert_eq!(
        m.profile_directories(&input(), &host()).unwrap(),
        vec!["/data/dfiles/applications/firefox/profiles/default/home/alice/.mozilla/firefox/profile"]
    );
}

#[test]
fn chrome_brings_its_font_configuration() {
    let m = Chrome::container_manager("/home/alice", "1.2.3", user(), "/tmp/w".to_string()).unwrap();
    assert_eq!(m.image(), "waynr/chrome:1.2.3");
    let files = m.build_context();
    assert_eq!(files.len(), 2);
    assert_eq!(files[0].container_path, "./etc/fonts/local.conf");
    let fonts = String::from_utf8(files[0].contents.clone()).unwrap();
    assert!(fonts.starts_with("<?xml version='1.0'?>\n<!DOCTYPE fontconfig SYSTEM 'fonts.dtd'>\n"));
    assert!(fonts.ends_with("</match>\n</fontconfig>"));
    assert_eq!(files[1].container_path, "Dockerfile");
    let text = m.dockerfile();
    assert!(text.starts_with("FROM debian:bullseye\n\n"));
    let fonts_at = text.find("COPY /etc/fonts/local.conf /etc/fonts/local.conf").unwrap();
    let install_at = text.find("google-chrome-stable").unwrap();
    let x11_at = text.find("libxtst6").unwrap();
    assert!(x11_at < fonts_at && fonts_at < install_at);
    assert_eq!(tail(&m, 3), vec!["waynr/chrome:1.2.3", "google-chrome", "--user-data-dir=/data"]);
    assert_eq!(
        m.profile_directories(&input(), &host()).unwrap(),
        vec![
            "/data/dfiles/applications/chrome/profiles/default/home/alice/.config",
            "/data/dfiles/applications/chrome/profiles/default/data",
        ]
    );
    assert_eq!(ContainerAspect::name(&Chrome {}), "Chrome");
}

#[test]
fn thinkorswim_hands_the_installation_to_the_user() {
    let m = Thinkorswim::container_manager(
        "/home/alice",
        "0.9",
        user(),
        "#!/bin/sh\nexec \"$@\"\n",
        "/tmp/w".to_string(),
    )
    .unwrap();
    assert_eq!(m.image(), "waynr/thinkorswim:0.9");
    let text = m.dockerfile();
    assert!(text.contains("RUN chown -R alice.alice /opt/thinkorswim_installer.sh\n"));
    assert!(text.ends_with(
        "\nCOPY ./opt/run-thinkorswim.sh /run-thinkorswim.sh\n\
         RUN chown -R alice.alice /run-thinkorswim.sh\n\
         RUN chmod u+wrx /run-thinkorswim.sh\n\
         ENTRYPOINT [\"/run-thinkorswim.sh\"]\n"
    ));
    let files = m.build_context();
    assert_eq!(files[0].container_path, "./opt/run-thinkorswim.sh");
    assert_eq!(files[0].contents, b"#!/bin/sh\nexec \"$@\"\n");
    assert_eq!(tail(&m, 2), vec!["waynr/thinkorswim:0.9", "/home/alice/thinkorswim/thinkorswim"]);
    assert_eq!(m.profile_directories(&input(), &host()).unwrap().len(), 5);
    let own = Thinkorswim { user_name: "bob".to_string(), launcher: String::new() };
    assert_eq!(ContainerAspect::name(&own), "thinkorswim");
    assert_eq!(own.dockerfile_snippets()[1].order, 91);
    assert!(own.dockerfile_snippets()[1].content.contains("chown -R bob.bob"));
}

#[test]
fn skype_brings_launcher_and_fonts() {
    let m = Skype::container_manager("/home/alice", "2", user(), "/tmp/w".to_string()).unwrap();
    let files = m.build_context();
    let paths: Vec<&str> = files.iter().map(|f| f.container_path.as_str()).collect();
    assert_eq!(paths, vec!["./run-skype-and-wait-for-exit", "./etc/fonts/local.conf", "Dockerfile"]);
    assert_eq!(
        String::from_utf8(files[0].contents.clone()).unwrap(),
        "#!/bin/bash\nskypeforlinux\nsleep 3\nwhile ps -C skypeforlinux >/dev/null;do sleep 3;done "
    );
    assert!(m.dockerfile().starts_with("FROM debian:buster\n\n"));
    assert_eq!(tail(&m, 2), vec!["waynr/skype:2", "run-skype-and-wait-for-exit"]);
    assert!(m.generate_archive_impl().is_ok());
}

#[test]
fn every_application_names_its_image_and_command() {
    let w = || "/tmp/w".to_string();
    let m = Discord::container_manager("/h", "7", user(), w()).unwrap();
    assert_eq!((m.name().as_str(), tail(&m, 2)), ("discord", vec!["waynr/discord:7".to_string(), "discord".to_string()]));
    let m = Drawio::container_manager("/h", "7", user(), w()).unwrap();
    assert_eq!((m.name().as_str(), tail(&m, 2)), ("drawio", vec!["waynr/drawio:7".to_string(), "drawio".to_string()]));
    let m = Signal::container_manager("/h", user(), w()).unwrap();
    assert_eq!(
        (m.name().as_str(), tail(&m, 2)),
        ("signal", vec!["waynr/signal:v0".to_string(), "/opt/Signal/signal-desktop".to_string()])
    );
    let m = Steam::container_manager("/h", "7", user(), w()).unwrap();
    assert_eq!(
        (m.name().as_str(), tail(&m, 2)),
        ("steam", vec!["waynr/steam:7".to_string(), "/usr/games/steam".to_string()])
    );
    let m = Zoom::container_manager("/h", "7", user(), w()).unwrap();
    assert_eq!((m.name().as_str(), tail(&m, 2)), ("zoom", vec!["waynr/zoom:7".to_string(), "zoom".to_string()]));
    assert_eq!(
        m.profile_directories(&input(), &host()).unwrap(),
        vec![
            "/data/dfiles/applications/zoom/profiles/default/h/.zoom",
            "/data/dfiles/applications/zoom/profiles/default/h/.config/zoomus.conf",
        ]
    );
}

#[test]
fn capabilities_are_registered_in_their_order() {
    let m = Steam::container_manager("/h", "7", user(), "/tmp/w".to_string()).unwrap();
    let launch = m.run(&input(), &host()).unwrap();
    assert_eq!(
        launch.args,
        vec![
            "--rm",
            "--name",
            "default",
            "-v",
            "/home/alice/.pulse:/home/alice/.pulse",
            "-v",
            "/home/alice/.config/pulse:/home/alice/.config/pulse",
            "-v",
            "/run/user/1000/pulse:/run/user/1000/pulse",
            "--device",
            "/dev/snd",
            "-e",
            "DISPLAY=unix:0",
            "-v",
            "/tmp/.X11-unix:/tmp/.X11-unix",
            "--device",
            "/dev/dri",
            "-v",
            "/run/user/1000/bus:/run/user/1000/bus",
            "-v",
            "/var/run/dbus/system_bus_socket:/var/run/dbus/system_bus_socket",
            "-v",
            "/home/alice/.dbus/session-bus:/home/alice/.dbus/session-bus",
            "-e",
            "DBUS_SESSION_BUS_ADDRESS=unix:path=/run/user/1000/bus",
            "-v",
            "/dev/shm:/dev/shm",
            "-v",
            "/tmp/w/entrypoint.bash:/entrypoint.bash",
            "--entrypoint",
            "/entrypoint.bash",
            "waynr/steam:7",
            "/usr/games/steam",
        ]
    );
    let script = launch.script.unwrap().contents;
    let create = script.find("### create a user named alice").unwrap();
    let groups = script.find("### configure video group for container user").unwrap();
    let pulse = script.find("### configure pulseaudio client to connect to host daemon").unwrap();
    assert!(create < groups && groups < pulse);
    assert!(script.ends_with("\n# execute whatever command was specified\nsudo --user $USER $@"));
}
