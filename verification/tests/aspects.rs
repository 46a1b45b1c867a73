use dfiles::aspects::{
    Alsa, Aspect, CPUShares, ContainerAspect, ContainerFile, CurrentUser, DBus, Debian,
    DockerfileSnippet, Locale, Memory, Mount, Name, Network, Profile, PulseAudio, Shm,
    StaticAspect, SysAdmin, Timezone, Ubuntu, Video, X11,
};
use dfiles::aspects::{
    collect_container_files, collect_dockerfile_snippets, collect_entrypoint_snippets,
    collect_run_args,
};
use dfiles::cli::{CliInput, Flag, FlagAction};
use dfiles::entrypoint::ScriptSnippet;
use dfiles::error::Error;
use dfiles::host::{DirEntry, Environment, HostFacts, HostGroup};

fn host() -> HostFacts {
    HostFacts {
        env: Environment {
            home: Some("/home/alice".to_string()),
            xdg_runtime_dir: Some("/run/user/1000".to_string()),
            display: Some(":0".to_string()),
            lc_all: None,
            lc_ctype: None,
            lang: None,
        },
        dev_entries: Some(vec![
            DirEntry { file_name: "null".to_string(), path: "/dev/null".to_string() },
            DirEntry { file_name: "video0".to_string(), path: "/dev/video0".to_string() },
            DirEntry { file_name: "snd".to_string(), path: "/dev/snd".to_string() },
            DirEntry { file_name: "video1".to_string(), path: "/dev/video1".to_string() },
        ]),
        uid: 1000,
        gid: 1001,
        user_name: Some("alice".to_string()),
        gid_account_name: Some("staff".to_string()),
        current_username: Some("alice".to_string()),
        groups: vec![
            HostGroup { name: "audio".to_string(), gid: 29 },
            HostGroup { name: "video".to_string(), gid: 44 },
        ],
        data_dir: Some("/home/alice/.local/share/dfiles".to_string()),
    }
}

fn input() -> CliInput {
    CliInput {
        mounts: None,
        timezone: None,
        memory: None,
        cpu_shares: None,
        network: None,
        locale: None,
        profile: None,
        container_name: None,
        command: None,
    }
}

#[test]
fn names() {
    assert_eq!(ContainerAspect::name(&PulseAudio {}), "PulseAudio");
    assert_eq!(ContainerAspect::name(&Alsa {}), "Alsa");
    assert_eq!(ContainerAspect::name(&X11 {}), "X11");
    assert_eq!(ContainerAspect::name(&Video {}), "Video");
    assert_eq!(ContainerAspect::name(&DBus {}), "DBus");
    assert_eq!(ContainerAspect::name(&SysAdmin {}), "SysAdmin");
    assert_eq!(ContainerAspect::name(&Shm {}), "Shm");
    assert_eq!(ContainerAspect::name(&Network { mode: "host".to_string() }), "Network");
    assert_eq!(ContainerAspect::name(&CPUShares("1".to_string())), "CPUShares");
    assert_eq!(ContainerAspect::name(&Memory("1".to_string())), "Memory");
    assert_eq!(ContainerAspect::name(&Name("x".to_string())), "Name");
    assert_eq!(ContainerAspect::name(&Timezone("UTC".to_string())), "Timezone");
    assert_eq!(ContainerAspect::name(&Debian { version: "buster".to_string() }), "Debian");
    assert_eq!(ContainerAspect::name(&Ubuntu { version: "20.04".to_string() }), "Ubuntu");
    assert_eq!(
        ContainerAspect::name(&Mount { host_path: "a".to_string(), container_path: "b".to_string() }),
        "Mount"
    );
    assert_eq!(
        ContainerAspect::name(&Profile { name: "x".to_string(), container_paths: vec![] }),
        "Profile"
    );
    let locale = Locale {
        language: "en".to_string(),
        territory: "US".to_string(),
        codeset: "UTF-8".to_string(),
    };
    assert_eq!(ContainerAspect::name(&locale), "AutoLocale");
    let user = CurrentUser::from_lookup(1000, Some("alice".to_string())).unwrap();
    assert_eq!(user.name(), "alice");
    assert_eq!(ContainerAspect::name(&user), "User: alice");
}

#[test]
fn simple_launch_arguments() {
    let h = host();
    assert_eq!(Alsa {}.run_args(None, &h).unwrap(), vec!["--device", "/dev/snd"]);
    assert_eq!(SysAdmin {}.run_args(None, &h).unwrap(), vec!["--cap-add", "SYS_ADMIN"]);
    assert_eq!(Shm {}.run_args(None, &h).unwrap(), vec!["-v", "/dev/shm:/dev/shm"]);
    assert_eq!(Network { mode: "host".to_string() }.run_args(None, &h).unwrap(), vec!["--net", "host"]);
    assert_eq!(CPUShares("512".to_string()).run_args(None, &h).unwrap(), vec!["--cpu-shares", "512"]);
    assert_eq!(Memory("3072mb".to_string()).run_args(None, &h).unwrap(), vec!["--memory", "3072mb"]);
    let mount = Mount { host_path: "/srv".to_string(), container_path: "/data".to_string() };
    assert_eq!(mount.run_args(None, &h).unwrap(), vec!["-v", "/srv:/data"]);
}

#[test]
fn pulseaudio_mounts_its_directories() {
    assert_eq!(
        PulseAudio {}.run_args(None, &host()).unwrap(),
        vec![
            "-v",
            "/home/alice/.pulse:/home/alice/.pulse",
            "-v",
            "/home/alice/.config/pulse:/home/alice/.config/pulse",
            "-v",
            "/run/user/1000/pulse:/run/user/1000/pulse",
        ]
    );
}

#[test]
fn pulseaudio_configures_the_client() {
    let steps = PulseAudio {}.entrypoint_snippets(&host()).unwrap();
    assert_eq!(steps.len(), 2);
    assert_eq!(steps[0].order, 50);
    assert_eq!(steps[0].description, "configure pulseaudio client to connect to host daemon");
    assert_eq!(
        steps[0].snippet,
        "cat << EOF > /etc/pulse/client.conf\n\
         # Connect to the host's server using the mounted UNIX socket\n\
         default-server = unix:/run/user/1000/pulse/native\n\
         \n\
         # Prevent a server running in the container\n\
         autospawn = no\n\
         daemon-binary = /bin/true\n\
         \n\
         # Prevent the use of shared memory\n\
         enable-shm = false\n\
         EOF\n\
         \n\
         chmod 655 /etc/pulse\n\
         chmod 644 /etc/pulse/client.conf"
    );
    assert_eq!(steps[1].order, 5);
    assert_eq!(steps[1].snippet, "adduser alice audio\ngroupmod -g 29 audio\n        ");
}

#[test]
fn missing_variables_are_named() {
    let mut h = host();
    h.env.xdg_runtime_dir = None;
    assert!(matches!(
        PulseAudio {}.run_args(None, &h),
        Err(Error::MissingEnvironment { aspect, variable })
            if aspect == "PulseAudio" && variable == "XDG_RUNTIME_DIR"
    ));
    assert!(matches!(
        DBus {}.run_args(None, &h),
        Err(Error::MissingEnvironment { aspect, variable })
            if aspect == "DBus" && variable == "XDG_RUNTIME_DIR"
    ));
    h.env.home = None;
    assert!(matches!(
        PulseAudio {}.run_args(None, &h),
        Err(Error::MissingEnvironment { aspect, variable })
            if aspect == "PulseAudio" && variable == "HOME"
    ));
    assert!(matches!(
        DBus {}.run_args(None, &h),
        Err(Error::MissingEnvironment { aspect, variable }) if aspect == "DBus" && variable == "HOME"
    ));
    h.env.display = None;
    assert!(matches!(
        X11 {}.run_args(None, &h),
        Err(Error::MissingEnvironment { aspect, variable }) if aspect == "X11" && variable == "DISPLAY"
    ));
    h.dev_entries = None;
    assert!(matches!(
        Video {}.run_args(None, &h),
        Err(Error::MissingDevices { aspect }) if aspect == "Video"
    ));
}

#[test]
fn x11_points_at_the_display() {
    assert_eq!(
        X11 {}.run_args(None, &host()).unwrap(),
        vec!["-e", "DISPLAY=unix:0", "-v", "/tmp/.X11-unix:/tmp/.X11-unix", "--device", "/dev/dri"]
    );
    let blocks = X11 {}.dockerfile_snippets();
    assert_eq!(blocks.len(), 1);
    assert_eq!(blocks[0].order, 72);
    assert_eq!(
        blocks[0].content,
        "RUN apt-get update && apt-get install -y \\\n    --no-install-recommends \\\n    libxtst6 \\\n  && apt-get purge --autoremove \\\n  && rm -rf /var/lib/apt/lists/* \\\n  && rm -rf /src/*.deb "
    );
}

#[test]
fn video_passes_cameras_through() {
    assert_eq!(
        Video {}.run_args(None, &host()).unwrap(),
        vec!["--device", "/dev/video0", "--device", "/dev/video1"]
    );
    let mut h = host();
    h.dev_entries = Some(vec![]);
    assert_eq!(Video {}.run_args(None, &h).unwrap(), Vec::<String>::new());
    let steps = Video {}.entrypoint_snippets(&host()).unwrap();
    assert_eq!(steps.len(), 1);
    assert_eq!(steps[0].snippet, "adduser alice video\ngroupmod -g 44 video\n        ");
}

#[test]
fn dbus_mounts_the_buses() {
    assert_eq!(
        DBus {}.run_args(None, &host()).unwrap(),
        vec![
            "-v",
            "/run/user/1000/bus:/run/user/1000/bus",
            "-v",
            "/var/run/dbus/system_bus_socket:/var/run/dbus/system_bus_socket",
            "-v",
            "/home/alice/.dbus/session-bus:/home/alice/.dbus/session-bus",
            "-e",
            "DBUS_SESSION_BUS_ADDRESS=unix:path=/run/user/1000/bus",
        ]
    );
    assert_eq!(DBus {}.dockerfile_snippets()[0].order, 71);
}

#[test]
fn name_follows_flag_then_profile() {
    let h = host();
    let name = Name("firefox".to_string());
    assert_eq!(name.run_args(None, &h).unwrap(), vec!["--name", "default"]);
    let mut i = input();
    assert_eq!(name.run_args(Some(&i), &h).unwrap(), vec!["--name", "default"]);
    i.profile = Some("work".to_string());
    assert_eq!(name.run_args(Some(&i), &h).unwrap(), vec!["--name", "firefox-work"]);
    i.container_name = Some("mine".to_string());
    assert_eq!(name.run_args(Some(&i), &h).unwrap(), vec!["--name", "mine"]);
    let flags = name.config_args();
    assert_eq!(flags.len(), 1);
    assert_eq!(flags[0].name, "container_name");
    assert_eq!(flags[0].short, Some('n'));
    assert_eq!(flags[0].long.as_deref(), Some("name"));
    assert_eq!(flags[0].help.as_deref(), Some("specify the name of the container to be run"));
    assert!(flags[0].global);
    assert_eq!(flags[0].action, FlagAction::Single);
    assert_eq!(flags[0].default_value, None);
}

#[test]
fn profile_keeps_directories_below_the_data_directory() {
    let h = host();
    let profile = Profile {
        name: "firefox".to_string(),
        container_paths: vec!["/home/alice/.mozilla".to_string(), "data".to_string()],
    };
    assert_eq!(
        profile.run_args(None, &h).unwrap(),
        vec![
            "-v",
            "/home/alice/.local/share/dfiles/applications/firefox/profiles/default/home/alice/.mozilla:/home/alice/.mozilla",
            "-v",
            "/home/alice/.local/share/dfiles/applications/firefox/profiles/default/data:data",
        ]
    );
    let mut i = input();
    i.profile = Some("work".to_string());
    assert_eq!(
        profile.host_paths(Some(&i), &h).unwrap(),
        vec![
            "/home/alice/.local/share/dfiles/applications/firefox/profiles/work/home/alice/.mozilla",
            "/home/alice/.local/share/dfiles/applications/firefox/profiles/work/data",
        ]
    );
    let flags = profile.config_args();
    assert_eq!(flags.len(), 1);
    assert_eq!(flags[0].name, "profile");
    assert_eq!(flags[0].short, Some('p'));
    assert_eq!(flags[0].long.as_deref(), Some("profile"));
    assert_eq!(flags[0].default_value.as_deref(), Some("default"));
    assert!(!flags[0].global);
}

#[test]
fn profile_without_data_directory_fails() {
    let mut h = host();
    h.data_dir = None;
    let profile = Profile { name: "firefox".to_string(), container_paths: vec!["/x".to_string()] };
    assert!(matches!(profile.run_args(None, &h), Err(Error::MissingDirectory)));
    assert!(matches!(profile.host_paths(None, &h), Err(Error::MissingDirectory)));
}

#[test]
fn current_user_is_created_at_start_up() {
    let user = CurrentUser::from_lookup(1000, Some("alice".to_string())).unwrap();
    let steps = user.entrypoint_snippets(&host()).unwrap();
    assert_eq!(steps.len(), 1);
    assert_eq!(steps[0].order, 2);
    assert_eq!(steps[0].description, "create a user named alice");
    assert_eq!(
        steps[0].snippet,
        "addgroup --gid 1001 staff\n\
         useradd --home-dir /home/alice \\\n    --shell /bin/bash \\\n    --uid 1000 \\\n    --gid 1001 \\\n    alice\n\
         \n\
         # NOTE: I don't remember why this was necessary...\n\
         adduser alice tty\n\
         \n\
         mkdir -p /data /home/alice\n\
         chown alice:staff /data /home/alice\n\
         \n\
         cd /home/alice\n\
         USER=alice"
    );
}

#[test]
fn current_user_needs_accounts() {
    assert!(matches!(CurrentUser::from_lookup(4711, None), Err(Error::MissingUser(u)) if u == "4711"));
    let user = CurrentUser::from_lookup(1000, Some("alice".to_string())).unwrap();
    let mut h = host();
    h.gid_account_name = None;
    assert!(matches!(user.entrypoint_snippets(&h), Err(Error::MissingGroup(g)) if g == "1001"));
    h.user_name = None;
    assert!(matches!(user.entrypoint_snippets(&h), Err(Error::MissingUser(u)) if u == "1000"));
}

#[test]
fn detect_finds_the_account_or_names_the_number() {
    match CurrentUser::detect() {
        Ok(user) => assert!(ContainerAspect::name(&user).starts_with("User: ")),
        Err(e) => assert!(matches!(e, Error::MissingUser(_))),
    }
}

#[test]
fn locale_is_generated_at_build_and_at_start_up() {
    let locale = Locale {
        language: "en".to_string(),
        territory: "US".to_string(),
        codeset: "UTF-8".to_string(),
    };
    let blocks = locale.dockerfile_snippets();
    assert_eq!(blocks.len(), 1);
    assert_eq!(blocks[0].order, 88);
    assert_eq!(
        blocks[0].content,
        "RUN echo 'en_US.UTF-8 UTF-8' > /etc/locale.gen\nRUN locale-gen\nRUN echo LANG=\"en_US.UTF-8\" > /etc/default/locale\nENV LANG=en_US.UTF-8"
    );
    let mut h = host();
    let steps = locale.entrypoint_snippets(&h).unwrap();
    assert_eq!(steps.len(), 1);
    assert_eq!(steps[0].order, 80);
    assert_eq!(steps[0].description, "set a non-default entrypoint snippet");
    assert_eq!(
        steps[0].snippet,
        "echo 'en_US.UTF-8 UTF-8' > /etc/locale.gen\nlocale-gen\necho LANG=\"en_US.UTF-8\" > /etc/default/locale\nexport LANG=en_US.UTF-8"
    );
    h.env.lang = Some("de_DE.UTF-8".to_string());
    assert!(locale.entrypoint_snippets(&h).unwrap()[0].snippet.ends_with("export LANG=de_DE.UTF-8"));
    h.env.lc_ctype = Some("fr_FR.UTF-8".to_string());
    assert!(locale.entrypoint_snippets(&h).unwrap()[0].snippet.ends_with("export LANG=fr_FR.UTF-8"));
    h.env.lc_all = Some("C.UTF-8".to_string());
    assert!(locale.entrypoint_snippets(&h).unwrap()[0].snippet.starts_with("echo 'C.UTF-8 UTF-8' >"));
    assert_eq!(locale.run_args(None, &h).unwrap(), Vec::<String>::new());
}

#[test]
fn timezone_is_set_at_build_launch_and_start_up() {
    let tz = Timezone("Europe/Zurich".to_string());
    let blocks = tz.dockerfile_snippets();
    assert_eq!(blocks[0].order, 88);
    assert_eq!(
        blocks[0].content,
        "ENV TZ=Europe/Zurich\nRUN ln -snf /usr/share/zoneinfo/Europe/Zurich /etc/localtime\nRUN echo Europe/Zurich > /etc/timezone\n"
    );
    let mut h = host();
    assert_eq!(tz.run_args(None, &h).unwrap(), vec!["-e", "TZ=Europe/Zurich"]);
    let mut i = input();
    assert_eq!(tz.run_args(Some(&i), &h).unwrap(), vec!["-e", "TZ=Europe/Zurich"]);
    i.timezone = Some("UTC".to_string());
    assert_eq!(tz.run_args(Some(&i), &h).unwrap(), vec!["-e", "TZ=UTC"]);
    let steps = tz.entrypoint_snippets(&h).unwrap();
    assert_eq!(steps.len(), 2);
    assert_eq!(steps[0].order, 60);
    assert_eq!(steps[0].description, "configure timezone based on TZ variable in host");
    assert_eq!(
        steps[0].snippet,
        "export TZ=Europe/Zurich\nln -snf /usr/share/zoneinfo/Europe/Zurich /etc/localtime\necho Europe/Zurich > /etc/timezone\n"
    );
    assert_eq!(steps[1].order, 5);
    h.env.lc_all = Some("X".to_string());
    assert!(tz.entrypoint_snippets(&h).unwrap()[0].snippet.starts_with("export TZ=X\n"));
    h.groups.clear();
    assert!(matches!(tz.entrypoint_snippets(&h), Err(Error::MissingGroup(g)) if g == "audio"));
}

#[test]
fn base_images_select_release_and_packages() {
    let blocks = Debian { version: "bullseye".to_string() }.dockerfile_snippets();
    assert_eq!(blocks.len(), 3);
    assert_eq!((blocks[0].order, blocks[1].order, blocks[2].order), (0, 3, 2));
    assert_eq!(blocks[0].content, "FROM debian:bullseye");
    assert!(blocks[1].content.starts_with("# Useful language packs\nRUN apt-get update"));
    assert!(blocks[2].content.contains("    sudo \\\n"));
    let blocks = Ubuntu { version: "22.04".to_string() }.dockerfile_snippets();
    assert_eq!(blocks[0].content, "FROM ubuntu:22.04");
    assert!(!blocks[2].content.contains("sudo"));
    assert!(blocks[2].content.ends_with("  && rm -rf /src/*.deb "));
}

fn editor() -> StaticAspect {
    let mut editor = StaticAspect::named("editor");
    editor.run_args = vec!["--hostname".to_string(), "editor".to_string()];
    editor.dockerfile_snippets =
        vec![DockerfileSnippet { order: 91, content: "RUN apt-get install -y editor".to_string() }];
    editor.container_files = vec![ContainerFile {
        container_path: "./etc/editor.conf".to_string(),
        contents: b"tabs=4\n".to_vec(),
    }];
    editor
}

#[test]
fn static_aspect_contributes_what_it_holds() {
    let h = host();
    let mut editor = editor();
    editor.config_args = vec![Flag::single("theme", "theme", "the colours to use")];
    editor.entrypoint_snippets = vec![ScriptSnippet {
        description: "prepare".to_string(),
        order: 7,
        snippet: "true".to_string(),
    }];
    assert_eq!(ContainerAspect::name(&editor), "editor");
    assert_eq!(editor.run_args(None, &h).unwrap(), vec!["--hostname", "editor"]);
    assert_eq!(editor.config_args().len(), 1);
    assert_eq!(editor.config_args()[0].name, "theme");
    assert_eq!(editor.config_args()[0].long.as_deref(), Some("theme"));
    assert_eq!(editor.config_args()[0].help.as_deref(), Some("the colours to use"));
    assert_eq!(editor.config_args()[0].action, FlagAction::Single);
    assert!(editor.cli_build_args().is_empty());
    assert_eq!(editor.dockerfile_snippets()[0].content, "RUN apt-get install -y editor");
    assert_eq!(editor.container_files()[0].contents, b"tabs=4\n");
    let steps = editor.entrypoint_snippets(&h).unwrap();
    assert_eq!((steps[0].order, steps[0].snippet.as_str()), (7, "true"));
    let empty = StaticAspect::named("nothing");
    assert!(empty.run_args(None, &h).unwrap().is_empty());
    assert!(empty.dockerfile_snippets().is_empty());
}

#[test]
fn contributions_are_gathered_in_registration_order() {
    let h = host();
    let aspects: Vec<Aspect> = vec![
        editor().aspect(),
        Shm {}.aspect(),
        Alsa {}.aspect(),
        X11 {}.aspect(),
    ];
    assert_eq!(
        collect_run_args(&aspects, None, &h).unwrap(),
        vec![
            "--hostname", "editor", "-v", "/dev/shm:/dev/shm", "--device", "/dev/snd", "-e",
            "DISPLAY=unix:0", "-v", "/tmp/.X11-unix:/tmp/.X11-unix", "--device", "/dev/dri",
        ]
    );
    let blocks = collect_dockerfile_snippets(&aspects);
    assert_eq!(blocks.iter().map(|b| b.order).collect::<Vec<u8>>(), vec![91, 72]);
    let files = collect_container_files(&aspects);
    assert_eq!(files.len(), 1);
    assert_eq!(files[0].container_path, "./etc/editor.conf");
    assert_eq!(files[0].contents, b"tabs=4\n");
    assert_eq!(collect_entrypoint_snippets(&aspects, &h).unwrap().len(), 1);
}

#[test]
fn first_failure_wins() {
    let mut h = host();
    h.env.display = None;
    h.env.home = None;
    let aspects: Vec<Aspect> = vec![Shm {}.aspect(), X11 {}.aspect(), DBus {}.aspect()];
    assert!(matches!(
        collect_run_args(&aspects, None, &h),
        Err(Error::MissingEnvironment { aspect, .. }) if aspect == "X11"
    ));
}
