use std::io::Read;

use dfiles::archive::pack;
use dfiles::aspects::{Alsa, Aspect, ContainerFile, DockerfileSnippet, Shm, StaticAspect, X11};
use dfiles::cli::CliInput;
use dfiles::config::Config;
use dfiles::containermanager::{Action, ContainerManager, Invocation, Layers, Subcommand};
use dfiles::error::Error;
use dfiles::host::{Environment, HostFacts, HostGroup};

fn host() -> HostFacts {
    HostFacts {
        env: Environment {
            home: Some("/home/alice".to_string()),
            xdg_runtime_dir: Some("/run/user/1000".to_string()),
            display: Some(":0".to_string()),
            lc_all: None,
            lc_ctype: None,
            lang: None,
        },
        dev_entries: Some(vec![]),
        uid: 1000,
        gid: 1000,
        user_name: Some("alice".to_string()),
        gid_account_name: Some("alice".to_string()),
        current_username: Some("alice".to_string()),
        groups: vec![HostGroup { name: "audio".to_string(), gid: 29 }],
        data_dir: Some("/data/dfiles".to_string()),
    }
}

fn input() -> CliInput {
    CliInput {
        mounts: None,
        timezone: None,
        memory: None,
        cpu_shares: None,
        network: None,
        locale: None,
        profile: Some("default".to_string()),
        container_name: None,
        command: None,
    }
}

fn no_layers() -> Layers {
    Layers { global: None, application: None, profile: None }
}

fn app() -> StaticAspect {
    let mut app = StaticAspect::named("editor");
    app.dockerfile_snippets = vec![
        DockerfileSnippet { order: 91, content: "RUN apt-get install -y editor".to_string() },
        DockerfileSnippet { order: 75, content: "COPY /etc/editor.conf /etc/editor.conf".to_string() },
    ];
    app.container_files = vec![ContainerFile {
        container_path: "./etc/editor.conf".to_string(),
        contents: b"tabs=4\n".to_vec(),
    }];
    app
}

fn manager(aspects: Vec<Aspect>) -> ContainerManager {
    ContainerManager::default(
        "editor".to_string(),
        vec!["example/editor:1".to_string(), "example/editor:latest".to_string()],
        vec!["/home/alice/.editor".to_string()],
        aspects,
        vec!["editor".to_string(), "--fast".to_string()],
        "/tmp/dfiles-editor-1".to_string(),
    )
    .unwrap()
}

fn entries(archive: &[u8]) -> Vec<(String, Vec<u8>)> {
    let mut reader = tar::Archive::new(archive);
    let mut out = Vec::new();
    for entry in reader.entries().unwrap() {
        let mut entry = entry.unwrap();
        let path = entry.path().unwrap().to_string_lossy().to_string();
        let mut bytes = Vec::new();
        entry.read_to_end(&mut bytes).unwrap();
        out.push((path, bytes));
    }
    out
}

#[test]
fn image_is_the_first_tag() {
    let m = manager(vec![]);
    assert_eq!(m.image(), "example/editor:1");
    assert_eq!(m.name(), "editor");
}

#[test]
fn dockerfile_is_composed_in_key_order() {
    let m = ContainerManager::default_debian(
        "editor".to_string(),
        vec!["example/editor:1".to_string()],
        vec![],
        vec![app().aspect(), X11 {}.aspect()],
        vec![],
        None,
        "/tmp/w".to_string(),
    )
    .unwrap();
    let text = m.dockerfile();
    assert!(text.starts_with("FROM debian:buster\n\nRUN apt-get update && apt-get install -y \\\n    --no-install-recommends \\\n    apt-utils \\\n"));
    let base = text.find("FROM debian:buster").unwrap();
    let packages = text.find("    apt-utils").unwrap();
    let fonts = text.find("# Useful language packs").unwrap();
    let x11 = text.find("libxtst6").unwrap();
    let copy = text.find("COPY /etc/editor.conf").unwrap();
    let install = text.find("RUN apt-get install -y editor").unwrap();
    assert!(base < packages && packages < fonts && fonts < x11 && x11 < copy && copy < install);
    assert!(text.ends_with("\n\nRUN apt-get install -y editor"));
    assert_eq!(text, m.dockerfile());
}

#[test]
fn base_image_release_can_be_chosen() {
    let m = ContainerManager::default_debian(
        "x".to_string(),
        vec!["x:1".to_string()],
        vec![],
        vec![],
        vec![],
        Some("bullseye".to_string()),
        "/tmp/w".to_string(),
    )
    .unwrap();
    assert!(m.dockerfile().starts_with("FROM debian:bullseye\n\n"));
    let m = ContainerManager::default_ubuntu(
        "x".to_string(),
        vec!["x:1".to_string()],
        vec![],
        vec![],
        vec![],
        None,
        "/tmp/w".to_string(),
    )
    .unwrap();
    assert!(m.dockerfile().starts_with("FROM ubuntu:20.04\n\n"));
    let m = ContainerManager::default_ubuntu(
        "x".to_string(),
        vec!["x:1".to_string()],
        vec![],
        vec![],
        vec![],
        Some("22.04".to_string()),
        "/tmp/w".to_string(),
    )
    .unwrap();
    assert!(m.dockerfile().starts_with("FROM ubuntu:22.04\n\n"));
}

#[test]
fn build_context_holds_files_then_dockerfile() {
    let m = manager(vec![app().aspect()]);
    let files = m.build_context();
    assert_eq!(files.len(), 2);
    assert_eq!(files[0].container_path, "./etc/editor.conf");
    assert_eq!(files[0].contents, b"tabs=4\n");
    assert_eq!(files[1].container_path, "Dockerfile");
    assert_eq!(
        String::from_utf8(files[1].contents.clone()).unwrap(),
        "COPY /etc/editor.conf /etc/editor.conf\n\nRUN apt-get install -y editor"
    );
}

#[test]
fn archive_holds_the_build_context() {
    let m = manager(vec![app().aspect()]);
    let archive = m.generate_archive_impl().unwrap();
    assert_eq!(
        entries(&archive),
        vec![
            ("etc/editor.conf".to_string(), b"tabs=4\n".to_vec()),
            (
                "Dockerfile".to_string(),
                b"COPY /etc/editor.conf /etc/editor.conf\n\nRUN apt-get install -y editor".to_vec()
            ),
        ]
    );
    assert_eq!(archive.len() % 512, 0);
    assert_eq!(archive, m.generate_archive_impl().unwrap());
    let file = m.generate_archive().unwrap();
    assert_eq!(file.path, "editor.tar");
    assert_eq!(file.contents, archive);
    let request = m.build().unwrap();
    assert_eq!(request.archive, archive);
    assert_eq!(request.dockerfile, "Dockerfile");
    assert_eq!(request.tags, vec!["example/editor:1", "example/editor:latest"]);
}

#[test]
fn archive_stores_paths_in_their_normal_form() {
    let file = |path: &str| {
        vec![ContainerFile { container_path: path.to_string(), contents: b"tabs=4\n".to_vec() }]
    };
    let plain = pack(&file("etc/editor.conf")).unwrap();
    assert_eq!(pack(&file("./etc/editor.conf")).unwrap(), plain);
    assert_eq!(pack(&file("etc//editor.conf")).unwrap(), plain);
    assert_eq!(entries(&plain), vec![("etc/editor.conf".to_string(), b"tabs=4\n".to_vec())]);
    assert_ne!(pack(&file("etc/editor.cfg")).unwrap(), plain);
}

#[test]
fn archive_of_accepted_paths_succeeds_every_time() {
    let m = manager(vec![app().aspect(), app().aspect()]);
    let first = m.generate_archive_impl().unwrap();
    let second = m.generate_archive_impl().unwrap();
    assert_eq!(first, second);
    assert_eq!(entries(&first).len(), 3);
    assert_eq!(m.build().unwrap().archive, first);
    assert_eq!(m.generate_archive().unwrap().contents, first);
}

#[test]
fn empty_archive_is_only_the_end_marker() {
    let archive = pack(&vec![]).unwrap();
    assert_eq!(archive, vec![0u8; 1024]);
}

#[test]
fn refused_path_fails_the_archive() {
    let files = vec![
        ContainerFile { container_path: "fine".to_string(), contents: vec![1, 2, 3] },
        ContainerFile { container_path: "../escape".to_string(), contents: vec![] },
    ];
    assert!(matches!(pack(&files), Err(Error::FailedToAddFileToArchive { .. })));
    let mut bad = StaticAspect::named("bad");
    bad.container_files = vec![ContainerFile { container_path: "/absolute".to_string(), contents: vec![] }];
    let m = manager(vec![bad.aspect()]);
    assert!(matches!(m.generate_archive_impl(), Err(Error::FailedToAddFileToArchive { .. })));
    assert!(matches!(m.build(), Err(Error::FailedToAddFileToArchive { .. })));
    assert!(matches!(m.generate_archive(), Err(Error::FailedToAddFileToArchive { .. })));
}

#[test]
fn run_without_steps_keeps_the_entry_point() {
    let m = manager(vec![Shm {}.aspect(), X11 {}.aspect()]);
    let launch = m.run(&input(), &host()).unwrap();
    assert!(launch.script.is_none());
    assert_eq!(
        launch.args,
        vec![
            "--rm", "-v", "/dev/shm:/dev/shm", "-e", "DISPLAY=unix:0", "-v",
            "/tmp/.X11-unix:/tmp/.X11-unix", "--device", "/dev/dri", "example/editor:1", "editor",
            "--fast",
        ]
    );
}

#[test]
fn run_with_steps_mounts_the_script() {
    let m = manager(vec![Alsa {}.aspect()]);
    let launch = m.run(&input(), &host()).unwrap();
    assert_eq!(
        launch.args,
        vec![
            "--rm", "--device", "/dev/snd", "-v",
            "/tmp/dfiles-editor-1/entrypoint.bash:/entrypoint.bash", "--entrypoint",
            "/entrypoint.bash", "example/editor:1", "editor", "--fast",
        ]
    );
    let script = launch.script.unwrap();
    assert_eq!(script.path, "/tmp/dfiles-editor-1/entrypoint.bash");
    assert_eq!(
        script.contents,
        "#!/usr/bin/env bash\nUSER=root\n### configure video group for container user\nadduser alice audio\ngroupmod -g 29 audio\n        \n\n# execute whatever command was specified\nsudo --user $USER $@"
    );
}

#[test]
fn missing_host_fact_fails_the_launch() {
    let mut h = host();
    h.env.display = None;
    let m = manager(vec![Shm {}.aspect(), X11 {}.aspect(), Alsa {}.aspect()]);
    assert!(matches!(
        m.run(&input(), &h),
        Err(Error::MissingEnvironment { aspect, variable }) if aspect == "X11" && variable == "DISPLAY"
    ));
    let mut h = host();
    h.groups.clear();
    assert!(matches!(m.run(&input(), &h), Err(Error::MissingGroup(g)) if g == "audio"));
    assert!(matches!(m.cmd(&input(), &h), Err(Error::MissingGroup(g)) if g == "audio"));
}

#[test]
fn cmd_runs_the_given_command_or_a_shell() {
    let m = manager(vec![Shm {}.aspect()]);
    let launch = m.cmd(&input(), &host()).unwrap();
    assert_eq!(
        launch.args,
        vec!["-it", "--rm", "-v", "/dev/shm:/dev/shm", "example/editor:1", "/bin/bash"]
    );
    let mut i = input();
    i.command = Some(vec!["ls".to_string(), "-l".to_string()]);
    let launch = m.cmd(&i, &host()).unwrap();
    assert_eq!(
        launch.args,
        vec!["-it", "--rm", "-v", "/dev/shm:/dev/shm", "example/editor:1", "ls", "-l"]
    );
}

#[test]
fn config_saves_the_settings_of_the_command_line() {
    let m = manager(vec![]);
    let mut i = input();
    i.profile = Some("work".to_string());
    i.mounts = Some(vec!["A:B".to_string()]);
    let request = m.config(&i, None).unwrap();
    assert_eq!(request.application, "editor");
    assert_eq!(request.profile.as_deref(), Some("work"));
    assert_eq!(request.config.mounts.as_ref().unwrap().len(), 1);
    let again = m.config(&i, Some(request.config)).unwrap();
    let mounts = again.config.mounts.unwrap();
    assert_eq!(mounts.len(), 1);
    assert_eq!((mounts[0].host_path.as_str(), mounts[0].container_path.as_str()), ("A", "B"));
    i.mounts = Some(vec!["A".to_string()]);
    assert!(matches!(m.config(&i, None), Err(Error::InvalidMount(s)) if s == "A"));
}

#[test]
fn flags_of_each_subcommand() {
    let m = manager(vec![dfiles::aspects::Name("editor".to_string()).aspect(), Shm {}.aspect()]);
    let cli = m.cli();
    let names = |flags: &Vec<dfiles::cli::Flag>| -> Vec<String> {
        flags.iter().map(|f| f.name.clone()).collect()
    };
    assert_eq!(names(&cli.top), vec!["verbose"]);
    assert_eq!(cli.top[0].short, Some('v'));
    assert_eq!(cli.top[0].action, dfiles::cli::FlagAction::Counted);
    assert_eq!(
        names(&cli.run),
        vec!["mount", "timezone", "memory", "cpu-shares", "network", "locale", "profile", "container_name"]
    );
    assert_eq!(
        names(&cli.cmd),
        vec![
            "mount", "timezone", "memory", "cpu-shares", "network", "locale", "command", "profile",
            "container_name",
        ]
    );
    assert!(cli.cmd[6].last && cli.cmd[6].required);
    assert_eq!(cli.cmd[6].help.as_deref(), Some("command to run instead of default"));
    assert!(cli.build.is_empty());
    assert_eq!(names(&cli.config), names(&cli.run));
}

#[test]
fn execute_without_subcommand_prints_usage() {
    let mut m = manager(vec![Shm {}.aspect()]);
    let invocation = Invocation { subcommand: None, input: input() };
    assert!(matches!(m.execute(&invocation, no_layers(), &host()), Ok(Action::Usage)));
    let mut m = manager(vec![]);
    let invocation = Invocation { subcommand: Some(Subcommand::Other), input: input() };
    assert!(matches!(m.execute(&invocation, no_layers(), &host()), Ok(Action::Usage)));
}

#[test]
fn execute_run_registers_profile_first_and_settings_last() {
    let mut m = manager(vec![Shm {}.aspect()]);
    let mut stored = Config::empty();
    stored.memory = Some(dfiles::aspects::Memory("1g".to_string()));
    stored.mounts = Some(vec![dfiles::aspects::Mount {
        host_path: "/srv".to_string(),
        container_path: "/srv".to_string(),
    }]);
    let layers = Layers { global: Some(stored), application: None, profile: None };
    let mut i = input();
    i.profile = Some("work".to_string());
    i.memory = Some("2g".to_string());
    i.mounts = Some(vec!["/a:/b".to_string()]);
    let invocation = Invocation { subcommand: Some(Subcommand::Run), input: i };
    let action = m.execute(&invocation, layers, &host()).unwrap();
    let launch = match action {
        Action::Launch(l) => l,
        other => panic!("unexpected action {:?}", other),
    };
    assert!(launch.script.is_none());
    assert_eq!(
        launch.args,
        vec![
            "--rm",
            "-v",
            "/data/dfiles/applications/editor/profiles/work/home/alice/.editor:/home/alice/.editor",
            "-v",
            "/dev/shm:/dev/shm",
            "-v",
            "/srv:/srv",
            "-v",
            "/a:/b",
            "--memory",
            "2g",
            "example/editor:1",
            "editor",
            "--fast",
        ]
    );
}

#[test]
fn execute_answers_each_mode() {
    let invocation = |mode| Invocation { subcommand: Some(mode), input: input() };
    let mut m = manager(vec![app().aspect()]);
    assert!(matches!(
        m.execute(&invocation(Subcommand::Cmd), no_layers(), &host()),
        Ok(Action::Launch(l)) if l.args[0] == "-it" && l.args.last().unwrap() == "/bin/bash"
    ));
    let mut m = manager(vec![app().aspect()]);
    assert!(matches!(
        m.execute(&invocation(Subcommand::Build), no_layers(), &host()),
        Ok(Action::Build(b)) if b.dockerfile == "Dockerfile" && entries(&b.archive).len() == 2
    ));
    let mut m = manager(vec![app().aspect()]);
    assert!(matches!(
        m.execute(&invocation(Subcommand::GenerateArchive), no_layers(), &host()),
        Ok(Action::WriteArchive(f)) if f.path == "editor.tar" && entries(&f.contents).len() == 2
    ));
    let mut m = manager(vec![app().aspect()]);
    let mut stored = Config::empty();
    stored.memory = Some(dfiles::aspects::Memory("1g".to_string()));
    let layers = Layers { global: None, application: None, profile: Some(stored) };
    assert!(matches!(
        m.execute(&invocation(Subcommand::Config), layers, &host()),
        Ok(Action::SaveConfig(s))
            if s.application == "editor"
                && s.profile.as_deref() == Some("default")
                && s.config.memory == Some(dfiles::aspects::Memory("1g".to_string()))
    ));
}

#[test]
fn config_without_profile_replaces_the_application_layer() {
    let layer = |memory: &str| {
        let mut c = Config::empty();
        c.memory = Some(dfiles::aspects::Memory(memory.to_string()));
        c
    };
    let mut i = input();
    i.profile = None;
    i.mounts = Some(vec!["A:B".to_string()]);
    let mut m = manager(vec![]);
    let layers = Layers { global: Some(layer("1g")), application: Some(layer("2g")), profile: None };
    let invocation = Invocation { subcommand: Some(Subcommand::Config), input: i };
    match m.execute(&invocation, layers, &host()).unwrap() {
        Action::SaveConfig(s) => {
            assert_eq!(s.profile, None);
            assert_eq!(s.config.memory, Some(dfiles::aspects::Memory("2g".to_string())));
            assert_eq!(s.config.mounts.unwrap().len(), 1);
        }
        other => panic!("unexpected action {:?}", other),
    }

    let mut i = input();
    i.profile = Some("work".to_string());
    let mut m = manager(vec![]);
    let layers =
        Layers { global: None, application: Some(layer("2g")), profile: Some(layer("3g")) };
    let invocation = Invocation { subcommand: Some(Subcommand::Config), input: i };
    match m.execute(&invocation, layers, &host()).unwrap() {
        Action::SaveConfig(s) => {
            assert_eq!(s.profile.as_deref(), Some("work"));
            assert_eq!(s.config.memory, Some(dfiles::aspects::Memory("3g".to_string())));
        }
        other => panic!("unexpected action {:?}", other),
    }
}

#[test]
fn execute_refuses_malformed_settings_before_composing() {
    let mut m = manager(vec![Shm {}.aspect()]);
    let mut i = input();
    i.locale = Some("en-US".to_string());
    let invocation = Invocation { subcommand: Some(Subcommand::Build), input: i };
    assert!(matches!(
        m.execute(&invocation, no_layers(), &host()),
        Err(Error::InvalidLocale(l)) if l == "en-US"
    ));
}
