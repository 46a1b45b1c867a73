use dfiles::aspects::{Alsa, Aspect, Shm, SysAdmin, X11};
use dfiles::entrypoint::{group_setup, render_script, run_args, script, script_path, setup, ScriptSnippet};
use dfiles::error::Error;
use dfiles::host::{Environment, HostFacts, HostGroup};

fn host() -> HostFacts {
    HostFacts {
        env: Environment {
            home: Some("/home/alice".to_string()),
            xdg_runtime_dir: Some("/run/user/1000".to_string()),
            display: Some(":0".to_string()),
            lc_all: None,
            lc_ctype: None,
            lang: None,
        },
        dev_entries: Some(vec![]),
        uid: 1000,
        gid: 1000,
        user_name: Some("alice".to_string()),
        gid_account_name: Some("alice".to_string()),
        current_username: Some("alice".to_string()),
        groups: vec![
            HostGroup { name: "audio".to_string(), gid: 29 },
            HostGroup { name: "video".to_string(), gid: 44 },
        ],
        data_dir: Some("/home/alice/.local/share/dfiles".to_string()),
    }
}

fn step(order: u16, description: &str, snippet: &str) -> ScriptSnippet {
    ScriptSnippet { description: description.to_string(), order, snippet: snippet.to_string() }
}

#[test]
fn script_without_steps_is_header_and_footer() {
    assert_eq!(
        render_script(&vec![]),
        "#!/usr/bin/env bash\nUSER=root\n\n# execute whatever command was specified\nsudo --user $USER $@"
    );
}

#[test]
fn script_runs_steps_in_key_order_under_their_descriptions() {
    let text = render_script(&vec![
        step(60, "set the timezone", "export TZ=UTC"),
        step(2, "create the user", "useradd alice\nUSER=alice"),
    ]);
    assert_eq!(
        text,
        "#!/usr/bin/env bash\nUSER=root\n\
         ### create the user\nuseradd alice\nUSER=alice\n\
         ### set the timezone\nexport TZ=UTC\n\
         \n# execute whatever command was specified\nsudo --user $USER $@"
    );
}

#[test]
fn steps_under_one_key_keep_registration_order() {
    let text = render_script(&vec![step(5, "b", "second"), step(1, "a", "zero"), step(5, "c", "third")]);
    assert_eq!(
        text,
        "#!/usr/bin/env bash\nUSER=root\n### a\nzero\n### b\nsecond\n### c\nthird\n\
         \n# execute whatever command was specified\nsudo --user $USER $@"
    );
}

#[test]
fn each_line_of_a_description_is_a_comment() {
    let text = render_script(&vec![step(1, "first line\nsecond line", "true")]);
    assert_eq!(
        text,
        "#!/usr/bin/env bash\nUSER=root\n### first line\n### second line\ntrue\n\
         \n# execute whatever command was specified\nsudo --user $USER $@"
    );
    let text = render_script(&vec![step(1, "", "true")]);
    assert_eq!(
        text,
        "#!/usr/bin/env bash\nUSER=root\ntrue\n\
         \n# execute whatever command was specified\nsudo --user $USER $@"
    );
}

#[test]
fn largest_key_is_rendered() {
    let text = render_script(&vec![step(65535, "last", "z"), step(0, "first", "a")]);
    assert_eq!(
        text,
        "#!/usr/bin/env bash\nUSER=root\n### first\na\n### last\nz\n\
         \n# execute whatever command was specified\nsudo --user $USER $@"
    );
}

#[test]
fn script_arguments_mount_the_script_and_replace_the_entry_point() {
    assert_eq!(
        run_args("/tmp/dfiles-x").unwrap(),
        vec!["-v", "/tmp/dfiles-x/entrypoint.bash:/entrypoint.bash", "--entrypoint", "/entrypoint.bash"]
    );
    assert_eq!(script_path("/tmp/dfiles-x"), "/tmp/dfiles-x/entrypoint.bash");
}

#[test]
fn no_steps_no_extra_arguments() {
    let aspects = vec![Shm {}.aspect(), SysAdmin {}.aspect(), X11 {}.aspect()];
    assert_eq!(setup("/tmp/w", &aspects, &host()).unwrap(), Vec::<String>::new());
    assert_eq!(script(&aspects, &host()).unwrap(), None);
    let none: Vec<Aspect> = vec![];
    assert_eq!(setup("/tmp/w", &none, &host()).unwrap(), Vec::<String>::new());
    assert_eq!(script(&none, &host()).unwrap(), None);
}

#[test]
fn steps_add_the_script_arguments() {
    let aspects = vec![Shm {}.aspect(), Alsa {}.aspect()];
    assert_eq!(
        setup("/tmp/w", &aspects, &host()).unwrap(),
        vec!["-v", "/tmp/w/entrypoint.bash:/entrypoint.bash", "--entrypoint", "/entrypoint.bash"]
    );
    assert_eq!(
        script(&aspects, &host()).unwrap().unwrap(),
        "#!/usr/bin/env bash\nUSER=root\n\
         ### configure video group for container user\n\
         adduser alice audio\ngroupmod -g 29 audio\n        \n\
         \n# execute whatever command was specified\nsudo --user $USER $@"
    );
}

#[test]
fn failing_capability_fails_the_setup() {
    let mut h = host();
    h.groups.clear();
    let aspects = vec![Shm {}.aspect(), Alsa {}.aspect()];
    assert!(matches!(setup("/tmp/w", &aspects, &h), Err(Error::MissingGroup(g)) if g == "audio"));
    assert!(matches!(script(&aspects, &h), Err(Error::MissingGroup(g)) if g == "audio"));
}

#[test]
fn group_setup_uses_the_group_of_the_host() {
    let s = group_setup("video", &host()).unwrap();
    assert_eq!(s.order, 5);
    assert_eq!(s.description, "configure video group for container user");
    assert_eq!(s.snippet, "adduser alice video\ngroupmod -g 44 video\n        ");
}

#[test]
fn group_setup_reports_what_is_missing() {
    let mut h = host();
    assert!(matches!(group_setup("render", &h), Err(Error::MissingGroup(g)) if g == "render"));
    h.current_username = None;
    assert!(matches!(group_setup("video", &h), Err(Error::MissingUser(u)) if u == "<unknown>"));
    assert!(matches!(group_setup("render", &h), Err(Error::MissingUser(u)) if u == "<unknown>"));
}
