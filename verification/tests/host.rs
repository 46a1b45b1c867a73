use dfiles::host::{probe, DirEntry, Environment, HostFacts, HostGroup};

fn environment() -> Environment {
    Environment {
        home: Some("/home/alice".to_string()),
        xdg_runtime_dir: None,
        display: Some(":0".to_string()),
        lc_all: None,
        lc_ctype: Some("C".to_string()),
        lang: None,
    }
}

#[test]
fn probe_carries_environment_and_listing_over() {
    let listing = vec![DirEntry { file_name: "null".to_string(), path: "/dev/null".to_string() }];
    let names = vec!["audio".to_string(), "no-such-group-on-any-host".to_string()];
    let facts = probe(environment(), Some(listing), &names);
    assert_eq!(facts.env.home.as_deref(), Some("/home/alice"));
    assert_eq!(facts.env.xdg_runtime_dir, None);
    assert_eq!(facts.env.display.as_deref(), Some(":0"));
    assert_eq!(facts.env.lc_ctype.as_deref(), Some("C"));
    assert_eq!(facts.dev_entries.as_ref().unwrap().len(), 1);
    assert_eq!(facts.dev_entries.as_ref().unwrap()[0].path, "/dev/null");
    assert!(facts.groups.len() <= 1);
    assert!(facts.groups.iter().all(|g| g.name == "audio"));
    assert_eq!(facts.user_name, facts.current_username);
    let again = probe(environment(), None, &Vec::new());
    assert_eq!((again.uid, again.gid), (facts.uid, facts.gid));
    assert!(again.groups.is_empty());
    assert!(again.dev_entries.is_none());
}

#[test]
fn groups_are_found_by_name() {
    let facts = HostFacts {
        env: environment(),
        dev_entries: None,
        uid: 1,
        gid: 1,
        user_name: None,
        gid_account_name: None,
        current_username: None,
        groups: vec![
            HostGroup { name: "audio".to_string(), gid: 29 },
            HostGroup { name: "video".to_string(), gid: 44 },
            HostGroup { name: "audio".to_string(), gid: 63 },
        ],
        data_dir: None,
    };
    assert_eq!(facts.find_group("audio").unwrap().gid, 29);
    assert_eq!(facts.find_group("video").unwrap().gid, 44);
    assert!(facts.find_group("render").is_none());
    assert!(facts.find_group("").is_none());
}
