use dfiles::aspects::{CPUShares, Locale, Memory, Mount, Network, Timezone};
use dfiles::cli::{CliInput, FlagAction};
use dfiles::config::{cli_args, Config};
use dfiles::error::Error;

fn mount(host: &str, container: &str) -> Mount {
    Mount { host_path: host.to_string(), container_path: container.to_string() }
}

fn input() -> CliInput {
    CliInput {
        mounts: None,
        timezone: None,
        memory: None,
        cpu_shares: None,
        network: None,
        locale: None,
        profile: None,
        container_name: None,
        command: None,
    }
}

fn all_absent(c: &Config) -> bool {
    c.mounts.is_none()
        && c.timezone.is_none()
        && c.memory.is_none()
        && c.cpu_shares.is_none()
        && c.network.is_none()
        && c.locale.is_none()
}

#[test]
fn empty_has_nothing() {
    assert!(all_absent(&Config::empty()));
}

#[test]
fn loading_without_files_gives_nothing() {
    assert!(all_absent(&Config::load(None, None, None)));
    assert!(all_absent(&Config::load_layer(None)));
}

#[test]
fn loading_appends_mounts_in_priority_order() {
    let mut global = Config::empty();
    global.mounts = Some(vec![mount("X", "/x")]);
    let mut application = Config::empty();
    application.mounts = Some(vec![mount("Y", "/y")]);
    let merged = global.merge(&application, false);
    assert_eq!(merged.mounts, Some(vec![mount("X", "/x"), mount("Y", "/y")]));

    let mut profile = Config::empty();
    profile.mounts = Some(vec![mount("Z", "/z")]);
    let loaded = Config::load(Some(global), Some(application), Some(profile));
    assert_eq!(loaded.mounts, Some(vec![mount("X", "/x"), mount("Y", "/y"), mount("Z", "/z")]));
}

#[test]
fn layers_without_a_profile_count_their_mounts_once() {
    let mut global = Config::empty();
    global.mounts = Some(vec![mount("X", "/x")]);
    let mut application = Config::empty();
    application.mounts = Some(vec![mount("Y", "/y")]);
    let loaded = Config::load(Some(global), Some(application), None);
    assert_eq!(loaded.mounts, Some(vec![mount("X", "/x"), mount("Y", "/y")]));
}

#[test]
fn more_specific_layer_wins_single_values() {
    let mut global = Config::empty();
    global.timezone = Some(Timezone("UTC".to_string()));
    global.memory = Some(Memory("1g".to_string()));
    global.network = Some(Network { mode: "bridge".to_string() });
    let mut application = Config::empty();
    application.timezone = Some(Timezone("Europe/Zurich".to_string()));
    application.cpu_shares = Some(CPUShares("512".to_string()));
    let mut profile = Config::empty();
    profile.network = Some(Network { mode: "host".to_string() });
    profile.locale =
        Some(Locale { language: "en".into(), territory: "US".into(), codeset: "UTF-8".into() });
    let loaded = Config::load(Some(global), Some(application), Some(profile));
    assert_eq!(loaded.timezone, Some(Timezone("Europe/Zurich".to_string())));
    assert_eq!(loaded.memory, Some(Memory("1g".to_string())));
    assert_eq!(loaded.cpu_shares, Some(CPUShares("512".to_string())));
    assert_eq!(loaded.network, Some(Network { mode: "host".to_string() }));
    assert_eq!(loaded.locale.unwrap().text(), "en_US.UTF-8");
    assert_eq!(loaded.mounts, None);
}

#[test]
fn saving_twice_does_not_duplicate_mounts() {
    let mut new = Config::empty();
    new.mounts = Some(vec![mount("A", "B")]);
    let first = new.save(None);
    assert_eq!(first.mounts, Some(vec![mount("A", "B")]));
    let second = new.save(Some(first));
    assert_eq!(second.mounts, Some(vec![mount("A", "B")]));
    let third = new.save(Some(second));
    assert_eq!(third.mounts.unwrap().len(), 1);
}

#[test]
fn saving_replaces_mounts_and_keeps_other_settings() {
    let mut stored = Config::empty();
    stored.mounts = Some(vec![mount("old", "/old"), mount("older", "/older")]);
    stored.memory = Some(Memory("1g".to_string()));
    let mut new = Config::empty();
    new.mounts = Some(vec![mount("A", "B")]);
    new.timezone = Some(Timezone("UTC".to_string()));
    let saved = new.save(Some(stored));
    assert_eq!(saved.mounts, Some(vec![mount("A", "B")]));
    assert_eq!(saved.memory, Some(Memory("1g".to_string())));
    assert_eq!(saved.timezone, Some(Timezone("UTC".to_string())));
}

#[test]
fn saving_without_mounts_keeps_stored_mounts() {
    let mut stored = Config::empty();
    stored.mounts = Some(vec![mount("old", "/old")]);
    let saved = Config::empty().save(Some(stored));
    assert_eq!(saved.mounts, Some(vec![mount("old", "/old")]));
}

#[test]
fn empty_mount_list_is_absent_after_merge() {
    let mut left = Config::empty();
    left.mounts = Some(vec![]);
    assert_eq!(left.merge(&Config::empty(), false).mounts, None);
    let mut stored = Config::empty();
    stored.mounts = Some(vec![mount("old", "/old")]);
    assert_eq!(stored.merge(&left, true).mounts, None);
    assert_eq!(stored.merge(&left, false).mounts, Some(vec![mount("old", "/old")]));
}

#[test]
fn clone_copies_every_setting() {
    let mut c = Config::empty();
    c.mounts = Some(vec![]);
    c.cpu_shares = Some(CPUShares("2".to_string()));
    let d = c.clone();
    assert_eq!(d.mounts, Some(vec![]));
    assert_eq!(d.cpu_shares, Some(CPUShares("2".to_string())));
    assert!(d.timezone.is_none());
}

#[test]
fn aspects_follow_the_order_of_the_fields() {
    let mut c = Config::empty();
    c.locale = Some(Locale { language: "en".into(), territory: "US".into(), codeset: "UTF-8".into() });
    c.network = Some(Network { mode: "host".to_string() });
    c.cpu_shares = Some(CPUShares("512".to_string()));
    c.memory = Some(Memory("1g".to_string()));
    c.timezone = Some(Timezone("UTC".to_string()));
    c.mounts = Some(vec![mount("A", "/a"), mount("B", "/b")]);
    let names: Vec<String> = c.get_aspects().iter().map(|a| a.inner.name()).collect();
    assert_eq!(names, vec!["Mount", "Mount", "Timezone", "Memory", "CPUShares", "Network", "AutoLocale"]);
    assert!(Config::empty().get_aspects().is_empty());

    let mut some = Config::empty();
    some.memory = Some(Memory("1g".to_string()));
    some.locale = Some(Locale { language: "en".into(), territory: "US".into(), codeset: "UTF-8".into() });
    let names: Vec<String> = some.get_aspects().iter().map(|a| a.inner.name()).collect();
    assert_eq!(names, vec!["Memory", "AutoLocale"]);
}

#[test]
fn command_line_is_parsed_into_settings() {
    let mut i = input();
    i.mounts = Some(vec!["/srv:/data".to_string(), "a:b".to_string()]);
    i.timezone = Some("Europe/Zurich".to_string());
    i.memory = Some("2g".to_string());
    i.cpu_shares = Some("256".to_string());
    i.network = Some("host".to_string());
    i.locale = Some("de_CH.UTF-8".to_string());
    let c = Config::try_from(&i).unwrap();
    assert_eq!(c.mounts, Some(vec![mount("/srv", "/data"), mount("a", "b")]));
    assert_eq!(c.timezone, Some(Timezone("Europe/Zurich".to_string())));
    assert_eq!(c.memory, Some(Memory("2g".to_string())));
    assert_eq!(c.cpu_shares, Some(CPUShares("256".to_string())));
    assert_eq!(c.network, Some(Network { mode: "host".to_string() }));
    assert_eq!(c.locale.unwrap().text(), "de_CH.UTF-8");
    assert!(all_absent(&Config::try_from(&input()).unwrap()));
}

#[test]
fn first_malformed_setting_is_reported() {
    let mut i = input();
    i.mounts = Some(vec!["ok:fine".to_string(), "bad".to_string(), "worse".to_string()]);
    i.timezone = Some("Nowhere/Land".to_string());
    i.locale = Some("en-US".to_string());
    assert!(matches!(Config::try_from(&i), Err(Error::InvalidMount(m)) if m == "bad"));
    i.mounts = Some(vec![]);
    assert!(matches!(Config::try_from(&i), Err(Error::InvalidTimezone(t)) if t == "Nowhere/Land"));
    i.timezone = Some("UTC".to_string());
    assert!(matches!(Config::try_from(&i), Err(Error::InvalidLocale(l)) if l == "en-US"));
    i.locale = None;
    assert_eq!(Config::try_from(&i).unwrap().mounts, Some(vec![]));
}

#[test]
fn parsing_is_decided_by_the_timezone_lookup() {
    let mut i = input();
    i.timezone = Some("UTC".to_string());
    assert!(matches!(Config::from_input(&i, false), Err(Error::InvalidTimezone(t)) if t == "UTC"));
    i.timezone = Some("Nowhere".to_string());
    assert_eq!(Config::from_input(&i, true).unwrap().timezone, Some(Timezone("Nowhere".to_string())));
    i.timezone = None;
    assert!(Config::from_input(&i, false).unwrap().timezone.is_none());
}

#[test]
fn settings_have_their_flags() {
    let flags = cli_args();
    let names: Vec<&str> = flags.iter().map(|f| f.name.as_str()).collect();
    assert_eq!(names, vec!["mount", "timezone", "memory", "cpu-shares", "network", "locale"]);
    assert_eq!(flags[0].short, Some('m'));
    assert_eq!(flags[0].action, FlagAction::Repeated);
    assert_eq!(flags[0].long.as_deref(), Some("mount"));
    assert_eq!(
        flags[0].help.as_deref(),
        Some("specify a local path to be mapped into the container filesystem at runtime")
    );
    assert_eq!(flags[1].short, Some('t'));
    for f in &flags[1..] {
        assert_eq!(f.action, FlagAction::Single);
        assert_eq!(f.long.as_deref(), Some(f.name.as_str()));
        assert!(!f.global && !f.last && !f.required && f.default_value.is_none());
    }
    for f in &flags[2..] {
        assert_eq!(f.short, None);
    }
    assert_eq!(
        flags[5].help.as_deref(),
        Some("specify the locale in the form <language>_<territory>.<codeset> for the container (default: en_US.UTF8)")
    );
}
