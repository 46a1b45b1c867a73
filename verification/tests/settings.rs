use dfiles::aspects::settings::{mount_volume_string, timezone_variable_string};
use dfiles::aspects::{CPUShares, Locale, Memory, Mount, Network, Timezone};
use dfiles::error::Error;

#[test]
fn convert_from_str() -> Result<(), Error> {
    assert_eq!(
        Locale::try_from(&String::from("en_US.UTF-8"))?,
        Locale {
            language: "en".to_string(),
            territory: "US".to_string(),
            codeset: "UTF-8".to_string(),
        }
    );
    Ok(())
}

#[test]
fn locale_without_underscore_is_refused() {
    let r = Locale::try_from(&String::from("en-US"));
    assert!(matches!(r, Err(Error::InvalidLocale(s)) if s == "en-US"));
}

#[test]
fn locale_without_codeset_is_refused() {
    let r = Locale::try_from(&String::from("en_US"));
    assert!(matches!(r, Err(Error::InvalidLocale(s)) if s == "en_US"));
    let r = Locale::try_from(&String::from("en.UTF-8_US"));
    assert!(matches!(r, Err(Error::InvalidLocale(s)) if s == "en.UTF-8_US"));
}

#[test]
fn locale_splits_at_first_separators() {
    let l = Locale::try_from(&String::from("de_CH_x.ISO.8859")).unwrap();
    assert_eq!(l.language, "de");
    assert_eq!(l.territory, "CH_x");
    assert_eq!(l.codeset, "ISO.8859");
    let l = Locale::try_from(&String::from("_.")).unwrap();
    assert_eq!(l, Locale { language: String::new(), territory: String::new(), codeset: String::new() });
}

#[test]
fn locale_is_written_as_it_was_parsed() {
    for text in ["en_US.UTF-8", "de_CH_x.ISO.8859", "_.", "a_b.c.d"] {
        let l = Locale::try_from(&text.to_string()).unwrap();
        assert_eq!(l.text(), text);
    }
}

#[test]
fn mount_parses_host_and_container() {
    let m = Mount::try_from(&String::from("A:B")).unwrap();
    assert_eq!(m, Mount { host_path: "A".to_string(), container_path: "B".to_string() });
    let m = Mount::try_from(&String::from("/home/u/data:/data")).unwrap();
    assert_eq!(m.host_path, "/home/u/data");
    assert_eq!(m.container_path, "/data");
    let m = Mount::try_from(&String::from(":")).unwrap();
    assert_eq!(m, Mount { host_path: String::new(), container_path: String::new() });
}

#[test]
fn mount_without_separator_is_refused() {
    let r = Mount::try_from(&String::from("A"));
    assert!(matches!(r, Err(Error::InvalidMount(s)) if s == "A"));
    let r = Mount::try_from(&String::new());
    assert!(matches!(r, Err(Error::InvalidMount(s)) if s.is_empty()));
}

#[test]
fn mount_with_two_separators_is_refused() {
    let r = Mount::try_from(&String::from("A:B:ro"));
    assert!(matches!(r, Err(Error::InvalidMount(s)) if s == "A:B:ro"));
}

#[test]
fn mount_is_written_as_it_was_parsed() {
    for text in ["A:B", ":", "/a/b:/c", "x:"] {
        let m = Mount::try_from(&text.to_string()).unwrap();
        assert_eq!(mount_volume_string(&m.host_path, &m.container_path), text);
    }
}

#[test]
fn known_timezone_is_taken() {
    let tz = Timezone::try_from(&String::from("Europe/Zurich")).unwrap();
    assert_eq!(tz, Timezone("Europe/Zurich".to_string()));
    assert!(Timezone::try_from(&String::from("UTC")).is_ok());
}

#[test]
fn unknown_timezone_is_refused() {
    let r = Timezone::try_from(&String::from("Mars/Olympus_Mons"));
    assert!(matches!(r, Err(Error::InvalidTimezone(s)) if s == "Mars/Olympus_Mons"));
    let r = Timezone::try_from(&String::new());
    assert!(matches!(r, Err(Error::InvalidTimezone(s)) if s.is_empty()));
}

#[test]
fn timezone_follows_the_lookup() {
    assert_eq!(Timezone::from_lookup(&"Nowhere".to_string(), true).unwrap().0, "Nowhere");
    assert!(matches!(
        Timezone::from_lookup(&"UTC".to_string(), false),
        Err(Error::InvalidTimezone(s)) if s == "UTC"
    ));
}

#[test]
fn every_text_is_a_limit_or_a_mode() {
    assert_eq!(Memory::try_from(&"3072mb".to_string()).unwrap(), Memory("3072mb".to_string()));
    assert_eq!(CPUShares::try_from(&"512".to_string()).unwrap(), CPUShares("512".to_string()));
    assert_eq!(Network::try_from(&"host".to_string()).unwrap(), Network { mode: "host".to_string() });
}

#[test]
fn timezone_variable_names_the_timezone() {
    assert_eq!(timezone_variable_string("UTC"), "TZ=UTC");
}
