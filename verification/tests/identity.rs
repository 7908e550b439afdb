use cec_dpms::identity::{get_osd_hostname, osd_name, HostLookup};

#[test]
fn reported_name_is_advertised_unchanged() {
    let name = "media-centre.example.org".to_string();
    assert_eq!(osd_name(HostLookup::Name(name.clone())), Some(name));
    assert_eq!(osd_name(HostLookup::Name(String::new())), Some(String::new()));
}

#[test]
fn reported_name_is_not_shortened() {
    let name = "a-host-name-that-is-much-longer-than-fourteen-bytes".to_string();
    let advertised = osd_name(HostLookup::Name(name.clone())).unwrap();
    assert_eq!(advertised.len(), 51);
    assert_eq!(advertised, name);
}

#[test]
fn lookup_failure_gives_the_fallback_name() {
    assert_eq!(osd_name(HostLookup::Unavailable), Some("dummy".to_string()));
}

#[test]
fn name_that_is_not_unicode_gives_no_name() {
    assert_eq!(osd_name(HostLookup::NotUnicode), None);
}

#[test]
fn cloned_lookup_equals_its_source() {
    let lookups = [
        HostLookup::Name("tv-box".to_string()),
        HostLookup::Unavailable,
        HostLookup::NotUnicode,
    ];
    for lookup in lookups {
        assert_eq!(lookup.clone(), lookup);
    }
}

#[test]
fn host_name_of_this_machine_is_resolved() {
    let expected = match hostname::get() {
        Ok(reported) => reported.into_string().ok(),
        Err(_) => Some("dummy".to_string()),
    };
    assert_eq!(get_osd_hostname(), expected);
}
