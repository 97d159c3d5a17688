use positive_mahjong::licenses::{get_licenses, LICENSE_COUNT};

#[test]
fn the_license_list() {
    let l = get_licenses();
    assert_eq!(l.len(), LICENSE_COUNT);
    assert_eq!(l.len(), 289);
    assert_eq!(l[0].name, "android_system_properties");
    assert_eq!(l[0].version, "0.1.5");
    assert_eq!(l[0].license, "MIT/Apache-2.0");
    assert_eq!(l[0].authors, vec!["Nicolas Silva <nical@fastmail.com>"]);
    let last = &l[288];
    assert_eq!(last.name, "zmij");
    assert_eq!(last.version, "1.0.21");
    assert_eq!(last.authors, vec!["David Tolnay <dtolnay@gmail.com>"]);
    let ascii = l.iter().find(|x| x.name == "ascii").unwrap();
    assert_eq!(ascii.authors.len(), 3);
}
