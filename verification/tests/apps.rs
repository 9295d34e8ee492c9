use blockwork::apps::{
    attach_icons, clean_exec_command, data_uri, icon_bytes_to_data_uri, icon_for, icon_keys, icon_mime,
    keep_first, parse_desktop_entry, parse_desktop_listing, parse_icon_records,
};

#[test]
fn desktop_entry_reads_the_main_section() {
    let content = "[Desktop Entry]\nType=Application\nName=Editor\nName=Ignored\nExec=editor %U --flag\nIcon=editor\n\n[Desktop Action new]\nName=New Window\nExec=editor --new\n";
    let e = parse_desktop_entry(content).unwrap();
    assert_eq!(e.name, "Editor");
    assert_eq!(e.command, "editor  --flag");
    assert_eq!(e.icon.as_deref(), Some("editor"));
}

#[test]
fn desktop_entry_trims_lines_and_handles_crlf() {
    let content = "  [Desktop Entry]  \r\n  Name = x\r\nName=Spaced App  \r\nExec=  app  \r\n";
    let e = parse_desktop_entry(content).unwrap();
    assert_eq!(e.name, "Spaced App");
    assert_eq!(e.command, "app");
    assert_eq!(e.icon, None);
}

#[test]
fn hidden_or_non_application_entries_are_skipped() {
    assert!(parse_desktop_entry("[Desktop Entry]\nName=A\nExec=a\nNoDisplay=TRUE\n").is_none());
    assert!(parse_desktop_entry("[Desktop Entry]\nName=A\nExec=a\nHidden=true\n").is_none());
    assert!(parse_desktop_entry("[Desktop Entry]\nName=A\nExec=a\nType=Link\n").is_none());
    assert!(parse_desktop_entry("[Desktop Entry]\nName=A\nExec=%f\n").is_none());
    assert!(parse_desktop_entry("[Desktop Entry]\nExec=a\n").is_none());
    assert!(parse_desktop_entry("[Other]\nName=A\nExec=a\n").is_none());
    assert!(parse_desktop_entry("[Desktop Entry]\nName=A\nExec=a\nNoDisplay=false\nHidden=nope\n").is_some());
}

#[test]
fn last_exec_and_type_lines_win() {
    let e = parse_desktop_entry("[Desktop Entry]\nName=A\nExec=first\nType=Link\nExec=second\nType=Application\n").unwrap();
    assert_eq!(e.command, "second");
}

#[test]
fn exec_field_codes_are_dropped() {
    assert_eq!(clean_exec_command("app %f"), "app");
    assert_eq!(clean_exec_command("app %% %U %x %"), "app %  %x");
    assert_eq!(clean_exec_command("  %k run  "), "run");
    assert_eq!(clean_exec_command(""), "");
}

#[test]
fn icons_become_data_uris() {
    assert_eq!(icon_mime("svg"), Some("image/svg+xml"));
    assert_eq!(icon_mime("png"), Some("image/png"));
    assert_eq!(icon_mime("xpm"), None);
    assert_eq!(data_uri("image/png", "AAAA"), "data:image/png;base64,AAAA");
    assert_eq!(icon_bytes_to_data_uri("image/png", b"hi!"), "data:image/png;base64,aGkh");
    assert_eq!(icon_bytes_to_data_uri("image/svg+xml", b"ab"), "data:image/svg+xml;base64,YWI=");
}

#[test]
fn host_listing_keeps_the_first_file_of_each_name() {
    let output = "\u{1e}a.desktop\n[Desktop Entry]\nName=First\nExec=first\nIcon=one\n\n\u{1e}b.desktop\n[Desktop Entry]\nName=Second\nExec=second\n\u{1e}a.desktop\n[Desktop Entry]\nName=Shadowed\nExec=shadow\n\u{1e}broken-record-without-newline";
    let entries = parse_desktop_listing(output);
    let names: Vec<&str> = entries.iter().map(|e| e.name.as_str()).collect();
    assert_eq!(names, vec!["First", "Second"]);
    assert_eq!(entries[0].icon.as_deref(), Some("one"));
    assert!(parse_desktop_listing("").is_empty());
    assert!(parse_desktop_listing("no separator at all").is_empty());
}

#[test]
fn host_icon_records_resolve_to_the_last_uri_per_name() {
    let output = "\u{1e}one\npng\nAAAA\u{1e}two\nxpm\nBBBB\u{1e}one\nsvg\nCC\nDD\u{1e}three\npng";
    let icons = parse_icon_records(output);
    assert_eq!(icons.len(), 2);
    assert_eq!(icon_for(&icons, "one").as_deref(), Some("data:image/svg+xml;base64,CC\nDD"));
    assert_eq!(icon_for(&icons, "two"), None);
    assert_eq!(icon_for(&icons, "three"), None);
}

#[test]
fn entries_pick_up_their_icons() {
    let output = "\u{1e}a.desktop\n[Desktop Entry]\nName=A\nExec=a\nIcon=shared\n\u{1e}b.desktop\n[Desktop Entry]\nName=B\nExec=b\nIcon=shared\n\u{1e}c.desktop\n[Desktop Entry]\nName=C\nExec=c\nIcon=missing\n";
    let entries = parse_desktop_listing(output);
    let keys = icon_keys(&entries);
    assert_eq!(keys, vec!["shared", "missing"]);
    let icons = parse_icon_records("\u{1e}shared\npng\nQUJD");
    let apps = attach_icons(entries, &icons);
    assert_eq!(apps.len(), 3);
    assert_eq!(apps[0].icon.as_deref(), Some("data:image/png;base64,QUJD"));
    assert_eq!(apps[1].icon.as_deref(), Some("data:image/png;base64,QUJD"));
    assert_eq!(apps[2].icon, None);
    assert_eq!(apps[2].command, "c");
}

#[test]
fn only_the_first_file_of_a_name_is_read() {
    let ids: Vec<String> = vec!["a".into(), "b".into(), "a".into(), "c".into(), "b".into()];
    assert_eq!(keep_first(&ids), vec![true, true, false, true, false]);
}
