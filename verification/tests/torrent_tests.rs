use gazelle_api::Torrent;

fn torrent_with_file_list(file_list: &str) -> Torrent {
    Torrent {
        id: 1,
        media: "CD".to_owned(),
        format: "FLAC".to_owned(),
        encoding: "Lossless".to_owned(),
        remastered: false,
        remaster_year: None,
        remaster_title: String::new(),
        remaster_record_label: String::new(),
        remaster_catalogue_number: String::new(),
        scene: false,
        has_log: false,
        has_cue: false,
        log_score: 0,
        file_count: 2,
        size: 1234,
        seeders: 1,
        leechers: 0,
        snatched: 0,
        has_snatched: None,
        trumpable: None,
        lossy_web_approved: None,
        lossy_master_approved: None,
        free_torrent: None,
        is_neutralleech: None,
        is_freeload: None,
        reported: false,
        time: String::new(),
        description: String::new(),
        file_list: file_list.to_owned(),
        file_path: String::new(),
        user_id: 7,
        username: "uploader".to_owned(),
    }
}

#[test]
fn get_flacs_picks_flac_entries() {
    let torrent = torrent_with_file_list(
        "01 - Intro.flac{{{11111}}}|||02 - Outro.flac{{{22222}}}|||cover.jpg{{{333}}}",
    );
    assert_eq!(
        torrent.get_flacs(),
        vec!["01 - Intro.flac".to_owned(), "02 - Outro.flac".to_owned()]
    );
}

#[test]
fn get_flacs_of_empty_list_is_empty() {
    let torrent = torrent_with_file_list("");
    assert!(torrent.get_flacs().is_empty());
}

#[test]
fn get_flacs_ignores_entries_without_sizes_or_names() {
    // No digits between the braces, a bare extension, and a non-flac file
    // are all ignored; a well-formed entry among them is kept.
    let torrent = torrent_with_file_list(
        "bad.flac{{{}}}|||.flac{{{1}}}|||notes.txt{{{5}}}|||ok.flac{{{42}}}",
    );
    assert_eq!(torrent.get_flacs(), vec!["ok.flac".to_owned()]);
}

#[test]
fn get_flacs_keeps_unicode_names() {
    let torrent = torrent_with_file_list("01 - Pr\u{e9}lude.flac{{{9}}}");
    assert_eq!(torrent.get_flacs(), vec!["01 - Pr\u{e9}lude.flac".to_owned()]);
}

#[test]
fn get_flacs_is_case_sensitive_about_the_extension() {
    let torrent = torrent_with_file_list("LOUD.FLAC{{{9}}}|||quiet.flac{{{9}}}");
    assert_eq!(torrent.get_flacs(), vec!["quiet.flac".to_owned()]);
}
