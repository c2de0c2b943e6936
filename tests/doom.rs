use cantdrown::{
    download_url, extract_dir, extract_dir_for, get_dropbox_download_url,
    get_google_drive_download_url, get_idgames_download_url, server_name, DoomConfig, IWads,
};

fn config() -> DoomConfig {
    DoomConfig {
        executable: "zandronum-server".to_string(),
        arguments: "-skill 4".to_string(),
        base_name: "Drowned".to_string(),
        iwads: IWads {
            doom: "/w/doom.wad".to_string(),
            doom2: "/w/doom2.wad".to_string(),
            tnt: "/w/tnt.wad".to_string(),
            plutonia: "/w/plutonia.wad".to_string(),
        },
        wads_path: "/w".to_string(),
        idgames_mirror: "https://mirror.example/idgames".to_string(),
        timeout: 3600,
    }
}

#[test]
fn iwad_by_name() {
    let c = config();
    assert_eq!(c.iwads.for_name("doom").as_deref(), Some("/w/doom.wad"));
    assert_eq!(c.iwads.for_name("doom2").as_deref(), Some("/w/doom2.wad"));
    assert_eq!(c.iwads.for_name("tnt").as_deref(), Some("/w/tnt.wad"));
    assert_eq!(c.iwads.for_name("plutonia").as_deref(), Some("/w/plutonia.wad"));
    assert_eq!(c.iwads.for_name("heretic"), None);
    assert_eq!(c.iwads.for_name("Doom"), None);
    assert_eq!(c.iwads.for_name(""), None);
}

#[test]
fn idgames_page_maps_to_mirror_archive() {
    let url = "https://www.doomworld.com/idgames/levels/doom2/Ports/a-c/av";
    assert_eq!(
        get_idgames_download_url(url, "https://mirror.example/idgames").as_deref(),
        Some("https://mirror.example/idgames/levels/doom2/Ports/a-c/av.zip")
    );
    assert_eq!(get_idgames_download_url("https://example.com/x", "m"), None);
}

#[test]
fn dropbox_link_gets_raw_query() {
    assert_eq!(
        get_dropbox_download_url("https://www.dropbox.com/s/abc/map.zip?dl=0").as_deref(),
        Some("https://www.dropbox.com/s/abc/map.zip?raw=1")
    );
    assert_eq!(get_dropbox_download_url("not a url"), None);
}

#[test]
fn google_drive_link_gets_file_id() {
    assert_eq!(
        get_google_drive_download_url("https://drive.google.com/file/d/XYZ123/view?usp=sharing")
            .as_deref(),
        Some("https://drive.google.com/uc?export=download&id=XYZ123")
    );
    assert_eq!(get_google_drive_download_url("https://drive.google.com/file"), None);
    assert_eq!(get_google_drive_download_url("drive.google.com/file/d/x"), None);
    assert_eq!(get_google_drive_download_url("data:text/plain,HelloWorld"), None);
}

#[test]
fn download_url_routes_by_host() {
    let m = "https://mirror.example/idgames";
    assert_eq!(
        download_url("https://www.doomworld.com/idgames/levels/x", m).as_deref(),
        Some("https://mirror.example/idgames/levels/x.zip")
    );
    assert_eq!(
        download_url("https://www.dropbox.com/s/abc/map.zip", m).as_deref(),
        Some("https://www.dropbox.com/s/abc/map.zip?raw=1")
    );
    assert_eq!(
        download_url("https://drive.google.com/file/d/ID/view", m).as_deref(),
        Some("https://drive.google.com/uc?export=download&id=ID")
    );
    assert_eq!(
        download_url("https://example.com/map.zip", m).as_deref(),
        Some("https://example.com/map.zip")
    );
}

#[test]
fn server_name_mentions_first_wad() {
    assert_eq!(server_name("Drowned", Some("av.wad")), "Drowned (av.wad)");
    assert_eq!(server_name("Drowned", None), "Drowned");
}

#[test]
fn extract_dir_is_named_by_digest() {
    assert_eq!(extract_dir("abc"), "./tmp/abc");
    assert_eq!(
        extract_dir_for(b""),
        "./tmp/af1349b9f5f9a1a6a0404dea36dcc9499bcb25c9adc112b7cc9a93cae41f3262"
    );
    assert_eq!(extract_dir_for(b"same"), extract_dir_for(b"same"));
    assert_ne!(extract_dir_for(b"one"), extract_dir_for(b"two"));
}
