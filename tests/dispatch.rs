use wallpaper::{get, is_gnome_compliant, set_from_path, set_from_url, Invocation, UrlAction, WallpaperError};

fn line(inv: &Invocation) -> (String, Vec<String>) {
    (inv.program.clone(), inv.args.clone())
}

fn expect(program: &str, args: &[&str]) -> (String, Vec<String>) {
    (program.to_string(), args.iter().map(|a| a.to_string()).collect())
}

#[test]
fn gnome_compliant_names() {
    assert!(is_gnome_compliant("GNOME"));
    assert!(is_gnome_compliant("ubuntu:GNOME"));
    assert!(is_gnome_compliant("GNOME-Flashback:GNOME"));
    assert!(is_gnome_compliant("Unity"));
    assert!(is_gnome_compliant("Pantheon"));
    assert!(!is_gnome_compliant("Gnome"));
    assert!(!is_gnome_compliant("Unity7"));
    assert!(!is_gnome_compliant("KDE"));
    assert!(!is_gnome_compliant(""));
}

#[test]
fn gnome_compliant_desktops_get_through_gsettings() {
    for d in ["GNOME", "ubuntu:GNOME", "X-GNOME-Classic", "Unity", "Pantheon"] {
        let inv = get(d).unwrap();
        assert_eq!(line(&inv), expect("gsettings", &["get", "org.gnome.desktop.background", "picture-uri"]));
    }
}

#[test]
fn gnome_compliant_desktops_set_through_gsettings() {
    for d in ["GNOME", "ubuntu:GNOME", "Unity", "Pantheon"] {
        let inv = set_from_path(d, "/home/x/bg.jpg").unwrap();
        assert_eq!(
            line(&inv),
            expect("gsettings", &["set", "org.gnome.desktop.background", "picture-uri", "\"file:///home/x/bg.jpg\""])
        );
    }
}

#[test]
fn set_path_escapes_quotes_and_backslashes() {
    let inv = set_from_path("GNOME", "/a \"b\"\\c.jpg").unwrap();
    assert_eq!(inv.args[3], "\"file:///a \\\"b\\\"\\\\c.jpg\"");
    let inv = set_from_path("MATE", "/it's \"x\".png").unwrap();
    assert_eq!(inv.args[2], "\"/it's \\\"x\\\".png\"");
}

#[test]
fn get_on_named_desktops() {
    assert_eq!(
        line(&get("X-Cinnamon").unwrap()),
        expect("dconf", &["read", "/org/cinnamon/desktop/background/picture-uri"])
    );
    assert_eq!(
        line(&get("MATE").unwrap()),
        expect("dconf", &["read", "/org/mate/desktop/background/picture-filename"])
    );
    assert_eq!(
        line(&get("Deepin").unwrap()),
        expect("dconf", &["read", "/com/deepin/wrap/gnome/desktop/background/picture-uri"])
    );
}

#[test]
fn set_from_path_on_named_desktops() {
    let p = "/home/x/bg.jpg";
    assert_eq!(
        line(&set_from_path("X-Cinnamon", p).unwrap()),
        expect("dconf", &["write", "/org/cinnamon/desktop/background/picture-uri", "\"file:///home/x/bg.jpg\""])
    );
    assert_eq!(
        line(&set_from_path("MATE", p).unwrap()),
        expect("dconf", &["write", "/org/mate/desktop/background/picture-filename", "\"/home/x/bg.jpg\""])
    );
    assert_eq!(
        line(&set_from_path("XFCE", p).unwrap()),
        expect(
            "xfconf-query",
            &["-c", "xfce4-desktop", "-p", "/backdrop/screen0/monitor0/workspace0/last-image", "-s", p]
        )
    );
    assert_eq!(line(&set_from_path("LXDE", p).unwrap()), expect("pcmanfm", &["-w", p]));
    assert_eq!(
        line(&set_from_path("Deepin", p).unwrap()),
        expect(
            "dconf",
            &["write", "/com/deepin/wrap/gnome/desktop/background/picture-uri", "\"file:///home/x/bg.jpg\""]
        )
    );
    assert_eq!(line(&set_from_path("i3", p).unwrap()), expect("feh", &["--bg-fill", p]));
}

#[test]
fn unsupported_desktop_fails() {
    assert_eq!(get("Foo").unwrap_err(), WallpaperError::UnsupportedDesktop);
    assert_eq!(set_from_path("Foo", "/x.jpg").unwrap_err(), WallpaperError::UnsupportedDesktop);
    assert_eq!(get("i3").unwrap_err(), WallpaperError::UnsupportedDesktop);
    assert_eq!(get("").unwrap_err(), WallpaperError::UnsupportedDesktop);
    assert_eq!(get("kde").unwrap_err(), WallpaperError::UnsupportedDesktop);
    assert_eq!(WallpaperError::UnsupportedDesktop.message(), "unsupported desktop");
}

#[test]
fn unimplemented_desktops_fail() {
    for d in ["KDE", "XFCE", "LXDE"] {
        assert_eq!(get(d).unwrap_err(), WallpaperError::Unimplemented);
    }
    assert_eq!(set_from_path("KDE", "/x.jpg").unwrap_err(), WallpaperError::Unimplemented);
    assert_eq!(WallpaperError::Unimplemented.message(), "TODO");
}

#[test]
fn url_taken_directly_by_gnome_and_i3() {
    let url = "https://example.com/a.jpg";
    for d in ["GNOME", "ubuntu:GNOME"] {
        match set_from_url(d, url) {
            UrlAction::Run(inv) => assert_eq!(
                line(&inv),
                expect("gsettings", &["set", "org.gnome.desktop.background", "picture-uri", "\"https://example.com/a.jpg\""])
            ),
            UrlAction::DownloadThenSetFromPath => panic!("{} takes the URL itself", d),
        }
    }
    match set_from_url("i3", url) {
        UrlAction::Run(inv) => assert_eq!(line(&inv), expect("feh", &["--bg-fill", url])),
        UrlAction::DownloadThenSetFromPath => panic!("i3 takes the URL itself"),
    }
}

#[test]
fn url_downloaded_elsewhere() {
    let url = "https://example.com/a.jpg";
    for d in ["Unity", "Pantheon", "X-GNOME", "KDE", "MATE", "XFCE", "LXDE", "Deepin", "X-Cinnamon", "Foo", ""] {
        assert!(matches!(set_from_url(d, url), UrlAction::DownloadThenSetFromPath));
    }
}
