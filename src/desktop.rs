use vstd::prelude::*;
use crate::error::WallpaperError;
use crate::quote::{enquoted, quoted};
use crate::text::{contains, has_substring, same_str};

verus! {

/// A program to run and the arguments to hand it.
#[derive(Debug)]
pub struct Invocation {
    pub program: String,
    pub args: Vec<String>,
}

/// The characters of a program name and of each of its arguments.
pub type CommandLine = (Seq<char>, Seq<Seq<char>>);

impl View for Invocation {
    type V = CommandLine;

    open spec fn view(&self) -> CommandLine {
        (self.program@, self.args@.map_values(|a: String| a@))
    }
}

/// What to do to set the wallpaper from a URL.
#[derive(Debug)]
pub enum UrlAction {
    /// Run this command, which takes the URL itself.
    Run(Invocation),
    /// Download the image to a local file, then set the wallpaper from that
    /// file's path with `set_from_path`.
    DownloadThenSetFromPath,
}

/// The command lines of an outcome in place of the invocations.
pub open spec fn outcome_view(r: Result<Invocation, WallpaperError>) -> Result<
    CommandLine,
    WallpaperError,
> {
    match r {
        Ok(i) => Ok(i@),
        Err(e) => Err(e),
    }
}

/// The desktop shares GNOME's settings schema: its name holds `GNOME`, or it
/// is `Unity` or `Pantheon`.
pub open spec fn gnome_compliant(desktop: Seq<char>) -> bool {
    has_substring(desktop, "GNOME"@) || desktop == "Unity"@ || desktop == "Pantheon"@
}

/// `path` as a `file://` URI.
pub open spec fn file_uri(path: Seq<char>) -> Seq<char> {
    "file://"@ + path
}

/// The settings tool of GNOME reading the wallpaper.
pub open spec fn gnome_get() -> CommandLine {
    ("gsettings"@, seq!["get"@, "org.gnome.desktop.background"@, "picture-uri"@])
}

/// The settings tool of GNOME writing `value` as the wallpaper.
pub open spec fn gnome_set(value: Seq<char>) -> CommandLine {
    ("gsettings"@, seq!["set"@, "org.gnome.desktop.background"@, "picture-uri"@, value])
}

/// The settings-database client reading `key`.
pub open spec fn dconf_read(key: Seq<char>) -> CommandLine {
    ("dconf"@, seq!["read"@, key])
}

/// The settings-database client writing `value` to `key`.
pub open spec fn dconf_write(key: Seq<char>, value: Seq<char>) -> CommandLine {
    ("dconf"@, seq!["write"@, key, value])
}

/// The command that reads the wallpaper of `desktop`, or why there is none.
pub open spec fn get_outcome(desktop: Seq<char>) -> Result<CommandLine, WallpaperError> {
    if gnome_compliant(desktop) {
        Ok(gnome_get())
    } else if desktop == "KDE"@ || desktop == "XFCE"@ || desktop == "LXDE"@ {
        Err(WallpaperError::Unimplemented)
    } else if desktop == "X-Cinnamon"@ {
        Ok(dconf_read("/org/cinnamon/desktop/background/picture-uri"@))
    } else if desktop == "MATE"@ {
        Ok(dconf_read("/org/mate/desktop/background/picture-filename"@))
    } else if desktop == "Deepin"@ {
        Ok(dconf_read("/com/deepin/wrap/gnome/desktop/background/picture-uri"@))
    } else {
        Err(WallpaperError::UnsupportedDesktop)
    }
}

/// The command that sets the wallpaper of `desktop` to the file at `path`,
/// or why there is none.
pub open spec fn set_from_path_outcome(desktop: Seq<char>, path: Seq<char>) -> Result<
    CommandLine,
    WallpaperError,
> {
    if gnome_compliant(desktop) {
        Ok(gnome_set(enquoted('"', file_uri(path))))
    } else if desktop == "KDE"@ {
        Err(WallpaperError::Unimplemented)
    } else if desktop == "X-Cinnamon"@ {
        Ok(
            dconf_write("/org/cinnamon/desktop/background/picture-uri"@, enquoted('"', file_uri(path))),
        )
    } else if desktop == "MATE"@ {
        Ok(
            dconf_write("/org/mate/desktop/background/picture-filename"@, enquoted('"', path)),
        )
    } else if desktop == "XFCE"@ {
        Ok(
            (
                "xfconf-query"@,
                seq![
                    "-c"@,
                    "xfce4-desktop"@,
                    "-p"@,
                    "/backdrop/screen0/monitor0/workspace0/last-image"@,
                    "-s"@,
                    path,
                ],
            ),
        )
    } else if desktop == "LXDE"@ {
        Ok(("pcmanfm"@, seq!["-w"@, path]))
    } else if desktop == "Deepin"@ {
        Ok(
            dconf_write("/com/deepin/wrap/gnome/desktop/background/picture-uri"@, enquoted('"', file_uri(path))),
        )
    } else if desktop == "i3"@ {
        Ok(("feh"@, seq!["--bg-fill"@, path]))
    } else {
        Err(WallpaperError::UnsupportedDesktop)
    }
}

/// The command that sets the wallpaper of `desktop` from `url` directly;
/// `None` where the image is to be downloaded first.
pub open spec fn set_from_url_command(desktop: Seq<char>, url: Seq<char>) -> Option<CommandLine> {
    if desktop == "GNOME"@ || desktop == "ubuntu:GNOME"@ {
        Some(gnome_set(enquoted('"', url)))
    } else if desktop == "i3"@ {
        Some(("feh"@, seq!["--bg-fill"@, url]))
    } else {
        None
    }
}

/// The invocation of `program` with `args`.
fn invocation(program: &str, args: Vec<&str>) -> (r: Invocation)
    ensures
        r@ == (program@, args@.map_values(|a: &str| a@)),
{
    let mut owned: Vec<String> = Vec::new();
    for i in 0..args.len()
        invariant
            owned@.len() == i,
            forall|j: int| 0 <= j < i ==> owned@[j]@ == args@[j]@,
    {
        owned.push(String::from_str(args[i]));
    }
    assert(owned@.map_values(|a: String| a@) =~= args@.map_values(|a: &str| a@));
    Invocation { program: String::from_str(program), args: owned }
}

/// `program` with two arguments.
fn command2(program: &str, a: &str, b: &str) -> (r: Invocation)
    ensures
        r@ == (program@, seq![a@, b@]),
{
    let r = invocation(program, vec![a, b]);
    assert(r@.1 =~= seq![a@, b@]);
    r
}

/// `program` with three arguments.
fn command3(program: &str, a: &str, b: &str, c: &str) -> (r: Invocation)
    ensures
        r@ == (program@, seq![a@, b@, c@]),
{
    let r = invocation(program, vec![a, b, c]);
    assert(r@.1 =~= seq![a@, b@, c@]);
    r
}

/// `program` with four arguments.
fn command4(program: &str, a: &str, b: &str, c: &str, d: &str) -> (r: Invocation)
    ensures
        r@ == (program@, seq![a@, b@, c@, d@]),
{
    let r = invocation(program, vec![a, b, c, d]);
    assert(r@.1 =~= seq![a@, b@, c@, d@]);
    r
}

/// Whether `desktop` shares GNOME's settings schema: its name holds `GNOME`,
/// or it is `Unity` or `Pantheon`.
pub fn is_gnome_compliant(desktop: &str) -> (r: bool)
    ensures
        r == gnome_compliant(desktop@),
{
    contains(desktop, "GNOME") || same_str(desktop, "Unity") || same_str(desktop, "Pantheon")
}

/// The command that reads the wallpaper of `desktop`; its output is parsed
/// by `parse_dconf`. Fails for desktops where reading is not implemented
/// (`KDE`, `XFCE`, `LXDE`) and for desktops that are not known.
pub fn get(desktop: &str) -> (r: Result<Invocation, WallpaperError>)
    ensures
        outcome_view(r) == get_outcome(desktop@),
{
    if is_gnome_compliant(desktop) {
        return Ok(command3("gsettings", "get", "org.gnome.desktop.background", "picture-uri"));
    }
    if same_str(desktop, "KDE") || same_str(desktop, "XFCE") || same_str(desktop, "LXDE") {
        Err(WallpaperError::Unimplemented)
    } else if same_str(desktop, "X-Cinnamon") {
        Ok(command2("dconf", "read", "/org/cinnamon/desktop/background/picture-uri"))
    } else if same_str(desktop, "MATE") {
        Ok(command2("dconf", "read", "/org/mate/desktop/background/picture-filename"))
    } else if same_str(desktop, "Deepin") {
        Ok(
            command2("dconf", "read", "/com/deepin/wrap/gnome/desktop/background/picture-uri"),
        )
    } else {
        Err(WallpaperError::UnsupportedDesktop)
    }
}

/// `path` as a `file://` URI, in double quotes.
fn quoted_file_uri(path: &str) -> (r: String)
    ensures
        r@ == enquoted('"', file_uri(path@)),
{
    let mut uri = String::from_str("file://");
    uri.append(path);
    quoted('"', uri.as_str())
}

/// The command that sets the wallpaper of `desktop` to the image file at
/// `path`. Fails for `KDE`, where this is not implemented, and for desktops
/// that are not known.
pub fn set_from_path(desktop: &str, path: &str) -> (r: Result<Invocation, WallpaperError>)
    ensures
        outcome_view(r) == set_from_path_outcome(desktop@, path@),
{
    if is_gnome_compliant(desktop) {
        let uri = quoted_file_uri(path);
        return Ok(
            command4("gsettings", "set", "org.gnome.desktop.background", "picture-uri", uri.as_str()),
        );
    }
    if same_str(desktop, "KDE") {
        Err(WallpaperError::Unimplemented)
    } else if same_str(desktop, "X-Cinnamon") {
        let uri = quoted_file_uri(path);
        Ok(
            command3("dconf", "write", "/org/cinnamon/desktop/background/picture-uri", uri.as_str()),
        )
    } else if same_str(desktop, "MATE") {
        let quoted_path = quoted('"', path);
        Ok(
            command3("dconf", "write", "/org/mate/desktop/background/picture-filename", quoted_path.as_str()),
        )
    } else if same_str(desktop, "XFCE") {
        let r = invocation(
            "xfconf-query",
            vec!["-c", "xfce4-desktop", "-p", "/backdrop/screen0/monitor0/workspace0/last-image", "-s", path],
        );
        assert(r@.1 =~= seq![
            "-c"@,
            "xfce4-desktop"@,
            "-p"@,
            "/backdrop/screen0/monitor0/workspace0/last-image"@,
            "-s"@,
            path@,
        ]);
        Ok(r)
    } else if same_str(desktop, "LXDE") {
        Ok(command2("pcmanfm", "-w", path))
    } else if same_str(desktop, "Deepin") {
        let uri = quoted_file_uri(path);
        Ok(
            command3("dconf", "write", "/com/deepin/wrap/gnome/desktop/background/picture-uri", uri.as_str()),
        )
    } else if same_str(desktop, "i3") {
        Ok(command2("feh", "--bg-fill", path))
    } else {
        Err(WallpaperError::UnsupportedDesktop)
    }
}

/// What to do to set the wallpaper of `desktop` from `url`. Only `GNOME`,
/// `ubuntu:GNOME` and `i3` take the URL itself; on any other desktop the
/// image is downloaded and then set with `set_from_path`.
pub fn set_from_url(desktop: &str, url: &str) -> (r: UrlAction)
    ensures
        match set_from_url_command(desktop@, url@) {
            Some(c) => r matches UrlAction::Run(i) && i@ == c,
            None => r is DownloadThenSetFromPath,
        },
{
    if same_str(desktop, "GNOME") || same_str(desktop, "ubuntu:GNOME") {
        let quoted_url = quoted('"', url);
        UrlAction::Run(
            command4("gsettings", "set", "org.gnome.desktop.background", "picture-uri", quoted_url.as_str()),
        )
    } else if same_str(desktop, "i3") {
        UrlAction::Run(command2("feh", "--bg-fill", url))
    } else {
        UrlAction::DownloadThenSetFromPath
    }
}

/// Every desktop whose name holds `GNOME`, or that is `Unity` or `Pantheon`,
/// reads and writes its wallpaper through GNOME's settings tool.
pub proof fn gnome_compliant_desktops_use_settings_tool(desktop: Seq<char>, path: Seq<char>)
    requires
        has_substring(desktop, "GNOME"@) || desktop == "Unity"@ || desktop == "Pantheon"@,
    ensures
        get_outcome(desktop) == Ok::<CommandLine, WallpaperError>(gnome_get()),
        set_from_path_outcome(desktop, path) == Ok::<CommandLine, WallpaperError>(
            gnome_set(enquoted('"', file_uri(path))),
        ),
{
}

/// A desktop that is not GNOME-compliant and not one of the desktops known
/// by name makes both reading and setting the wallpaper fail as unsupported.
pub proof fn unknown_desktops_are_unsupported(desktop: Seq<char>, path: Seq<char>)
    requires
        !gnome_compliant(desktop),
        desktop != "KDE"@,
        desktop != "X-Cinnamon"@,
        desktop != "MATE"@,
        desktop != "XFCE"@,
        desktop != "LXDE"@,
        desktop != "Deepin"@,
        desktop != "i3"@,
    ensures
        get_outcome(desktop) == Err::<CommandLine, WallpaperError>(
            WallpaperError::UnsupportedDesktop,
        ),
        set_from_path_outcome(desktop, path) == Err::<CommandLine, WallpaperError>(
            WallpaperError::UnsupportedDesktop,
        ),
{
}

/// On every desktop but `GNOME`, `ubuntu:GNOME` and `i3`, setting the
/// wallpaper from a URL downloads the image and then sets it from its path.
pub proof fn other_desktops_download_url_images(desktop: Seq<char>, url: Seq<char>)
    requires
        desktop != "GNOME"@,
        desktop != "ubuntu:GNOME"@,
        desktop != "i3"@,
    ensures
        set_from_url_command(desktop, url) is None,
{
}

} // verus!
