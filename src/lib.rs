//! Reads and writes the desktop wallpaper setting by choosing, for the
//! running desktop environment, the configuration tool to invoke and by
//! parsing what that tool prints.
pub mod desktop;
pub mod error;
pub mod output;
pub mod quote;
pub mod text;

pub use desktop::{
    get, gnome_compliant_desktops_use_settings_tool, is_gnome_compliant,
    other_desktops_download_url_images, set_from_path, set_from_url,
    unknown_desktops_are_unsupported, Invocation, UrlAction,
};
pub use error::{exit_error, WallpaperError};
pub use output::{parse_dconf, run, unquote_value};
pub use text::{contains, same_str, starts_with, trim};
