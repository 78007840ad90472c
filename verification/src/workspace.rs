//! The layout of the workspace: the directory that one generation builds for
//! the rendering engine. Every path here is relative to the workspace's root
//! and uses `/` between its parts.

use vstd::prelude::*;
use crate::avatar::{avatar_file_name, file_name_text};
use crate::format::ImageFormat;

verus! {

/// The files that come with the program and are written into every workspace
/// as they are.
#[derive(Clone, Copy, Debug, PartialEq, Eq, Structural)]
pub enum BundledAsset {
    InertiaIcon,
    LikesIcon,
    OgTemplate,
    VolumeIcon,
    /// The Typst template that draws the image.
    Template,
}

/// The directory that holds the icons and the avatars.
pub open spec fn assets_directory_text() -> Seq<char> {
    "assets"@
}

/// Where `asset` stands in the workspace.
pub open spec fn asset_path_text(asset: BundledAsset) -> Seq<char> {
    match asset {
        BundledAsset::InertiaIcon => "assets/inertia.svg"@,
        BundledAsset::LikesIcon => "assets/likes.svg"@,
        BundledAsset::OgTemplate => "assets/og-template.svg"@,
        BundledAsset::VolumeIcon => "assets/volume.svg"@,
        BundledAsset::Template => "og-image.typ"@,
    }
}

/// Where the avatar stored under `prefix` stands in the workspace.
pub open spec fn avatar_path_text(prefix: Seq<char>, format: ImageFormat) -> Seq<char> {
    "assets/"@ + file_name_text(prefix, format)
}

/// The directory that holds the icons and the avatars.
pub fn assets_directory() -> (path: &'static str)
    ensures
        path@ == assets_directory_text(),
{
    "assets"
}

impl BundledAsset {
    /// Where this asset stands in the workspace.
    pub fn path(&self) -> (path: &'static str)
        ensures
            path@ == asset_path_text(*self),
    {
        match self {
            BundledAsset::InertiaIcon => "assets/inertia.svg",
            BundledAsset::LikesIcon => "assets/likes.svg",
            BundledAsset::OgTemplate => "assets/og-template.svg",
            BundledAsset::VolumeIcon => "assets/volume.svg",
            BundledAsset::Template => "og-image.typ",
        }
    }
}

/// Where the avatar stored under `prefix` stands in the workspace.
pub fn avatar_path(prefix: &str, format: ImageFormat) -> (path: String)
    ensures
        path@ == avatar_path_text(prefix@, format),
{
    let name = avatar_file_name(prefix, format);
    "assets/".to_owned().concat(name.as_str())
}

} // verus!
