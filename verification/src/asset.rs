//! Asset paths of character descriptions.

use vstd::prelude::*;

use std::path::PathBuf;

use bevy::asset::io::AssetSourceId;
use bevy::asset::{AssetPath, ParseAssetPathError};

verus! {

#[verifier::external_type_specification]
#[verifier::external_body]
pub struct ExParseAssetPathError(ParseAssetPathError);

/// An asset path as plain values: the asset source (`None` for the default
/// source), the path inside the source, and the label of a sub-asset.
#[derive(Clone, Debug, PartialEq, Eq)]
pub struct AssetLocation {
    pub source: Option<String>,
    pub path: String,
    pub label: Option<String>,
}

/// The text of an optional string.
pub open spec fn text(s: Option<String>) -> Option<Seq<char>> {
    match s {
        Some(s) => Some(s@),
        None => None,
    }
}

impl View for AssetLocation {
    type V = (Option<Seq<char>>, Seq<char>, Option<Seq<char>>);

    open spec fn view(&self) -> (Option<Seq<char>>, Seq<char>, Option<Seq<char>>) {
        (text(self.source), self.path@, text(self.label))
    }
}

/// The folder that holds `path`, as `AssetPath::parent` computes it; `None`
/// where the path has no parent folder.
pub uninterp spec fn parent_folder(path: Seq<char>) -> Option<Seq<char>>;

/// `relative` resolved against the asset path with `source`, `path` and
/// `label`, as `AssetPath::resolve` computes it (source, path, label);
/// `None` where `relative` is malformed.
pub uninterp spec fn resolved(
    source: Option<Seq<char>>,
    path: Seq<char>,
    label: Option<Seq<char>>,
    relative: Seq<char>,
) -> Option<(Option<Seq<char>>, Seq<char>, Option<Seq<char>>)>;

/// Calls `AssetPath::parent` on the asset path with `source` and `path`.
/// Bevy's source shows that its path is the parent folder of `path`, that it
/// keeps the source and has no label, and that it is `None` exactly where
/// `path` has no parent folder; the folder itself is named, not stated.
#[verifier::external_body]
fn asset_path_parent(source: &Option<String>, path: &String) -> (r: Option<AssetLocation>)
    ensures
        r is None <==> parent_folder(path@) is None,
        r matches Some(folder) ==> folder@ == (text(*source), parent_folder(path@)->0, None::<Seq<char>>),
{
    let asset = AssetPath::from_path_buf(PathBuf::from(path)).with_source(AssetSourceId::new(source.clone()));
    match asset.parent() {
        Some(folder) => Some(AssetLocation {
            source: folder.source().as_str().map(str::to_owned),
            path: folder.path().to_string_lossy().into_owned(),
            label: folder.label().map(str::to_owned),
        }),
        None => None,
    }
}

/// Calls `AssetPath::resolve` with `base` and `relative`: the result, or the
/// parse error of a malformed `relative`, is the one `resolved` names.
#[verifier::external_body]
fn asset_path_resolve(base: &AssetLocation, relative: &str) -> (r: Result<AssetLocation, ParseAssetPathError>)
    ensures
        r is Err <==> resolved(base@.0, base@.1, base@.2, relative@) is None,
        r matches Ok(location) ==> resolved(base@.0, base@.1, base@.2, relative@) == Some(location@),
{
    let asset = AssetPath::from_path_buf(PathBuf::from(&base.path)).with_source(AssetSourceId::new(base.source.clone()));
    let asset = match &base.label {
        Some(label) => asset.with_label(label.clone()),
        None => asset,
    };
    match asset.resolve(relative) {
        Ok(r) => Ok(AssetLocation {
            source: r.source().as_str().map(str::to_owned),
            path: r.path().to_string_lossy().into_owned(),
            label: r.label().map(str::to_owned),
        }),
        Err(e) => Err(e),
    }
}

/// Where the model of a character description lives: `model_file`
/// resolved against the folder that holds the description (same source, no
/// label). `None` where the description's path has no parent folder;
/// otherwise the resolution, which fails on a malformed `model_file`.
pub fn model_asset_path(description: &AssetLocation, model_file: &str) -> (r: Option<
    Result<AssetLocation, ParseAssetPathError>,
>)
    ensures
        r is None <==> parent_folder(description.path@) is None,
        r matches Some(Ok(location)) ==> resolved(
            text(description.source),
            parent_folder(description.path@)->0,
            None,
            model_file@,
        ) == Some(location@),
        r matches Some(Err(_)) ==> resolved(
            text(description.source),
            parent_folder(description.path@)->0,
            None,
            model_file@,
        ) is None,
{
    match asset_path_parent(&description.source, &description.path) {
        None => None,
        Some(folder) => Some(asset_path_resolve(&folder, model_file)),
    }
}

} // verus!
