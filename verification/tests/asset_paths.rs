use super_tux_showdown::asset::{model_asset_path, AssetLocation};

fn at(source: Option<&str>, path: &str, label: Option<&str>) -> AssetLocation {
    AssetLocation {
        source: source.map(str::to_owned),
        path: path.to_owned(),
        label: label.map(str::to_owned),
    }
}

#[test]
fn model_next_to_description() {
    let description = at(None, "models/tux.stsmodel", None);
    assert_eq!(
        model_asset_path(&description, "stk-tux.glb"),
        Some(Ok(at(None, "models/stk-tux.glb", None)))
    );
}

#[test]
fn model_keeps_source_and_drops_label() {
    let description = at(Some("memory"), "chars/tux.stsmodel", Some("Description"));
    assert_eq!(
        model_asset_path(&description, "tux.glb"),
        Some(Ok(at(Some("memory"), "chars/tux.glb", None)))
    );
    assert_eq!(
        model_asset_path(&description, "tux.glb#Scene0"),
        Some(Ok(at(Some("memory"), "chars/tux.glb", Some("Scene0"))))
    );
    assert_eq!(
        model_asset_path(&description, "web://tux.glb"),
        Some(Ok(at(Some("web"), "tux.glb", None)))
    );
}

#[test]
fn model_relative_paths_are_normalised() {
    let description = at(None, "chars/tux/tux.stsmodel", None);
    assert_eq!(
        model_asset_path(&description, "../shared/tux.glb"),
        Some(Ok(at(None, "chars/shared/tux.glb", None)))
    );
    assert_eq!(
        model_asset_path(&description, "./tux.glb"),
        Some(Ok(at(None, "chars/tux/tux.glb", None)))
    );
    assert_eq!(
        model_asset_path(&description, "/other/tux.glb"),
        Some(Ok(at(None, "other/tux.glb", None)))
    );
}

#[test]
fn model_at_root_and_without_parent() {
    let description = at(None, "tux.stsmodel", None);
    assert_eq!(
        model_asset_path(&description, "tux.glb"),
        Some(Ok(at(None, "tux.glb", None)))
    );
    let empty = at(None, "", None);
    assert_eq!(model_asset_path(&empty, "tux.glb"), None);
}

#[test]
fn malformed_model_path_is_an_error() {
    let description = at(None, "models/tux.stsmodel", None);
    assert!(matches!(model_asset_path(&description, "tux.glb#"), Some(Err(_))));
    assert!(matches!(model_asset_path(&description, "://tux.glb"), Some(Err(_))));
}
