use image_resize::ui::{fingerprint, render_ui_assets, UiAssetError, INDEX_SCRIPT_PLACEHOLDER};

#[test]
fn load_renders_fingerprinted_app_asset_path() {
    let template = r#"<!doctype html><script src="__APP_SCRIPT_SRC__"></script>"#;
    let script = b"console.log('asset');".to_vec();

    let assets = render_ui_assets("index.html", template, script).unwrap();

    assert!(assets.app_asset_route.starts_with("/assets/app."));
    assert!(assets.app_asset_route.ends_with(".js"));
    assert!(assets.index_html.contains(&assets.app_asset_route));
    assert_eq!(assets.app_script, b"console.log('asset');");
}

#[test]
fn fingerprint_is_the_first_eight_digest_bytes_in_hex() {
    // SHA-256("abc") = ba7816bf8f01cfea 414140de5dae2223 ...
    assert_eq!(fingerprint(b"abc"), "ba7816bf8f01cfea");
    // SHA-256("") = e3b0c44298fc1c14 ...
    assert_eq!(fingerprint(b""), "e3b0c44298fc1c14");
}

#[test]
fn every_placeholder_is_replaced() {
    let template = "a __APP_SCRIPT_SRC__ b __APP_SCRIPT_SRC__";
    let assets = render_ui_assets("index.html", template, b"abc".to_vec()).unwrap();
    assert_eq!(assets.app_asset_route, "/assets/app.ba7816bf8f01cfea.js");
    assert_eq!(
        assets.index_html,
        "a /assets/app.ba7816bf8f01cfea.js b /assets/app.ba7816bf8f01cfea.js"
    );
}

#[test]
fn template_without_placeholder_is_rejected() {
    let err = render_ui_assets("static/index.html", "<html></html>", Vec::new()).unwrap_err();
    assert_eq!(
        err,
        UiAssetError::MissingPlaceholder {
            path: "static/index.html".to_owned(),
            placeholder: INDEX_SCRIPT_PLACEHOLDER.to_owned(),
        }
    );
    assert_eq!(
        err.message(),
        "ui template static/index.html is missing placeholder __APP_SCRIPT_SRC__"
    );
}
