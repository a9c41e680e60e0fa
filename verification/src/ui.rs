//! The web page of the service: the index template gets the address of the
//! script, which carries a fingerprint of the script's content.
use sha2::Digest;
use vstd::prelude::*;

use crate::text::{chars_of, contains, contains_seq, hex_lower, push_hex_lower, replace, replace_all};

verus! {

broadcast use vstd::string::group_string_axioms;

/// The text in the index template that the script address replaces.
pub const INDEX_SCRIPT_PLACEHOLDER: &'static str = "__APP_SCRIPT_SRC__";

/// Hexadecimal characters of the script fingerprint.
pub const APP_FINGERPRINT_HEX_LENGTH: usize = 16usize;

/// The rendered page and the script it refers to.
#[derive(Debug, Clone, PartialEq, Eq)]
pub struct UiAssets {
    pub index_html: String,
    pub app_asset_route: String,
    pub app_script: Vec<u8>,
}

/// Why the page could not be prepared.
#[derive(Debug, Clone, PartialEq, Eq)]
pub enum UiAssetError {
    /// A file could not be read.
    Read { path: String, reason: String },
    /// The index template lacks the placeholder.
    MissingPlaceholder { path: String, placeholder: String },
}

/// The SHA-256 digest of `data`, as the `sha2` crate computes it.
pub uninterp spec fn sha256(data: Seq<u8>) -> Seq<u8>;

/// `sha2::Sha256::digest` of `data`, copied into a vector. Claimed: the bytes
/// are those named `sha256`, and there are 32 of them (the output size of
/// SHA-256).
#[verifier::external_body]
fn sha256_digest(data: &[u8]) -> (d: Vec<u8>)
    ensures
        d@ == sha256(data@),
        d@.len() == 32,
{
    sha2::Sha256::digest(data).to_vec()
}

/// The fingerprint of a script: the first eight bytes of its SHA-256 digest
/// in lowercase hexadecimal.
pub open spec fn fingerprint_text(bytes: Seq<u8>) -> Seq<char> {
    hex_lower(sha256(bytes).take(8))
}

/// The address under which a script with this fingerprint is served.
pub open spec fn asset_route_text(fingerprint: Seq<char>) -> Seq<char> {
    "/assets/app."@ + fingerprint + ".js"@
}

/// The fingerprint of `bytes`.
pub fn fingerprint(bytes: &[u8]) -> (f: String)
    ensures
        f@ == fingerprint_text(bytes@),
        f@.len() == APP_FINGERPRINT_HEX_LENGTH,
{
    let digest = sha256_digest(bytes);
    let mut output = String::new();
    push_hex_lower(&mut output, &digest, APP_FINGERPRINT_HEX_LENGTH / 2);
    proof {
        lemma_hex_lower_len(digest@.take(8));
    }
    output
}

proof fn lemma_hex_lower_len(bytes: Seq<u8>)
    ensures
        hex_lower(bytes).len() == 2 * bytes.len(),
    decreases bytes.len(),
{
    if bytes.len() > 0 {
        lemma_hex_lower_len(bytes.drop_last());
    }
}

/// Prepares the page from the index template (read from `index_path`) and
/// the script: the placeholder must occur in the template and every
/// occurrence is replaced by the fingerprinted script address.
pub fn render_ui_assets(index_path: &str, index_template: &str, app_script: Vec<u8>) -> (r: Result<
    UiAssets,
    UiAssetError,
>)
    ensures
        !contains_seq(index_template@, INDEX_SCRIPT_PLACEHOLDER@) ==> (r matches Err(
            UiAssetError::MissingPlaceholder { path, placeholder },
        ) && path@ == index_path@ && placeholder@ == INDEX_SCRIPT_PLACEHOLDER@),
        contains_seq(index_template@, INDEX_SCRIPT_PLACEHOLDER@) ==> (r matches Ok(assets) && {
            &&& assets.app_asset_route@ == asset_route_text(fingerprint_text(app_script@))
            &&& assets.index_html@ == replace_all(
                index_template@,
                INDEX_SCRIPT_PLACEHOLDER@,
                assets.app_asset_route@,
            )
            &&& contains_seq(assets.index_html@, assets.app_asset_route@)
            &&& assets.app_script@ == app_script@
        }),
{
    let template = chars_of(index_template);
    let placeholder = chars_of(INDEX_SCRIPT_PLACEHOLDER);
    proof {
        reveal_strlit("__APP_SCRIPT_SRC__");
    }
    if !contains(&template, &placeholder) {
        return Err(
            UiAssetError::MissingPlaceholder {
                path: index_path.to_owned(),
                placeholder: INDEX_SCRIPT_PLACEHOLDER.to_owned(),
            },
        );
    }
    let fingerprint = fingerprint(app_script.as_slice());
    let mut app_asset_route = String::new();
    app_asset_route.append("/assets/app.");
    app_asset_route.append(fingerprint.as_str());
    app_asset_route.append(".js");
    let index_html = replace(&template, &placeholder, app_asset_route.as_str());
    proof {
        crate::text::lemma_replace_leaves_replacement(
            template@,
            placeholder@,
            app_asset_route@,
        );
    }
    Ok(UiAssets { index_html, app_asset_route, app_script })
}

impl UiAssetError {
    /// The message of this error.
    pub fn message(&self) -> (m: String)
        ensures
            self matches UiAssetError::Read { path, reason } ==> m@ == "failed to read ui asset "@
                + path@ + ": "@ + reason@,
            self matches UiAssetError::MissingPlaceholder { path, placeholder } ==> m@
                == "ui template "@ + path@ + " is missing placeholder "@ + placeholder@,
    {
        let mut m = String::new();
        match self {
            UiAssetError::Read { path, reason } => {
                m.append("failed to read ui asset ");
                m.append(path.as_str());
                m.append(": ");
                m.append(reason.as_str());
            },
            UiAssetError::MissingPlaceholder { path, placeholder } => {
                m.append("ui template ");
                m.append(path.as_str());
                m.append(" is missing placeholder ");
                m.append(placeholder.as_str());
            },
        }
        m
    }
}

} // verus!
