//! The shared documentation assets that ship with the toolchain, and the
//! names under which they are stored.
use vstd::prelude::*;
use vstd::string::*;

verus! {

/// One shared asset file: its name is `stem.extension`. A versioned asset
/// is stored as `stem-<version>.extension`, so that pages built with an
/// older toolchain keep the files they were built against.
#[derive(Debug)]
pub struct EssentialFile {
    pub stem: String,
    pub extension: String,
    pub versioned: bool,
}

pub struct AssetSpec {
    pub stem: Seq<char>,
    pub extension: Seq<char>,
    pub versioned: bool,
}

pub open spec fn asset_view(f: EssentialFile) -> AssetSpec {
    AssetSpec { stem: f.stem@, extension: f.extension@, versioned: f.versioned }
}

/// The shared assets: stylesheets, scripts and images (versioned), then
/// fonts (stored under their own names).
pub open spec fn essential_manifest() -> Seq<AssetSpec> {
    seq![
        AssetSpec { stem: "brush"@, extension: "svg"@, versioned: true },
        AssetSpec { stem: "wheel"@, extension: "svg"@, versioned: true },
        AssetSpec { stem: "down-arrow"@, extension: "svg"@, versioned: true },
        AssetSpec { stem: "dark"@, extension: "css"@, versioned: true },
        AssetSpec { stem: "light"@, extension: "css"@, versioned: true },
        AssetSpec { stem: "main"@, extension: "js"@, versioned: true },
        AssetSpec { stem: "normalize"@, extension: "css"@, versioned: true },
        AssetSpec { stem: "rustdoc"@, extension: "css"@, versioned: true },
        AssetSpec { stem: "settings"@, extension: "css"@, versioned: true },
        AssetSpec { stem: "settings"@, extension: "js"@, versioned: true },
        AssetSpec { stem: "storage"@, extension: "js"@, versioned: true },
        AssetSpec { stem: "theme"@, extension: "js"@, versioned: true },
        AssetSpec { stem: "source-script"@, extension: "js"@, versioned: true },
        AssetSpec { stem: "noscript"@, extension: "css"@, versioned: true },
        AssetSpec { stem: "rust-logo"@, extension: "png"@, versioned: true },
        AssetSpec { stem: "FiraSans-Medium"@, extension: "woff"@, versioned: false },
        AssetSpec { stem: "FiraSans-Regular"@, extension: "woff"@, versioned: false },
        AssetSpec { stem: "SourceCodePro-Regular"@, extension: "woff"@, versioned: false },
        AssetSpec { stem: "SourceCodePro-Semibold"@, extension: "woff"@, versioned: false },
        AssetSpec { stem: "SourceSerifPro-Bold.ttf"@, extension: "woff"@, versioned: false },
        AssetSpec { stem: "SourceSerifPro-Regular.ttf"@, extension: "woff"@, versioned: false },
        AssetSpec { stem: "SourceSerifPro-It.ttf"@, extension: "woff"@, versioned: false },
    ]
}

/// The stored name of an asset for the toolchain version token `token`.
pub open spec fn stored_name(f: AssetSpec, token: Seq<char>) -> Seq<char> {
    if f.versioned {
        f.stem + "-"@ + token + "."@ + f.extension
    } else {
        f.stem + "."@ + f.extension
    }
}

fn asset(stem: &str, extension: &str, versioned: bool) -> (r: EssentialFile)
    ensures
        asset_view(r) == (AssetSpec { stem: stem@, extension: extension@, versioned }),
{
    EssentialFile { stem: String::from_str(stem), extension: String::from_str(extension), versioned }
}

/// The manifest of shared assets.
pub fn essential_files() -> (r: Vec<EssentialFile>)
    ensures
        r@.map_values(|f: EssentialFile| asset_view(f)) == essential_manifest(),
{
    let mut files: Vec<EssentialFile> = Vec::new();
    files.push(asset("brush", "svg", true));
    files.push(asset("wheel", "svg", true));
    files.push(asset("down-arrow", "svg", true));
    files.push(asset("dark", "css", true));
    files.push(asset("light", "css", true));
    files.push(asset("main", "js", true));
    files.push(asset("normalize", "css", true));
    files.push(asset("rustdoc", "css", true));
    files.push(asset("settings", "css", true));
    files.push(asset("settings", "js", true));
    files.push(asset("storage", "js", true));
    files.push(asset("theme", "js", true));
    files.push(asset("source-script", "js", true));
    files.push(asset("noscript", "css", true));
    files.push(asset("rust-logo", "png", true));
    files.push(asset("FiraSans-Medium", "woff", false));
    files.push(asset("FiraSans-Regular", "woff", false));
    files.push(asset("SourceCodePro-Regular", "woff", false));
    files.push(asset("SourceCodePro-Semibold", "woff", false));
    files.push(asset("SourceSerifPro-Bold.ttf", "woff", false));
    files.push(asset("SourceSerifPro-Regular.ttf", "woff", false));
    files.push(asset("SourceSerifPro-It.ttf", "woff", false));
    assert(files@.map_values(|f: EssentialFile| asset_view(f)) =~= essential_manifest());
    files
}

/// The name under which `file` is stored for the version token `token`.
pub fn stored_file_name(file: &EssentialFile, token: &str) -> (r: String)
    ensures
        r@ == stored_name(asset_view(*file), token@),
{
    let mut r = file.stem.clone();
    if file.versioned {
        r.append("-");
        r.append(token);
    }
    r.append(".");
    r.append(file.extension.as_str());
    proof {
        reveal_strlit("-");
        reveal_strlit(".");
    }
    r
}

/// The stored names of all shared assets for the version token `token`.
pub fn essential_file_names(token: &str) -> (r: Vec<String>)
    ensures
        r@.len() == essential_manifest().len(),
        forall|i: int|
            0 <= i < r@.len() ==> (#[trigger] r@[i])@ == stored_name(essential_manifest()[i], token@),
{
    let files = essential_files();
    let ghost m = files@.map_values(|f: EssentialFile| asset_view(f));
    let mut names: Vec<String> = Vec::new();
    let mut i: usize = 0;
    while i < files.len()
        invariant
            i <= files@.len(),
            m == essential_manifest(),
            m == files@.map_values(|f: EssentialFile| asset_view(f)),
            names@.len() == i,
            forall|k: int| 0 <= k < i ==> (#[trigger] names@[k])@ == stored_name(m[k], token@),
        decreases files@.len() - i,
    {
        names.push(stored_file_name(&files[i], token));
        i = i + 1;
    }
    names
}

/// Name of the build directory in which the assets for `token` are made.
pub fn essential_build_dir_name(token: &str) -> (r: String)
    ensures
        r@ == "essential-files-"@ + token@,
{
    let mut r = String::from_str("essential-files-");
    r.append(token);
    r
}

/// What the JSON encoder of rustc-serialize writes for a string value.
pub uninterp spec fn json_string_text(s: Seq<char>) -> Seq<char>;

/// A character that the JSON encoder writes as it is: not a quote, not a
/// backslash, not a control character and not DEL.
pub open spec fn json_plain_char(c: char) -> bool {
    c != '"' && c != '\\' && c as u32 >= 0x20 && c as u32 != 0x7f
}

/// The JSON text of a string: it is quoted, and a string of plain
/// characters is written between the quotes unchanged.
pub open spec fn json_quoting_facts(s: Seq<char>, r: Seq<char>) -> bool {
    &&& r.len() >= 2
    &&& r[0] == '"'
    &&& r[r.len() - 1] == '"'
    &&& (forall|i: int| 0 <= i < s.len() ==> json_plain_char(#[trigger] s[i])) ==> r == seq!['"']
        + s + seq!['"']
}

/// Relies on rustc_serialize's `ToJson for String` (a `Json::String` of the
/// text) and `Display for Json`, whose string encoder writes a quote, the
/// text with quotes, backslashes, control characters and DEL escaped, and a
/// closing quote.
#[verifier::external_body]
fn encode_json_string(s: &String) -> (r: String)
    ensures
        r@ == json_string_text(s@),
        json_quoting_facts(s@, r@),
{
    rustc_serialize::json::ToJson::to_json(s).to_string()
}

/// The configuration key under which the current toolchain version is kept.
pub fn toolchain_config_key() -> (r: String)
    ensures
        r@ == "rustc_version"@,
{
    String::from_str("rustc_version")
}

/// The stored configuration value for toolchain version `version`: the
/// version as a JSON string.
pub fn toolchain_config_value(version: &String) -> (r: String)
    ensures
        r@ == json_string_text(version@),
        json_quoting_facts(version@, r@),
{
    encode_json_string(version)
}

} // verus!
