//! Toolchain version detection and the decision to refresh shared assets.
use vstd::prelude::*;
use vstd::string::*;

verus! {

/// Why the toolchain's version could not be read.
#[derive(Clone, Copy, Debug, PartialEq, Eq, Structural)]
pub enum ToolchainError {
    /// The version command did not print exactly one line.
    InvalidVersionOutput,
    /// The version line holds no word that starts with a digit.
    NoVersionNumber,
}

/// The version reported by the toolchain: its only output line.
pub fn version_from_output(lines: &Vec<String>) -> (r: Result<String, ToolchainError>)
    ensures
        lines@.len() == 1 <==> r is Ok,
        r matches Ok(v) ==> v@ == lines@[0]@,
        r is Err ==> r == Err::<String, ToolchainError>(ToolchainError::InvalidVersionOutput),
{
    if lines.len() == 1 {
        Ok(lines[0].clone())
    } else {
        Err(ToolchainError::InvalidVersionOutput)
    }
}

/// Shared assets are rebuilt when no version was known before, or when it
/// differs from the one now detected.
pub open spec fn refresh_needed(previous: Option<Seq<char>>, current: Seq<char>) -> bool {
    match previous {
        Some(p) => p != current,
        None => true,
    }
}

pub open spec fn option_view(o: Option<String>) -> Option<Seq<char>> {
    match o {
        Some(s) => Some(s@),
        None => None,
    }
}

/// Outcome of bringing the toolchain up to date.
#[derive(Debug)]
pub struct ToolchainUpdate {
    /// The version detected after the update.
    pub version: String,
    /// Whether the shared assets must be rebuilt for it.
    pub refresh_assets: bool,
}

/// Decides, from the version detected before the update (if detection
/// worked) and the version command's output after it, which version is now
/// current and whether the shared assets must be rebuilt.
pub fn update_toolchain(previous: Option<String>, current_output: &Vec<String>) -> (r: Result<
    ToolchainUpdate,
    ToolchainError,
>)
    ensures
        current_output@.len() == 1 <==> r is Ok,
        r is Err ==> r == Err::<ToolchainUpdate, ToolchainError>(
            ToolchainError::InvalidVersionOutput,
        ),
        r matches Ok(u) ==> u.version@ == current_output@[0]@ && u.refresh_assets
            == refresh_needed(option_view(previous), u.version@),
{
    match version_from_output(current_output) {
        Err(e) => Err(e),
        Ok(version) => {
            let refresh_assets = match &previous {
                Some(p) => *p != version,
                None => true,
            };
            Ok(ToolchainUpdate { version, refresh_assets })
        },
    }
}

/// Updating twice while the toolchain reports the same version line
/// rebuilds the assets at most once: the second update finds the version it
/// left behind.
pub proof fn lemma_refresh_at_most_once(previous: Option<Seq<char>>, line: Seq<char>)
    ensures
        !refresh_needed(Some(line), line),
        refresh_needed(previous, line) ==> previous != Some(line),
{
}

pub open spec fn is_digit(c: char) -> bool {
    '0' <= c <= '9'
}

/// A word starting with a digit begins at `a`.
pub open spec fn starts_number_word(s: Seq<char>, a: int) -> bool {
    0 <= a < s.len() && is_digit(s[a]) && (a == 0 || s[a - 1] == ' ')
}

/// `t` is the first word of `s` that starts with a digit.
pub open spec fn is_version_token(s: Seq<char>, t: Seq<char>) -> bool {
    exists|a: int, b: int|
        #![trigger s.subrange(a, b)]
        starts_number_word(s, a) && (forall|a2: int| 0 <= a2 < a ==> !starts_number_word(s, a2))
            && a < b <= s.len() && (b == s.len() || s[b] == ' ') && (forall|k: int|
            a <= k < b ==> s[k] != ' ') && t == s.subrange(a, b)
}

/// The version number of a toolchain version line, the token that names
/// its shared asset files: the first space-separated word that starts with
/// a digit (`1.1` in `1.1 (def)`).
pub fn parse_rustc_version(version: &str) -> (r: Result<String, ToolchainError>)
    ensures
        r matches Ok(t) ==> is_version_token(version@, t@),
        r is Err <==> forall|a: int| !starts_number_word(version@, a),
        r is Err ==> r == Err::<String, ToolchainError>(ToolchainError::NoVersionNumber),
{
    let n = version.unicode_len();
    let mut a: usize = 0;
    while a < n
        invariant
            n == version@.len(),
            a <= n,
            forall|a2: int| 0 <= a2 < a ==> !starts_number_word(version@, a2),
        decreases n - a,
    {
        let c = version.get_char(a);
        if '0' <= c && c <= '9' && (a == 0 || version.get_char(a - 1) == ' ') {
            let mut b: usize = a + 1;
            while b < n && version.get_char(b) != ' '
                invariant
                    n == version@.len(),
                    a < b <= n,
                    forall|k: int| a <= k < b ==> version@[k] != ' ',
                decreases n - b,
            {
                b = b + 1;
            }
            let t = version.substring_char(a, b);
            let r = String::from_str(t);
            assert(is_version_token(version@, r@) ) by {
                assert(starts_number_word(version@, a as int));
            }
            return Ok(r);
        }
        a = a + 1;
    }
    Err(ToolchainError::NoVersionNumber)
}

} // verus!
