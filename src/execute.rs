//! What one sandboxed documentation build runs: the target it builds for,
//! the documentation compiler's flags and the build tool's arguments.
use vstd::prelude::*;
use vstd::string::*;

verus! {

/// Per-package build settings read from the package's own manifest.
#[derive(Debug, Default)]
pub struct PackageMetadata {
    pub default_target: Option<String>,
    pub rustc_args: Option<Vec<String>>,
    pub rustdoc_args: Option<Vec<String>>,
    pub features: Option<Vec<String>>,
    pub all_features: bool,
    pub no_default_features: bool,
}

/// A direct dependency of the package being built.
#[derive(Debug)]
pub struct Dependency {
    pub name: String,
    pub version: String,
}

/// The resource limits a build runs under.
#[derive(Clone, Copy, Debug, PartialEq, Eq, Structural)]
pub struct BuildLimits {
    pub memory_bytes: usize,
    pub networking: bool,
    pub timeout_secs: u64,
    pub max_log_bytes: usize,
}

/// What one build produced; the input to recording and copying decisions.
#[derive(Debug)]
pub struct BuildResult {
    pub rustc_version: String,
    pub docsrs_version: String,
    pub build_log: String,
    pub successful: bool,
    pub target: String,
}

pub open spec fn texts(v: Seq<String>) -> Seq<Seq<char>> {
    v.map_values(|s: String| s@)
}

/// The words of `w` separated by single spaces.
pub open spec fn words_joined(w: Seq<Seq<char>>) -> Seq<char>
    decreases w.len(),
{
    if w.len() == 0 {
        Seq::empty()
    } else if w.len() == 1 {
        w[0]
    } else {
        words_joined(w.drop_last()) + " "@ + w.last()
    }
}

/// Joins `words` with single spaces.
pub fn join_words(words: &Vec<String>) -> (r: String)
    ensures
        r@ == words_joined(texts(words@)),
{
    let mut r = String::new();
    let mut i: usize = 0;
    while i < words.len()
        invariant
            i <= words@.len(),
            r@ == words_joined(texts(words@.subrange(0, i as int))),
        decreases words@.len() - i,
    {
        let ghost w = texts(words@.subrange(0, i + 1));
        assert(w.drop_last() == texts(words@.subrange(0, i as int)));
        assert(w.last() == words@[i as int]@);
        if i > 0 {
            r.append(" ");
        }
        r.append(words[i].as_str());
        proof {
            reveal_strlit(" ");
            if i == 0 {
                assert(r@ == w[0]);
            }
        }
        i = i + 1;
    }
    assert(words@.subrange(0, i as int) == words@);
    r
}

/// The host platform documentation is built for when nothing else is named.
pub open spec fn default_target_spec() -> Seq<char> {
    "x86_64-unknown-linux-gnu"@
}

/// The additional platforms every documented package is built for.
pub open spec fn targets_spec() -> Seq<Seq<char>> {
    seq![
        "i686-apple-darwin"@,
        "i686-pc-windows-msvc"@,
        "i686-unknown-linux-gnu"@,
        "x86_64-apple-darwin"@,
        "x86_64-pc-windows-msvc"@,
        "x86_64-unknown-linux-gnu"@,
    ]
}

/// The additional platforms, in build order.
pub fn additional_targets() -> (r: Vec<String>)
    ensures
        texts(r@) == targets_spec(),
{
    let mut r: Vec<String> = Vec::new();
    r.push(String::from_str("i686-apple-darwin"));
    r.push(String::from_str("i686-pc-windows-msvc"));
    r.push(String::from_str("i686-unknown-linux-gnu"));
    r.push(String::from_str("x86_64-apple-darwin"));
    r.push(String::from_str("x86_64-pc-windows-msvc"));
    r.push(String::from_str("x86_64-unknown-linux-gnu"));
    assert(texts(r@) =~= targets_spec());
    r
}

/// The target of a build: the one asked for, else the package's declared
/// default, else the host default.
pub open spec fn resolved_target(explicit: Option<Seq<char>>, declared: Option<String>) -> Seq<
    char,
> {
    match explicit {
        Some(t) => t,
        None => match declared {
            Some(d) => d@,
            None => default_target_spec(),
        },
    }
}

pub open spec fn str_option_view(o: Option<&str>) -> Option<Seq<char>> {
    match o {
        Some(s) => Some(s@),
        None => None,
    }
}

/// Picks the target a build runs for.
pub fn resolve_target(explicit: Option<&str>, metadata: &PackageMetadata) -> (r: String)
    ensures
        r@ == resolved_target(str_option_view(explicit), metadata.default_target),
{
    match explicit {
        Some(t) => String::from_str(t),
        None => match &metadata.default_target {
            Some(d) => d.clone(),
            None => String::from_str("x86_64-unknown-linux-gnu"),
        },
    }
}

/// A package name as a module name: every `-` becomes `_`.
pub open spec fn module_name(name: Seq<char>) -> Seq<char> {
    name.map_values(|c: char| if c == '-' { '_' } else { c })
}

/// Turns a package name into its module name.
pub fn normalize_crate_name(name: &str) -> (r: String)
    ensures
        r@ == module_name(name@),
{
    let n = name.unicode_len();
    let mut r = String::new();
    let mut i: usize = 0;
    while i < n
        invariant
            n == name@.len(),
            i <= n,
            r@ == module_name(name@.subrange(0, i as int)),
        decreases n - i,
    {
        let c = name.get_char(i);
        if c == '-' {
            r.append("_");
        } else {
            let one = name.substring_char(i, i + 1);
            assert(one@ =~= seq![c]);
            r.append(one);
        }
        proof {
            reveal_strlit("_");
        }
        assert(module_name(name@.subrange(0, i + 1)) =~= module_name(name@.subrange(0, i as int)).push(
            if c == '-' { '_' } else { c },
        ));
        i = i + 1;
    }
    assert(name@.subrange(0, n as int) == name@);
    r
}

/// Where the documentation of a dependency is published on this service.
pub open spec fn dependency_link(d: Dependency) -> Seq<char> {
    module_name(d.name@) + "=https://docs.rs/"@ + d.name@ + "/"@ + d.version@
}

/// The flag value that maps a dependency's module to its published
/// documentation.
pub fn extern_html_root_url(dep: &Dependency) -> (r: String)
    ensures
        r@ == dependency_link(*dep),
{
    let mut r = normalize_crate_name(dep.name.as_str());
    r.append("=https://docs.rs/");
    r.append(dep.name.as_str());
    r.append("/");
    r.append(dep.version.as_str());
    proof {
        reveal_strlit("/");
    }
    r
}

/// The documentation compiler flags every build gets, for version token
/// `token`.
pub open spec fn base_rustdoc_flags(token: Seq<char>) -> Seq<Seq<char>> {
    seq![
        "-Z"@,
        "unstable-options"@,
        "--resource-suffix"@,
        "-"@ + token,
        "--static-root-path"@,
        "/"@,
        "--disable-per-crate-search"@,
    ]
}

/// One link flag pair per dependency, in order.
pub open spec fn dependency_flags(deps: Seq<Dependency>) -> Seq<Seq<char>>
    decreases deps.len(),
{
    if deps.len() == 0 {
        Seq::empty()
    } else {
        dependency_flags(deps.drop_last()) + seq!["--extern-html-root-url"@, dependency_link(deps.last())]
    }
}

pub open spec fn optional_texts(o: Option<Vec<String>>) -> Seq<Seq<char>> {
    match o {
        Some(v) => texts(v@),
        None => Seq::empty(),
    }
}

/// All documentation compiler flags of a build: the fixed ones, the
/// dependency links, then the package's own extra flags.
pub open spec fn rustdoc_flags_spec(token: Seq<char>, deps: Seq<Dependency>, extra: Option<
    Vec<String>,
>) -> Seq<Seq<char>> {
    base_rustdoc_flags(token) + dependency_flags(deps) + optional_texts(extra)
}

fn push_all(out: &mut Vec<String>, more: &Vec<String>)
    ensures
        texts(final(out)@) == texts(old(out)@) + texts(more@),
{
    let mut i: usize = 0;
    let ghost start = texts(out@);
    while i < more.len()
        invariant
            i <= more@.len(),
            texts(out@) == start + texts(more@.subrange(0, i as int)),
        decreases more@.len() - i,
    {
        let ghost before = out@;
        out.push(more[i].clone());
        assert(texts(out@) =~= texts(before).push(more@[i as int]@));
        assert(texts(more@.subrange(0, i + 1)) =~= texts(more@.subrange(0, i as int)).push(
            more@[i as int]@,
        ));
        assert(texts(out@) =~= start + texts(more@.subrange(0, i + 1)));
        i = i + 1;
    }
    assert(more@.subrange(0, i as int) == more@);
}

/// Builds the documentation compiler's flags for a build.
pub fn rustdoc_flags(token: &str, deps: &Vec<Dependency>, metadata: &PackageMetadata) -> (r: Vec<
    String,
>)
    ensures
        texts(r@) == rustdoc_flags_spec(token@, deps@, metadata.rustdoc_args),
{
    let mut flags: Vec<String> = Vec::new();
    flags.push(String::from_str("-Z"));
    flags.push(String::from_str("unstable-options"));
    flags.push(String::from_str("--resource-suffix"));
    let mut suffix = String::from_str("-");
    suffix.append(token);
    flags.push(suffix);
    flags.push(String::from_str("--static-root-path"));
    flags.push(String::from_str("/"));
    flags.push(String::from_str("--disable-per-crate-search"));
    assert(texts(flags@) =~= base_rustdoc_flags(token@));
    let mut i: usize = 0;
    while i < deps.len()
        invariant
            i <= deps@.len(),
            texts(flags@) == base_rustdoc_flags(token@) + dependency_flags(
                deps@.subrange(0, i as int),
            ),
        decreases deps@.len() - i,
    {
        let ghost before = texts(flags@);
        flags.push(String::from_str("--extern-html-root-url"));
        flags.push(extern_html_root_url(&deps[i]));
        assert(deps@.subrange(0, i + 1).drop_last() == deps@.subrange(0, i as int));
        assert(texts(flags@) =~= before + seq![
            "--extern-html-root-url"@,
            dependency_link(deps@[i as int]),
        ]);
        i = i + 1;
    }
    assert(deps@.subrange(0, i as int) == deps@);
    if let Some(extra) = &metadata.rustdoc_args {
        push_all(&mut flags, extra);
    } else {
        assert(texts(flags@) =~= texts(flags@) + Seq::<Seq<char>>::empty());
    }
    flags
}

/// The explicit feature list, given only when not all features are asked for.
pub open spec fn feature_args(m: PackageMetadata) -> Seq<Seq<char>> {
    match m.features {
        Some(f) => if m.all_features {
            Seq::empty()
        } else {
            seq!["--features"@, words_joined(texts(f@))]
        },
        None => Seq::empty(),
    }
}

/// The build tool's arguments: documentation of the library only, without
/// dependencies, for `target`; then the package's feature selection. An
/// explicit feature list is left out when all features are asked for.
pub open spec fn cargo_args_spec(target: Seq<char>, m: PackageMetadata) -> Seq<Seq<char>> {
    seq!["doc"@, "--lib"@, "--no-deps"@, "--target"@, target] + feature_args(m) + (if m.all_features {
        seq!["--all-features"@]
    } else {
        Seq::empty()
    }) + (if m.no_default_features {
        seq!["--no-default-features"@]
    } else {
        Seq::empty()
    })
}

/// Builds the build tool's arguments for `target`.
pub fn cargo_args(target: &str, metadata: &PackageMetadata) -> (r: Vec<String>)
    ensures
        texts(r@) == cargo_args_spec(target@, *metadata),
        metadata.all_features && target@ != "--features"@ ==> !texts(r@).contains("--features"@),
{
    let mut args: Vec<String> = Vec::new();
    args.push(String::from_str("doc"));
    args.push(String::from_str("--lib"));
    args.push(String::from_str("--no-deps"));
    args.push(String::from_str("--target"));
    args.push(String::from_str(target));
    let ghost a0 = texts(args@);
    assert(a0 =~= seq!["doc"@, "--lib"@, "--no-deps"@, "--target"@, target@]);
    if !metadata.all_features {
        if let Some(features) = &metadata.features {
            args.push(String::from_str("--features"));
            args.push(join_words(features));
        }
    }
    assert(texts(args@) =~= a0 + feature_args(*metadata));
    let ghost a1 = texts(args@);
    if metadata.all_features {
        args.push(String::from_str("--all-features"));
    }
    assert(texts(args@) =~= a1 + (if metadata.all_features {
        seq!["--all-features"@]
    } else {
        Seq::<Seq<char>>::empty()
    }));
    let ghost a2 = texts(args@);
    if metadata.no_default_features {
        args.push(String::from_str("--no-default-features"));
    }
    assert(texts(args@) =~= a2 + (if metadata.no_default_features {
        seq!["--no-default-features"@]
    } else {
        Seq::<Seq<char>>::empty()
    }));
    proof {
        if metadata.all_features && target@ != "--features"@ {
            lemma_all_features_has_no_feature_list(target@, *metadata);
        }
    }
    args
}

/// When all features are asked for, the argument list holds no explicit
/// feature-list flag (unless the target itself is spelled like that flag).
pub proof fn lemma_all_features_has_no_feature_list(target: Seq<char>, m: PackageMetadata)
    requires
        m.all_features,
        target != "--features"@,
    ensures
        !cargo_args_spec(target, m).contains("--features"@),
{
    reveal_strlit("--features");
    reveal_strlit("doc");
    reveal_strlit("--lib");
    reveal_strlit("--no-deps");
    reveal_strlit("--target");
    reveal_strlit("--all-features");
    reveal_strlit("--no-default-features");
    let args = cargo_args_spec(target, m);
    let tail = if m.no_default_features {
        seq!["--no-default-features"@]
    } else {
        Seq::<Seq<char>>::empty()
    };
    assert(feature_args(m) =~= Seq::<Seq<char>>::empty());
    assert(args =~= seq!["doc"@, "--lib"@, "--no-deps"@, "--target"@, target, "--all-features"@]
        + tail);
    assert(!args.contains("--features"@)) by {
        if args.contains("--features"@) {
            let i = choose|i: int| 0 <= i < args.len() && args[i] == "--features"@;
            assert(args[i].len() == 10);
            if i == 3 {
                assert(args[i][2] != "--features"@[2]);
            } else if i == 1 {
                assert(args[i][2] != "--features"@[2]);
            } else if i == 2 {
                assert(args[i][2] != "--features"@[2]);
            } else if i == 5 {
                assert(args[i][2] != "--features"@[2] || args[i][3] != "--features"@[3]);
            } else if i == 6 {
                assert(args[i][2] != "--features"@[2]);
            }
        }
    }
}

/// The compiler flags handed to the build through the environment: the
/// package's extra compiler arguments joined by spaces, or nothing.
pub fn rustc_flags(metadata: &PackageMetadata) -> (r: String)
    ensures
        r@ == words_joined(optional_texts(metadata.rustc_args)),
{
    match &metadata.rustc_args {
        Some(args) => join_words(args),
        None => String::new(),
    }
}

} // verus!
