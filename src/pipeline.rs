//! The decisions of the per-package build pipeline: where things are
//! stored, whether a package has documentation, and which additional
//! targets are built and kept.
use vstd::prelude::*;
use vstd::string::*;
use crate::paths::{join_path, join_spec};
use crate::execute::{additional_targets, module_name, normalize_crate_name, targets_spec, texts};

verus! {

pub open spec fn slash_pair(a: Seq<char>, b: Seq<char>) -> Seq<char> {
    a + "/"@ + b
}

/// `first/second` as text.
fn slash_joined(first: &str, second: &str) -> (r: String)
    ensures
        r@ == slash_pair(first@, second@),
{
    let mut r = String::from_str(first);
    r.append("/");
    r.append(second);
    proof {
        reveal_strlit("/");
    }
    r
}

/// Storage prefix of a package version's sources: `sources/<name>/<version>`.
pub fn sources_prefix(name: &str, version: &str) -> (r: String)
    ensures
        r@ == "sources/"@ + slash_pair(name@, version@),
{
    let tail = slash_joined(name, version);
    let mut r = String::from_str("sources/");
    r.append(tail.as_str());
    r
}

/// Storage prefix of a package version's documentation:
/// `rustdoc/<name>/<version>`.
pub fn rustdoc_prefix(name: &str, version: &str) -> (r: String)
    ensures
        r@ == "rustdoc/"@ + slash_pair(name@, version@),
{
    let tail = slash_joined(name, version);
    let mut r = String::from_str("rustdoc/");
    r.append(tail.as_str());
    r
}

/// Name of the build directory of a package version: `<name>-<version>`.
pub fn build_dir_name(name: &str, version: &str) -> (r: String)
    ensures
        r@ == name@ + "-"@ + version@,
{
    let mut r = String::from_str(name);
    r.append("-");
    r.append(version);
    r
}

/// Where the documentation of one target is copied:
/// `<destination>/<name>/<version>`, followed by `/<target>` unless it is
/// the default target.
pub open spec fn doc_destination_spec(
    destination: Seq<char>,
    name: Seq<char>,
    version: Seq<char>,
    target: Seq<char>,
    is_default_target: bool,
) -> Seq<char> {
    let base = join_spec(join_spec(destination, name), version);
    if is_default_target {
        base
    } else {
        join_spec(base, target)
    }
}

/// Computes where the documentation of one target is copied.
pub fn doc_destination(
    destination: &str,
    name: &str,
    version: &str,
    target: &str,
    is_default_target: bool,
) -> (r: String)
    ensures
        r@ == doc_destination_spec(destination@, name@, version@, target@, is_default_target),
{
    let with_name = join_path(destination, name);
    let base = join_path(with_name.as_str(), version);
    if is_default_target {
        base
    } else {
        join_path(base.as_str(), target)
    }
}

/// The local tree that is stored under `rustdoc/<name>/<version>`:
/// `<destination>/<name>/<version>`.
pub fn upload_source(destination: &str, name: &str, version: &str) -> (r: String)
    ensures
        r@ == join_spec(destination@, slash_pair(name@, version@)),
{
    let tail = slash_joined(name, version);
    join_path(destination, tail.as_str())
}

/// The documentation directory a build for `target` leaves in `target_dir`.
pub fn target_doc_dir(target_dir: &str, target: &str) -> (r: String)
    ensures
        r@ == join_spec(join_spec(target_dir@, target@), "doc"@),
{
    let t = join_path(target_dir, target);
    join_path(t.as_str(), "doc")
}

/// The directory whose presence shows that a package has documentation:
/// its module's directory under the documentation of `target`.
pub fn package_doc_dir(target_dir: &str, target: &str, name: &str) -> (r: String)
    ensures
        r@ == join_spec(join_spec(join_spec(target_dir@, target@), "doc"@), module_name(name@)),
{
    let d = target_doc_dir(target_dir, target);
    let m = normalize_crate_name(name);
    join_path(d.as_str(), m.as_str())
}

/// A checkpoint of the completion cache is written after every tenth
/// processed package whose build succeeded.
pub fn should_save_cache(successful: bool, processed: u64) -> (r: bool)
    ensures
        r == (successful && processed % 10 == 0),
{
    successful && processed % 10 == 0
}

/// What the pipeline does next for a package.
#[derive(Debug)]
pub enum BuildStep {
    /// Build the documentation for this additional target.
    BuildTarget(String),
    /// Publish and record what was built.
    Finish,
}

/// Progress of one package through the pipeline once its default-target
/// build is done.
#[derive(Debug)]
pub struct PackageBuild {
    default_successful: bool,
    has_docs: bool,
    targets: Vec<String>,
    next: usize,
    successful_targets: Vec<String>,
}

impl PackageBuild {
    pub closed spec fn default_successful_spec(&self) -> bool {
        self.default_successful
    }

    pub closed spec fn has_docs_spec(&self) -> bool {
        self.has_docs
    }

    /// The additional targets still to build, in order.
    pub closed spec fn remaining(&self) -> Seq<Seq<char>> {
        texts(self.targets@).subrange(self.next as int, self.targets@.len() as int)
    }

    /// The additional targets whose documentation was kept, in order.
    pub closed spec fn kept(&self) -> Seq<Seq<char>> {
        texts(self.successful_targets@)
    }

    pub closed spec fn wf(&self) -> bool {
        &&& self.next <= self.targets@.len()
        &&& self.has_docs ==> self.default_successful
        &&& !self.has_docs ==> self.targets@.len() == 0 && self.successful_targets@.len() == 0
    }

    /// Starts the fan-out after the default-target build: documentation
    /// exists only when that build succeeded and left the package's
    /// documentation directory, and only then are additional targets built.
    pub fn after_default_build(successful: bool, docs_dir_exists: bool) -> (r: PackageBuild)
        ensures
            r.wf(),
            r.default_successful_spec() == successful,
            r.has_docs_spec() == (successful && docs_dir_exists),
            r.remaining() == if successful && docs_dir_exists {
                targets_spec()
            } else {
                Seq::<Seq<char>>::empty()
            },
            r.kept() == Seq::<Seq<char>>::empty(),
    {
        let has_docs = successful && docs_dir_exists;
        let targets = if has_docs {
            additional_targets()
        } else {
            Vec::new()
        };
        let r = PackageBuild {
            default_successful: successful,
            has_docs,
            targets,
            next: 0,
            successful_targets: Vec::new(),
        };
        assert(r.remaining() =~= texts(r.targets@));
        assert(r.kept() =~= Seq::<Seq<char>>::empty());
        r
    }

    /// Whether the default-target build succeeded.
    pub fn default_successful(&self) -> (r: bool)
        ensures
            r == self.default_successful_spec(),
    {
        self.default_successful
    }

    /// Whether the package has documentation.
    pub fn has_docs(&self) -> (r: bool)
        ensures
            r == self.has_docs_spec(),
    {
        self.has_docs
    }

    /// The next step: the first remaining target, or finishing.
    pub fn next_step(&self) -> (r: BuildStep)
        requires
            self.wf(),
        ensures
            self.remaining().len() == 0 ==> r is Finish,
            self.remaining().len() > 0 ==> (r matches BuildStep::BuildTarget(t) && t@
                == self.remaining()[0]),
    {
        if self.next < self.targets.len() {
            BuildStep::BuildTarget(self.targets[self.next].clone())
        } else {
            BuildStep::Finish
        }
    }

    /// Takes the outcome of the build for the first remaining target: it is
    /// kept only when the build succeeded and left a documentation directory.
    pub fn record_target(&mut self, successful: bool, docs_dir_exists: bool)
        requires
            old(self).wf(),
            old(self).remaining().len() > 0,
        ensures
            final(self).wf(),
            final(self).remaining() == old(self).remaining().drop_first(),
            final(self).kept() == if successful && docs_dir_exists {
                old(self).kept().push(old(self).remaining()[0])
            } else {
                old(self).kept()
            },
            final(self).has_docs_spec() == old(self).has_docs_spec(),
            final(self).default_successful_spec() == old(self).default_successful_spec(),
    {
        let ghost before = self.kept();
        let ghost rem = self.remaining();
        assert(texts(self.targets@).len() == self.targets@.len());
        let n = self.next;
        let len = self.targets.len();
        assert(n < len);
        assert(rem[0] == self.targets@[self.next as int]@);
        if successful && docs_dir_exists {
            let t = self.targets[self.next].clone();
            self.successful_targets.push(t);
            assert(self.kept() =~= before.push(rem[0]));
        }
        self.next = n + 1;
        assert(self.remaining() =~= rem.drop_first());
    }

    /// The additional targets whose documentation was kept.
    pub fn successful_targets(&self) -> (r: Vec<String>)
        ensures
            texts(r@) == self.kept(),
    {
        let mut r: Vec<String> = Vec::new();
        let mut i: usize = 0;
        while i < self.successful_targets.len()
            invariant
                i <= self.successful_targets@.len(),
                texts(r@) == texts(self.successful_targets@).subrange(0, i as int),
            decreases self.successful_targets@.len() - i,
        {
            let ghost before = r@;
            r.push(self.successful_targets[i].clone());
            assert(texts(r@) =~= texts(before).push(self.successful_targets@[i as int]@));
            assert(texts(self.successful_targets@).subrange(0, i + 1) =~= texts(
                self.successful_targets@,
            ).subrange(0, i as int).push(self.successful_targets@[i as int]@));
            i = i + 1;
        }
        assert(texts(self.successful_targets@).subrange(0, i as int) =~= texts(
            self.successful_targets@,
        ));
        r
    }
}

/// A package whose default-target build failed has no documentation, and
/// no additional target is built or kept for it, whatever follows.
pub proof fn lemma_failed_default_build_has_no_fanout(b: PackageBuild)
    requires
        b.wf(),
        !b.default_successful_spec(),
    ensures
        !b.has_docs_spec(),
        b.remaining().len() == 0,
        b.kept().len() == 0,
{
}

} // verus!
