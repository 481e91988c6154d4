//! The Rust side of a project's environment report: which version of a crate the
//! project's `Cargo.toml` and `Cargo.lock` name, whether a newer release exists, and the
//! report lines that say so.

use vstd::prelude::*;

use crate::text::{
    has_prefix, join_texts, join_with, lemma_replace_leading_match, lemma_replace_without_match,
    lemma_split_after_separator, lemma_split_without_separator, occurs_at, opt_text, replace_all,
    replace_text, split_fields, split_text, starts_with_text, strip_last_char, views_of,
};

verus! {

/// A package of a `Cargo.lock` file.
#[derive(Debug)]
pub struct CargoLockPackage {
    pub name: String,
    pub version: String,
    pub source: Option<String>,
}

/// The packages of a `Cargo.lock` file.
#[derive(Debug)]
pub struct CargoLock {
    pub package: Vec<CargoLockPackage>,
}

/// A dependency of a `Cargo.toml` file written as a table.
#[derive(Debug)]
pub struct CargoManifestDependencyPackage {
    pub version: Option<String>,
    pub git: Option<String>,
    pub branch: Option<String>,
    pub rev: Option<String>,
    pub path: Option<String>,
}

/// A dependency of a `Cargo.toml` file: a version requirement or a table.
#[derive(Debug)]
pub enum CargoManifestDependency {
    Version(String),
    Package(CargoManifestDependencyPackage),
}

/// The `[package]` table of a `Cargo.toml` file.
#[derive(Debug)]
pub struct CargoManifestPackage {
    pub version: String,
}

/// A `Cargo.toml` file: its package and its dependencies by name, no name occurring twice.
#[derive(Debug)]
pub struct CargoManifest {
    package: CargoManifestPackage,
    dependencies: Vec<(String, CargoManifestDependency)>,
}

/// No two entries of `deps` have the same name.
pub open spec fn names_distinct(deps: Seq<(String, CargoManifestDependency)>) -> bool {
    forall|i: int, j: int| 0 <= i < j < deps.len() ==> deps[i].0@ != deps[j].0@
}

impl CargoManifest {
    #[verifier::type_invariant]
    spec fn dependency_names_distinct(self) -> bool {
        names_distinct(self.dependencies@)
    }

    /// The manifest's package table.
    pub closed spec fn package_table(self) -> CargoManifestPackage {
        self.package
    }

    /// The manifest's dependencies with their names.
    pub closed spec fn dependency_list(self) -> Seq<(String, CargoManifestDependency)> {
        self.dependencies@
    }

    /// A manifest of `package` with `dependencies`; `None` when a name occurs twice.
    pub fn new(package: CargoManifestPackage, dependencies: Vec<(String, CargoManifestDependency)>) -> (r:
        Option<Self>)
        ensures
            r is Some <==> names_distinct(dependencies@),
            r matches Some(m) ==> m.package_table() == package && m.dependency_list()
                == dependencies@,
    {
        let mut i: usize = 0;
        while i < dependencies.len()
            invariant
                i <= dependencies.len(),
                forall|a: int, b: int|
                    0 <= a < b < dependencies.len() && a < i ==> dependencies@[a].0@
                        != dependencies@[b].0@,
            decreases dependencies.len() - i,
        {
            let mut j: usize = i + 1;
            while j < dependencies.len()
                invariant
                    i < dependencies.len(),
                    i + 1 <= j <= dependencies.len(),
                    forall|a: int, b: int|
                        0 <= a < b < dependencies.len() && a < i ==> dependencies@[a].0@
                            != dependencies@[b].0@,
                    forall|b: int| i < b < j ==> dependencies@[i as int].0@ != dependencies@[b].0@,
                decreases dependencies.len() - j,
            {
                if dependencies[i].0 == dependencies[j].0 {
                    return None;
                }
                j = j + 1;
            }
            i = i + 1;
        }
        Some(CargoManifest { package, dependencies })
    }

    /// The manifest's package table.
    pub fn package(&self) -> (r: &CargoManifestPackage)
        ensures
            *r == self.package_table(),
    {
        &self.package
    }

    /// The manifest's dependencies with their names; no name occurs twice.
    pub fn dependencies(&self) -> (r: &Vec<(String, CargoManifestDependency)>)
        ensures
            r@ == self.dependency_list(),
            names_distinct(r@),
    {
        proof {
            use_type_invariant(self);
        }
        &self.dependencies
    }
}

/// Whether `semver::Version::parse` accepts the text `s`.
pub uninterp spec fn is_semver(s: Seq<char>) -> bool;

/// Whether the version that `semver::Version::parse` reads from `a` precedes the one it
/// reads from `b` in semver's ordering.
pub uninterp spec fn semver_precedes(a: Seq<char>, b: Seq<char>) -> bool;

/// Trusted: `semver::Version::parse`, of which only success is kept; the contract names
/// the outcome `is_semver`.
#[verifier::external_body]
fn parses_as_semver(s: &str) -> (r: bool)
    ensures
        r == is_semver(s@),
{
    semver::Version::parse(s).is_ok()
}

/// Trusted: `<semver::Version as PartialOrd>::lt`, on the versions that
/// `semver::Version::parse` reads from `a` and `b`; the contract names the outcome
/// `semver_precedes`. Both must parse (the parse is unwrapped).
#[verifier::external_body]
fn semver_lt(a: &str, b: &str) -> (r: bool)
    requires
        is_semver(a@),
        is_semver(b@),
    ensures
        r == semver_precedes(a@, b@),
{
    semver::Version::parse(a).unwrap() < semver::Version::parse(b).unwrap()
}

/// Trusted: the `Display` formatting (`to_string`) of the `semver::Version` that
/// `semver::Version::parse` reads from `s`, which must parse (the parse is unwrapped). The
/// parser accepts numbers without leading zeros and keeps the pre-release and build texts
/// as written, and `Display` writes the three numbers with dots between them, then `-` and
/// the pre-release and `+` and the build when present; the contract states that the text
/// written is the text parsed.
#[verifier::external_body]
fn semver_text(s: &str) -> (r: String)
    requires
        is_semver(s@),
    ensures
        r@ == s@,
{
    semver::Version::parse(s).unwrap().to_string()
}

/// Trusted: the `Debug` formatting of `std::path::Path`, applied to the path `path`: a
/// quoted, escaped text. Which characters it escapes follows the path rules of the platform
/// the crate is built for (a `'` is escaped on Unix, not on Windows), so the contract states
/// nothing of the text; the functions that take it as an argument say what is done with it.
#[verifier::external_body]
fn path_debug(path: &str) -> (r: String) {
    format!("{:?}", std::path::Path::new(path))
}

/// The packages of `lock` named `name`, in lock order; none without a lock.
pub open spec fn lock_packages_named(lock: Option<CargoLock>, name: Seq<char>) -> Seq<
    CargoLockPackage,
> {
    match lock {
        Some(l) => l.package@.filter(|p: CargoLockPackage| p.name@ == name),
        None => Seq::<CargoLockPackage>::empty(),
    }
}

/// The dependency named `name` among `deps` (the first, should a name occur twice).
pub open spec fn dependency_named(
    deps: Seq<(String, CargoManifestDependency)>,
    name: Seq<char>,
) -> Option<CargoManifestDependency>
    decreases deps.len(),
{
    if deps.len() == 0 {
        None
    } else if deps[0].0@ == name {
        Some(deps[0].1)
    } else {
        dependency_named(deps.drop_first(), name)
    }
}

/// The manifest's dependency named `name`, if there is a manifest.
pub open spec fn manifest_dependency(manifest: Option<CargoManifest>, name: Seq<char>) -> Option<
    CargoManifestDependency,
> {
    match manifest {
        Some(m) => dependency_named(m.dependency_list(), name),
        None => None,
    }
}

/// How a lock package's version is written: with its git source before it when the
/// package comes from git.
pub open spec fn lock_package_text(p: CargoLockPackage) -> Seq<char> {
    match p.source {
        Some(s) => if has_prefix(s@, "git"@) {
            s@ + " ("@ + p.version@ + ")"@
        } else {
            p.version@
        },
        None => p.version@,
    }
}

/// The lock names exactly one package of the crate, and so decides its version.
pub open spec fn decided_by_lock(lock: Option<CargoLock>, name: Seq<char>) -> bool {
    lock is Some && lock_packages_named(lock, name).len() == 1
}

/// The path of the crate's own manifest that must be read to report its version: the path
/// of a path dependency without a version, when the lock does not decide.
pub open spec fn path_to_read(
    manifest: Option<CargoManifest>,
    lock: Option<CargoLock>,
    name: Seq<char>,
) -> Option<Seq<char>> {
    if decided_by_lock(lock, name) {
        None
    } else {
        match manifest_dependency(manifest, name) {
            Some(CargoManifestDependency::Package(p)) => if p.version is Some {
                None
            } else {
                match p.path {
                    Some(path) => Some(path@),
                    None => None,
                }
            },
            _ => None,
        }
    }
}

/// How the manifest's dependency is written in the report; `path_version` is the version
/// read from a path dependency's own manifest, if it could be read, and `path_text` how
/// that dependency's path is written.
pub open spec fn manifest_version_text(
    dep: Option<CargoManifestDependency>,
    path_version: Option<Seq<char>>,
    path_text: Seq<char>,
) -> Seq<char> {
    match dep {
        None => "no manifest"@,
        Some(CargoManifestDependency::Version(v)) => v@,
        Some(CargoManifestDependency::Package(p)) => match p.version {
            Some(v) => v@,
            None => match p.path {
                Some(_) => "path:"@ + path_text + " ["@ + match path_version {
                    Some(v) => v,
                    None => "unknown version"@,
                } + "]"@,
                None => match p.git {
                    Some(g) => "git:"@ + g@ + match p.branch {
                        Some(b) => "&branch="@ + b@,
                        None => match p.rev {
                            Some(r) => "#"@ + r@,
                            None => Seq::<char>::empty(),
                        },
                    },
                    None => "unknown manifest"@,
                },
            },
        },
    }
}

/// The manifest's dependency comes from git.
pub open spec fn is_git_dependency(dep: Option<CargoManifestDependency>) -> bool {
    match dep {
        Some(CargoManifestDependency::Package(p)) => p.version is None && p.path is None
            && p.git is Some,
        _ => false,
    }
}

/// The version the manifest's dependency states, if it states one.
pub open spec fn manifest_found_versions(dep: Option<CargoManifestDependency>) -> Seq<Seq<char>> {
    match dep {
        Some(CargoManifestDependency::Version(v)) => seq![v@],
        Some(CargoManifestDependency::Package(p)) => match p.version {
            Some(v) => seq![v@],
            None => Seq::<Seq<char>>::empty(),
        },
        None => Seq::<Seq<char>>::empty(),
    }
}

/// How the lock's versions of the crate are written in the report.
pub open spec fn lock_version_text(lock: Option<CargoLock>, pkgs: Seq<CargoLockPackage>) -> Seq<
    char,
> {
    match lock {
        Some(_) => if pkgs.len() > 0 {
            join_with(pkgs.map_values(|p: CargoLockPackage| p.version@), ", "@)
        } else {
            "unknown lockfile"@
        },
        None => "no lockfile"@,
    }
}

/// The report of the crate `name`'s version, and the versions found for it; `path_text` is
/// how the path of a path dependency is written, when the report names one.
pub open spec fn crate_version_report(
    manifest: Option<CargoManifest>,
    lock: Option<CargoLock>,
    name: Seq<char>,
    path_version: Option<Seq<char>>,
    path_text: Seq<char>,
) -> (Seq<char>, Seq<Seq<char>>) {
    let pkgs = lock_packages_named(lock, name);
    if decided_by_lock(lock, name) {
        let text = lock_package_text(pkgs[0]);
        (
            if manifest is Some {
                text
            } else {
                text + " (no manifest)"@
            },
            seq![pkgs[0].version@],
        )
    } else {
        let dep = manifest_dependency(manifest, name);
        (
            manifest_version_text(dep, path_version, path_text) + " "@ + (if is_git_dependency(dep) {
                "(git manifest)"@
            } else {
                Seq::<char>::empty()
            }) + "("@ + lock_version_text(lock, pkgs) + ")"@,
            manifest_found_versions(dep),
        )
    }
}

/// Some found version parses as a semver version.
pub open spec fn some_parses(found: Seq<Seq<char>>) -> bool {
    exists|i: int| 0 <= i < found.len() && is_semver(#[trigger] found[i])
}

/// The crate is outdated: some found version parses, and every found version that parses
/// precedes `latest`; that is, the greatest found version precedes `latest`.
pub open spec fn is_outdated(found: Seq<Seq<char>>, latest: Seq<char>) -> bool {
    &&& some_parses(found)
    &&& forall|i: int|
        0 <= i < found.len() && is_semver(#[trigger] found[i]) ==> semver_precedes(
            found[i],
            latest,
        )
}

impl Clone for CargoLockPackage {
    fn clone(&self) -> (r: Self)
        ensures
            r == *self,
    {
        CargoLockPackage {
            name: self.name.clone(),
            version: self.version.clone(),
            source: self.source.clone(),
        }
    }
}

impl Clone for CargoManifestDependencyPackage {
    fn clone(&self) -> (r: Self)
        ensures
            r == *self,
    {
        CargoManifestDependencyPackage {
            version: self.version.clone(),
            git: self.git.clone(),
            branch: self.branch.clone(),
            rev: self.rev.clone(),
            path: self.path.clone(),
        }
    }
}

impl Clone for CargoManifestDependency {
    fn clone(&self) -> (r: Self)
        ensures
            r == *self,
    {
        match self {
            CargoManifestDependency::Version(v) => CargoManifestDependency::Version(v.clone()),
            CargoManifestDependency::Package(p) => CargoManifestDependency::Package(p.clone()),
        }
    }
}

/// The packages of `lock` named `name`, in lock order.
pub fn lock_packages(lock: Option<&CargoLock>, name: &str) -> (r: Vec<CargoLockPackage>)
    ensures
        r@ == lock_packages_named(
            match lock {
                Some(l) => Some(*l),
                None => None,
            },
            name@,
        ),
{
    let mut out: Vec<CargoLockPackage> = Vec::new();
    match lock {
        None => out,
        Some(l) => {
            let ghost pred = |p: CargoLockPackage| p.name@ == name@;
            let mut i: usize = 0;
            while i < l.package.len()
                invariant
                    i <= l.package.len(),
                    pred == (|p: CargoLockPackage| p.name@ == name@),
                    out@ == l.package@.take(i as int).filter(pred),
                decreases l.package.len() - i,
            {
                let p = &l.package[i];
                proof {
                    l.package@.take(i as int).lemma_filter_push(*p, pred);
                    assert(l.package@.take(i + 1) =~= l.package@.take(i as int).push(*p));
                }
                if p.name.as_str().to_owned() == name.to_owned() {
                    out.push(
                        CargoLockPackage {
                            name: p.name.clone(),
                            version: p.version.clone(),
                            source: p.source.clone(),
                        },
                    );
                }
                i = i + 1;
            }
            assert(l.package@.take(l.package.len() as int) =~= l.package@);
            out
        },
    }
}

/// The manifest's dependency named `name`.
pub fn find_dependency(manifest: Option<&CargoManifest>, name: &str) -> (r: Option<
    CargoManifestDependency,
>)
    ensures
        r == manifest_dependency(
            match manifest {
                Some(m) => Some(*m),
                None => None,
            },
            name@,
        ),
{
    match manifest {
        None => None,
        Some(m) => {
            let deps = m.dependencies();
            let mut i: usize = 0;
            assert(deps@.subrange(0, deps.len() as int) =~= deps@);
            while i < deps.len()
                invariant
                    i <= deps.len(),
                    manifest == Some(m),
                    deps@ == m.dependency_list(),
                    dependency_named(deps@, name@) == dependency_named(
                        deps@.subrange(i as int, deps.len() as int),
                        name@,
                    ),
                decreases deps.len() - i,
            {
                let ghost rest = deps@.subrange(i as int, deps.len() as int);
                assert(rest.drop_first() =~= deps@.subrange(i + 1, deps.len() as int));
                assert(rest[0] == deps@[i as int]);
                if deps[i].0.as_str().to_owned() == name.to_owned() {
                    return Some(deps[i].1.clone());
                }
                i = i + 1;
            }
            None
        },
    }
}

/// The path of the crate's own manifest whose version the report needs, if any: the
/// caller reads that manifest and hands its version to [`crate_version`].
pub fn dependency_path(manifest: Option<&CargoManifest>, lock: Option<&CargoLock>, name: &str) -> (r:
    Option<String>)
    ensures
        opt_text(r) == path_to_read(
            match manifest {
                Some(m) => Some(*m),
                None => None,
            },
            match lock {
                Some(l) => Some(*l),
                None => None,
            },
            name@,
        ),
{
    let pkgs = lock_packages(lock, name);
    if lock.is_some() && pkgs.len() == 1 {
        return None;
    }
    match find_dependency(manifest, name) {
        Some(CargoManifestDependency::Package(p)) => {
            if p.version.is_some() {
                None
            } else {
                p.path
            }
        },
        _ => None,
    }
}

/// Reports which version of the crate `name` the project uses, the path at
/// [`dependency_path`] being written `path_text`: the report's text, and the versions found
/// for the crate. `path_version` is the version read from the manifest at that path, when
/// there is one and it could be read.
pub fn crate_version_with_path_text(
    manifest: Option<&CargoManifest>,
    lock: Option<&CargoLock>,
    name: &str,
    path_version: Option<&str>,
    path_text: &str,
) -> (r: (String, Vec<String>))
    ensures
        (r.0@, views_of(r.1@)) == crate_version_report(
            match manifest {
                Some(m) => Some(*m),
                None => None,
            },
            match lock {
                Some(l) => Some(*l),
                None => None,
            },
            name@,
            match path_version {
                Some(v) => Some(v@),
                None => None,
            },
            path_text@,
        ),
{
    let ghost m_opt = match manifest {
        Some(m) => Some(*m),
        None => None,
    };
    let ghost l_opt = match lock {
        Some(l) => Some(*l),
        None => None,
    };
    let pkgs = lock_packages(lock, name);
    if lock.is_some() && pkgs.len() == 1 {
        let pkg = &pkgs[0];
        let mut text = match &pkg.source {
            Some(s) => {
                if starts_with_text(s.as_str(), "git") {
                    let mut t = s.clone();
                    t.append(" (");
                    t.append(pkg.version.as_str());
                    t.append(")");
                    t
                } else {
                    pkg.version.clone()
                }
            },
            None => pkg.version.clone(),
        };
        if manifest.is_none() {
            text.append(" (no manifest)");
        }
        let mut found: Vec<String> = Vec::new();
        found.push(pkg.version.clone());
        assert(views_of(found@) =~= seq![pkg.version@]);
        return (text, found);
    }
    let dep = find_dependency(manifest, name);
    let mut found: Vec<String> = Vec::new();
    let mut is_git = false;
    let manifest_version: String = match &dep {
        None => "no manifest".to_owned(),
        Some(CargoManifestDependency::Version(v)) => {
            found.push(v.clone());
            v.clone()
        },
        Some(CargoManifestDependency::Package(p)) => {
            match &p.version {
                Some(v) => {
                    found.push(v.clone());
                    v.clone()
                },
                None => match &p.path {
                    Some(_) => {
                        let mut t = "path:".to_owned();
                        t.append(path_text);
                        t.append(" [");
                        match path_version {
                            Some(v) => t.append(v),
                            None => t.append("unknown version"),
                        }
                        t.append("]");
                        t
                    },
                    None => match &p.git {
                        Some(g) => {
                            is_git = true;
                            let mut t = "git:".to_owned();
                            t.append(g.as_str());
                            match &p.branch {
                                Some(b) => {
                                    t.append("&branch=");
                                    t.append(b.as_str());
                                },
                                None => match &p.rev {
                                    Some(rev) => {
                                        t.append("#");
                                        t.append(rev.as_str());
                                    },
                                    None => {},
                                },
                            }
                            t
                        },
                        None => "unknown manifest".to_owned(),
                    },
                },
            }
        },
    };
    let lock_version: String = match lock {
        Some(_) => {
            if pkgs.len() > 0 {
                let mut versions: Vec<String> = Vec::new();
                let mut i: usize = 0;
                while i < pkgs.len()
                    invariant
                        i <= pkgs.len(),
                        views_of(versions@) == pkgs@.take(i as int).map_values(
                            |p: CargoLockPackage| p.version@,
                        ),
                    decreases pkgs.len() - i,
                {
                    versions.push(pkgs[i].version.clone());
                    assert(pkgs@.take(i + 1).map_values(|p: CargoLockPackage| p.version@)
                        =~= pkgs@.take(i as int).map_values(|p: CargoLockPackage| p.version@).push(
                        pkgs@[i as int].version@,
                    ));
                    assert(views_of(versions@) =~= views_of(versions@.drop_last()).push(
                        versions@.last()@,
                    ));
                    i = i + 1;
                }
                assert(pkgs@.take(pkgs.len() as int) =~= pkgs@);
                join_texts(versions.as_slice(), ", ")
            } else {
                "unknown lockfile".to_owned()
            }
        },
        None => "no lockfile".to_owned(),
    };
    let mut text = manifest_version;
    text.append(" ");
    if is_git {
        text.append("(git manifest)");
    }
    text.append("(");
    text.append(lock_version.as_str());
    text.append(")");
    proof {
        reveal_strlit("");
        assert(""@ =~= Seq::<char>::empty());
    }
    assert(views_of(found@) =~= manifest_found_versions(dep));
    (text, found)
}

/// The manifest, if one is given.
pub open spec fn manifest_of(manifest: Option<&CargoManifest>) -> Option<CargoManifest> {
    match manifest {
        Some(m) => Some(*m),
        None => None,
    }
}

/// The lock, if one is given.
pub open spec fn lock_of(lock: Option<&CargoLock>) -> Option<CargoLock> {
    match lock {
        Some(l) => Some(*l),
        None => None,
    }
}

/// The text, if one is given.
pub open spec fn str_view_of(text: Option<&str>) -> Option<Seq<char>> {
    match text {
        Some(t) => Some(t@),
        None => None,
    }
}

/// Reports which version of the crate `name` the project uses: the report's text, and the
/// versions found for the crate. `path_version` is the version read from the manifest at
/// [`dependency_path`], when there is one and it could be read; that path is written as
/// the `Debug` formatting of a `std::path::Path` writes it.
pub fn crate_version(
    manifest: Option<&CargoManifest>,
    lock: Option<&CargoLock>,
    name: &str,
    path_version: Option<&str>,
) -> (r: (String, Vec<String>))
    ensures
        exists|t: Seq<char>|
            #[trigger] crate_version_report(
                manifest_of(manifest),
                lock_of(lock),
                name@,
                str_view_of(path_version),
                t,
            ) == (r.0@, views_of(r.1@)),
        path_to_read(manifest_of(manifest), lock_of(lock), name@) is None ==> crate_version_report(
            manifest_of(manifest),
            lock_of(lock),
            name@,
            str_view_of(path_version),
            Seq::<char>::empty(),
        ) == (r.0@, views_of(r.1@)),
{
    let path_text = match dependency_path(manifest, lock, name) {
        Some(p) => path_debug(p.as_str()),
        None => String::new(),
    };
    let r = crate_version_with_path_text(manifest, lock, name, path_version, path_text.as_str());
    proof {
        let m = manifest_of(manifest);
        let l = lock_of(lock);
        let pv = str_view_of(path_version);
        assert(crate_version_report(m, l, name@, pv, path_text@) == (r.0@, views_of(r.1@)));
        if path_to_read(m, l, name@) is None {
            lemma_report_without_path(m, l, name@, pv, path_text@);
        }
    }
    r
}

/// Without a path to read, how a path would be written does not change the report.
pub proof fn lemma_report_without_path(
    manifest: Option<CargoManifest>,
    lock: Option<CargoLock>,
    name: Seq<char>,
    path_version: Option<Seq<char>>,
    path_text: Seq<char>,
)
    requires
        path_to_read(manifest, lock, name) is None,
    ensures
        crate_version_report(manifest, lock, name, path_version, path_text)
            == crate_version_report(manifest, lock, name, path_version, Seq::<char>::empty()),
{
}

/// Whether the crate is outdated given the versions `found` for it and the latest
/// released version `latest`; returns that latest version when it is. Without a known
/// latest version, nothing is outdated. The latest version must parse when some found
/// version does.
pub fn outdated_version(found: &Vec<String>, latest: Option<&str>) -> (r: Option<String>)
    requires
        latest matches Some(t) ==> (some_parses(views_of(found@)) ==> is_semver(t@)),
    ensures
        match latest {
            Some(t) => match r {
                Some(v) => v@ == t@ && is_outdated(views_of(found@), t@),
                None => !is_outdated(views_of(found@), t@),
            },
            None => r is None,
        },
{
    let t = match latest {
        Some(t) => t,
        None => {
            return None;
        },
    };
    let ghost fv = views_of(found@);
    let mut any_parses = false;
    let mut all_precede = true;
    let mut i: usize = 0;
    while i < found.len()
        invariant
            i <= found.len(),
            fv == views_of(found@),
            some_parses(fv) ==> is_semver(t@),
            any_parses <==> exists|k: int| 0 <= k < i && is_semver(#[trigger] fv[k]),
            all_precede <==> forall|k: int|
                0 <= k < i && is_semver(#[trigger] fv[k]) ==> semver_precedes(fv[k], t@),
        decreases found.len() - i,
    {
        let v = found[i].as_str();
        assert(fv[i as int] == v@);
        if parses_as_semver(v) {
            any_parses = true;
            if !semver_lt(v, t) {
                all_precede = false;
            }
        }
        i = i + 1;
    }
    if any_parses && all_precede {
        assert(some_parses(fv));
        Some(semver_text(t))
    } else {
        None
    }
}

/// Like [`outdated_version`], with the latest version's validity checked first: `None`
/// when it had to parse and does not, else `Some` of what [`outdated_version`] gives.
pub fn checked_outdated_version(found: &Vec<String>, latest: Option<&str>) -> (r: Option<
    Option<String>,
>)
    ensures
        r is None <==> (latest matches Some(t) && some_parses(views_of(found@)) && !is_semver(t@)),
        r matches Some(o) ==> match latest {
            Some(t) => match o {
                Some(v) => v@ == t@ && is_outdated(views_of(found@), t@),
                None => !is_outdated(views_of(found@), t@),
            },
            None => o is None,
        },
{
    if let Some(t) = latest {
        if !parses_as_semver(t) {
            let ghost fv = views_of(found@);
            let mut i: usize = 0;
            while i < found.len()
                invariant
                    i <= found.len(),
                    latest == Some(t),
                    fv == views_of(found@),
                    !is_semver(t@),
                    forall|k: int| 0 <= k < i ==> !is_semver(#[trigger] fv[k]),
                decreases found.len() - i,
            {
                assert(fv[i as int] == found@[i as int]@);
                if parses_as_semver(found[i].as_str()) {
                    assert(is_semver(fv[i as int]));
                    assert(some_parses(fv));
                    return None;
                }
                i = i + 1;
            }
        }
    }
    Some(outdated_version(found, latest))
}


/// The crates whose versions the report lists, in order.
pub open spec fn reported_crate_names() -> Seq<Seq<char>> {
    seq!["tauri"@, "tauri-build"@, "wry"@, "tao"@]
}

/// The crates whose versions the report lists, in order.
pub fn reported_crates() -> (r: Vec<&'static str>)
    ensures
        r@.map_values(|c: &str| c@) == reported_crate_names(),
{
    let mut crates: Vec<&'static str> = Vec::new();
    crates.push("tauri");
    crates.push("tauri-build");
    crates.push("wry");
    crates.push("tao");
    assert(crates@.map_values(|c: &str| c@) =~= reported_crate_names());
    crates
}

/// The address of a crate's documentation page, which redirects to its latest release.
pub open spec fn docs_url(name: Seq<char>) -> Seq<char> {
    "https://docs.rs/crate/"@ + name + "/"@
}

/// The address of the documentation page of the crate `name`.
pub fn crate_docs_url(name: &str) -> (r: String)
    ensures
        r@ == docs_url(name@),
{
    let mut url = "https://docs.rs/crate/".to_owned();
    url.append(name);
    url.append("/");
    url
}

/// The latest version of the crate `name`, from the answer to a request of its
/// documentation page: a redirection (status 302) names it in its location, after the
/// page's address.
pub fn latest_version_from_redirect(name: &str, status: u16, location: Option<&str>) -> (r: Option<
    String,
>)
    ensures
        opt_text(r) == if status == 302 && location is Some {
            Some(replace_all(location->0@, docs_url(name@), Seq::<char>::empty()))
        } else {
            None
        },
{
    match location {
        Some(l) => {
            if status == 302 {
                let url = crate_docs_url(name);
                proof {
                    reveal_strlit("https://docs.rs/crate/");
                    reveal_strlit("");
                    assert(""@ =~= Seq::<char>::empty());
                }
                Some(replace_text(l, url.as_str(), ""))
            } else {
                None
            }
        },
        None => None,
    }
}

/// The crate name and the version that `cargo tauri -V` printed: the first word, and the
/// second word without its final line break (empty when it has none).
pub open spec fn cli_version_report(stdout: Seq<char>) -> (Seq<char>, Seq<char>) {
    let fields = split_fields(stdout, ' ');
    (
        fields[0],
        if fields.len() > 1 && fields[1].len() > 0 && fields[1].last() == '\n' {
            fields[1].drop_last()
        } else {
            Seq::<char>::empty()
        },
    )
}

/// Reads the crate name and version from what `cargo tauri -V` printed.
pub fn parse_cli_version(stdout: &str) -> (r: (String, String))
    ensures
        (r.0@, r.1@) == cli_version_report(stdout@),
{
    let fields = split_text(stdout, ' ');
    proof {
        crate::text::lemma_split_fields_nonempty(stdout@, ' ');
    }
    let dep = fields[0].to_owned();
    let version = if fields.len() > 1 {
        match strip_last_char(fields[1], '\n') {
            Some(v) => v.to_owned(),
            None => String::new(),
        }
    } else {
        String::new()
    };
    (dep, version)
}

/// The CLI's latest version, when it is newer than the installed
/// `version`.
pub open spec fn cli_outdated(version: Seq<char>, latest: Option<Seq<char>>) -> Option<Seq<char>> {
    match latest {
        Some(t) => if semver_precedes(version, t) {
            Some(t)
        } else {
            None
        },
        None => None,
    }
}

/// The latest version of the CLI, when it is newer than the installed
/// `version`; both must parse when a latest version is known.
pub fn cli_outdated_version(version: &str, latest: Option<&str>) -> (r: Option<String>)
    requires
        latest matches Some(t) ==> is_semver(version@) && is_semver(t@),
    ensures
        opt_text(r) == cli_outdated(
            version@,
            match latest {
                Some(t) => Some(t@),
                None => None,
            },
        ),
{
    match latest {
        Some(t) => {
            if semver_lt(version, t) {
                Some(semver_text(t))
            } else {
                None
            }
        },
        None => None,
    }
}

/// Like [`cli_outdated_version`], with the versions' validity checked first: `None` when a
/// latest version is known and one of the two does not parse.
pub fn checked_cli_outdated_version(version: &str, latest: Option<&str>) -> (r: Option<
    Option<String>,
>)
    ensures
        r is None <==> (latest matches Some(t) && !(is_semver(version@) && is_semver(t@))),
        r matches Some(o) ==> opt_text(o) == cli_outdated(
            version@,
            match latest {
                Some(t) => Some(t@),
                None => None,
            },
        ),
{
    if let Some(t) = latest {
        if !(parses_as_semver(version) && parses_as_semver(t)) {
            return None;
        }
    }
    Some(cli_outdated_version(version, latest))
}

/// The note that a crate is outdated: `" ({outdated}, latest: {latest})"`, with the two
/// words as the caller styles them.
pub fn outdated_note(outdated: &str, latest: &str) -> (r: String)
    ensures
        r@ == " ("@ + outdated@ + ", latest: "@ + latest@ + ")"@,
{
    let mut note = " (".to_owned();
    note.append(outdated);
    note.append(", latest: ");
    note.append(latest);
    note.append(")");
    note
}

/// A line of the report: `"{name} {label}: {version}"`, followed by `separator` and the
/// note when there is one.
fn report_line(name: &str, label: &str, version: &str, note: Option<&str>, separator: &str) -> (r:
    String)
    ensures
        r@ == name@ + " "@ + label@ + ": "@ + version@ + match note {
            Some(n) => separator@ + n@,
            None => Seq::<char>::empty(),
        },
{
    let mut line = name.to_owned();
    line.append(" ");
    line.append(label);
    line.append(": ");
    line.append(version);
    match note {
        Some(n) => {
            line.append(separator);
            line.append(n);
        },
        None => {},
    }
    line
}

/// The report line of a crate of the project: `"{name} {label}: {version}"`, followed by
/// `","` and the note when there is one.
pub fn crate_report_line(name: &str, label: &str, version: &str, note: Option<&str>) -> (r: String)
    ensures
        r@ == name@ + " "@ + label@ + ": "@ + version@ + match note {
            Some(n) => ","@ + n@,
            None => Seq::<char>::empty(),
        },
{
    report_line(name, label, version, note, ",")
}

/// The report line of the installed CLI: `"{name} {label}: {version}"`, followed by
/// `", "` and the note when there is one.
pub fn cli_report_line(name: &str, label: &str, version: &str, note: Option<&str>) -> (r: String)
    ensures
        r@ == name@ + " "@ + label@ + ": "@ + version@ + match note {
            Some(n) => ", "@ + n@,
            None => Seq::<char>::empty(),
        },
{
    report_line(name, label, version, note, ", ")
}

/// The line of the report when the CLI is not installed.
pub fn cli_missing_line(label: &str) -> (r: String)
    ensures
        r@ == "tauri-cli "@ + label@ + ": not installed!"@,
{
    let mut line = "tauri-cli ".to_owned();
    line.append(label);
    line.append(": not installed!");
    line
}


/// The redirection of a crate's documentation page to `{page}{version}` names `version`,
/// provided the page's address does not occur within `version`.
pub proof fn lemma_redirect_names_latest_version(name: Seq<char>, version: Seq<char>)
    requires
        forall|i: int| !occurs_at(version, docs_url(name), i),
    ensures
        replace_all(docs_url(name) + version, docs_url(name), Seq::<char>::empty()) == version,
{
    reveal_strlit("https://docs.rs/crate/");
    lemma_replace_leading_match(docs_url(name), version, Seq::<char>::empty());
    lemma_replace_without_match(version, docs_url(name), Seq::<char>::empty());
    assert(Seq::<char>::empty() + version =~= version);
}

/// When the lock names exactly one package of the crate, that package's version is the
/// only version found, and the report gives it (after its git source, for a git package),
/// marked when there is no manifest.
pub proof fn lemma_lock_decides_version(
    manifest: Option<CargoManifest>,
    lock: Option<CargoLock>,
    name: Seq<char>,
    path_version: Option<Seq<char>>,
    path_text: Seq<char>,
)
    requires
        decided_by_lock(lock, name),
    ensures
        ({
            let pkg = lock_packages_named(lock, name)[0];
            let report = crate_version_report(manifest, lock, name, path_version, path_text);
            &&& pkg.name@ == name
            &&& report.1 == seq![pkg.version@]
            &&& report.0 == if manifest is Some {
                lock_package_text(pkg)
            } else {
                lock_package_text(pkg) + " (no manifest)"@
            }
        }),
{
    broadcast use vstd::seq_lib::group_filter_ensures;

    assert(lock_packages_named(lock, name)[0].name@ == name);
}

/// The versions found for a crate are the one the lock decides, or the one its manifest
/// entry states: never more than one.
pub proof fn lemma_at_most_one_found_version(
    manifest: Option<CargoManifest>,
    lock: Option<CargoLock>,
    name: Seq<char>,
    path_version: Option<Seq<char>>,
    path_text: Seq<char>,
)
    ensures
        crate_version_report(manifest, lock, name, path_version, path_text).1.len() <= 1,
{
}

/// Reading what the CLI prints, `{name} {version}` and a line break, gives back its name
/// and version, when neither holds a space.
pub proof fn lemma_cli_version_read_back(name: Seq<char>, version: Seq<char>)
    requires
        !name.contains(' '),
        !version.contains(' '),
    ensures
        cli_version_report(name + " "@ + version + "\n"@) == (name, version),
{
    reveal_strlit(" ");
    reveal_strlit("\n");
    let second = version.push('\n');
    assert(!second.contains(' ')) by {
        if second.contains(' ') {
            let k = choose|k: int| 0 <= k < second.len() && second[k] == ' ';
            if k < version.len() {
                assert(version[k] == ' ');
            }
        }
    }
    assert(name + " "@ + version + "\n"@ =~= name + seq![' '] + second);
    lemma_split_after_separator(name, ' ', second);
    lemma_split_without_separator(name, ' ');
    assert(second.drop_last() =~= version);
}


/// Looking up a manifest's dependency by the name of one of its entries gives that entry.
pub proof fn lemma_dependency_lookup_finds_entry(m: CargoManifest, i: int)
    requires
        names_distinct(m.dependency_list()),
        0 <= i < m.dependency_list().len(),
    ensures
        manifest_dependency(Some(m), m.dependency_list()[i].0@) == Some(m.dependency_list()[i].1),
{
    lemma_named_entry_found(m.dependency_list(), i);
}

proof fn lemma_named_entry_found(deps: Seq<(String, CargoManifestDependency)>, i: int)
    requires
        names_distinct(deps),
        0 <= i < deps.len(),
    ensures
        dependency_named(deps, deps[i].0@) == Some(deps[i].1),
    decreases i,
{
    if i > 0 {
        assert(deps[0].0@ != deps[i].0@);
        let rest = deps.drop_first();
        assert(names_distinct(rest)) by {
            assert forall|a: int, b: int| 0 <= a < b < rest.len() implies rest[a].0@
                != rest[b].0@ by {
                assert(rest[a] == deps[a + 1] && rest[b] == deps[b + 1]);
            }
        }
        lemma_named_entry_found(rest, i - 1);
        assert(rest[i - 1] == deps[i]);
    }
}

proof fn lemma_unnamed_entry_not_found(deps: Seq<(String, CargoManifestDependency)>, name: Seq<char>)
    requires
        forall|i: int| 0 <= i < deps.len() ==> #[trigger] deps[i].0@ != name,
    ensures
        dependency_named(deps, name) is None,
    decreases deps.len(),
{
    if deps.len() > 0 {
        assert(deps[0].0@ != name);
        let rest = deps.drop_first();
        assert forall|i: int| 0 <= i < rest.len() implies #[trigger] rest[i].0@ != name by {
            assert(rest[i] == deps[i + 1]);
        }
        lemma_unnamed_entry_not_found(rest, name);
    }
}

/// A crate that no entry of the manifest names (or for which there is no manifest), and
/// whose version the lock does not decide, is reported as having no manifest entry, and no
/// version is found for it.
pub proof fn lemma_unlisted_crate_has_no_version(
    manifest: Option<CargoManifest>,
    lock: Option<CargoLock>,
    name: Seq<char>,
    path_version: Option<Seq<char>>,
    path_text: Seq<char>,
)
    requires
        manifest matches Some(m) ==> (forall|i: int|
            0 <= i < m.dependency_list().len() ==> #[trigger] m.dependency_list()[i].0@ != name),
        !decided_by_lock(lock, name),
    ensures
        manifest_dependency(manifest, name) is None,
        path_to_read(manifest, lock, name) is None,
        crate_version_report(manifest, lock, name, path_version, path_text).0 == "no manifest ("@
            + lock_version_text(lock, lock_packages_named(lock, name)) + ")"@,
        crate_version_report(manifest, lock, name, path_version, path_text).1.len() == 0,
{
    if manifest is Some {
        lemma_unnamed_entry_not_found(manifest->0.dependency_list(), name);
    }
    reveal_strlit("");
    assert("no manifest"@ + " "@ + Seq::<char>::empty() + "("@ =~= "no manifest ("@) by {
        reveal_strlit("no manifest");
        reveal_strlit(" ");
        reveal_strlit("(");
        reveal_strlit("no manifest (");
    }
    assert(""@ =~= Seq::<char>::empty());
}

/// A manifest entry that states a version, as a requirement or in a table, is reported by
/// that version, which is the one version found, whatever path or git source the table
/// also names; no path is read for it.
pub proof fn lemma_stated_version_is_reported(
    manifest: Option<CargoManifest>,
    lock: Option<CargoLock>,
    name: Seq<char>,
    path_version: Option<Seq<char>>,
    path_text: Seq<char>,
    dep: CargoManifestDependency,
    version: Seq<char>,
)
    requires
        !decided_by_lock(lock, name),
        manifest_dependency(manifest, name) == Some(dep),
        match dep {
            CargoManifestDependency::Version(w) => w@ == version,
            CargoManifestDependency::Package(p) => p.version matches Some(w) && w@ == version,
        },
    ensures
        path_to_read(manifest, lock, name) is None,
        crate_version_report(manifest, lock, name, path_version, path_text).0 == version + " ("@
            + lock_version_text(lock, lock_packages_named(lock, name)) + ")"@,
        crate_version_report(manifest, lock, name, path_version, path_text).1 == seq![version],
{
    reveal_strlit("");
    assert(" "@ + Seq::<char>::empty() + "("@ =~= " ("@) by {
        reveal_strlit(" ");
        reveal_strlit("(");
        reveal_strlit(" (");
    }
    assert(""@ =~= Seq::<char>::empty());
    let report = crate_version_report(manifest, lock, name, path_version, path_text);
    let tail = lock_version_text(lock, lock_packages_named(lock, name)) + ")"@;
    assert(report.0 =~= version + " "@ + Seq::<char>::empty() + "("@ + tail);
    assert(version + " "@ + Seq::<char>::empty() + "("@ + tail =~= version + (" "@
        + Seq::<char>::empty() + "("@) + tail);
    assert(version + " ("@ + lock_version_text(lock, lock_packages_named(lock, name)) + ")"@
        =~= version + " ("@ + tail);
}

/// The CLI is reported outdated exactly when the installed version precedes the latest
/// release, and the version then reported is that latest release; without a known latest
/// release it never is.
pub proof fn lemma_cli_outdated_when_older(version: Seq<char>, latest: Seq<char>)
    ensures
        cli_outdated(version, Some(latest)) is Some <==> semver_precedes(version, latest),
        cli_outdated(version, Some(latest)) matches Some(t) ==> t == latest,
        cli_outdated(version, None) is None,
{
}

/// A crate is outdated only when some version found for it parses, and never when a
/// version found for it parses and does not precede the latest release.
pub proof fn lemma_outdated_needs_every_version_older(
    found: Seq<Seq<char>>,
    latest: Seq<char>,
    i: int,
)
    requires
        0 <= i < found.len(),
    ensures
        is_semver(found[i]) && !semver_precedes(found[i], latest) ==> !is_outdated(found, latest),
        (forall|k: int| 0 <= k < found.len() ==> !is_semver(#[trigger] found[k])) ==> !is_outdated(
            found,
            latest,
        ),
        is_outdated(found, latest) && is_semver(found[i]) ==> semver_precedes(found[i], latest),
{
}

} // verus!
