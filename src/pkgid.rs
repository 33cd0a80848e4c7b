//! Resolving a package identifier specifier against a project's lock file.
use vstd::prelude::*;

verus! {

/// A fully qualified package identifier.
pub struct PackageId {
    pub name: String,
    pub version: String,
    pub source: String,
}

/// A package identifier in specifier form.
pub struct PackageIdSpec {
    pub name: String,
    pub version: Option<String>,
    pub url: Option<String>,
}

pub enum PkgidError {
    /// The project has no lock file.
    MissingLockfile,
    /// The lock file matched no package, or several, for the specifier.
    InvalidSpecifier(String),
}

pub open spec fn opt_view(o: Option<String>) -> Option<Seq<char>> {
    match o {
        Some(s) => Some(s@),
        None => None,
    }
}

impl PackageIdSpec {
    pub open spec fn view_parts(&self) -> (Seq<char>, Option<Seq<char>>, Option<Seq<char>>) {
        (self.name@, opt_view(self.version), opt_view(self.url))
    }

    /// The specifier that names exactly `id`: its name, version and source.
    pub fn from_package_id(id: &PackageId) -> (r: PackageIdSpec)
        ensures
            r.view_parts() == spec_of_id(*id),
    {
        PackageIdSpec {
            name: id.name.clone(),
            version: Some(id.version.clone()),
            url: Some(id.source.clone()),
        }
    }
}

pub open spec fn spec_of_id(id: PackageId) -> (Seq<char>, Option<Seq<char>>, Option<Seq<char>>) {
    (id.name@, Some(id.version@), Some(id.source@))
}

/// What resolving yields: the specifier for the queried package, or for the
/// project's own package when no specifier was given.
pub open spec fn spec_pkgid(
    package: PackageId,
    lockfile_present: bool,
    queried: Option<Result<PackageId, String>>,
) -> Result<(Seq<char>, Option<Seq<char>>, Option<Seq<char>>), Option<Seq<char>>> {
    if !lockfile_present {
        Err(None)
    } else {
        match queried {
            None => Ok(spec_of_id(package)),
            Some(Ok(id)) => Ok(spec_of_id(id)),
            Some(Err(m)) => Err(Some(m@)),
        }
    }
}

pub open spec fn result_view(r: Result<PackageIdSpec, PkgidError>) -> Result<
    (Seq<char>, Option<Seq<char>>, Option<Seq<char>>),
    Option<Seq<char>>,
> {
    match r {
        Ok(s) => Ok(s.view_parts()),
        Err(PkgidError::MissingLockfile) => Err(None),
        Err(PkgidError::InvalidSpecifier(m)) => Err(Some(m@)),
    }
}

/// The identifier for `package`'s project: `queried` is what the lock file's
/// snapshot answered for the given specifier, none when no specifier was
/// given. Without a lock file this fails with `MissingLockfile`.
pub fn pkgid(
    package: &PackageId,
    lockfile_present: bool,
    queried: Option<Result<PackageId, String>>,
) -> (r: Result<PackageIdSpec, PkgidError>)
    ensures
        result_view(r) == spec_pkgid(*package, lockfile_present, queried),
        !lockfile_present ==> r matches Err(PkgidError::MissingLockfile),
{
    if !lockfile_present {
        return Err(PkgidError::MissingLockfile);
    }
    match queried {
        None => Ok(PackageIdSpec::from_package_id(package)),
        Some(Ok(id)) => Ok(PackageIdSpec::from_package_id(&id)),
        Some(Err(m)) => Err(PkgidError::InvalidSpecifier(m)),
    }
}

} // verus!
