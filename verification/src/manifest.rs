//! Package metadata for the command-line build.
//!
//! The metadata itself comes from the build tool outside this crate; here
//! live the plain records it is read into, and the selection of the one
//! package a build run is about.

use vstd::prelude::*;

verus! {

use crate::report::Error;
use vstd::string::StringExecFns;

/// One package of the workspace metadata.
#[derive(Debug)]
pub struct Package {
    /// The package's name.
    pub name: String,
    /// The package's version.
    pub version: String,
    /// Where the package's manifest file lives.
    pub manifest_path: String,
}

/// The resolved manifest of one build run: the selected package and the
/// build tool's target directory.
pub struct Manifest {
    /// The package the run builds.
    pub package: Package,
    /// The target directory artifacts go to.
    pub target: String,
}

/// Which package of `packages` a run is about: the first one carrying the
/// requested name, or, with no name requested, the first one whose
/// manifest lives at `manifest_path`. An error names the failed lookup.
pub fn select_package(packages: Vec<Package>, requested: Option<&String>, manifest_path: &String)
    -> (r: Result<Package, Error>)
    ensures
        requested is Some ==> {
            &&& (r is Ok <==> exists|i: int|
                0 <= i < packages@.len() && (#[trigger] packages@[i].name)@ == requested->0@)
            &&& (r is Ok ==> r->Ok_0.name@ == requested->0@)
        },
        requested is None ==> {
            &&& (r is Ok <==> exists|i: int|
                0 <= i < packages@.len() && (#[trigger] packages@[i].manifest_path)@
                    == manifest_path@)
            &&& (r is Ok ==> r->Ok_0.manifest_path@ == manifest_path@)
        },
{
    let by_name = requested.is_some();
    let mut packages = packages;
    let ghost src = packages@;
    proof {
        assert(src.skip(0) =~= src);
    }
    #[verifier::loop_isolation(false)]
    while packages.len() > 0
        invariant
            packages@.len() <= src.len(),
            packages@ == src.skip(src.len() - packages@.len()),
            requested is Some ==> forall|i: int|
                0 <= i < src.len() - packages@.len() ==> (#[trigger] src[i].name)@
                    != requested->0@,
            requested is None ==> forall|i: int|
                0 <= i < src.len() - packages@.len() ==> (#[trigger] src[i].manifest_path)@
                    != manifest_path@,
        decreases packages.len(),
    {
        let ghost k = src.len() - packages@.len();
        let p = packages.remove(0);
        proof {
            assert(src.skip(k)[0] == src[k]);
            assert(p == src[k]);
        }
        let hit = match requested {
            Some(name) => p.name == *name,
            None => p.manifest_path == *manifest_path,
        };
        if hit {
            proof {
                if requested is Some {
                    assert(src[k].name@ == requested->0@);
                } else {
                    assert(src[k].manifest_path@ == manifest_path@);
                }
            }
            return Ok(p);
        }
        proof {
            assert(packages@ =~= src.skip(src.len() - packages@.len()));
        }
    }
    if by_name {
        Err(Error::message(String::from_str("a package with the requested name was not found")))
    } else {
        Err(
            Error::message(
                String::from_str("a package with the requested manifest path was not found"),
            ),
        )
    }
}

} // verus!
