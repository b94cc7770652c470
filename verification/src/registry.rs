//! The local registry of installed packages: one JSON array of descriptors
//! in a file. This module holds the store's logic — reading the list and
//! appending one entry by rewriting the whole array — over the file's
//! content as a value; opening and writing the file stays with the caller.
use vstd::prelude::*;

use crate::Package;
use crate::PackageModel;
use crate::errors::InstallError;
use crate::json::json_package_list;
use crate::json::lemma_package_list_roundtrip;
use crate::json::package_list_from_json;
use crate::json::package_list_to_json;
use crate::json::parse_package_list;
use crate::json::pkg_views;

verus! {

/// The view of an optional borrowed text.
pub open spec fn opt_str_view(o: Option<&str>) -> Option<Seq<char>> {
    match o {
        Option::Some(s) => Option::Some(s@),
        Option::None => Option::None,
    }
}

/// The package list a registry file's content denotes: a missing file
/// counts as the empty list, present content must be one JSON array of
/// descriptors.
pub open spec fn registry_parse(content: Option<Seq<char>>) -> Option<Seq<PackageModel>> {
    match content {
        Option::None => Option::Some(Seq::empty()),
        Option::Some(s) => parse_package_list(s),
    }
}

/// Reads the registry from its file's content; `None` stands for a
/// missing file and is an empty registry. Malformed content is refused as
/// `RegistryCorrupt`.
pub fn list_installed_packages(content: Option<&str>) -> (r: Result<Vec<Package>, InstallError>)
    ensures
        match r {
            Result::Ok(l) => registry_parse(opt_str_view(content)) == Option::Some(pkg_views(l@)),
            Result::Err(e) => registry_parse(opt_str_view(content)) is None && e
                == InstallError::RegistryCorrupt,
        },
{
    match content {
        Option::None => {
            let empty: Vec<Package> = Vec::new();
            assert(pkg_views(empty@) =~= Seq::<PackageModel>::empty());
            Result::Ok(empty)
        },
        Option::Some(s) => match package_list_from_json(s) {
            Option::Some(l) => Result::Ok(l),
            Option::None => Result::Err(InstallError::RegistryCorrupt),
        },
    }
}

/// Appends one descriptor to the registry and returns the full content to
/// write back: the whole array, rewritten. The entry is appended whether
/// or not its name is already registered.
pub fn add_to_registry(content: Option<&str>, package: &Package) -> (r: Result<
    String,
    InstallError,
>)
    ensures
        match registry_parse(opt_str_view(content)) {
            Option::Some(l) => r matches Result::Ok(s) && s@ == json_package_list(
                l.push(package@),
            ),
            Option::None => r matches Result::Err(e) && e == InstallError::RegistryCorrupt,
        },
{
    let mut list = match list_installed_packages(content) {
        Result::Ok(l) => l,
        Result::Err(e) => { return Result::Err(e); },
    };
    let ghost l = pkg_views(list@);
    list.push(package.duplicate());
    proof {
        assert(pkg_views(list@) =~= l.push(package@));
    }
    Result::Ok(package_list_to_json(&list))
}

/// Appending never deduplicates: the registry written for `l` plus `p`
/// reads back as `l` with `p` appended — one more entry, the old entries
/// unchanged — whether or not `p`'s name already occurs in `l`.
pub proof fn lemma_append_no_dedup(l: Seq<PackageModel>, p: PackageModel)
    ensures
        parse_package_list(json_package_list(l.push(p))) == Option::Some(l.push(p)),
        l.push(p).len() == l.len() + 1,
        l.push(p)[l.len() as int] == p,
        forall|i: int| 0 <= i < l.len() ==> l.push(p)[i] == l[i],
{
    lemma_package_list_roundtrip(l.push(p));
}

} // verus!
