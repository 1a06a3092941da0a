//! Preparing a packaged tool: fetch its archive unless it is cached, and
//! unpack it unless its directory is already there.
use vstd::prelude::*;

verus! {

/// One thing to do to a package.
#[derive(Clone, Debug, PartialEq, Eq)]
pub enum PackageStep {
    /// Fetch `url` into the file `archive`.
    Download { url: String, archive: String },
    /// Unpack the file `archive` into `output_directory`.
    Unzip { archive: String, output_directory: String },
}

/// The steps that prepare a package, in order: the download where the
/// archive is not cached, then the unpacking where the output directory
/// does not exist.
pub fn prepare_package(
    package_url: String,
    package_archive: String,
    output_directory: String,
    archive_cached: bool,
    output_exists: bool,
) -> (r: Vec<PackageStep>)
    ensures
        r@ == (if archive_cached {
            Seq::empty()
        } else {
            seq![(PackageStep::Download { url: package_url, archive: package_archive })]
        }) + (if output_exists {
            Seq::empty()
        } else {
            seq![(PackageStep::Unzip { archive: package_archive, output_directory })]
        }),
{
    let mut r: Vec<PackageStep> = Vec::new();
    if !archive_cached {
        r.push(PackageStep::Download { url: package_url, archive: package_archive.clone() });
    }
    if !output_exists {
        r.push(PackageStep::Unzip { archive: package_archive, output_directory });
    }
    assert(r@ =~= (if archive_cached {
        Seq::empty()
    } else {
        seq![(PackageStep::Download { url: package_url, archive: package_archive })]
    }) + (if output_exists {
        Seq::empty()
    } else {
        seq![(PackageStep::Unzip { archive: package_archive, output_directory })]
    }));
    r
}

} // verus!
