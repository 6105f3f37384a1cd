use vstd::prelude::*;
use vstd::string::*;

verus! {

/// The staging root on the file-staging service.
pub open spec fn staging_root_spec() -> Seq<char> {
    "./PublicStaging"@
}

/// The per-bundle directory under the staging root.
pub open spec fn bundle_dir_spec(bundle_id: Seq<char>) -> Seq<char> {
    staging_root_spec() + "/"@ + bundle_id
}

/// The file that holds a staged package.
pub open spec fn package_file_spec(bundle_id: Seq<char>) -> Seq<char> {
    bundle_dir_spec(bundle_id) + "/app.ipa"@
}

/// `./PublicStaging`
pub fn staging_root() -> (p: String)
    ensures
        p@ == staging_root_spec(),
{
    String::from_str("./PublicStaging")
}

/// `./PublicStaging/<bundle_id>`
pub fn bundle_dir(bundle_id: &String) -> (p: String)
    ensures
        p@ == bundle_dir_spec(bundle_id@),
{
    let mut p = staging_root();
    p.append("/");
    p.append(bundle_id.as_str());
    p
}

/// `./PublicStaging/<bundle_id>/app.ipa`
pub fn package_file(bundle_id: &String) -> (p: String)
    ensures
        p@ == package_file_spec(bundle_id@),
{
    let mut p = bundle_dir(bundle_id);
    p.append("/app.ipa");
    p
}

} // verus!
