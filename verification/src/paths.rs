use vstd::prelude::*;
use vstd::string::StringExecFns;

verus! {

/// `dir` and `name` joined with a single `/`.
pub open spec fn joined_path(dir: Seq<char>, name: Seq<char>) -> Seq<char> {
    dir + "/"@ + name
}

/// The name of the artifact a successful run produces:
/// `<package-name>_<version>.tar`.
pub open spec fn artifact_name_of(package_name: Seq<char>, version: Seq<char>) -> Seq<char> {
    package_name + "_"@ + version + ".tar"@
}

/// Join a directory and a file name with `/`.
pub fn join_path(dir: &str, name: &str) -> (r: String)
    ensures
        r@ == joined_path(dir@, name@),
{
    let mut p = dir.to_owned();
    p.append("/");
    p.append(name);
    p
}

/// Build the artifact file name from the package name and version.
pub fn artifact_file_name(package_name: &str, version: &str) -> (r: String)
    ensures
        r@ == artifact_name_of(package_name@, version@),
{
    let mut a = package_name.to_owned();
    a.append("_");
    a.append(version);
    a.append(".tar");
    a
}

} // verus!
