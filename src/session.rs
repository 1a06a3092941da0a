//! Where an installation lives and how a shell is set up to use it.
use vstd::prelude::*;

verus! {

/// `version` with each `/` replaced by `-`.
pub open spec fn flattened_version(version: Seq<char>) -> Seq<char> {
    version.map_values(|c: char| if c == '/' { '-' } else { c })
}

/// The installation directory of a version under a tools directory.
pub open spec fn esp_idf_directory(tools_path: Seq<char>, version: Seq<char>) -> Seq<char> {
    tools_path + "/frameworks/esp-idf-"@ + flattened_version(version)
}

/// The installation directory of the given version under `tools_path`,
/// with each `/` of the version (as in `release/v4.4`) turned into `-`.
pub fn get_esp_idf_directory(idf_version: &str, tools_path: &str) -> (r: String)
    ensures
        r@ == esp_idf_directory(tools_path@, idf_version@),
{
    let mut r = String::from_str(tools_path);
    r.append("/frameworks/esp-idf-");
    let ghost prefix = r@;
    let n = idf_version.unicode_len();
    let mut start: usize = 0;
    let mut i: usize = 0;
    while i < n
        invariant
            n == idf_version@.len(),
            start <= i <= n,
            r@ == prefix + flattened_version(idf_version@.subrange(0, start as int)),
            forall|j: int| start <= j < i ==> idf_version@[j] != '/',
        decreases n - i,
    {
        if idf_version.get_char(i) == '/' {
            let ghost before = r@;
            r.append(idf_version.substring_char(start, i));
            r.append("-");
            proof {
                reveal_strlit("-");
                assert(flattened_version(idf_version@.subrange(0, i + 1)) =~= flattened_version(
                    idf_version@.subrange(0, start as int),
                ) + idf_version@.subrange(start as int, i as int) + "-"@);
            }
            start = i + 1;
        }
        i = i + 1;
    }
    r.append(idf_version.substring_char(start, n));
    assert(flattened_version(idf_version@) =~= flattened_version(
        idf_version@.subrange(0, start as int),
    ) + idf_version@.subrange(start as int, n as int));
    r
}

/// The shell that runs the environment initializer.
pub fn get_shell() -> (r: String)
    ensures
        r@ == "/bin/bash"@,
{
    String::from_str("/bin/bash")
}

/// The script that sets up the environment of the selected installation.
pub fn get_initializer(selected_idf_path: &str) -> (r: String)
    ensures
        r@ == selected_idf_path@ + "/export.sh"@,
{
    String::from_str(selected_idf_path).concat("/export.sh")
}

/// The shell arguments that set up the environment and build the example
/// project.
pub fn get_initializer_arguments() -> (r: Vec<String>)
    ensures
        r@.len() == 2,
        r@[0]@ == "-c"@,
        r@[1]@ == ". ./export.sh;cd examples/get-started/blink;idf.py fullclean; idf.py build"@,
{
    let mut r: Vec<String> = Vec::new();
    r.push(String::from_str("-c"));
    r.push(String::from_str(". ./export.sh;cd examples/get-started/blink;idf.py fullclean; idf.py build"));
    r
}

} // verus!
