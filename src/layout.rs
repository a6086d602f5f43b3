use vstd::prelude::*;

verus! {

/// The base URL of the bucket that holds the circuit artifacts.
pub const CIRCUIT_ARTIFACTS_URL_BASE: &'static str = "https://sp1-circuits.s3-us-east-2.amazonaws.com";

/// The install directory of `version` under the home directory `home`:
/// `<home>/.sp1/circuits/<version>`.
pub open spec fn artifacts_dir(home: Seq<char>, version: Seq<char>) -> Seq<char> {
    home + "/.sp1/circuits/"@ + version
}

/// Where the archive of `version` is fetched from: `<base>/<version>.tar.gz`.
pub open spec fn artifacts_url(version: Seq<char>) -> Seq<char> {
    CIRCUIT_ARTIFACTS_URL_BASE@ + "/"@ + version + ".tar.gz"@
}

/// The directory where the circuit artifacts of `version` are installed,
/// below the home directory `home`.
pub fn install_circuit_artifacts_dir(home: &str, version: &str) -> (r: String)
    ensures
        r@ == artifacts_dir(home@, version@),
{
    let mut dir = String::from_str(home);
    dir.append("/.sp1/circuits/");
    dir.append(version);
    dir
}

/// The URL from which the archive of `version` is downloaded.
pub fn circuit_artifacts_url(version: &str) -> (r: String)
    ensures
        r@ == artifacts_url(version@),
{
    let mut url = String::from_str(CIRCUIT_ARTIFACTS_URL_BASE);
    url.append("/");
    url.append(version);
    url.append(".tar.gz");
    url
}

/// Two versions share an install directory exactly when they are the same
/// version: the layout is a function of the version, and distinct versions
/// never collide.
pub proof fn lemma_artifacts_dir_injective(home: Seq<char>, v1: Seq<char>, v2: Seq<char>)
    ensures
        artifacts_dir(home, v1) == artifacts_dir(home, v2) <==> v1 == v2,
{
    let prefix = home + "/.sp1/circuits/"@;
    if artifacts_dir(home, v1) == artifacts_dir(home, v2) {
        let n = prefix.len() as int;
        assert((prefix + v1).subrange(n, (prefix + v1).len() as int) =~= v1);
        assert((prefix + v2).subrange(n, (prefix + v2).len() as int) =~= v2);
    }
}

} // verus!
