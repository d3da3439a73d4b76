//! Wheel-file bookkeeping: locating the `.dist-info` directory in an
//! archive path, the metadata file names, the `RECORD` entry for the
//! injected metadata file, and the rendered build-environment file.

use sha2::{Digest, Sha256};
use vstd::prelude::*;

use crate::envvars::pair_views;
use crate::text::{find_sub, lemma_find_from_bounds, spec_find};

verus! {

/// Name of the injected build-environment metadata file, per PEP 658.
pub const BUILD_ENV_FILENAME: &'static str = "WHEEL.metadata";

/// The `.dist-info` directory name a wheel archive path lies under: the
/// path prefix up to and including the first `.dist-info` whose name is
/// followed by `/`.
pub open spec fn spec_dist_info_dir(path: Seq<char>) -> Option<Seq<char>> {
    match spec_find(path, ".dist-info/"@) {
        Some(i) => Some(path.subrange(0, i + ".dist-info"@.len())),
        None => None,
    }
}

/// Find the `.dist-info` directory an archive member path lies under
/// (without a trailing slash).
pub fn dist_info_dir_of_path(path: &str) -> (r: Option<String>)
    ensures
        match r {
            Some(d) => spec_dist_info_dir(path@) == Some(d@),
            None => spec_dist_info_dir(path@) is None,
        },
{
    proof {
        reveal_strlit(".dist-info/");
        reveal_strlit(".dist-info");
        assert(".dist-info/"@.len() == 11);
        assert(".dist-info"@.len() == 10);
    }
    let len = path.unicode_len();
    match find_sub(path, ".dist-info/") {
        Some(i) => {
            proof {
                lemma_find_from_bounds(path@, ".dist-info/"@, 0);
                assert(i + 11 <= len);
            }
            Some(String::from_str(path.substring_char(0, i + 10)))
        },
        None => None,
    }
}

/// Where a wheel's metadata lives: the `.dist-info` directory found in the
/// archive, and the `METADATA` file path under it.
pub struct WheelInfo {
    pub dist_info_dir: String,
    pub metadata_path: String,
}

impl WheelInfo {
    /// The metadata paths of the wheel whose `.dist-info` directory was
    /// found under the given name.
    pub fn new(dist_info_dir: String) -> (r: WheelInfo)
        ensures
            r.dist_info_dir@ == dist_info_dir@,
            r.metadata_path@ == dist_info_dir@ + "/METADATA"@,
    {
        let metadata_path = dist_info_dir.clone().concat("/METADATA");
        WheelInfo { dist_info_dir, metadata_path }
    }
}

/// Path of the injected metadata file relative to the wheel root.
pub fn build_env_rel_path(dist_info_dir: &str) -> (r: String)
    ensures
        r@ == dist_info_dir@ + "/"@ + "WHEEL.metadata"@,
{
    String::from_str(dist_info_dir).concat("/").concat(BUILD_ENV_FILENAME)
}

/// Names the result of SHA-256: the digest is a function of the bytes
/// alone.
pub uninterp spec fn sha256_of(b: Seq<u8>) -> Seq<u8>;

/// Relies on sha2::Sha256 (the RustCrypto `Digest` interface): the 32-byte
/// SHA-256 digest of the input bytes, depending on nothing but them.
#[verifier::external_body]
fn sha256_digest(data: &Vec<u8>) -> (r: Vec<u8>)
    ensures
        r@ == sha256_of(data@),
        r@.len() == 32,
{
    let mut hasher = Sha256::new();
    hasher.update(data.as_slice());
    hasher.finalize().to_vec()
}

/// The sixteen lowercase hexadecimal digits.
pub open spec fn hex_digit(n: int) -> char {
    seq!['0', '1', '2', '3', '4', '5', '6', '7', '8', '9', 'a', 'b', 'c', 'd', 'e', 'f'][n]
}

/// Lowercase hexadecimal text of a byte string: two digits per byte, high
/// nibble first.
pub open spec fn hex_of(b: Seq<u8>) -> Seq<char>
    decreases b.len(),
{
    if b.len() == 0 {
        Seq::empty()
    } else {
        seq![hex_digit(b[0] as int / 16), hex_digit(b[0] as int % 16)] + hex_of(
            b.subrange(1, b.len() as int),
        )
    }
}

/// Relies on hex::encode: lowercase hexadecimal, two digits per byte, high
/// nibble first.
#[verifier::external_body]
fn hex_encode(data: &Vec<u8>) -> (r: String)
    ensures
        r@ == hex_of(data@),
{
    hex::encode(data.as_slice())
}

/// The `RECORD` hash field of a file with the given contents:
/// `sha256=` followed by the digest in lowercase hexadecimal.
pub fn calculate_content_hash(data: &Vec<u8>) -> (r: String)
    ensures
        r@ == "sha256="@ + hex_of(sha256_of(data@)),
{
    let digest = sha256_digest(data);
    String::from_str("sha256=").concat(hex_encode(&digest).as_str())
}

/// Decimal numeral of a non-negative integer.
pub open spec fn spec_decimal(n: int) -> Seq<char>
    recommends
        n >= 0,
    decreases n,
{
    if n < 10 {
        seq![hex_digit(n)]
    } else {
        spec_decimal(n / 10) + seq![hex_digit(n % 10)]
    }
}

/// The one-character string of a decimal digit.
fn digit_str(d: u64) -> (r: &'static str)
    requires
        d < 10,
    ensures
        r@ == seq![hex_digit(d as int)],
{
    proof {
        reveal_strlit("0");
        reveal_strlit("1");
        reveal_strlit("2");
        reveal_strlit("3");
        reveal_strlit("4");
        reveal_strlit("5");
        reveal_strlit("6");
        reveal_strlit("7");
        reveal_strlit("8");
        reveal_strlit("9");
    }
    let r: &'static str = match d {
        0 => "0",
        1 => "1",
        2 => "2",
        3 => "3",
        4 => "4",
        5 => "5",
        6 => "6",
        7 => "7",
        8 => "8",
        _ => "9",
    };
    proof {
        assert(r@ =~= seq![hex_digit(d as int)]);
    }
    r
}

/// Render an unsigned size in decimal.
pub fn u64_to_string(n: u64) -> (r: String)
    ensures
        r@ == spec_decimal(n as int),
    decreases n,
{
    if n < 10 {
        String::from_str(digit_str(n))
    } else {
        proof {
            assert(n / 10 < n && n / 10 >= 1) by (nonlinear_arith)
                requires
                    n >= 10,
            ;
        }
        let prefix = u64_to_string(n / 10);
        prefix.concat(digit_str(n % 10))
    }
}

/// A wheel `RECORD` file with the entry for the injected metadata file
/// appended: `<rel_path>,<hash>,<size>` and a newline.
pub fn updated_record_content(record_content: &str, rel_path: &str, hash: &str, size: u64) -> (r:
    String)
    ensures
        r@ == record_content@ + rel_path@ + ","@ + hash@ + ","@ + spec_decimal(size as int)
            + "\n"@,
{
    let r = String::from_str(record_content).concat(rel_path).concat(",").concat(hash).concat(",")
        .concat(u64_to_string(size).as_str()).concat("\n");
    proof {
        assert(r@ =~= record_content@ + rel_path@ + ","@ + hash@ + ","@ + spec_decimal(
            size as int,
        ) + "\n"@);
    }
    r
}

/// The `NAME=value` lines of a rendered build-environment file.
pub open spec fn spec_env_lines(pairs: Seq<(Seq<char>, Seq<char>)>) -> Seq<char>
    decreases pairs.len(),
{
    if pairs.len() == 0 {
        Seq::empty()
    } else {
        pairs[0].0 + "="@ + pairs[0].1 + "\n"@ + spec_env_lines(
            pairs.subrange(1, pairs.len() as int),
        )
    }
}

/// The header above the variables in a rendered build-environment file.
pub open spec fn spec_env_file_header() -> Seq<char> {
    "# Build environment variables captured during wheel creation\n"@
        + "# This file adheres to PEP 658 and contains whitelisted environment variables\n\n"@
}

/// Render the build-environment metadata file: the fixed header, then one
/// `NAME=value` line per captured variable, in their given order.
pub fn render_build_env_content(env_vars: &Vec<(String, String)>) -> (r: String)
    ensures
        r@ == spec_env_file_header() + spec_env_lines(pair_views(env_vars@)),
{
    let mut content = String::from_str(
        "# Build environment variables captured during wheel creation\n",
    ).concat("# This file adheres to PEP 658 and contains whitelisted environment variables\n\n");
    let n = env_vars.len();
    let ghost all = pair_views(env_vars@);
    proof {
        assert(all.subrange(0, n as int) =~= all);
        assert(content@ + spec_env_lines(all) == spec_env_file_header() + spec_env_lines(
            all.subrange(0, n as int),
        ));
    }
    let mut idx: usize = 0;
    while idx < n
        invariant
            0 <= idx <= n,
            n == env_vars@.len(),
            all == pair_views(env_vars@),
            content@ + spec_env_lines(all.subrange(idx as int, n as int)) == spec_env_file_header()
                + spec_env_lines(all),
        decreases n - idx,
    {
        proof {
            assert(all[idx as int] == (env_vars@[idx as int].0@, env_vars@[idx as int].1@));
            assert(all.subrange(idx as int, n as int)[0] == all[idx as int]);
            assert(all.subrange(idx as int, n as int).subrange(1, n - idx) =~= all.subrange(
                idx + 1,
                n as int,
            ));
        }
        content.append(env_vars[idx].0.as_str());
        content.append("=");
        content.append(env_vars[idx].1.as_str());
        content.append("\n");
        proof {
            assert(content@ + spec_env_lines(all.subrange(idx + 1, n as int))
                =~= spec_env_file_header() + spec_env_lines(all));
        }
        idx = idx + 1;
    }
    proof {
        assert(spec_env_lines(all.subrange(idx as int, n as int)) =~= Seq::<char>::empty());
        assert(content@ =~= spec_env_file_header() + spec_env_lines(all));
    }
    content
}

} // verus!
