//! Format-version gate, CRC32 integrity verification and SHA-256 content
//! hashing of `.thx` artifacts.

use vstd::prelude::*;
use vstd::string::StringSliceAdditionalSpecFns;
use crate::artifact::error::ArtifactError;
use crate::codec::{crc32_hex, crc32_of, sha256_hex, sha256_of};
use crate::text::{
    ascii_lower_char, eq_ignore_ascii_case, hex_fixed, hex_of_bytes, is_lower_hex_digit, str_eq,
    str_eq_ignore_ascii_case,
};

verus! {

/// The format versions this library reads.
pub open spec fn supported_versions_spec() -> Seq<Seq<char>> {
    seq!["m2-draft"@]
}

/// The CRC32 of `model_canonical`, as the artifact stores it: 8 lowercase
/// hexadecimal digits.
pub open spec fn canonical_crc_hex(model_canonical: &str) -> Seq<char> {
    hex_fixed(crc32_of(model_canonical.spec_bytes()) as nat, 8)
}

/// The format versions this library reads.
pub fn supported_versions() -> (versions: Vec<&'static str>)
    ensures
        versions@.len() == supported_versions_spec().len(),
        forall|i: int| 0 <= i < versions@.len() ==> versions@[i]@ == supported_versions_spec()[i],
{
    let mut v = Vec::new();
    v.push("m2-draft");
    v
}

/// Accept only a supported `format_version`.
pub fn check_format_version(version: &str) -> (r: Result<(), ArtifactError>)
    ensures
        r is Ok <==> supported_versions_spec().contains(version@),
        r is Err ==> (r matches Err(ArtifactError::UnsupportedFormatVersion { version: v, supported })
            && v@ == version@ && supported@ == "m2-draft"@),
{
    let versions = supported_versions();
    let mut i: usize = 0;
    while i < versions.len()
        invariant
            versions@.len() == supported_versions_spec().len(),
            forall|k: int|
                0 <= k < versions@.len() ==> versions@[k]@ == supported_versions_spec()[k],
            i <= versions@.len(),
            forall|k: int| 0 <= k < i ==> supported_versions_spec()[k] != version@,
        decreases versions.len() - i,
    {
        if str_eq(versions[i], version) {
            proof {
                assert(supported_versions_spec()[i as int] == version@);
            }
            return Ok(());
        }
        i = i + 1;
    }
    Err(ArtifactError::UnsupportedFormatVersion { version: version.to_owned(), supported: "m2-draft" })
}

/// Verify the stored `crc32` against `model_canonical`: the CRC32 of its
/// UTF-8 bytes, as 8 lowercase hexadecimal digits, must equal the stored text
/// up to ASCII case.
pub fn verify_crc32(model_canonical: &str, expected_hex: &str) -> (r: Result<(), ArtifactError>)
    ensures
        r is Ok <==> eq_ignore_ascii_case(canonical_crc_hex(model_canonical), expected_hex@),
        r is Err ==> (r matches Err(ArtifactError::IntegrityCheckFailed { expected, computed }) && expected@
            == expected_hex@ && computed@ == canonical_crc_hex(model_canonical)),
{
    let computed = crc32_hex(model_canonical);
    if !str_eq_ignore_ascii_case(computed.as_str(), expected_hex) {
        return Err(
            ArtifactError::IntegrityCheckFailed { expected: expected_hex.to_owned(), computed },
        );
    }
    Ok(())
}

/// Checks made on a freshly parsed artifact, in order: the format-version gate,
/// then the CRC32 integrity check.
pub fn check_artifact(format_version: &str, model_canonical: &str, crc32: &str) -> (r: Result<
    (),
    ArtifactError,
>)
    ensures
        r is Ok <==> supported_versions_spec().contains(format_version@) && eq_ignore_ascii_case(
            canonical_crc_hex(model_canonical),
            crc32@,
        ),
        !supported_versions_spec().contains(format_version@) ==> (r matches Err(
            ArtifactError::UnsupportedFormatVersion { version: v, supported },
        ) && v@ == format_version@ && supported@ == "m2-draft"@),
        supported_versions_spec().contains(format_version@) && !eq_ignore_ascii_case(
            canonical_crc_hex(model_canonical),
            crc32@,
        ) ==> (r matches Err(ArtifactError::IntegrityCheckFailed { expected, computed }) && expected@
            == crc32@ && computed@ == canonical_crc_hex(model_canonical)),
{
    match check_format_version(format_version) {
        Err(e) => Err(e),
        Ok(()) => verify_crc32(model_canonical, crc32),
    }
}

/// The SHA-256 content hash of the raw artifact bytes: 64 lowercase
/// hexadecimal digits.
pub fn content_hash(bytes: &[u8]) -> (hash: String)
    ensures
        hash@ == hex_of_bytes(sha256_of(bytes@)),
        hash@.len() == 64,
        forall|i: int| 0 <= i < 64 ==> is_lower_hex_digit(#[trigger] hash@[i]),
{
    sha256_hex(bytes)
}

/// An artifact whose stored CRC32 is the one recomputed from its canonical
/// model, in either letter case, passes the integrity check.
pub proof fn law_recomputed_crc_passes(model_canonical: &str, stored: Seq<char>)
    requires
        stored.len() == canonical_crc_hex(model_canonical).len(),
        forall|i: int|
            0 <= i < stored.len() ==> ascii_lower_char(#[trigger] stored[i]) == ascii_lower_char(
                canonical_crc_hex(model_canonical)[i],
            ),
    ensures
        eq_ignore_ascii_case(canonical_crc_hex(model_canonical), stored),
{
}

/// The integrity check compares against exactly 8 lowercase hexadecimal
/// digits, so a stored value of another length always fails.
pub proof fn law_crc_text_is_eight_hex_digits(model_canonical: &str, stored: Seq<char>)
    requires
        stored.len() != 8,
    ensures
        canonical_crc_hex(model_canonical).len() == 8,
        !eq_ignore_ascii_case(canonical_crc_hex(model_canonical), stored),
{
    crate::text::lemma_hex_fixed_shape(crc32_of(model_canonical.spec_bytes()) as nat, 8);
}

} // verus!
