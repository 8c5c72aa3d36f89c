use vstd::prelude::*;
use sha2::Digest;

use crate::bytes::{push_all, zeros};

verus! {

/// Width of the report-data field that a binding fills.
pub const REPORT_DATA_LEN: usize = 64;

/// The digest algorithms a caller may select for binding report data.
#[derive(Clone, Copy, Debug, PartialEq, Eq, Structural)]
pub enum HashAlgorithm {
    Sha256,
    Sha384,
    Sha512,
    Sha3_256,
    Sha3_384,
    Sha3_512,
    Keccak256,
    Keccak384,
    Keccak512,
    Raw,
}

/// Why a binding could not be made.
#[derive(Clone, Copy, Debug, PartialEq, Eq, Structural)]
pub enum BindError {
    /// The selector names no known algorithm.
    UnsupportedAlgorithm,
    /// `raw` was selected and the content is not exactly 64 bytes.
    InvalidLength,
}

/// Result of `sha2::Sha256::digest`.
pub uninterp spec fn sha256_of(data: Seq<u8>) -> Seq<u8>;

/// Result of `sha2::Sha384::digest`.
pub uninterp spec fn sha384_of(data: Seq<u8>) -> Seq<u8>;

/// Result of `sha2::Sha512::digest`.
pub uninterp spec fn sha512_of(data: Seq<u8>) -> Seq<u8>;

/// Result of `sha3::Sha3_256::digest`.
pub uninterp spec fn sha3_256_of(data: Seq<u8>) -> Seq<u8>;

/// Result of `sha3::Sha3_384::digest`.
pub uninterp spec fn sha3_384_of(data: Seq<u8>) -> Seq<u8>;

/// Result of `sha3::Sha3_512::digest`.
pub uninterp spec fn sha3_512_of(data: Seq<u8>) -> Seq<u8>;

/// Result of `sha3::Keccak256::digest`.
pub uninterp spec fn keccak256_of(data: Seq<u8>) -> Seq<u8>;

/// Result of `sha3::Keccak384::digest`.
pub uninterp spec fn keccak384_of(data: Seq<u8>) -> Seq<u8>;

/// Result of `sha3::Keccak512::digest`.
pub uninterp spec fn keccak512_of(data: Seq<u8>) -> Seq<u8>;

/// The algorithm a selector names: exact, case-sensitive names, with the
/// empty selector standing for `sha512`.
pub open spec fn algorithm_named(name: Seq<char>) -> Option<HashAlgorithm> {
    if name == "sha256"@ {
        Some(HashAlgorithm::Sha256)
    } else if name == "sha384"@ {
        Some(HashAlgorithm::Sha384)
    } else if name == ""@ || name == "sha512"@ {
        Some(HashAlgorithm::Sha512)
    } else if name == "sha3-256"@ {
        Some(HashAlgorithm::Sha3_256)
    } else if name == "sha3-384"@ {
        Some(HashAlgorithm::Sha3_384)
    } else if name == "sha3-512"@ {
        Some(HashAlgorithm::Sha3_512)
    } else if name == "keccak256"@ {
        Some(HashAlgorithm::Keccak256)
    } else if name == "keccak384"@ {
        Some(HashAlgorithm::Keccak384)
    } else if name == "keccak512"@ {
        Some(HashAlgorithm::Keccak512)
    } else if name == "raw"@ {
        Some(HashAlgorithm::Raw)
    } else {
        None
    }
}

/// The digest that `alg` computes over `data` (`raw` has none and keeps the data).
pub open spec fn digest_of(alg: HashAlgorithm, data: Seq<u8>) -> Seq<u8> {
    match alg {
        HashAlgorithm::Sha256 => sha256_of(data),
        HashAlgorithm::Sha384 => sha384_of(data),
        HashAlgorithm::Sha512 => sha512_of(data),
        HashAlgorithm::Sha3_256 => sha3_256_of(data),
        HashAlgorithm::Sha3_384 => sha3_384_of(data),
        HashAlgorithm::Sha3_512 => sha3_512_of(data),
        HashAlgorithm::Keccak256 => keccak256_of(data),
        HashAlgorithm::Keccak384 => keccak384_of(data),
        HashAlgorithm::Keccak512 => keccak512_of(data),
        HashAlgorithm::Raw => data,
    }
}

/// The number of bytes in a digest of `alg`; 64 for `raw`, whose content fills the field.
pub open spec fn digest_width(alg: HashAlgorithm) -> nat {
    match alg {
        HashAlgorithm::Sha256 | HashAlgorithm::Sha3_256 | HashAlgorithm::Keccak256 => 32,
        HashAlgorithm::Sha384 | HashAlgorithm::Sha3_384 | HashAlgorithm::Keccak384 => 48,
        _ => 64,
    }
}

/// The hashed message: the tag, a colon, then the content.
pub open spec fn tagged(tag: Seq<u8>, content: Seq<u8>) -> Seq<u8> {
    tag + seq![58u8] + content
}

/// `s` followed by zero bytes up to the width of the report-data field.
pub open spec fn zero_padded(s: Seq<u8>) -> Seq<u8> {
    s + zeros((64 - s.len()) as nat)
}

/// The 64-byte binding of `content` under `tag` with algorithm `alg`.
pub open spec fn binding_of(tag: Seq<u8>, content: Seq<u8>, alg: HashAlgorithm) -> Result<
    Seq<u8>,
    BindError,
> {
    if alg == HashAlgorithm::Raw {
        if content.len() == 64 {
            Ok(content)
        } else {
            Err(BindError::InvalidLength)
        }
    } else {
        Ok(zero_padded(digest_of(alg, tagged(tag, content))))
    }
}

/// The binding that a selector string asks for.
pub open spec fn named_binding_of(tag: Seq<u8>, content: Seq<u8>, name: Seq<char>) -> Result<
    Seq<u8>,
    BindError,
> {
    match algorithm_named(name) {
        Some(alg) => binding_of(tag, content, alg),
        None => Err(BindError::UnsupportedAlgorithm),
    }
}

/// The view of a binding result: the bytes on success, the error otherwise.
pub open spec fn binding_view(r: Result<Vec<u8>, BindError>) -> Result<Seq<u8>, BindError> {
    match r {
        Ok(v) => Ok(v@),
        Err(e) => Err(e),
    }
}

/// Relies on `sha2::Sha256::digest`: a 32-byte digest determined by the input.
#[verifier::external_body]
fn sha256_digest(data: &[u8]) -> (r: Vec<u8>)
    ensures
        r@ == sha256_of(data@),
        r@.len() == 32,
{
    sha2::Sha256::digest(data).to_vec()
}

/// Relies on `sha2::Sha384::digest`: a 48-byte digest determined by the input.
#[verifier::external_body]
pub(crate) fn sha384_digest(data: &[u8]) -> (r: Vec<u8>)
    ensures
        r@ == sha384_of(data@),
        r@.len() == 48,
{
    sha2::Sha384::digest(data).to_vec()
}

/// Relies on `sha2::Sha512::digest`: a 64-byte digest determined by the input.
#[verifier::external_body]
fn sha512_digest(data: &[u8]) -> (r: Vec<u8>)
    ensures
        r@ == sha512_of(data@),
        r@.len() == 64,
{
    sha2::Sha512::digest(data).to_vec()
}

/// Relies on `sha3::Sha3_256::digest`: a 32-byte digest determined by the input.
#[verifier::external_body]
fn sha3_256_digest(data: &[u8]) -> (r: Vec<u8>)
    ensures
        r@ == sha3_256_of(data@),
        r@.len() == 32,
{
    sha3::Sha3_256::digest(data).to_vec()
}

/// Relies on `sha3::Sha3_384::digest`: a 48-byte digest determined by the input.
#[verifier::external_body]
fn sha3_384_digest(data: &[u8]) -> (r: Vec<u8>)
    ensures
        r@ == sha3_384_of(data@),
        r@.len() == 48,
{
    sha3::Sha3_384::digest(data).to_vec()
}

/// Relies on `sha3::Sha3_512::digest`: a 64-byte digest determined by the input.
#[verifier::external_body]
fn sha3_512_digest(data: &[u8]) -> (r: Vec<u8>)
    ensures
        r@ == sha3_512_of(data@),
        r@.len() == 64,
{
    sha3::Sha3_512::digest(data).to_vec()
}

/// Relies on `sha3::Keccak256::digest`: a 32-byte digest determined by the input.
#[verifier::external_body]
fn keccak256_digest(data: &[u8]) -> (r: Vec<u8>)
    ensures
        r@ == keccak256_of(data@),
        r@.len() == 32,
{
    sha3::Keccak256::digest(data).to_vec()
}

/// Relies on `sha3::Keccak384::digest`: a 48-byte digest determined by the input.
#[verifier::external_body]
fn keccak384_digest(data: &[u8]) -> (r: Vec<u8>)
    ensures
        r@ == keccak384_of(data@),
        r@.len() == 48,
{
    sha3::Keccak384::digest(data).to_vec()
}

/// Relies on `sha3::Keccak512::digest`: a 64-byte digest determined by the input.
#[verifier::external_body]
fn keccak512_digest(data: &[u8]) -> (r: Vec<u8>)
    ensures
        r@ == keccak512_of(data@),
        r@.len() == 64,
{
    sha3::Keccak512::digest(data).to_vec()
}

/// True when `a` and `b` hold the same characters.
fn same_text(a: &str, b: &str) -> (r: bool)
    ensures
        r == (a@ == b@),
{
    let n = a.unicode_len();
    if n != b.unicode_len() {
        return false;
    }
    let mut i: usize = 0;
    while i < n
        invariant
            n == a@.len(),
            n == b@.len(),
            i <= n,
            forall|k: int| 0 <= k < i ==> a@[k] == b@[k],
        decreases n - i,
    {
        if a.get_char(i) != b.get_char(i) {
            return false;
        }
        i = i + 1;
    }
    assert(a@ =~= b@);
    true
}

impl HashAlgorithm {
    /// The algorithm a selector names, or `None` for an unknown selector.
    pub fn from_name(name: &str) -> (r: Option<HashAlgorithm>)
        ensures
            r == algorithm_named(name@),
    {
        if same_text(name, "sha256") {
            Some(HashAlgorithm::Sha256)
        } else if same_text(name, "sha384") {
            Some(HashAlgorithm::Sha384)
        } else if same_text(name, "") || same_text(name, "sha512") {
            Some(HashAlgorithm::Sha512)
        } else if same_text(name, "sha3-256") {
            Some(HashAlgorithm::Sha3_256)
        } else if same_text(name, "sha3-384") {
            Some(HashAlgorithm::Sha3_384)
        } else if same_text(name, "sha3-512") {
            Some(HashAlgorithm::Sha3_512)
        } else if same_text(name, "keccak256") {
            Some(HashAlgorithm::Keccak256)
        } else if same_text(name, "keccak384") {
            Some(HashAlgorithm::Keccak384)
        } else if same_text(name, "keccak512") {
            Some(HashAlgorithm::Keccak512)
        } else if same_text(name, "raw") {
            Some(HashAlgorithm::Raw)
        } else {
            None
        }
    }
}

/// The digest that `alg` computes over `data`; `raw` copies the data.
fn digest_with(alg: HashAlgorithm, data: &[u8]) -> (r: Vec<u8>)
    ensures
        r@ == digest_of(alg, data@),
        alg != HashAlgorithm::Raw ==> r@.len() == digest_width(alg),
{
    match alg {
        HashAlgorithm::Sha256 => sha256_digest(data),
        HashAlgorithm::Sha384 => sha384_digest(data),
        HashAlgorithm::Sha512 => sha512_digest(data),
        HashAlgorithm::Sha3_256 => sha3_256_digest(data),
        HashAlgorithm::Sha3_384 => sha3_384_digest(data),
        HashAlgorithm::Sha3_512 => sha3_512_digest(data),
        HashAlgorithm::Keccak256 => keccak256_digest(data),
        HashAlgorithm::Keccak384 => keccak384_digest(data),
        HashAlgorithm::Keccak512 => keccak512_digest(data),
        HashAlgorithm::Raw => {
            let mut out: Vec<u8> = Vec::new();
            push_all(&mut out, data);
            out
        },
    }
}

/// `digest` followed by zero bytes up to 64 bytes.
fn pad_to_report_data(digest: Vec<u8>) -> (r: Vec<u8>)
    requires
        digest@.len() <= 64,
    ensures
        r@ == zero_padded(digest@),
        r@.len() == 64,
{
    let mut out = digest;
    while out.len() < REPORT_DATA_LEN
        invariant
            digest@.len() <= out@.len() <= 64,
            out@ == digest@ + zeros((out@.len() - digest@.len()) as nat),
        decreases 64 - out@.len(),
    {
        out.push(0u8);
        assert(out@ =~= digest@ + zeros((out@.len() - digest@.len()) as nat));
    }
    out
}

/// Binds `content` under `tag` into a 64-byte report-data field: the digest of
/// `tag:content` zero-padded on the right, or the content itself for `raw`.
pub fn bind(tag: &[u8], content: &[u8], alg: HashAlgorithm) -> (r: Result<Vec<u8>, BindError>)
    requires
        tag@.len() + content@.len() + 1 <= usize::MAX,
    ensures
        binding_view(r) == binding_of(tag@, content@, alg),
        r matches Ok(v) ==> v@.len() == 64,
        alg != HashAlgorithm::Raw ==> r is Ok && digest_of(alg, tagged(tag@, content@)).len()
            == digest_width(alg),
{
    if alg == HashAlgorithm::Raw {
        if content.len() == REPORT_DATA_LEN {
            let mut out: Vec<u8> = Vec::new();
            push_all(&mut out, content);
            return Ok(out);
        } else {
            return Err(BindError::InvalidLength);
        }
    }
    let mut message: Vec<u8> = Vec::new();
    push_all(&mut message, tag);
    message.push(58u8);
    push_all(&mut message, content);
    assert(message@ =~= tagged(tag@, content@));
    let digest = digest_with(alg, message.as_slice());
    Ok(pad_to_report_data(digest))
}

/// The tag under which application data is bound into a quote.
pub open spec fn app_data_tag() -> Seq<u8> {
    seq![97u8, 112u8, 112u8, 45u8, 100u8, 97u8, 116u8, 97u8]
}

/// The bytes of the tag `app-data`.
pub fn app_data_tag_bytes() -> (r: Vec<u8>)
    ensures
        r@ == app_data_tag(),
{
    let r: Vec<u8> = vec![97u8, 112u8, 112u8, 45u8, 100u8, 97u8, 116u8, 97u8];
    assert(r@ =~= app_data_tag());
    r
}

/// Binds application data into report data with the algorithm that `hash`
/// names: an unknown name is refused, the empty name selects `sha512`.
pub fn to_report_data_with_hash(content: &[u8], hash: &str) -> (r: Result<Vec<u8>, BindError>)
    requires
        content@.len() + 9 <= usize::MAX,
    ensures
        binding_view(r) == named_binding_of(app_data_tag(), content@, hash@),
        r matches Ok(v) ==> v@.len() == 64,
        algorithm_named(hash@) matches Some(alg) ==> (alg != HashAlgorithm::Raw ==> r is Ok
            && digest_of(alg, tagged(app_data_tag(), content@)).len() == digest_width(alg)),
{
    match HashAlgorithm::from_name(hash) {
        Some(alg) => {
            let tag = app_data_tag_bytes();
            bind(tag.as_slice(), content, alg)
        },
        None => Err(BindError::UnsupportedAlgorithm),
    }
}

/// Binding is a function of its inputs: two results that each meet the
/// contract of `bind` for the same tag, content and algorithm are equal, and
/// on success both are 64 bytes long.
pub proof fn lemma_bind_deterministic(
    tag: Seq<u8>,
    content: Seq<u8>,
    alg: HashAlgorithm,
    first: Result<Vec<u8>, BindError>,
    second: Result<Vec<u8>, BindError>,
)
    requires
        binding_view(first) == binding_of(tag, content, alg),
        binding_view(second) == binding_of(tag, content, alg),
        first matches Ok(v) ==> v@.len() == 64,
    ensures
        binding_view(first) == binding_view(second),
        second matches Ok(v) ==> v@.len() == 64,
{
}

/// A `raw` binding succeeds exactly on 64 bytes of content, which it keeps
/// unchanged; on any other length it fails with `InvalidLength`.
pub proof fn lemma_raw_binding(tag: Seq<u8>, content: Seq<u8>)
    ensures
        content.len() == 64 ==> binding_of(tag, content, HashAlgorithm::Raw) == Ok::<
            Seq<u8>,
            BindError,
        >(content),
        content.len() != 64 ==> binding_of(tag, content, HashAlgorithm::Raw) == Err::<
            Seq<u8>,
            BindError,
        >(BindError::InvalidLength),
{
}

/// An unknown selector is refused whatever the tag and content.
pub proof fn lemma_unknown_selector_refused(tag: Seq<u8>, content: Seq<u8>)
    ensures
        named_binding_of(tag, content, "unknown-alg"@) == Err::<Seq<u8>, BindError>(
            BindError::UnsupportedAlgorithm,
        ),
{
    reveal_strlit("unknown-alg");
    reveal_strlit("sha256");
    reveal_strlit("sha384");
    reveal_strlit("sha512");
    reveal_strlit("");
    reveal_strlit("sha3-256");
    reveal_strlit("sha3-384");
    reveal_strlit("sha3-512");
    reveal_strlit("keccak256");
    reveal_strlit("keccak384");
    reveal_strlit("keccak512");
    reveal_strlit("raw");
    assert("unknown-alg"@.len() == 11);
    assert("sha256"@.len() == 6);
    assert("sha384"@.len() == 6);
    assert("sha512"@.len() == 6);
    assert(""@.len() == 0);
    assert("sha3-256"@.len() == 8);
    assert("sha3-384"@.len() == 8);
    assert("sha3-512"@.len() == 8);
    assert("keccak256"@.len() == 9);
    assert("keccak384"@.len() == 9);
    assert("keccak512"@.len() == 9);
    assert("raw"@.len() == 3);
}

} // verus!
