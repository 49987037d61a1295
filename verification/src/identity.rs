//! Device identity: a stable UUID persisted across restarts, plus the
//! per-process keypair announced during the handshake.
//!
//! The identity file holds exactly the 16 raw bytes of the UUID.  Reading
//! and writing that file is the caller's part; this module decides what the
//! bytes mean and what must be written back.  The keypair is generated anew
//! on every process start and is never persisted: if a collector pins the
//! public key, that pinning breaks across restarts — a known gap of the
//! current design, recorded here rather than papered over.

use vstd::prelude::*;

use crate::message::ID_LEN;

verus! {

/// Identity-store failures; both are fatal at startup.
#[derive(Clone, Copy, Debug, PartialEq, Eq, Structural)]
pub enum IdentityError {
    /// An existing identity file cannot be parsed as a valid UUID.
    IdentityCorrupt,
    /// No identity exists and the target location cannot be written.
    IdentityUnwritable,
}

/// The device's identity for one process lifetime.
pub struct DeviceIdentity {
    /// The 16 raw bytes of the device UUID; never changes once persisted.
    pub id: Vec<u8>,

    /// Public key in uncompressed SEC1 form, announced in the handshake.
    pub public_key: Vec<u8>,

    /// Raw secret scalar; never transmitted.
    pub private_key: Vec<u8>,
}

impl DeviceIdentity {
    /// Well-formedness: one UUID's worth of id bytes, and P-384-sized keys.
    pub open spec fn wf(&self) -> bool {
        &&& self.id@.len() == ID_LEN as int
        &&& self.public_key@.len() == 97
        &&& self.private_key@.len() == 48
    }
}

/// Result of loading or creating the identity.
pub struct LoadOutcome {
    /// The identity this process will report under.
    pub identity: DeviceIdentity,

    /// `Some(bytes)` exactly when a fresh identity must be persisted to the
    /// identity file; `None` when a valid file was already present.
    pub persist: Option<Vec<u8>>,
}

/// The file contents as a mathematical value: `None` when no file exists.
pub open spec fn file_view(existing: Option<Vec<u8>>) -> Option<Seq<u8>> {
    match existing {
        Some(b) => Some(b@),
        None => None,
    }
}

/// Everything `load_or_create` promises, as one predicate over the identity
/// file's contents and the result.
pub open spec fn load_post(existing: Option<Seq<u8>>, r: Result<LoadOutcome, IdentityError>) -> bool {
    match existing {
        Some(b) => {
            if b.len() == 16 {
                r matches Ok(o) && o.identity.id@ == b && o.persist is None && o.identity.wf()
            } else {
                r == Err::<LoadOutcome, IdentityError>(IdentityError::IdentityCorrupt)
            }
        },
        None => {
            r matches Ok(o) && o.identity.wf() && (o.persist matches Some(w)
                && w@ == o.identity.id@)
        },
    }
}

/// Relies on `uuid::Uuid::new_v4`: a freshly generated random UUID, handed
/// back as its 16 raw bytes.  The value is random, so nothing is assumed of
/// it beyond its length.
#[verifier::external_body]
fn fresh_uuid_bytes() -> (r: Vec<u8>)
    ensures
        r@.len() == 16,
{
    uuid::Uuid::new_v4().as_bytes().to_vec()
}

/// Relies on `uuid::Uuid::from_slice`: it accepts exactly the slices of 16
/// bytes, and `Uuid::as_bytes` hands those same bytes back unchanged.
#[verifier::external_body]
fn parse_uuid_bytes(b: &Vec<u8>) -> (r: Option<Vec<u8>>)
    ensures
        r is Some <==> b@.len() == 16,
        r matches Some(v) ==> v@ == b@,
{
    match uuid::Uuid::from_slice(b.as_slice()) {
        Ok(u) => Some(u.as_bytes().to_vec()),
        Err(_) => None,
    }
}

/// Relies on `p384::SecretKey::random` (fed by `rand::thread_rng`) for a
/// fresh P-384 keypair.  `PublicKey::to_sec1_bytes` yields the uncompressed
/// SEC1 point (97 bytes; p384 does not compress points), and
/// `SecretKey::to_bytes` the raw scalar (48 big-endian bytes).  The keys are
/// random, so nothing is assumed of them beyond those lengths.
#[verifier::external_body]
fn generate_keypair() -> (r: (Vec<u8>, Vec<u8>))
    ensures
        r.0@.len() == 97,
        r.1@.len() == 48,
{
    let secret = p384::SecretKey::random(&mut rand::thread_rng());
    let public = secret.public_key();
    (public.to_sec1_bytes().to_vec(), secret.to_bytes().to_vec())
}

/// An element-wise copy of `v`.
pub(crate) fn copy_bytes(v: &Vec<u8>) -> (r: Vec<u8>)
    ensures
        r@ == v@,
{
    let n: usize = v.len();
    let mut out: Vec<u8> = Vec::new();
    let mut i: usize = 0;
    while i < n
        invariant
            i <= n,
            n == v@.len(),
            out@ == v@.take(i as int),
        decreases n - i,
    {
        out.push(v[i]);
        assert(out@ =~= v@.take(i as int + 1));
        i = i + 1;
    }
    assert(out@ =~= v@);
    out
}

/// Load the device identity from the identity file's contents, or create a
/// fresh one.  `existing` is the file's bytes, `None` when no file exists.
///
/// On `Ok`, `persist` holds the bytes the caller must write to the identity
/// file — `Some` exactly on first run.  An unparsable file (any length but
/// 16) is `IdentityCorrupt`, and `persist` cannot ask for a write: the file
/// is left as it stands.  A fresh keypair is generated either way, because
/// keys are per-process and never persisted.
pub fn load_or_create(existing: Option<Vec<u8>>) -> (r: Result<LoadOutcome, IdentityError>)
    ensures
        load_post(file_view(existing), r),
{
    let (public_key, private_key) = generate_keypair();
    match existing {
        Some(bytes) => {
            match parse_uuid_bytes(&bytes) {
                Some(id) => Ok(LoadOutcome {
                    identity: DeviceIdentity { id, public_key, private_key },
                    persist: None,
                }),
                None => Err(IdentityError::IdentityCorrupt),
            }
        },
        None => {
            let id = fresh_uuid_bytes();
            let persist = copy_bytes(&id);
            Ok(LoadOutcome {
                identity: DeviceIdentity { id, public_key, private_key },
                persist: Some(persist),
            })
        },
    }
}

/// Idempotence of `load_or_create` on a valid persisted identity: two loads
/// over the same 16-byte file both succeed with that id, and neither asks
/// for the file to be rewritten — so a second call without deleting the file
/// yields the same id as the first.
pub proof fn lemma_load_or_create_idempotent(
    b: Seq<u8>,
    r1: Result<LoadOutcome, IdentityError>,
    r2: Result<LoadOutcome, IdentityError>,
)
    requires
        b.len() == 16,
        load_post(Some(b), r1),
        load_post(Some(b), r2),
    ensures
        r1 matches Ok(o1) && r2 matches Ok(o2) && o1.identity.id@ == o2.identity.id@,
        r1 matches Ok(o1) && o1.persist is None,
        r2 matches Ok(o2) && o2.persist is None,
{
}

/// A malformed identity file (any length but 16 bytes) is rejected as
/// `IdentityCorrupt`, and the outcome carries no bytes to write: the file is
/// not overwritten.
pub proof fn lemma_load_or_create_rejects_malformed(
    b: Seq<u8>,
    r: Result<LoadOutcome, IdentityError>,
)
    requires
        b.len() != 16,
        load_post(Some(b), r),
    ensures
        r == Err::<LoadOutcome, IdentityError>(IdentityError::IdentityCorrupt),
{
}

} // verus!
