//! A candidate key: one generated key together with the creation time it
//! was generated with.
use vstd::prelude::*;
use crate::timestamp::Timestamp;
use crate::keygen::{GeneratedKey, key_params, generate_key, key_fingerprint, sign_key, armor_key, copy_key};
use hex::ToHex;

verus! {

/// Lowercase hexadecimal digit for a value below sixteen.
pub open spec fn hex_digit(n: int) -> char {
    seq!['0', '1', '2', '3', '4', '5', '6', '7', '8', '9', 'a', 'b', 'c', 'd', 'e', 'f'][n]
}

/// Lowercase hexadecimal text of a byte sequence, two digits per byte,
/// high digit first.
pub open spec fn hex_of(b: Seq<u8>) -> Seq<char>
    decreases b.len(),
{
    if b.len() == 0 {
        seq![]
    } else {
        hex_of(b.drop_last()) + seq![hex_digit(b.last() as int / 16), hex_digit(b.last() as int % 16)]
    }
}

/// Hexadecimal text has two digits per byte.
pub proof fn lemma_hex_len(b: Seq<u8>)
    ensures
        hex_of(b).len() == 2 * b.len(),
    decreases b.len(),
{
    if b.len() > 0 {
        lemma_hex_len(b.drop_last());
    }
}

/// Hexadecimal fingerprint text is plain ASCII.
pub proof fn lemma_hex_is_ascii(b: Seq<u8>)
    ensures
        vstd::utf8::is_ascii_chars(hex_of(b)),
    decreases b.len(),
{
    if b.len() > 0 {
        lemma_hex_is_ascii(b.drop_last());
        let h = hex_of(b.drop_last());
        let d = seq![hex_digit(b.last() as int / 16), hex_digit(b.last() as int % 16)];
        assert(hex_of(b) == h + d);
        assert forall|i| 0 <= i < hex_of(b).len() implies '\0' <= #[trigger] hex_of(b)[i]
            <= '\u{7f}' by {
            if i >= h.len() {
                assert(hex_of(b)[i] == d[i - h.len()]);
            } else {
                assert(hex_of(b)[i] == h[i]);
            }
        }
    }
}

/// Relies on hex's `ToHex::encode_hex`: two lowercase digits per byte,
/// high digit first.
#[verifier::external_body]
fn encode_hex(bytes: &Vec<u8>) -> (r: String)
    ensures
        r@ == hex_of(bytes@),
{
    bytes.encode_hex::<String>()
}

/// Why an operation on a [`Candidate`] failed.
#[derive(Clone, Copy, Debug, PartialEq, Eq, Structural)]
pub enum KeyError {
    /// The key generator could not build a key.
    GenerationFailure,
    /// A fingerprint or an export was asked for before any key was generated.
    NotGenerated,
    /// Signing or armoring the key failed.
    ExportFailure,
}

/// One keypair under construction, with the identity it belongs to and the
/// creation time the next generation will use.
///
/// `generated_at` records the creation time the current key was generated
/// with; it is `None` exactly when no key has been generated yet.
/// `fingerprint_bytes` holds the current key's fingerprint, read once when
/// the key is generated.
pub struct Candidate {
    identity: String,
    created_at: Timestamp,
    key: Option<GeneratedKey>,
    generated_at: Option<Timestamp>,
    fingerprint_bytes: Vec<u8>,
}

impl Candidate {
    pub closed spec fn spec_identity(&self) -> Seq<char> {
        self.identity@
    }

    pub closed spec fn spec_created_at(&self) -> Timestamp {
        self.created_at
    }

    pub closed spec fn spec_generated_at(&self) -> Option<Timestamp> {
        self.generated_at
    }

    /// The fingerprint bytes of the current key (empty before the first key).
    pub closed spec fn spec_fingerprint(&self) -> Seq<u8> {
        self.fingerprint_bytes@
    }

    /// The user id and creation time (in seconds) the current key was
    /// generated from, if there is a key.
    pub closed spec fn spec_key_origin(&self) -> Option<(Seq<char>, int)> {
        match self.key {
            Some(k) => Some((k.spec_identity(), k.spec_created_at())),
            None => None,
        }
    }

    pub closed spec fn wf(&self) -> bool {
        &&& self.created_at.wf()
        &&& self.key matches Some(k) ==> self.generated_at matches Some(t) && t.spec_secs()
            == k.spec_created_at()
        &&& self.key is None ==> self.fingerprint_bytes@.len() == 0
        &&& self.key is Some ==> self.fingerprint_bytes@.len() == 20
        &&& self.key is Some <==> self.generated_at is Some
    }

    /// The key was generated with the current creation time: the state in
    /// which a fingerprint may be asked for.
    pub open spec fn is_consistent(&self) -> bool {
        self.spec_generated_at() matches Some(t) ==> t == self.spec_created_at()
    }

    /// `new` is `old` after one backflow step.
    pub open spec fn backflow_post(old: &Candidate, new: &Candidate) -> bool {
        &&& new.wf()
        &&& new.spec_created_at().spec_secs() == old.spec_created_at().spec_secs() - 1
        &&& new.spec_identity() == old.spec_identity()
        &&& new.spec_generated_at() == old.spec_generated_at()
        &&& new.spec_fingerprint() == old.spec_fingerprint()
        &&& new.spec_key_origin() == old.spec_key_origin()
    }

    /// `new` is `old` after a successful regeneration.
    pub open spec fn regenerate_post(old: &Candidate, new: &Candidate) -> bool {
        &&& new.wf()
        &&& new.spec_identity() == old.spec_identity()
        &&& new.spec_created_at() == old.spec_created_at()
        &&& new.spec_generated_at() == Some(old.spec_created_at())
        &&& new.spec_fingerprint().len() == 20
        &&& new.spec_key_origin() == Some((old.spec_identity(), old.spec_created_at().spec_secs()))
    }

    /// A candidate for `identity` anchored at `created_at`, with no key yet.
    pub fn new(identity: &str, created_at: Timestamp) -> (r: Candidate)
        requires
            created_at.wf(),
        ensures
            r.wf(),
            r.spec_identity() == identity@,
            r.spec_created_at() == created_at,
            r.spec_generated_at() is None,
            r.spec_fingerprint().len() == 0,
            r.spec_key_origin() is None,
    {
        Candidate {
            identity: identity.to_owned(),
            created_at,
            key: None,
            generated_at: None,
            fingerprint_bytes: Vec::new(),
        }
    }

    pub fn identity(&self) -> (r: &str)
        ensures
            r@ == self.spec_identity(),
    {
        self.identity.as_str()
    }

    pub fn created_at(&self) -> (r: Timestamp)
        ensures
            r == self.spec_created_at(),
    {
        self.created_at
    }

    /// The creation time the current key was generated with, if any.
    pub fn generated_at(&self) -> (r: Option<Timestamp>)
        ensures
            r == self.spec_generated_at(),
    {
        self.generated_at
    }

    /// Moves the creation time one second into the past. The key is left as
    /// it was, so it is stale until [`Candidate::regenerate`] runs.
    pub fn backflow(&mut self)
        requires
            old(self).wf(),
            Timestamp::in_range(old(self).spec_created_at().spec_secs() - 1),
        ensures
            Self::backflow_post(old(self), final(self)),
    {
        self.created_at.backflow();
    }

    /// Generates a fresh key with the current identity and creation time.
    /// On failure the candidate is left as it was.
    pub fn regenerate(&mut self) -> (r: Result<(), KeyError>)
        requires
            old(self).wf(),
        ensures
            final(self).wf(),
            final(self).spec_identity() == old(self).spec_identity(),
            final(self).spec_created_at() == old(self).spec_created_at(),
            r is Ok ==> Self::regenerate_post(old(self), final(self)),
            r is Err ==> r == Err::<(), KeyError>(KeyError::GenerationFailure)
                && final(self).spec_generated_at() == old(self).spec_generated_at()
                && final(self).spec_fingerprint() == old(self).spec_fingerprint()
                && final(self).spec_key_origin() == old(self).spec_key_origin(),
    {
        let params = match key_params(self.identity.as_str(), self.created_at.secs()) {
            Ok(p) => p,
            Err(_) => return Err(KeyError::GenerationFailure),
        };
        match generate_key(params) {
            Ok(k) => {
                self.fingerprint_bytes = key_fingerprint(&k);
                self.key = Some(k);
                self.generated_at = Some(self.created_at);
                Ok(())
            },
            Err(_) => Err(KeyError::GenerationFailure),
        }
    }

    /// The key's fingerprint as lowercase hexadecimal text.
    pub fn fingerprint(&self) -> (r: Result<String, KeyError>)
        requires
            self.wf(),
            self.is_consistent(),
        ensures
            self.spec_generated_at() is None ==> r == Err::<String, KeyError>(KeyError::NotGenerated),
            self.spec_generated_at() is Some ==> (r matches Ok(s) && s@ == hex_of(self.spec_fingerprint())),
            r matches Ok(s) ==> s@.len() == 40 && vstd::utf8::is_ascii_chars(s@),
    {
        match &self.key {
            Some(_) => {
                let s = encode_hex(&self.fingerprint_bytes);
                proof {
                    lemma_hex_is_ascii(self.fingerprint_bytes@);
                    lemma_hex_len(self.fingerprint_bytes@);
                }
                Ok(s)
            },
            None => Err(KeyError::NotGenerated),
        }
    }

    /// The key, self-signed and armored as portable text.
    pub fn export(&self) -> (r: Result<String, KeyError>)
        requires
            self.wf(),
        ensures
            self.spec_generated_at() is None <==> r == Err::<String, KeyError>(KeyError::NotGenerated),
            self.spec_generated_at() is Some ==> (r is Ok || r == Err::<String, KeyError>(KeyError::ExportFailure)),
    {
        match &self.key {
            Some(k) => {
                let signed = match sign_key(k) {
                    Ok(s) => s,
                    Err(_) => return Err(KeyError::ExportFailure),
                };
                match armor_key(&signed) {
                    Ok(text) => Ok(text),
                    Err(_) => Err(KeyError::ExportFailure),
                }
            },
            None => Err(KeyError::NotGenerated),
        }
    }

    /// A copy of this candidate, key included.
    pub fn duplicate(&self) -> (r: Candidate)
        requires
            self.wf(),
        ensures
            r.wf(),
            r.spec_identity() == self.spec_identity(),
            r.spec_created_at() == self.spec_created_at(),
            r.spec_generated_at() == self.spec_generated_at(),
            r.spec_fingerprint() == self.spec_fingerprint(),
            r.spec_key_origin() == self.spec_key_origin(),
    {
        let key = match &self.key {
            Some(k) => Some(copy_key(k)),
            None => None,
        };
        Candidate {
            identity: self.identity.clone(),
            created_at: self.created_at,
            key,
            generated_at: self.generated_at,
            fingerprint_bytes: self.fingerprint_bytes.clone(),
        }
    }
}

/// Matching a generated key's fingerprint: the empty suffix always matches,
/// and a suffix longer than the 40 hexadecimal digits never does.
pub proof fn lemma_fingerprint_match_edges(c: &Candidate, target: Seq<char>)
    requires
        c.wf(),
        c.spec_generated_at() is Some,
    ensures
        hex_of(c.spec_fingerprint()).len() == 40,
        target.len() == 0 ==> crate::matching::ends_with(hex_of(c.spec_fingerprint()), target),
        target.len() > 40 ==> !crate::matching::ends_with(hex_of(c.spec_fingerprint()), target),
{
    lemma_hex_len(c.spec_fingerprint());
    crate::matching::lemma_match_edges(hex_of(c.spec_fingerprint()), target);
}

/// A run of `n` consecutive backflow steps on a candidate (`steps[0]` the
/// start, each next entry the previous one after `Candidate::backflow`)
/// moves its creation time exactly `n` seconds back and leaves its key as
/// it was.
pub proof fn lemma_candidate_backflow_run(steps: Seq<Candidate>)
    requires
        steps.len() > 0,
        forall|i: int|
            0 <= i < steps.len() - 1 ==> #[trigger] Candidate::backflow_post(&steps[i], &steps[i + 1]),
    ensures
        steps.last().spec_created_at().spec_secs() == steps[0].spec_created_at().spec_secs() - (
        steps.len() - 1),
        steps.last().spec_key_origin() == steps[0].spec_key_origin(),
        steps.last().spec_fingerprint() == steps[0].spec_fingerprint(),
    decreases steps.len(),
{
    if steps.len() > 1 {
        let prefix = steps.drop_last();
        assert forall|i: int| 0 <= i < prefix.len() - 1 implies #[trigger] Candidate::backflow_post(
            &prefix[i],
            &prefix[i + 1],
        ) by {
            assert(Candidate::backflow_post(&steps[i], &steps[i + 1]));
        }
        lemma_candidate_backflow_run(prefix);
        let k = steps.len() - 2;
        assert(Candidate::backflow_post(&steps[k], &steps[k + 1]));
        assert(prefix.last() == steps[k]);
    }
}

/// A key regenerated after a backflow step is never the key from before
/// the step: it was generated with the new creation time, which is one
/// second earlier than the time the earlier key reflects.
pub proof fn lemma_regenerate_after_backflow(c0: &Candidate, c1: &Candidate, c2: &Candidate)
    requires
        c0.wf(),
        c0.is_consistent(),
        Candidate::backflow_post(c0, c1),
        Candidate::regenerate_post(c1, c2),
    ensures
        c2.is_consistent(),
        c2.spec_generated_at() == Some(c2.spec_created_at()),
        c2.spec_created_at().spec_secs() == c0.spec_created_at().spec_secs() - 1,
        c2.spec_generated_at() != c0.spec_generated_at(),
        c2.spec_key_origin() == Some((c0.spec_identity(), c0.spec_created_at().spec_secs() - 1)),
{
}

} // verus!
