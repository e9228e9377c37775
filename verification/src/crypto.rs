//! The compact text form of an encrypted value: nonce and ciphertext, both in
//! Base64, joined by a colon.
use vstd::prelude::*;
use vstd::string::{StrSliceExecFns, StringExecFns};
use crate::error::AppError;

verus! {

/// An encrypted value: nonce and ciphertext, both Base64 text.
#[derive(Clone, Debug)]
pub struct EncryptedData {
    pub nonce_b64: String,
    pub ciphertext_b64: String,
}

/// `i` is the position of the first colon of `s`.
pub open spec fn first_colon(s: Seq<char>, i: int) -> bool {
    0 <= i < s.len() && s[i] == ':' && forall|j: int| 0 <= j < i ==> s[j] != ':'
}

/// `s` holds no colon.
pub open spec fn no_colon(s: Seq<char>) -> bool {
    forall|j: int| 0 <= j < s.len() ==> s[j] != ':'
}

/// The compact form of a nonce and a ciphertext.
pub open spec fn compact_text(nonce: Seq<char>, ciphertext: Seq<char>) -> Seq<char> {
    nonce + ":"@ + ciphertext
}

fn find_colon(s: &str) -> (found: Option<usize>)
    ensures
        match found {
            Some(i) => first_colon(s@, i as int),
            None => no_colon(s@),
        },
{
    let total = s.unicode_len();
    let mut i: usize = 0;
    for c in it: s.chars()
        invariant
            it.seq() == s@,
            total == s@.len(),
            i == it.index(),
            forall|j: int| 0 <= j < i ==> s@[j] != ':',
    {
        if c == ':' {
            return Some(i);
        }
        i = i + 1;
    }
    None
}

impl EncryptedData {
    /// Joins nonce and ciphertext by a colon.
    pub fn to_compact(&self) -> (compact: String)
        ensures
            compact@ == compact_text(self.nonce_b64@, self.ciphertext_b64@),
    {
        let mut compact = self.nonce_b64.clone();
        compact.append(":");
        compact.append(self.ciphertext_b64.as_str());
        compact
    }

    /// Splits a compact form at its first colon. A text without colon has no
    /// ciphertext and is refused.
    pub fn from_compact(compact: &str) -> (parsed: Result<Self, AppError>)
        ensures
            match parsed {
                Ok(data) => exists|i: int|
                    first_colon(compact@, i) && data.nonce_b64@ == compact@.subrange(0, i)
                        && data.ciphertext_b64@ == compact@.subrange(i + 1, compact@.len() as int),
                Err(error) => no_colon(compact@) && error.detail() == Some(
                    "Missing ciphertext component"@,
                ) && error is Crypto,
            },
    {
        match find_colon(compact) {
            Some(i) => {
                let total = compact.unicode_len();
                let nonce = compact.substring_char(0, i);
                let ciphertext = compact.substring_char(i + 1, total);
                Ok(
                    EncryptedData {
                        nonce_b64: nonce.to_owned(),
                        ciphertext_b64: ciphertext.to_owned(),
                    },
                )
            },
            None => Err(AppError::Crypto("Missing ciphertext component".to_owned())),
        }
    }
}

/// Round trip: a compact form whose nonce holds no colon splits back into the
/// nonce and the ciphertext it was made of.
pub proof fn lemma_compact_round_trip(nonce: Seq<char>, ciphertext: Seq<char>)
    requires
        no_colon(nonce),
    ensures
        first_colon(compact_text(nonce, ciphertext), nonce.len() as int),
        compact_text(nonce, ciphertext).subrange(0, nonce.len() as int) == nonce,
        compact_text(nonce, ciphertext).subrange(
            nonce.len() as int + 1,
            compact_text(nonce, ciphertext).len() as int,
        ) == ciphertext,
{
    reveal_strlit(":");
    let compact = compact_text(nonce, ciphertext);
    assert(compact.len() == nonce.len() + 1 + ciphertext.len());
    assert(compact[nonce.len() as int] == ':');
    assert forall|j: int| 0 <= j < nonce.len() implies compact[j] != ':' by {
        assert(compact[j] == nonce[j]);
    }
    assert(compact.subrange(0, nonce.len() as int) =~= nonce);
    assert(compact.subrange(nonce.len() as int + 1, compact.len() as int) =~= ciphertext);
}

} // verus!
