use vstd::prelude::*;
use crate::error::GameError;

verus! {

/// Number of bytes in an identity.
pub const IDENTITY_LEN: usize = 32;

/// A participant's public identity: 32 opaque bytes.
#[derive(Clone, Copy, Debug, PartialEq, Eq)]
pub struct Identity {
    pub bytes: [u8; 32],
}

impl View for Identity {
    type V = Seq<u8>;

    open spec fn view(&self) -> Seq<u8> {
        self.bytes@
    }
}

/// The unset identity is the one whose bytes are all zero.
pub open spec fn is_unset(id: Seq<u8>) -> bool {
    forall|i: int| 0 <= i < id.len() ==> id[i] == 0u8
}

/// Thirty-two zero bytes: what a record holds where no buyer is recorded.
pub open spec fn unset_bytes() -> Seq<u8> {
    Seq::new(32, |i: int| 0u8)
}

impl Identity {
    /// The identity that a slice of exactly 32 bytes spells.
    pub fn from_bytes(bytes: &[u8]) -> (r: Result<Identity, GameError>)
        ensures
            bytes@.len() == 32 ==> r is Ok && r->Ok_0@ == bytes@,
            bytes@.len() != 32 ==> r == Err::<Identity, GameError>(GameError::MalformedInput),
    {
        if bytes.len() != 32 {
            return Err(GameError::MalformedInput);
        }
        let mut out: [u8; 32] = [0u8; 32];
        let mut i: usize = 0;
        while i < 32
            invariant
                i <= 32,
                bytes@.len() == 32,
                forall|j: int| 0 <= j < i ==> out@[j] == bytes@[j],
            decreases 32 - i,
        {
            out[i] = bytes[i];
            i += 1;
        }
        assert(out@ =~= bytes@);
        Ok(Identity { bytes: out })
    }

    /// Whether this is the unset identity.
    pub fn is_default(&self) -> (r: bool)
        ensures
            r == is_unset(self@),
    {
        let mut i: usize = 0;
        while i < 32
            invariant
                i <= 32,
                forall|j: int| 0 <= j < i ==> self.bytes@[j] == 0u8,
            decreases 32 - i,
        {
            if self.bytes[i] != 0 {
                return false;
            }
            i += 1;
        }
        true
    }

    /// Whether two identities have the same bytes.
    pub fn same_as(&self, other: &Identity) -> (r: bool)
        ensures
            r == (self@ == other@),
    {
        let mut i: usize = 0;
        while i < 32
            invariant
                i <= 32,
                forall|j: int| 0 <= j < i ==> self.bytes@[j] == other.bytes@[j],
            decreases 32 - i,
        {
            if self.bytes[i] != other.bytes[i] {
                return false;
            }
            i += 1;
        }
        assert(self@ =~= other@);
        true
    }
}

/// Accepts a real identity and refuses the unset one.
pub fn require_identity_initialized(pubkey: &Identity) -> (r: Result<(), GameError>)
    ensures
        !is_unset(pubkey@) ==> r == Ok::<(), GameError>(()),
        is_unset(pubkey@) ==> r == Err::<(), GameError>(GameError::UninitializedParticipant),
{
    if pubkey.is_default() {
        Err(GameError::UninitializedParticipant)
    } else {
        Ok(())
    }
}

/// Whether `who` stands on the whitelist.
pub open spec fn listed(whitelist: Seq<Identity>, who: Seq<u8>) -> bool {
    exists|i: int| 0 <= i < whitelist.len() && (#[trigger] whitelist[i])@ == who
}

/// Looks `who` up on the whitelist.
pub fn is_whitelisted(whitelist: &[Identity], who: &Identity) -> (r: bool)
    ensures
        r == listed(whitelist@, who@),
{
    let mut i: usize = 0;
    while i < whitelist.len()
        invariant
            i <= whitelist@.len(),
            forall|j: int| 0 <= j < i ==> (#[trigger] whitelist@[j])@ != who@,
        decreases whitelist@.len() - i,
    {
        if whitelist[i].same_as(who) {
            return true;
        }
        i += 1;
    }
    false
}

/// The `i`-th entry of whitelist data: identities laid end to end, 32 bytes each.
pub open spec fn whitelist_entry(data: Seq<u8>, i: int) -> Seq<u8> {
    data.subrange(32 * i, 32 * i + 32)
}

/// Reads a whitelist from the data that holds it. Data whose length is no
/// multiple of 32 is refused; otherwise every entry comes out, in order.
pub fn parse_whitelist(data: &[u8]) -> (r: Result<Vec<Identity>, GameError>)
    ensures
        data@.len() % 32 == 0 ==> r is Ok && r->Ok_0@.len() == data@.len() / 32 && forall|i: int|
            0 <= i < r->Ok_0@.len() ==> (#[trigger] r->Ok_0@[i])@ == whitelist_entry(data@, i),
        data@.len() % 32 != 0 ==> r is Err && r->Err_0 == GameError::MalformedInput,
{
    if data.len() % IDENTITY_LEN != 0 {
        return Err(GameError::MalformedInput);
    }
    let count: usize = data.len() / IDENTITY_LEN;
    let mut out: Vec<Identity> = Vec::new();
    let mut i: usize = 0;
    while i < count
        invariant
            i <= count,
            data@.len() == 32 * count,
            data@.len() <= usize::MAX,
            out@.len() == i,
            forall|j: int| 0 <= j < i ==> (#[trigger] out@[j])@ == whitelist_entry(data@, j),
        decreases count - i,
    {
        let at: usize = IDENTITY_LEN * i;
        let entry = vstd::slice::slice_subrange(data, at, at + IDENTITY_LEN);
        match Identity::from_bytes(entry) {
            Ok(id) => {
                out.push(id);
            },
            Err(e) => {
                return Err(e);
            },
        }
        i += 1;
    }
    Ok(out)
}

} // verus!
