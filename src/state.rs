use vstd::bytes::{
    lemma_auto_spec_u64_to_from_le_bytes, spec_u64_from_le_bytes, spec_u64_to_le_bytes,
    u64_from_le_bytes, u64_to_le_bytes,
};
use vstd::prelude::*;
use vstd::slice::slice_subrange;

use crate::error::ProcessError;

verus! {

/// Size in bytes of a stored escrow record.
pub const ESCROW_LEN: usize = 105;

/// A 32-byte account identity.
pub type Key = [u8; 32];

/// The persisted state of one open trade.
#[derive(Debug, Clone, Copy, PartialEq, Eq)]
pub struct Escrow {
    pub is_initialized: bool,
    pub initializer_pubkey: Key,
    pub temp_token_account_pubkey: Key,
    pub initializer_token_to_receive_account_pubkey: Key,
    pub expected_amount: u64,
}

/// An escrow record with its identities as byte sequences.
pub struct EscrowModel {
    pub is_initialized: bool,
    pub initializer: Seq<u8>,
    pub temp_token_account: Seq<u8>,
    pub receive_account: Seq<u8>,
    pub expected_amount: u64,
}

impl View for Escrow {
    type V = EscrowModel;

    open spec fn view(&self) -> EscrowModel {
        EscrowModel {
            is_initialized: self.is_initialized,
            initializer: self.initializer_pubkey@,
            temp_token_account: self.temp_token_account_pubkey@,
            receive_account: self.initializer_token_to_receive_account_pubkey@,
            expected_amount: self.expected_amount,
        }
    }
}

/// The stored layout: flag byte, the three identities, the amount little-endian.
pub open spec fn record_bytes(m: EscrowModel) -> Seq<u8> {
    seq![if m.is_initialized { 1u8 } else { 0u8 }] + m.initializer + m.temp_token_account
        + m.receive_account + spec_u64_to_le_bytes(m.expected_amount)
}

/// Reads a stored record without asking that it be initialized.
pub open spec fn decode_record(s: Seq<u8>) -> Result<EscrowModel, ProcessError> {
    if s.len() != ESCROW_LEN || s[0] > 1 {
        Err(ProcessError::InvalidAccountData)
    } else {
        Ok(
            EscrowModel {
                is_initialized: s[0] == 1,
                initializer: s.subrange(1, 33),
                temp_token_account: s.subrange(33, 65),
                receive_account: s.subrange(65, 97),
                expected_amount: spec_u64_from_le_bytes(s.subrange(97, 105)),
            },
        )
    }
}

/// Reads a stored record that must already be initialized.
pub open spec fn decode_initialized_record(s: Seq<u8>) -> Result<EscrowModel, ProcessError> {
    match decode_record(s) {
        Ok(m) => if m.is_initialized {
            Ok(m)
        } else {
            Err(ProcessError::UninitializedAccount)
        },
        Err(e) => Err(e),
    }
}

/// Identities in a model are 32 bytes long.
pub open spec fn model_well_formed(m: EscrowModel) -> bool {
    &&& m.initializer.len() == 32
    &&& m.temp_token_account.len() == 32
    &&& m.receive_account.len() == 32
}

/// A stored record reads back as the record that was stored.
pub proof fn lemma_record_round_trip(m: EscrowModel)
    requires
        model_well_formed(m),
    ensures
        record_bytes(m).len() == ESCROW_LEN,
        decode_record(record_bytes(m)) == Ok::<EscrowModel, ProcessError>(m),
{
    lemma_auto_spec_u64_to_from_le_bytes();
    let s = record_bytes(m);
    assert(s.subrange(1, 33) =~= m.initializer);
    assert(s.subrange(33, 65) =~= m.temp_token_account);
    assert(s.subrange(65, 97) =~= m.receive_account);
    assert(s.subrange(97, 105) =~= spec_u64_to_le_bytes(m.expected_amount));
}

/// Copies the 32 bytes at `start` into an identity.
fn read_key(s: &[u8], start: usize) -> (r: Key)
    requires
        start + 32 <= s@.len(),
    ensures
        r@ == s@.subrange(start as int, start + 32),
{
    let mut r: Key = [0u8; 32];
    let len: usize = s.len();
    let mut i: usize = 0;
    while i < 32
        invariant
            start + 32 <= s@.len(),
            len == s@.len(),
            i <= 32,
            forall|j: int| 0 <= j < i ==> r@[j] == s@[start + j],
        decreases 32 - i,
    {
        r[i] = s[start + i];
        i = i + 1;
    }
    assert(r@ =~= s@.subrange(start as int, start + 32));
    r
}

/// Appends an identity's bytes.
fn push_key(out: &mut Vec<u8>, k: &Key)
    ensures
        final(out)@ == old(out)@ + k@,
{
    let mut i: usize = 0;
    while i < 32
        invariant
            i <= 32,
            out@ == old(out)@ + k@.subrange(0, i as int),
        decreases 32 - i,
    {
        out.push(k[i]);
        i = i + 1;
        assert(k@.subrange(0, i as int) =~= k@.subrange(0, i - 1) + seq![k@[i - 1]]);
    }
    assert(k@.subrange(0, 32) =~= k@);
}

/// Whether two identities are the same.
pub fn same_key(a: &Key, b: &Key) -> (r: bool)
    ensures
        r == (a@ == b@),
{
    let mut i: usize = 0;
    while i < 32
        invariant
            i <= 32,
            forall|j: int| 0 <= j < i ==> a@[j] == b@[j],
        decreases 32 - i,
    {
        if a[i] != b[i] {
            return false;
        }
        i = i + 1;
    }
    assert(a@ =~= b@);
    true
}

impl Escrow {
    /// The stored bytes of this record.
    pub fn to_bytes(&self) -> (r: Vec<u8>)
        ensures
            r@ == record_bytes(self@),
    {
        let mut out: Vec<u8> = Vec::new();
        out.push(if self.is_initialized { 1u8 } else { 0u8 });
        push_key(&mut out, &self.initializer_pubkey);
        push_key(&mut out, &self.temp_token_account_pubkey);
        push_key(&mut out, &self.initializer_token_to_receive_account_pubkey);
        let mut amount = u64_to_le_bytes(self.expected_amount);
        out.append(&mut amount);
        out
    }

    /// Stores this record into an account's data, which must be exactly the
    /// record's size; on failure the data is left as it was.
    pub fn pack(&self, dst: &mut Vec<u8>) -> (r: Result<(), ProcessError>)
        ensures
            r is Ok <==> old(dst)@.len() == ESCROW_LEN,
            r is Ok ==> final(dst)@ == record_bytes(self@),
            r is Err ==> r == Err::<(), ProcessError>(ProcessError::InvalidAccountData)
                && final(dst)@ == old(dst)@,
    {
        if dst.len() != ESCROW_LEN {
            return Err(ProcessError::InvalidAccountData);
        }
        *dst = self.to_bytes();
        Ok(())
    }

    /// Reads a record without asking that it be initialized.
    pub fn unpack_unchecked(s: &[u8]) -> (r: Result<Escrow, ProcessError>)
        ensures
            match (r, decode_record(s@)) {
                (Ok(e), Ok(m)) => e@ == m,
                (Err(e), Err(f)) => e == f,
                _ => false,
            },
    {
        if s.len() != ESCROW_LEN || s[0] > 1 {
            return Err(ProcessError::InvalidAccountData);
        }
        let amount = u64_from_le_bytes(slice_subrange(s, 97, 105));
        Ok(
            Escrow {
                is_initialized: s[0] == 1,
                initializer_pubkey: read_key(s, 1),
                temp_token_account_pubkey: read_key(s, 33),
                initializer_token_to_receive_account_pubkey: read_key(s, 65),
                expected_amount: amount,
            },
        )
    }

    /// Reads a record that must already be initialized.
    pub fn unpack(s: &[u8]) -> (r: Result<Escrow, ProcessError>)
        ensures
            match (r, decode_initialized_record(s@)) {
                (Ok(e), Ok(m)) => e@ == m,
                (Err(e), Err(f)) => e == f,
                _ => false,
            },
    {
        let e = Escrow::unpack_unchecked(s)?;
        if e.is_initialized {
            Ok(e)
        } else {
            Err(ProcessError::UninitializedAccount)
        }
    }
}

} // verus!
