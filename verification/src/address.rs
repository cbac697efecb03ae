//! Plain 32-byte account addresses, and the program identifiers the analysis
//! compares against.
//!
//! The library never talks to the ledger itself, so an address is just its 32
//! bytes; callers that use a richer key type convert at the boundary.

use vstd::prelude::*;

verus! {

/// A 32-byte account address on the ledger.
#[derive(Debug, Clone, Copy)]
pub struct Address {
    pub bytes: [u8; 32],
}

impl View for Address {
    type V = Seq<u8>;

    open spec fn view(&self) -> Seq<u8> {
        self.bytes@
    }
}

impl Address {
    /// Wraps raw bytes as an address.
    pub fn new(bytes: [u8; 32]) -> (r: Address)
        ensures
            r@ == bytes@,
    {
        Address { bytes }
    }

    /// Byte-wise equality of two addresses.
    pub fn eq_addr(&self, other: &Address) -> (r: bool)
        ensures
            r == (self@ == other@),
    {
        let mut i: usize = 0;
        while i < 32
            invariant
                0 <= i <= 32,
                forall|j: int| 0 <= j < i ==> self.bytes@[j] == other.bytes@[j],
            decreases 32 - i,
        {
            if self.bytes[i] != other.bytes[i] {
                assert(self@[i as int] != other@[i as int]);
                return false;
            }
            i += 1;
        }
        assert(self@ =~= other@);
        true
    }
}

/// The extended token program's identifier.
pub open spec fn extended_token_program_id() -> Seq<u8> {
    seq![
        6u8, 221, 246, 225, 238, 117, 143, 222, 24, 66, 93, 188, 228, 108, 205, 218, 182, 26, 252,
        77, 131, 185, 13, 39, 254, 189, 249, 40, 216, 161, 139, 252,
    ]
}

/// The legacy token program's identifier.
pub open spec fn legacy_token_program_id() -> Seq<u8> {
    seq![
        6u8, 221, 246, 225, 215, 101, 161, 147, 217, 203, 225, 70, 206, 235, 121, 172, 28, 180,
        133, 237, 95, 91, 55, 145, 58, 140, 245, 133, 126, 255, 0, 169,
    ]
}

/// The metadata program's identifier.
pub open spec fn metadata_program_id() -> Seq<u8> {
    seq![
        11u8, 112, 101, 177, 227, 209, 124, 69, 56, 157, 82, 127, 107, 4, 195, 205, 88, 184, 108,
        115, 26, 160, 253, 181, 73, 182, 209, 188, 3, 248, 41, 70,
    ]
}

/// The extended token program's identifier, as an address value.
pub fn extended_token_program() -> (r: Address)
    ensures
        r@ == extended_token_program_id(),
{
    let a = Address::new(
        [
            6u8, 221, 246, 225, 238, 117, 143, 222, 24, 66, 93, 188, 228, 108, 205, 218, 182, 26,
            252, 77, 131, 185, 13, 39, 254, 189, 249, 40, 216, 161, 139, 252,
        ],
    );
    assert(a@ =~= extended_token_program_id());
    a
}

/// The legacy token program's identifier, as an address value.
pub fn legacy_token_program() -> (r: Address)
    ensures
        r@ == legacy_token_program_id(),
{
    let a = Address::new(
        [
            6u8, 221, 246, 225, 215, 101, 161, 147, 217, 203, 225, 70, 206, 235, 121, 172, 28, 180,
            133, 237, 95, 91, 55, 145, 58, 140, 245, 133, 126, 255, 0, 169,
        ],
    );
    assert(a@ =~= legacy_token_program_id());
    a
}

/// The metadata program's identifier, as an address value.
pub fn metadata_program() -> (r: Address)
    ensures
        r@ == metadata_program_id(),
{
    let a = Address::new(
        [
            11u8, 112, 101, 177, 227, 209, 124, 69, 56, 157, 82, 127, 107, 4, 195, 205, 88, 184,
            108, 115, 26, 160, 253, 181, 73, 182, 209, 188, 3, 248, 41, 70,
        ],
    );
    assert(a@ =~= metadata_program_id());
    a
}

/// Whether `owner` is one of the two accepted token programs.
pub fn is_accepted_token_program(owner: &Address) -> (r: bool)
    ensures
        r == (owner@ == extended_token_program_id() || owner@ == legacy_token_program_id()),
{
    let ext = extended_token_program();
    let legacy = legacy_token_program();
    owner.eq_addr(&ext) || owner.eq_addr(&legacy)
}

/// Whether `owner` is the expected metadata program.
pub fn is_metadata_program(owner: &Address) -> (r: bool)
    ensures
        r == (owner@ == metadata_program_id()),
{
    let meta = metadata_program();
    owner.eq_addr(&meta)
}

} // verus!
