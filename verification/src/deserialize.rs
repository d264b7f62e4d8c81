use vstd::layout::{align_of, size_of};
use vstd::prelude::*;
use vstd::slice::slice_subrange;

use crate::error::ProgramError;

verus! {

/// Marker of a fixed-layout account record type.
pub trait Account {

}

/// Marker of a fixed-layout instruction payload type.
pub trait Instruction {

}

/// A type tagged by a leading discriminator byte, identifying the record's
/// logical type within the program's type universe.
pub trait Discriminator {
    /// The tag value a stored record of this type carries in byte 0.
    spec fn spec_discriminator() -> u8;

    /// The tag value a stored record of this type carries in byte 0.
    fn discriminator() -> (d: u8)
        ensures
            d == Self::spec_discriminator(),
    ;
}

/// Whether `data`, starting at memory address `address`, may be read in place
/// as a record of type `T`: the length is exactly `T`'s size, byte 0 carries
/// `T`'s discriminator, and the start address satisfies `T`'s alignment.
pub open spec fn spec_record_ok<T: Discriminator>(data: Seq<u8>, address: int) -> bool {
    &&& data.len() == size_of::<T>()
    &&& data.len() > 0
    &&& data[0] == T::spec_discriminator()
    &&& address % align_of::<T>() as int == 0
}

/// Whether `data`, starting at memory address `address`, begins with a header
/// of type `T`: at least `T`'s size many bytes, byte 0 carries `T`'s
/// discriminator, and the start address satisfies `T`'s alignment. The bytes
/// past the header form the record's untyped trailing body.
pub open spec fn spec_header_ok<T: Discriminator>(data: Seq<u8>, address: int) -> bool {
    &&& data.len() >= size_of::<T>()
    &&& data.len() > 0
    &&& data[0] == T::spec_discriminator()
    &&& address % align_of::<T>() as int == 0
}

/// Whether `data`, starting at memory address `address`, may be read in place
/// as an instruction payload of type `T`: exact length and alignment; an
/// instruction payload carries no discriminator of its own.
pub open spec fn spec_instruction_ok<T>(data: Seq<u8>, address: int) -> bool {
    &&& data.len() == size_of::<T>()
    &&& address % align_of::<T>() as int == 0
}

/// Whether `data`, starting at memory address `address`, begins with an
/// instruction header of type `T`: at least `T`'s size many bytes, aligned.
pub open spec fn spec_instruction_header_ok<T>(data: Seq<u8>, address: int) -> bool {
    &&& data.len() >= size_of::<T>()
    &&& address % align_of::<T>() as int == 0
}

/// Checked in-place typed access to an exact-size account record.
/// `data_address` is the memory address at which the buffer's first byte
/// sits; the caller that performs the in-place reinterpretation passes the
/// real pointer value and may cast only after `Ok`.
pub trait AccountDeserialize: Discriminator + Account + Sized {
    /// Decide whether `data` at `data_address` is a well-formed record of
    /// this type, fit for a shared in-place view.
    fn try_from_bytes(data: &[u8], data_address: usize) -> (r: Result<(), ProgramError>)
        ensures
            r is Ok <==> spec_record_ok::<Self>(data@, data_address as int),
            r is Err ==> r == Err::<(), ProgramError>(ProgramError::InvalidAccountData),
    ;

    /// Decide whether `data` at `data_address` is a well-formed record of
    /// this type, fit for an exclusive in-place view.
    fn try_from_bytes_mut(data: &[u8], data_address: usize) -> (r: Result<(), ProgramError>)
        ensures
            r is Ok <==> spec_record_ok::<Self>(data@, data_address as int),
            r is Err ==> r == Err::<(), ProgramError>(ProgramError::InvalidAccountData),
    ;
}

impl<T: Discriminator + Account> AccountDeserialize for T {
    fn try_from_bytes(data: &[u8], data_address: usize) -> (r: Result<(), ProgramError>) {
        vstd::layout::layout_for_type_is_valid::<T>();
        if data.len() != core::mem::size_of::<T>() {
            return Err(ProgramError::InvalidAccountData);
        }
        if data.is_empty() {
            return Err(ProgramError::InvalidAccountData);
        }
        if *vstd::slice::slice_index_get(data, 0) != T::discriminator() {
            return Err(ProgramError::InvalidAccountData);
        }
        if data_address % core::mem::align_of::<T>() != 0 {
            return Err(ProgramError::InvalidAccountData);
        }
        Ok(())
    }

    fn try_from_bytes_mut(data: &[u8], data_address: usize) -> (r: Result<(), ProgramError>) {
        Self::try_from_bytes(data, data_address)
    }
}

/// Checked in-place typed access to a header-and-body account record: a
/// fixed-size typed prefix followed by an untyped trailing region of
/// caller-determined interpretation.
pub trait AccountHeaderDeserialize: Discriminator + Account + Sized {
    /// Decide whether `data` at `data_address` begins with a well-formed
    /// header of this type; on success return the trailing body.
    fn try_header_from_bytes<'a>(data: &'a [u8], data_address: usize) -> (r: Result<
        &'a [u8],
        ProgramError,
    >)
        ensures
            match r {
                Ok(body) => spec_header_ok::<Self>(data@, data_address as int) && body@
                    == data@.skip(size_of::<Self>() as int),
                Err(e) => e == ProgramError::InvalidAccountData && !spec_header_ok::<Self>(
                    data@,
                    data_address as int,
                ),
            },
    ;

    /// The exclusive-view counterpart of `try_header_from_bytes`: the same
    /// decision, for callers that will mutate the header or body in place.
    fn try_header_from_bytes_mut<'a>(data: &'a [u8], data_address: usize) -> (r: Result<
        &'a [u8],
        ProgramError,
    >)
        ensures
            match r {
                Ok(body) => spec_header_ok::<Self>(data@, data_address as int) && body@
                    == data@.skip(size_of::<Self>() as int),
                Err(e) => e == ProgramError::InvalidAccountData && !spec_header_ok::<Self>(
                    data@,
                    data_address as int,
                ),
            },
    ;
}

impl<T: Discriminator + Account> AccountHeaderDeserialize for T {
    fn try_header_from_bytes<'a>(data: &'a [u8], data_address: usize) -> (r: Result<
        &'a [u8],
        ProgramError,
    >) {
        vstd::layout::layout_for_type_is_valid::<T>();
        let size = core::mem::size_of::<T>();
        if data.len() < size {
            return Err(ProgramError::InvalidAccountData);
        }
        if data.is_empty() {
            return Err(ProgramError::InvalidAccountData);
        }
        if *vstd::slice::slice_index_get(data, 0) != T::discriminator() {
            return Err(ProgramError::InvalidAccountData);
        }
        if data_address % core::mem::align_of::<T>() != 0 {
            return Err(ProgramError::InvalidAccountData);
        }
        let body = slice_subrange(data, size, data.len());
        Ok(body)
    }

    fn try_header_from_bytes_mut<'a>(data: &'a [u8], data_address: usize) -> (r: Result<
        &'a [u8],
        ProgramError,
    >) {
        Self::try_header_from_bytes(data, data_address)
    }
}

/// Checked in-place typed access to an exact-size instruction payload.
pub trait InstructionDeserialize: Instruction + Sized {
    /// Decide whether `data` at `data_address` is a well-formed instruction
    /// payload of this type.
    fn try_from_bytes(data: &[u8], data_address: usize) -> (r: Result<(), ProgramError>)
        ensures
            r is Ok <==> spec_instruction_ok::<Self>(data@, data_address as int),
            r is Err ==> r == Err::<(), ProgramError>(ProgramError::InvalidInstructionData),
    ;
}

impl<T: Instruction> InstructionDeserialize for T {
    fn try_from_bytes(data: &[u8], data_address: usize) -> (r: Result<(), ProgramError>) {
        vstd::layout::layout_for_type_is_valid::<T>();
        if data.len() != core::mem::size_of::<T>() {
            return Err(ProgramError::InvalidInstructionData);
        }
        if data_address % core::mem::align_of::<T>() != 0 {
            return Err(ProgramError::InvalidInstructionData);
        }
        Ok(())
    }
}

/// Checked in-place typed access to a header-and-body instruction payload.
pub trait InstructionHeaderDeserialize: Instruction + Sized {
    /// Decide whether `data` at `data_address` begins with a well-formed
    /// instruction header of this type; on success return the trailing body.
    fn try_header_from_bytes<'a>(data: &'a [u8], data_address: usize) -> (r: Result<
        &'a [u8],
        ProgramError,
    >)
        ensures
            match r {
                Ok(body) => spec_instruction_header_ok::<Self>(data@, data_address as int)
                    && body@ == data@.skip(size_of::<Self>() as int),
                Err(e) => e == ProgramError::InvalidInstructionData
                    && !spec_instruction_header_ok::<Self>(data@, data_address as int),
            },
    ;
}

impl<T: Instruction> InstructionHeaderDeserialize for T {
    fn try_header_from_bytes<'a>(data: &'a [u8], data_address: usize) -> (r: Result<
        &'a [u8],
        ProgramError,
    >) {
        vstd::layout::layout_for_type_is_valid::<T>();
        let size = core::mem::size_of::<T>();
        if data.len() < size {
            return Err(ProgramError::InvalidInstructionData);
        }
        if data_address % core::mem::align_of::<T>() != 0 {
            return Err(ProgramError::InvalidInstructionData);
        }
        let body = slice_subrange(data, size, data.len());
        Ok(body)
    }
}

/// Flipping any single condition of a well-formed record — its length, its
/// tag byte, or its alignment — flips the verdict of the typed cast.
pub proof fn lemma_record_conditions_independent<T: Discriminator>(
    data: Seq<u8>,
    address: int,
    other: Seq<u8>,
    other_address: int,
)
    requires
        spec_record_ok::<T>(data, address),
    ensures
        other.len() != size_of::<T>() ==> !spec_record_ok::<T>(other, address),
        other.len() == data.len() && other[0] != T::spec_discriminator() ==> !spec_record_ok::<T>(
            other,
            address,
        ),
        other_address % align_of::<T>() as int != 0 ==> !spec_record_ok::<T>(data, other_address),
{
}

} // verus!
