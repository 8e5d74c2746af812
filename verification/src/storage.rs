//! Persistent storage records: an encoded value behind a two-byte magic header.

use vstd::prelude::*;

verus! {

/// Magic header that marks a written record.
pub const MAGIC_HEADER: u16 = 0xBEEF;

/// Size of the magic header, in bytes.
pub const MAGIC_HEADER_SIZE: usize = 2;

/// Errors of persistent storage.
#[derive(Clone, Copy, Debug, PartialEq, Eq, Structural)]
pub enum StorageError {
    DriverError,
    InvalidMagicHeader,
    InvalidData,
}

/// A value with a fixed-size binary encoding of `SIZE` bytes.
pub trait Encodable<const SIZE: usize>: Sized {
    /// The encoding of a value.
    spec fn spec_encode(self) -> Seq<u8>;

    /// The value decoded from some bytes, if they hold one.
    spec fn spec_decode(data: Seq<u8>) -> Option<Self>;

    /// Whether decoding `data` is defined.
    spec fn decodable(data: Seq<u8>) -> bool;

    /// Encode the value.
    fn encode(self) -> (r: [u8; SIZE])
        ensures
            r@ == self.spec_encode(),
    ;

    /// Decode a value.
    fn decode(data: &[u8]) -> (r: Option<Self>)
        requires
            Self::decodable(data@),
        ensures
            r == Self::spec_decode(data@),
    ;
}

/// The two header bytes, little-endian.
pub open spec fn magic_bytes() -> Seq<u8> {
    seq![0xEFu8, 0xBEu8]
}

/// The record stored for an encoding: the header, then the encoding.
pub open spec fn spec_record(encoded: Seq<u8>) -> Seq<u8> {
    magic_bytes() + encoded
}

/// Storage of one record of `STORAGE_SIZE` bytes through a driver.
pub struct PersistentStorage<D, const STORAGE_SIZE: usize> {
    pub driver: D,
}

impl<D, const STORAGE_SIZE: usize> PersistentStorage<D, STORAGE_SIZE> {
    /// Storage over `driver`.
    pub fn new(driver: D) -> (s: Self)
        ensures
            s.driver == driver,
    {
        PersistentStorage { driver }
    }

    /// The bytes to write for `state`: the magic header, then its encoding.
    pub fn record_for<const SIZE: usize, T: Encodable<SIZE> + Copy>(&self, state: &T) -> (data: Vec<u8>)
        requires
            STORAGE_SIZE == SIZE + MAGIC_HEADER_SIZE,
        ensures
            data@ == spec_record(state.spec_encode()),
            data@.len() == STORAGE_SIZE,
    {
        let encoded = state.encode();
        let mut data: Vec<u8> = Vec::new();
        data.push(0xEFu8);
        data.push(0xBEu8);
        let mut i: usize = 0;
        while i < SIZE
            invariant
                i <= SIZE,
                encoded@.len() == SIZE,
                data@ == magic_bytes() + encoded@.take(i as int),
            decreases SIZE - i,
        {
            data.push(encoded[i]);
            i += 1;
            assert(data@ =~= magic_bytes() + encoded@.take(i as int));
        }
        assert(encoded@.take(SIZE as int) =~= encoded@);
        data
    }

    /// The value a read produced: a driver failure is `DriverError`, a record without the
    /// magic header is `InvalidMagicHeader`, and bytes that do not decode are `InvalidData`.
    pub fn load_from<const SIZE: usize, T: Encodable<SIZE>>(
        &self,
        read: Result<(), StorageError>,
        buffer: &[u8],
    ) -> (r: Result<T, StorageError>)
        requires
            STORAGE_SIZE >= MAGIC_HEADER_SIZE,
            buffer@.len() == STORAGE_SIZE,
            read is Ok && buffer@.take(2) == magic_bytes() ==> T::decodable(buffer@.skip(2)),
        ensures
            read is Err ==> r == Err::<T, StorageError>(StorageError::DriverError),
            read is Ok && buffer@.take(2) != magic_bytes() ==> r == Err::<T, StorageError>(
                StorageError::InvalidMagicHeader,
            ),
            read is Ok && buffer@.take(2) == magic_bytes() ==> r == match T::spec_decode(
                buffer@.skip(2),
            ) {
                Some(v) => Ok(v),
                None => Err(StorageError::InvalidData),
            },
    {
        match read {
            Ok(()) => {
                let magic: u16 = (buffer[0] as u16) | ((buffer[1] as u16) << 8);
                let b0 = buffer[0];
                let b1 = buffer[1];
                assert(magic == 0xBEEF <==> (b0 == 0xEF && b1 == 0xBE)) by (bit_vector)
                    requires
                        magic == (b0 as u16) | ((b1 as u16) << 8),
                ;
                if b0 == 0xEF && b1 == 0xBE {
                    assert(buffer@.take(2) =~= magic_bytes());
                    let body = &buffer[MAGIC_HEADER_SIZE..buffer.len()];
                    assert(body@ =~= buffer@.skip(2));
                    match T::decode(body) {
                        Some(v) => Ok(v),
                        None => Err(StorageError::InvalidData),
                    }
                } else {
                    assert(buffer@.take(2)[0] == b0 && buffer@.take(2)[1] == b1);
                    Err(StorageError::InvalidMagicHeader)
                }
            },
            Err(_) => Err(StorageError::DriverError),
        }
    }
}

/// A record read back as it was written gives the stored value back, for any value whose
/// encoding decodes to itself.
pub proof fn law_record_roundtrip<const SIZE: usize, T: Encodable<SIZE>>(state: T)
    requires
        T::spec_decode(state.spec_encode()) == Some(state),
    ensures
        spec_record(state.spec_encode()).take(2) == magic_bytes(),
        T::spec_decode(spec_record(state.spec_encode()).skip(2)) == Some(state),
{
    assert(spec_record(state.spec_encode()).take(2) =~= magic_bytes());
    assert(spec_record(state.spec_encode()).skip(2) =~= state.spec_encode());
}

/// A stored record holds the header and then the value's encoding unchanged, so reading it
/// back hands `decode` exactly what `encode` wrote.
pub proof fn law_record_layout<const SIZE: usize, T: Encodable<SIZE>>(state: T)
    ensures
        spec_record(state.spec_encode()).take(2) == magic_bytes(),
        spec_record(state.spec_encode()).skip(2) == state.spec_encode(),
{
    assert(spec_record(state.spec_encode()).take(2) =~= magic_bytes());
    assert(spec_record(state.spec_encode()).skip(2) =~= state.spec_encode());
}

} // verus!
