use vstd::prelude::*;
use super::error::Error;

verus! {

/// The factory's flag for Unicode class information.
pub const FACTORY_UNICODE: i32 = 16;

/// The class can be instantiated any number of times.
pub const MANY_INSTANCES: i32 = 0x7FFF_FFFF;

/// The category of an audio processor class.
pub open spec fn audio_module_category() -> Seq<char> {
    "Audio Module Class"@
}

/// The value of bytes read as a big-endian number.
pub open spec fn big_endian_value(bytes: Seq<u8>) -> nat
    decreases bytes.len(),
{
    if bytes.len() == 0 {
        0
    } else {
        big_endian_value(bytes.drop_last()) * 256 + bytes.last() as nat
    }
}

/// How many values `n` bytes can hold.
spec fn byte_range(n: nat) -> nat
    decreases n,
{
    if n == 0 {
        1
    } else {
        byte_range((n - 1) as nat) * 256
    }
}

proof fn lemma_byte_range_increases(m: nat, n: nat)
    requires
        m <= n,
    ensures
        byte_range(m) <= byte_range(n),
    decreases n - m,
{
    if m < n {
        lemma_byte_range_increases(m, (n - 1) as nat);
    }
}

proof fn lemma_big_endian_bound(bytes: Seq<u8>)
    ensures
        big_endian_value(bytes) < byte_range(bytes.len()),
    decreases bytes.len(),
{
    if bytes.len() > 0 {
        lemma_big_endian_bound(bytes.drop_last());
        let v = big_endian_value(bytes.drop_last());
        let p = byte_range((bytes.len() - 1) as nat);
        assert(v * 256 + bytes.last() < p * 256) by (nonlinear_arith)
            requires
                v < p,
                bytes.last() < 256,
        ;
    }
}

/// The class id of a class id in the host's byte order (big-endian).
pub fn class_id_from_bytes(bytes: &[u8; 16]) -> (class_id: u128)
    ensures
        class_id == big_endian_value(bytes@),
{
    let mut value: u128 = 0;
    let mut i: usize = 0;
    proof {
        reveal_with_fuel(byte_range, 17);
        assert(byte_range(16) == 0x1_0000_0000_0000_0000_0000_0000_0000_0000);
    }
    while i < 16
        invariant
            0 <= i <= 16,
            bytes@.len() == 16,
            value == big_endian_value(bytes@.subrange(0, i as int)),
            byte_range(16) == 0x1_0000_0000_0000_0000_0000_0000_0000_0000,
        decreases 16 - i,
    {
        proof {
            let next = bytes@.subrange(0, i + 1);
            assert(next.drop_last() == bytes@.subrange(0, i as int));
            lemma_big_endian_bound(next);
            lemma_byte_range_increases((i + 1) as nat, 16);
        }
        value = value * 256 + bytes[i] as u128;
        i = i + 1;
    }
    proof {
        assert(bytes@.subrange(0, 16) == bytes@);
    }
    value
}

/// Class information exists only for the first (and only) class.
pub fn check_class_index(index: i32) -> (checked: Result<(), Error>)
    ensures
        checked == if index == 0 {
            Ok::<(), Error>(())
        } else {
            Err(Error::InvalidArgument)
        },
{
    if index == 0 {
        Ok(())
    } else {
        Err(Error::InvalidArgument)
    }
}

/// Whether the host asks for an instance of the plugin's class: a missing class id, or
/// another class's, is an invalid argument.
pub fn check_create_instance(requested: Option<&[u8; 16]>, class_id: u128) -> (checked: Result<(), Error>)
    ensures
        checked == match requested {
            Some(bytes) => if big_endian_value(bytes@) == class_id {
                Ok::<(), Error>(())
            } else {
                Err(Error::InvalidArgument)
            },
            None => Err(Error::InvalidArgument),
        },
{
    match requested {
        Some(bytes) => {
            if class_id_from_bytes(bytes) == class_id {
                Ok(())
            } else {
                Err(Error::InvalidArgument)
            }
        },
        None => Err(Error::InvalidArgument),
    }
}


/// Whether the host asks for an instance of plugin `P`'s class.
pub fn check_create_plugin<P: crate::plugin::Vst3Plugin>(requested: Option<&[u8; 16]>) -> (checked: Result<(), Error>)
    ensures
        checked == match requested {
            Some(bytes) => if big_endian_value(bytes@) == P::CLASS_ID {
                Ok::<(), Error>(())
            } else {
                Err(Error::InvalidArgument)
            },
            None => Err(Error::InvalidArgument),
        },
{
    check_create_instance(requested, P::CLASS_ID)
}

} // verus!
