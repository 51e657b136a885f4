//! Names under which uploaded audio is stored.

use vstd::prelude::*;

verus! {

/// A byte of a stored name: a slash or a space becomes an underscore.
pub open spec fn safe_byte(b: u8) -> u8 {
    if b == 47 || b == 32 {
        95
    } else {
        b
    }
}

/// A name with every slash and space replaced by an underscore.
pub open spec fn safe_name(name: Seq<u8>) -> Seq<u8> {
    Seq::new(name.len(), |i: int| safe_byte(name[i]))
}

/// The name given to an upload that brings none: `audio.wav`.
pub open spec fn default_name() -> Seq<u8> {
    seq![97u8, 117u8, 100u8, 105u8, 111u8, 46u8, 119u8, 97u8, 118u8]
}

/// The stored name of an upload: the time stamp, an underscore, and the safe
/// form of the uploaded name or, without one, of the default name.
pub open spec fn stored_name(stamp: Seq<u8>, name: Option<Seq<u8>>) -> Seq<u8> {
    stamp + seq![95u8] + safe_name(
        match name {
            Some(n) => n,
            None => default_name(),
        },
    )
}

/// Appends the safe form of `name` to `into`.
fn push_safe(into: &mut Vec<u8>, name: &[u8])
    ensures
        final(into)@ == old(into)@ + safe_name(name@),
{
    let n: usize = name.len();
    let mut i: usize = 0;
    while i < n
        invariant
            n == name@.len(),
            i <= n,
            into@ == old(into)@ + safe_name(name@).take(i as int),
        decreases n - i,
    {
        let b: u8 = name[i];
        let safe: u8 = if b == 47 || b == 32 { 95 } else { b };
        into.push(safe);
        proof {
            assert(safe_name(name@).take(i + 1) == safe_name(name@).take(i as int).push(safe));
        }
        i = i + 1;
    }
    proof {
        assert(safe_name(name@).take(n as int) == safe_name(name@));
    }
}

/// Replaces every slash and space of a name by an underscore.
pub fn safe_file_name(name: &[u8]) -> (safe: Vec<u8>)
    ensures
        safe@ == safe_name(name@),
{
    let mut safe: Vec<u8> = Vec::new();
    push_safe(&mut safe, name);
    safe
}

/// Builds the name under which an upload is stored.
pub fn stamped_name(stamp: &[u8], name: Option<&[u8]>) -> (stored: Vec<u8>)
    ensures
        stored@ == stored_name(
            stamp@,
            match name {
                Some(n) => Some(n@),
                None => None,
            },
        ),
{
    let mut stored: Vec<u8> = Vec::new();
    let n: usize = stamp.len();
    let mut i: usize = 0;
    while i < n
        invariant
            n == stamp@.len(),
            i <= n,
            stored@ == stamp@.take(i as int),
        decreases n - i,
    {
        stored.push(stamp[i]);
        proof {
            assert(stamp@.take(i + 1) == stamp@.take(i as int).push(stamp@[i as int]));
        }
        i = i + 1;
    }
    proof {
        assert(stamp@.take(n as int) == stamp@);
    }
    stored.push(95);
    match name {
        Some(given) => push_safe(&mut stored, given),
        None => {
            let fallback: [u8; 9] = [97, 117, 100, 105, 111, 46, 119, 97, 118];
            proof {
                assert(fallback@ =~= default_name());
            }
            push_safe(&mut stored, fallback.as_slice());
        },
    }
    stored
}

} // verus!
