//! The values that a mod receives from the host in the shape the mod's bindings
//! declare them.
use vstd::prelude::*;
use vstd::utf8::{decode_utf8, valid_utf8};
use crate::result_with_length::{packed_len, packed_ok, split};
use crate::text::string_from_utf8;
use crate::transfer::ReceiveArbitraryResult;

verus! {

/// A player, as a mod sees one.
#[derive(Clone, Debug)]
pub struct Player {
    pub name: String,
    pub uuid: u64,
}

/// A player as the host lays it out in the mod's memory: where the name's
/// bytes are, how many there are, and the id.
#[allow(non_camel_case_types)]
#[derive(Clone, Copy, Debug)]
pub struct get_player_rt {
    pub name_ptr: usize,
    pub name_len: u32,
    pub uuid: u64,
}

/// A random number and a flag, as the host returns them together: the flag as a
/// byte.
#[allow(non_camel_case_types)]
#[derive(Clone, Copy, Debug)]
pub struct a(pub u32, pub u8);

impl a {
    /// The number, and the flag as a `bool` (any nonzero byte is `true`).
    pub fn to_pair(&self) -> (r: (u32, bool))
        ensures
            r.0 == self.0,
            r.1 == (self.1 != 0),
    {
        (self.0, self.1 != 0)
    }
}

/// The player that the host laid out as `rt`, given the `rt.name_len` bytes of
/// its name read from where `rt.name_ptr` points. The name must be UTF-8: the
/// bindings do not check it.
pub fn get_player(rt: &get_player_rt, name: Vec<u8>) -> (p: Player)
    requires
        name@.len() == rt.name_len,
        valid_utf8(name@),
    ensures
        p.name@ == decode_utf8(name@),
        p.uuid == rt.uuid,
{
    let decoded = string_from_utf8(name);
    Player { name: decoded.unwrap(), uuid: rt.uuid }
}

/// How many bytes a mod may fetch after asking the host for a line, from the
/// host's packed answer: `None` when the answer's status is clear.
pub fn received_line_len(answer: u64) -> (r: Option<u32>)
    ensures
        r == (if packed_ok(answer) {
            Some(packed_len(answer))
        } else {
            None::<u32>
        }),
{
    let (ok, len) = split(answer);
    if ok {
        Some(len)
    } else {
        None
    }
}

/// Whether a mod may take the data that the host handed over: exactly when the
/// host's status byte says success.
pub fn received_string_ok(code: u8) -> (ok: bool)
    ensures
        ok == (code == ReceiveArbitraryResult::Sucess.code_of()),
{
    match ReceiveArbitraryResult::from_code(code) {
        Some(ReceiveArbitraryResult::Sucess) => true,
        _ => false,
    }
}

} // verus!
