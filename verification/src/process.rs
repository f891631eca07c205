//! The process-identity resolver and the dotted-decimal address writer.
//!
//! Resolution always succeeds with a value: an owner that cannot be
//! named yields the fixed `"unknown"` sentinel, and owner id `0` is the
//! sentinel for "owner could not be determined".  The resolver works
//! from a snapshot table of `(pid, name)` pairs handed in by the
//! caller, so one scan of the running processes serves a whole
//! enumeration.

use vstd::prelude::*;
use crate::text::{dec_str, push_dec_u32, string_of};

verus! {

/// One byte of a 32-bit address stored least significant byte first:
/// `k` counts from the low end.
pub open spec fn ip_byte(addr: u32, k: int) -> nat {
    if k == 0 {
        (addr as nat) % 256
    } else if k == 1 {
        ((addr as nat) / 256) % 256
    } else if k == 2 {
        ((addr as nat) / 65536) % 256
    } else {
        ((addr as nat) / 16777216) % 256
    }
}

/// The dotted-decimal text of a 32-bit address whose bytes are stored
/// least significant first.
pub open spec fn ip_dotted(addr: u32) -> Seq<char> {
    dec_str(ip_byte(addr, 0)) + seq!['.'] + dec_str(ip_byte(addr, 1)) + seq!['.'] + dec_str(
        ip_byte(addr, 2),
    ) + seq!['.'] + dec_str(ip_byte(addr, 3))
}

/// Writes a 32-bit address, stored least significant byte first, as
/// dotted-decimal text.
pub fn format_ip_address(addr: u32) -> (r: String)
    ensures
        r@ == ip_dotted(addr),
{
    let mut v: Vec<char> = Vec::new();
    push_dec_u32(&mut v, addr % 256);
    v.push('.');
    push_dec_u32(&mut v, (addr / 256) % 256);
    v.push('.');
    push_dec_u32(&mut v, (addr / 65536) % 256);
    v.push('.');
    push_dec_u32(&mut v, (addr / 16777216) % 256);
    assert(v@ =~= ip_dotted(addr));
    string_of(&v)
}

/// A snapshot of `(pid, name)` pairs used to put a human-readable name
/// on each discovered socket owner.
pub struct ProcessNameTable {
    pub entries: Vec<(u32, String)>,
}

/// The image of a name table: each entry with its name abstracted to a
/// character sequence.
pub open spec fn names_view(entries: Seq<(u32, String)>) -> Seq<(u32, Seq<char>)> {
    entries.map_values(|e: (u32, String)| (e.0, e.1@))
}

/// What resolution yields: the name of the first entry carrying the
/// owner id, or the `"unknown"` sentinel when the id is the reserved
/// `0` or appears in no entry.
pub open spec fn spec_resolve(t: Seq<(u32, Seq<char>)>, pid: u32) -> Seq<char>
    decreases t.len(),
{
    if pid == 0 {
        "unknown"@
    } else if t.len() == 0 {
        "unknown"@
    } else if t[0].0 == pid {
        t[0].1
    } else {
        spec_resolve(t.drop_first(), pid)
    }
}

impl ProcessNameTable {
    /// Wraps a snapshot of `(pid, name)` pairs.
    pub fn new(entries: Vec<(u32, String)>) -> (r: Self)
        ensures
            r.entries@ == entries@,
    {
        ProcessNameTable { entries }
    }

    /// The image of this table.
    pub open spec fn view_entries(&self) -> Seq<(u32, Seq<char>)> {
        names_view(self.entries@)
    }

    /// Resolves an owner id to a process name, falling back to the
    /// `"unknown"` sentinel.
    #[verifier::loop_isolation(false)]
    pub fn resolve(&self, pid: u32) -> (r: String)
        ensures
            r@ == spec_resolve(self.view_entries(), pid),
    {
        let t = Ghost(self.view_entries());
        if pid == 0 {
            return String::from_str("unknown");
        }
        let mut i: usize = 0;
        assert(t@.skip(0) =~= t@);
        while i < self.entries.len()
            invariant
                i <= t@.len(),
                t@.len() == self.entries@.len(),
                spec_resolve(t@, pid) == spec_resolve(t@.skip(i as int), pid),
            decreases t@.len() - i,
        {
            if self.entries[i].0 == pid {
                assert(t@.skip(i as int)[0] == t@[i as int]);
                return self.entries[i].1.clone();
            }
            assert(t@.skip(i as int).drop_first() =~= t@.skip(i + 1));
            assert(t@.skip(i as int)[0] == t@[i as int]);
            i = i + 1;
        }
        assert(t@.skip(i as int) =~= Seq::<(u32, Seq<char>)>::empty());
        String::from_str("unknown")
    }
}

} // verus!
