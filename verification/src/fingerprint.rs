//! The machine fingerprint: a stable, non-secret digest of what identifies a machine.

use crate::digest::{is_lower_hex, lemma_hex_encoding_shape, sha256, sha256_hex, sha256_hex_of};
use crate::text::{opt_text, push_utf8, utf8};
use vstd::prelude::*;

verus! {

/// What was read of the machine: each signal as far as it could be had.
#[derive(Debug)]
pub struct MachineSignals {
    /// The machine's unique identifier, where the system gave one.
    pub machine_uid: Option<String>,
    /// The model of the first processor, where the system named one.
    pub cpu_brand: Option<String>,
    /// The name of the operating system.
    pub os: String,
    /// The processor architecture.
    pub arch: String,
}

/// What stands for the machine's identifier where none could be read.
pub open spec fn fallback_uid() -> Seq<char> {
    "FALLBACK_UID"@
}

/// The bytes that the fingerprint is the digest of: the machine's identifier or
/// its fallback, the processor model if there is one, the system's name and the
/// architecture, in this order.
pub open spec fn fingerprint_input(
    machine_uid: Option<Seq<char>>,
    cpu_brand: Option<Seq<char>>,
    os: Seq<char>,
    arch: Seq<char>,
) -> Seq<u8> {
    utf8(
        match machine_uid {
            Some(uid) => uid,
            None => fallback_uid(),
        },
    ) + (match cpu_brand {
        Some(brand) => utf8(brand),
        None => Seq::<u8>::empty(),
    }) + utf8(os) + utf8(arch)
}

impl MachineSignals {
    /// The fingerprint of these signals.
    pub open spec fn fingerprint(&self) -> Seq<char> {
        sha256_hex(
            fingerprint_input(
                opt_text(self.machine_uid),
                opt_text(self.cpu_brand),
                self.os@,
                self.arch@,
            ),
        )
    }
}

/// Whether `text` is sixty-four lowercase hexadecimal digits.
pub open spec fn is_fingerprint(text: Seq<char>) -> bool {
    &&& text.len() == 64
    &&& forall|i: int| 0 <= i < text.len() ==> is_lower_hex(#[trigger] text[i])
}

/// The fingerprint is a function of the signals alone: two readings of the same
/// machine state give the same fingerprint.
pub proof fn lemma_fingerprint_stable(a: MachineSignals, b: MachineSignals)
    requires
        opt_text(a.machine_uid) == opt_text(b.machine_uid),
        opt_text(a.cpu_brand) == opt_text(b.cpu_brand),
        a.os@ == b.os@,
        a.arch@ == b.arch@,
    ensures
        a.fingerprint() == b.fingerprint(),
{
}

/// Derives the machine fingerprint from the signals read. It never fails: a
/// missing identifier is replaced by a fixed text, a missing processor model is
/// left out.
pub fn machine_fingerprint(signals: &MachineSignals) -> (fingerprint: String)
    ensures
        fingerprint@ == signals.fingerprint(),
        is_fingerprint(fingerprint@),
{
    let mut input: Vec<u8> = Vec::new();
    match &signals.machine_uid {
        Some(uid) => push_utf8(&mut input, uid.as_str()),
        None => push_utf8(&mut input, "FALLBACK_UID"),
    }
    match &signals.cpu_brand {
        Some(brand) => push_utf8(&mut input, brand.as_str()),
        None => {},
    }
    push_utf8(&mut input, signals.os.as_str());
    push_utf8(&mut input, signals.arch.as_str());
    assert(input@ =~= fingerprint_input(
        opt_text(signals.machine_uid),
        opt_text(signals.cpu_brand),
        signals.os@,
        signals.arch@,
    ));
    let fingerprint = sha256_hex_of(input.as_slice());
    proof {
        lemma_hex_encoding_shape(sha256(input@));
    }
    fingerprint
}

} // verus!
