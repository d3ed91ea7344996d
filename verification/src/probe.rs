//! The developer probe: which supported device a VID/PID pair names, and the
//! message listing the known devices when it names none.
use crate::device::{get_profile, list_profiles, profile_name, profile_product_id, profile_vendor_id, registry, SupportedProfile};
use crate::text::push_char;
use vstd::prelude::*;
use vstd::string::StringExecFns;

verus! {

/// What to probe: a USB vendor and product ID, and whether to dump packets.
#[derive(Debug, Clone, Copy, PartialEq, Eq, Structural)]
pub struct ProbeOptions {
    pub vid: u16,
    pub pid: u16,
    pub hex: bool,
}

/// The lowercase hexadecimal digit of `d` (below 16).
pub open spec fn hex_digit(d: int) -> char {
    if d < 10 {
        ('0' as int + d) as char
    } else {
        ('a' as int + d - 10) as char
    }
}

/// `v` as four lowercase hexadecimal digits (as `{:04x}`).
pub open spec fn hex4(v: u16) -> Seq<char> {
    seq![
        hex_digit((v / 4096) as int),
        hex_digit(((v / 256) % 16) as int),
        hex_digit(((v / 16) % 16) as int),
        hex_digit((v % 16) as int),
    ]
}

fn push_hex_digit(s: &mut String, d: u16)
    requires
        d < 16,
    ensures
        final(s)@ == old(s)@.push(hex_digit(d as int)),
{
    let c: char = if d < 10 {
        ((48 + d) as u8) as char
    } else {
        ((87 + d) as u8) as char
    };
    assert(c == hex_digit(d as int));
    push_char(s, c);
}

/// Appends `v` as four lowercase hexadecimal digits.
pub fn push_hex4(s: &mut String, v: u16)
    ensures
        final(s)@ == old(s)@ + hex4(v),
{
    push_hex_digit(s, v / 4096);
    push_hex_digit(s, (v / 256) % 16);
    push_hex_digit(s, (v / 16) % 16);
    push_hex_digit(s, v % 16);
    assert(final(s)@ =~= old(s)@ + hex4(v));
}

/// `"vvvv:pppp"` for a vendor and product ID.
pub open spec fn id_pair(vid: u16, pid: u16) -> Seq<char> {
    hex4(vid) + seq![':'] + hex4(pid)
}

/// The lines naming the known devices: `"vvvv:pppp (Name)"`, joined by a line
/// feed and two spaces.
pub open spec fn known_device_lines(ps: Seq<SupportedProfile>) -> Seq<char>
    decreases ps.len(),
{
    if ps.len() == 0 {
        Seq::empty()
    } else {
        let p = ps.last();
        let line = id_pair(profile_vendor_id(p), profile_product_id(p)) + " ("@ + profile_name(p) + ")"@;
        if ps.len() == 1 {
            line
        } else {
            known_device_lines(ps.drop_last()) + "\n  "@ + line
        }
    }
}

/// The message for IDs that name no supported device.
pub open spec fn unknown_device_message(vid: u16, pid: u16) -> Seq<char> {
    "Device "@ + id_pair(vid, pid) + " is not in the supported registry. Known devices:\n  "@ + (if registry().len() == 0 {
        "(none)"@
    } else {
        known_device_lines(registry())
    })
}

/// The supported device the probe talks to, or the message naming the known
/// ones.
pub fn probe_profile(opts: &ProbeOptions) -> (r: Result<SupportedProfile, String>)
    ensures
        match get_profile_spec(opts.vid, opts.pid) {
            Some(p) => r == Ok::<SupportedProfile, String>(p),
            None => r matches Err(m) && m@ == unknown_device_message(opts.vid, opts.pid),
        },
{
    match get_profile(opts.vid, opts.pid) {
        Some(p) => {
            proof {
                lemma_registry_unique_ids(opts.vid, opts.pid, p);
            }
            Ok(p)
        },
        None => {
            proof {
                lemma_registry_unique_ids_none(opts.vid, opts.pid);
            }
            let mut m = String::from_str("Device ");
            push_hex4(&mut m, opts.vid);
            push_char(&mut m, ':');
            push_hex4(&mut m, opts.pid);
            m.append(" is not in the supported registry. Known devices:\n  ");
            let known = list_profiles();
            if known.len() == 0 {
                m.append("(none)");
            } else {
                let ghost base = m@;
                let mut i: usize = 0;
                while i < known.len()
                    invariant
                        known@ == registry(),
                        i <= known@.len(),
                        m@ == base + known_device_lines(known@.subrange(0, i as int)),
                    decreases known@.len() - i,
                {
                    let p = known[i];
                    if i > 0 {
                        m.append("\n  ");
                    }
                    push_hex4(&mut m, p.vendor_id());
                    push_char(&mut m, ':');
                    push_hex4(&mut m, p.product_id());
                    m.append(" (");
                    m.append(p.name());
                    m.append(")");
                    proof {
                        let sub = known@.subrange(0, i + 1);
                        assert(sub.drop_last() =~= known@.subrange(0, i as int));
                        assert(sub.last() == p);
                        if i == 0 {
                            assert(known@.subrange(0, 0) =~= Seq::<SupportedProfile>::empty());
                        }
                        assert(m@ =~= base + known_device_lines(sub));
                    }
                    i = i + 1;
                }
                assert(known@.subrange(0, i as int) =~= known@);
            }
            Err(m)
        },
    }
}

/// The registry's profile for a VID/PID pair, if any.
pub open spec fn get_profile_spec(vid: u16, pid: u16) -> Option<SupportedProfile> {
    if exists|i: int| 0 <= i < registry().len() && profile_vendor_id(#[trigger] registry()[i]) == vid
        && profile_product_id(registry()[i]) == pid {
        Some(choose|p: SupportedProfile| registry().contains(p) && profile_vendor_id(p) == vid && profile_product_id(p) == pid)
    } else {
        None
    }
}

proof fn lemma_registry_unique_ids(vid: u16, pid: u16, p: SupportedProfile)
    requires
        exists|i: int|
            0 <= i < registry().len() && registry()[i] == p && profile_vendor_id(p) == vid
                && profile_product_id(p) == pid,
    ensures
        get_profile_spec(vid, pid) == Some(p),
{
    let i = choose|i: int|
        0 <= i < registry().len() && registry()[i] == p && profile_vendor_id(p) == vid
            && profile_product_id(p) == pid;
    assert(registry().contains(p));
    let q = choose|q: SupportedProfile| registry().contains(q) && profile_vendor_id(q) == vid && profile_product_id(q) == pid;
    assert(registry().contains(q));
    let j = choose|j: int| 0 <= j < registry().len() && registry()[j] == q;
    assert(profile_vendor_id(registry()[j]) == vid);
    assert(registry()[0] == SupportedProfile::TP35Pro);
    assert(registry()[1] == SupportedProfile::DawnPro);
    assert(registry()[2] == SupportedProfile::TruthearKeyx);
}

proof fn lemma_registry_unique_ids_none(vid: u16, pid: u16)
    requires
        forall|i: int|
            0 <= i < registry().len() ==> !(profile_vendor_id(#[trigger] registry()[i]) == vid
                && profile_product_id(registry()[i]) == pid),
    ensures
        get_profile_spec(vid, pid) is None,
{
}

} // verus!
