//! Conversion of a pulse train to transmitter ticks of one microsecond. A tick count is a
//! 15-bit field, so no mark or space may exceed 32 767 microseconds.
use crate::ir::daikin::{footer_pulse, header_pulse, law_pulse_timings, spec_pulses};
use vstd::prelude::*;

verus! {

/// The largest duration, in microseconds, that one pulse may have.
pub const MAX_PULSE_TICKS: u32 = 32767;

/// The error message for a pulse of `us` microseconds.
#[verifier::external_body]
fn tick_limit_message(us: u32) -> String {
    format!("IR pulse of {us} µs exceeds the RMT tick limit")
}

/// Converts a duration in microseconds to ticks, rejecting durations above the limit.
pub fn ticks(us: u32) -> (r: Result<u16, String>)
    ensures
        r is Ok <==> us <= MAX_PULSE_TICKS,
        r matches Ok(t) ==> t == us,
{
    if us <= MAX_PULSE_TICKS {
        Ok(us as u16)
    } else {
        Err(tick_limit_message(us))
    }
}

pub open spec fn pulse_fits(p: (u32, u32)) -> bool {
    p.0 <= MAX_PULSE_TICKS && p.1 <= MAX_PULSE_TICKS
}

/// Converts (mark, space) pairs in microseconds to tick pairs; fails if any duration is
/// above the limit.
pub fn to_tick_pairs(pulses: &Vec<(u32, u32)>) -> (r: Result<Vec<(u16, u16)>, String>)
    ensures
        r is Ok <==> forall|i: int| 0 <= i < pulses@.len() ==> pulse_fits(#[trigger] pulses@[i]),
        r matches Ok(v) ==> v@.len() == pulses@.len() && forall|i: int|
            0 <= i < pulses@.len() ==> (#[trigger] v@[i]).0 == pulses@[i].0 && v@[i].1
                == pulses@[i].1,
{
    let mut out: Vec<(u16, u16)> = Vec::new();
    let mut i: usize = 0;
    while i < pulses.len()
        invariant
            i <= pulses@.len(),
            out@.len() == i,
            forall|j: int| 0 <= j < i ==> pulse_fits(#[trigger] pulses@[j]),
            forall|j: int|
                0 <= j < i ==> (#[trigger] out@[j]).0 == pulses@[j].0 && out@[j].1 == pulses@[j].1,
        decreases pulses@.len() - i,
    {
        let (mark, space) = pulses[i];
        let m = match ticks(mark) {
            Ok(t) => t,
            Err(e) => return Err(e),
        };
        let s = match ticks(space) {
            Ok(t) => t,
            Err(e) => return Err(e),
        };
        out.push((m, s));
        i = i + 1;
    }
    Ok(out)
}

/// The frame of every packet can be sent: each of its marks and spaces is within the
/// 32 767-microsecond tick limit.
pub proof fn law_frames_fit_tick_limit(s: Seq<u8>)
    requires
        s.len() == 35,
    ensures
        MAX_PULSE_TICKS == 32767,
        forall|i: int| 0 <= i < spec_pulses(s).len() ==> pulse_fits(#[trigger] spec_pulses(s)[i]),
{
    law_pulse_timings(0, 0);
    assert forall|i: int| 0 <= i < spec_pulses(s).len() implies pulse_fits(
        #[trigger] spec_pulses(s)[i],
    ) by {
        let p = spec_pulses(s)[i];
        assert(p == header_pulse() || p == footer_pulse() || p.0 == 428u32 && (p.1 == 428u32
            || p.1 == 1280u32));
    }
}

} // verus!
