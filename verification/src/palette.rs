use vstd::prelude::*;

use crate::rat::Rat;

verus! {

/// Largest accumulated animation time (in quarter units) the palette
/// accepts: `92 * TIME_LIMIT` must stay inside `i64`, since the largest
/// sine argument numerator is `23 * time * 4`.
pub const TIME_LIMIT: u64 = 0x0100_0000_0000_0000;

/// One channel of the gradient palette. The animated channels are
/// `|sin(arg)|` for an exact rational argument; the sine itself is
/// evaluated by the host when it uploads the palette. The alpha channels
/// are the constant one.
#[derive(Clone, Copy, PartialEq, Eq, Structural, Debug)]
pub enum ChannelValue {
    One,
    AbsSin { arg: Rat },
}

/// The four channels of gradient vertex `i` (with vertex factor
/// `v = i + 1`) follow the animation law for accumulated time `time_q`
/// quarter units.
///
/// With `t = time_q / 4` the elapsed animation time, the law is
/// `red = |sin(t*v)|`, `green = |sin(t*1.15*v)|`, `blue = |sin(t*1.3*v)|`,
/// `alpha = 1`; as exact rationals the sine arguments are `time_q*v / 4`,
/// `23*time_q*v / 80` and `13*time_q*v / 40`.
pub open spec fn vertex_matches(p: Seq<ChannelValue>, time_q: int, i: int, v: int) -> bool {
    &&& p[4 * i] is AbsSin
    &&& p[4 * i]->arg.num == time_q * v
    &&& p[4 * i]->arg.den == 4
    &&& p[4 * i + 1] is AbsSin
    &&& p[4 * i + 1]->arg.num == 23 * time_q * v
    &&& p[4 * i + 1]->arg.den == 80
    &&& p[4 * i + 2] is AbsSin
    &&& p[4 * i + 2]->arg.num == 13 * time_q * v
    &&& p[4 * i + 2]->arg.den == 40
    &&& p[4 * i + 3] is One
}

/// The whole sixteen-channel palette follows the animation law for
/// accumulated time `time_q`.
pub open spec fn palette_matches(p: Seq<ChannelValue>, time_q: int) -> bool {
    &&& p.len() == 16
    &&& vertex_matches(p, time_q, 0, 1)
    &&& vertex_matches(p, time_q, 1, 2)
    &&& vertex_matches(p, time_q, 2, 3)
    &&& vertex_matches(p, time_q, 3, 4)
}

/// The gradient palette for accumulated animation time `time_q` quarter
/// units: four RGBA vertices, each channel either a sine argument or the
/// constant one, per the animation law.
pub fn gradient_palette(time_q: u64) -> (out: Vec<ChannelValue>)
    requires
        time_q <= TIME_LIMIT,
    ensures
        palette_matches(out@, time_q as int),
{
    let t: i64 = time_q as i64;
    let mut out: Vec<ChannelValue> = Vec::new();
    out.push(ChannelValue::AbsSin { arg: Rat { num: t, den: 4 } });
    out.push(ChannelValue::AbsSin { arg: Rat { num: 23 * t, den: 80 } });
    out.push(ChannelValue::AbsSin { arg: Rat { num: 13 * t, den: 40 } });
    out.push(ChannelValue::One);
    out.push(ChannelValue::AbsSin { arg: Rat { num: 2 * t, den: 4 } });
    out.push(ChannelValue::AbsSin { arg: Rat { num: 46 * t, den: 80 } });
    out.push(ChannelValue::AbsSin { arg: Rat { num: 26 * t, den: 40 } });
    out.push(ChannelValue::One);
    out.push(ChannelValue::AbsSin { arg: Rat { num: 3 * t, den: 4 } });
    out.push(ChannelValue::AbsSin { arg: Rat { num: 69 * t, den: 80 } });
    out.push(ChannelValue::AbsSin { arg: Rat { num: 39 * t, den: 40 } });
    out.push(ChannelValue::One);
    out.push(ChannelValue::AbsSin { arg: Rat { num: 4 * t, den: 4 } });
    out.push(ChannelValue::AbsSin { arg: Rat { num: 92 * t, den: 80 } });
    out.push(ChannelValue::AbsSin { arg: Rat { num: 52 * t, den: 40 } });
    out.push(ChannelValue::One);
    out
}

/// Two palettes that follow the law for the same accumulated time are
/// equal channel for channel: the palette is a function of the time alone,
/// so a frame whose update added a zero delta shows the same gradient as
/// the frame before it.
pub proof fn lemma_palette_deterministic(p1: Seq<ChannelValue>, p2: Seq<ChannelValue>, time_q: int)
    requires
        palette_matches(p1, time_q),
        palette_matches(p2, time_q),
    ensures
        p1 =~= p2,
{
    assert forall|k: int| 0 <= k < 16 implies p1[k] == p2[k] by {
        assert(k == 0 || k == 1 || k == 2 || k == 3 || k == 4 || k == 5 || k == 6 || k == 7 || k
            == 8 || k == 9 || k == 10 || k == 11 || k == 12 || k == 13 || k == 14 || k == 15);
    }
}

} // verus!
