//! Colours and the wire format of the ReSpeaker LED ring.
//!
//! Talking to the I²C bus is I/O and happens outside the library; here
//! stands the frame that is written.
use vstd::prelude::*;

verus! {

pub const NUM_LEDS: usize = 12;

/// Resource id of the GPO servicer on the XVF3800.
pub const GPO_SERVICER_RESID: u8 = 20;

/// Command id that sets the LED ring colours.
pub const GPO_SERVICER_RESID_LED_RING_VALUE: u8 = 18;

/// Length of a frame written to the ring: a 3-byte header and 4 bytes per LED.
pub const LED_FRAME_LEN: usize = 51;

#[derive(Debug, Clone, Copy, Default, PartialEq, Eq, Structural)]
pub struct RgbColor {
    pub r: u8,
    pub g: u8,
    pub b: u8,
}

impl RgbColor {
    /// All channels off.
    pub fn black() -> (c: Self)
        ensures
            c == (RgbColor { r: 0, g: 0, b: 0 }),
    {
        Self { r: 0, g: 0, b: 0 }
    }

    pub fn new(r: u8, g: u8, b: u8) -> (c: Self)
        ensures
            c == (RgbColor { r, g, b }),
    {
        Self { r, g, b }
    }
}

/// The bytes written to the ring for a frame of colours: `[resid, cmd, 48]`
/// and then, for each LED in order, `[blue, green, red, 0]`.
pub open spec fn led_frame_bytes(colors: Seq<RgbColor>) -> Seq<u8> {
    Seq::new(
        LED_FRAME_LEN as nat,
        |k: int|
            if k == 0 {
                GPO_SERVICER_RESID
            } else if k == 1 {
                GPO_SERVICER_RESID_LED_RING_VALUE
            } else if k == 2 {
                48u8
            } else {
                let led = (k - 3) / 4;
                let part = (k - 3) % 4;
                if part == 0 {
                    colors[led].b
                } else if part == 1 {
                    colors[led].g
                } else if part == 2 {
                    colors[led].r
                } else {
                    0u8
                }
            },
    )
}

/// Encodes a frame of 12 colours in the ring's wire format.
pub fn led_frame_payload(colors: &[RgbColor; NUM_LEDS]) -> (p: Vec<u8>)
    ensures
        p@ == led_frame_bytes(colors@),
{
    let mut p: Vec<u8> = Vec::new();
    p.push(GPO_SERVICER_RESID);
    p.push(GPO_SERVICER_RESID_LED_RING_VALUE);
    p.push(48);
    let mut i: usize = 0;
    while i < NUM_LEDS
        invariant
            i <= NUM_LEDS,
            colors@.len() == NUM_LEDS,
            p@.len() == 3 + 4 * i,
            forall|k: int| 0 <= k < p@.len() ==> p@[k] == #[trigger] led_frame_bytes(colors@)[k],
        decreases NUM_LEDS - i,
    {
        let c = colors[i];
        p.push(c.b);
        p.push(c.g);
        p.push(c.r);
        p.push(0);
        proof {
            assert forall|k: int| 0 <= k < p@.len() implies p@[k] == #[trigger] led_frame_bytes(
                colors@,
            )[k] by {
                if k >= 3 + 4 * i {
                    assert((k - 3) / 4 == i as int);
                    assert((k - 3) % 4 == k - 3 - 4 * i);
                }
            }
        }
        i += 1;
    }
    assert(p@ =~= led_frame_bytes(colors@));
    p
}

} // verus!
