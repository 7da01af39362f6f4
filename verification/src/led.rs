//! The addressable light: what is asked of it, the colour that a request
//! stands for, and the frame that is written to the light for a colour.
//!
//! A request travels unchanged from the caller to the moment it is applied.
//! Only then is a colour chosen for `Random`, and only the frame that is
//! written is gamma corrected.

use vstd::prelude::*;

verus! {

/// How many pixels the light has.
pub const NUM_PIXELS: usize = 1;

/// What can be asked of the light.
#[derive(Copy, Clone, Debug, PartialEq, Eq)]
pub enum LedState {
    Off,
    Red,
    Green,
    Blue,
    /// A colour drawn from a random source when the request is applied.
    Random,
    /// This red, green and blue, as given.
    RGB(u8, u8, u8),
}

/// A colour, or one pixel of a frame.
#[derive(Copy, Clone, Debug, PartialEq, Eq)]
pub struct Rgb {
    pub r: u8,
    pub g: u8,
    pub b: u8,
}

impl LedState {
    /// The colour that the request names, if it names one.
    pub open spec fn named_color(self) -> Option<Rgb> {
        match self {
            LedState::Off => Some(Rgb { r: 0, g: 0, b: 0 }),
            LedState::Red => Some(Rgb { r: 255, g: 0, b: 0 }),
            LedState::Green => Some(Rgb { r: 0, g: 255, b: 0 }),
            LedState::Blue => Some(Rgb { r: 0, g: 0, b: 255 }),
            LedState::Random => None,
            LedState::RGB(r, g, b) => Some(Rgb { r, g, b }),
        }
    }

    /// The colour that the request names. `Random` names none: its colour is
    /// made by [`sampled_color`] from three samples drawn when the request is
    /// applied. `RGB` names exactly the triple it carries.
    pub fn color(&self) -> (color: Option<Rgb>)
        ensures
            color == self.named_color(),
    {
        match *self {
            LedState::Off => Some(Rgb { r: 0, g: 0, b: 0 }),
            LedState::Red => Some(Rgb { r: 255, g: 0, b: 0 }),
            LedState::Green => Some(Rgb { r: 0, g: 255, b: 0 }),
            LedState::Blue => Some(Rgb { r: 0, g: 0, b: 255 }),
            LedState::Random => None,
            LedState::RGB(r, g, b) => Some(Rgb { r, g, b }),
        }
    }
}

/// The colour made from three samples of a random source: each channel is
/// the low byte of its sample.
pub open spec fn color_of_samples(red: u32, green: u32, blue: u32) -> Rgb {
    Rgb { r: (red % 256) as u8, g: (green % 256) as u8, b: (blue % 256) as u8 }
}

/// Makes the colour for `Random` from three samples, one for each channel.
pub fn sampled_color(red: u32, green: u32, blue: u32) -> (color: Rgb)
    ensures
        color == color_of_samples(red, green, blue),
{
    Rgb { r: low_byte(red), g: low_byte(green), b: low_byte(blue) }
}

fn low_byte(word: u32) -> (byte: u8)
    ensures
        byte == word % 256,
{
    assert((word & 0xff) == word % 256) by (bit_vector);
    assert((word & 0xff) < 256) by (bit_vector);
    (word & 0xff) as u8
}

/// What gamma correction makes of a colour.
pub uninterp spec fn gamma_corrected(r: u8, g: u8, b: u8) -> (u8, u8, u8);

/// `smart_leds::gamma`, on one pixel. The correction looks each channel up in
/// a fixed table, so the result depends on the colour alone.
#[verifier::external_body]
fn gamma_correct(color: Rgb) -> (out: Rgb)
    ensures
        (out.r, out.g, out.b) == gamma_corrected(color.r, color.g, color.b),
{
    let pixel = smart_leds::RGB8 { r: color.r, g: color.g, b: color.b };
    let out = smart_leds::gamma(core::iter::once(pixel)).next().unwrap();
    Rgb { r: out.r, g: out.g, b: out.b }
}

/// One pixel of the frame for a colour.
pub open spec fn frame_pixel(color: Rgb) -> Rgb {
    let (r, g, b) = gamma_corrected(color.r, color.g, color.b);
    Rgb { r, g, b }
}

/// The frame to write to the light for a colour: every pixel of the light,
/// each the gamma corrected colour.
pub fn frame(color: Rgb) -> (pixels: Vec<Rgb>)
    ensures
        pixels@ == Seq::new(NUM_PIXELS as nat, |i: int| frame_pixel(color)),
{
    let mut pixels: Vec<Rgb> = Vec::new();
    let mut made: usize = 0;
    while made < NUM_PIXELS
        invariant
            made <= NUM_PIXELS,
            pixels@ == Seq::new(made as nat, |i: int| frame_pixel(color)),
        decreases NUM_PIXELS - made,
    {
        pixels.push(gamma_correct(color));
        made = made + 1;
    }
    pixels
}

/// The colour for `Random` takes one sample for each channel.
///
/// Of the three samples, taken in the order red, green, blue, each channel is
/// the sample of its own cut to its low eight bits, whatever the other two
/// samples are: a value from 0 to 255.
pub proof fn each_channel_is_its_own_sample(red: u32, green: u32, blue: u32)
    ensures
        color_of_samples(red, green, blue) == (Rgb {
            r: red as u8,
            g: green as u8,
            b: blue as u8,
        }),
        color_of_samples(red, green, blue).r == red % 256,
        color_of_samples(red, green, blue).g == green % 256,
        color_of_samples(red, green, blue).b == blue % 256,
        0 <= color_of_samples(red, green, blue).r <= 255,
        0 <= color_of_samples(red, green, blue).g <= 255,
        0 <= color_of_samples(red, green, blue).b <= 255,
        forall|g: u32, b: u32| (#[trigger] color_of_samples(red, g, b)).r == red % 256,
        forall|r: u32, b: u32| (#[trigger] color_of_samples(r, green, b)).g == green % 256,
        forall|r: u32, g: u32| (#[trigger] color_of_samples(r, g, blue)).b == blue % 256,
{
    assert(red as u8 == red % 256) by (bit_vector);
    assert(green as u8 == green % 256) by (bit_vector);
    assert(blue as u8 == blue % 256) by (bit_vector);
}

/// Samples that vary give colours that vary.
///
/// Let every request for `Random` be applied with three samples of its own,
/// taken afresh: `samples[k]` for the request `k`. If two of the requests
/// differ in the low byte of the sample of some channel, their colours
/// differ. So the colours are all the same only if, in every channel, the low
/// bytes of all the samples are equal.
pub proof fn varied_samples_give_varied_colours(samples: Seq<(u32, u32, u32)>, j: int, k: int)
    requires
        0 <= j < samples.len(),
        0 <= k < samples.len(),
        samples[j].0 % 256 != samples[k].0 % 256 || samples[j].1 % 256 != samples[k].1 % 256
            || samples[j].2 % 256 != samples[k].2 % 256,
    ensures
        color_of_samples(samples[j].0, samples[j].1, samples[j].2) != color_of_samples(
            samples[k].0,
            samples[k].1,
            samples[k].2,
        ),
{
    each_channel_is_its_own_sample(samples[j].0, samples[j].1, samples[j].2);
    each_channel_is_its_own_sample(samples[k].0, samples[k].1, samples[k].2);
}

} // verus!
