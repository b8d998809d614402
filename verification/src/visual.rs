//! Visual sync: derives the handle's pixel offset and the readout
//! text from the current ratio.  This pass only reads the ratio; it
//! never queues gesture events and never moves the slider.

use vstd::prelude::*;
use vstd::string::StringExecFns;

use crate::config::ParamSliderAxis;
use crate::ratio::{ratio_portion, tdiv, Ratio, INPUT_LIMIT, VALUE_LIMIT};
use crate::slider::ParamSlider;
use crate::PixelVec;

verus! {

/// The handle's offset along its track, truncated toward zero.
///
/// Horizontal handles sit at `travel * ratio`; vertical ones at
/// `travel * (1 - ratio)`, inverted so a full ratio sits at the top.
pub open spec fn handle_offset_spec(
    axis: ParamSliderAxis,
    r: Ratio,
    track: int,
    handle: int,
) -> int {
    let travel = track - handle;
    match axis {
        ParamSliderAxis::Horizontal => tdiv(travel * r.num, r.span as int),
        ParamSliderAxis::Vertical => tdiv(travel * (r.span - r.num), r.span as int),
    }
}

/// Computes the handle's offset along the given track.
pub fn handle_offset(axis: ParamSliderAxis, r: Ratio, track: i64, handle: i64) -> (o: i64)
    requires
        r.wf(),
        0 <= track <= INPUT_LIMIT,
        0 <= handle <= INPUT_LIMIT,
    ensures
        o == handle_offset_spec(axis, r, track as int, handle as int),
        track >= handle ==> 0 <= o <= track - handle,
{
    let travel: i64 = track - handle;
    match axis {
        ParamSliderAxis::Horizontal => ratio_portion(travel, r.num, r.span),
        ParamSliderAxis::Vertical => ratio_portion(travel, r.span - r.num, r.span),
    }
}

/// One handle sync pass: the new offset to write, or nothing when the
/// computed offset already equals the current one, so no redundant
/// layout write happens.
pub fn update_slider_handle(
    slider: &ParamSlider,
    bar_size: PixelVec,
    handle_size: PixelVec,
    current_offset: i64,
) -> (r: Option<i64>)
    requires
        slider.wf(),
        bar_size.size_bounded(),
        handle_size.size_bounded(),
    ensures
        ({
            let o = match slider.config.axis {
                ParamSliderAxis::Horizontal => handle_offset_spec(
                    slider.config.axis,
                    slider.spec_ratio(),
                    bar_size.x as int,
                    handle_size.x as int,
                ),
                ParamSliderAxis::Vertical => handle_offset_spec(
                    slider.config.axis,
                    slider.spec_ratio(),
                    bar_size.y as int,
                    handle_size.y as int,
                ),
            };
            r == (if o == current_offset {
                None::<i64>
            } else {
                Some(o as i64)
            })
        }),
{
    let current: Ratio = slider.ratio();
    let o: i64 = match slider.config.axis {
        ParamSliderAxis::Horizontal => handle_offset(
            ParamSliderAxis::Horizontal,
            current,
            bar_size.x,
            handle_size.x,
        ),
        ParamSliderAxis::Vertical => handle_offset(
            ParamSliderAxis::Vertical,
            current,
            bar_size.y,
            handle_size.y,
        ),
    };
    if o == current_offset {
        None
    } else {
        Some(o)
    }
}

/// The character for one decimal digit.
pub open spec fn spec_digit(d: int) -> char {
    if d == 0 {
        '0'
    } else if d == 1 {
        '1'
    } else if d == 2 {
        '2'
    } else if d == 3 {
        '3'
    } else if d == 4 {
        '4'
    } else if d == 5 {
        '5'
    } else if d == 6 {
        '6'
    } else if d == 7 {
        '7'
    } else if d == 8 {
        '8'
    } else {
        '9'
    }
}

/// The decimal digits of a natural number, most significant first, no
/// leading zeros.
pub open spec fn spec_nat_digits(n: nat) -> Seq<char>
    decreases n,
{
    if n < 10 {
        seq![spec_digit(n as int)]
    } else {
        spec_nat_digits(n / 10) + seq![spec_digit((n % 10) as int)]
    }
}

/// A value in thousandths rounded to tenths, half away from zero.
pub open spec fn spec_tenths(v: int) -> int {
    if v >= 0 {
        (v + 50) / 100
    } else {
        -((-v + 50) / 100)
    }
}

/// The text for a non-negative number of tenths: the whole part, a
/// point, one digit of tenths.
pub open spec fn spec_tenths_digits(t: int) -> Seq<char> {
    spec_nat_digits((t / 10) as nat) + seq!['.'] + seq![spec_digit(t % 10)]
}

/// The readout text for a value in thousandths of a unit: the value
/// rounded to one decimal place, with a leading minus sign when the
/// rounded value is below zero.
pub open spec fn spec_readout(v: int) -> Seq<char> {
    let t = spec_tenths(v);
    if t < 0 {
        seq!['-'] + spec_tenths_digits(-t)
    } else {
        spec_tenths_digits(t)
    }
}

/// One decimal digit as text.
pub fn digit_str(d: u64) -> (r: &'static str)
    requires
        d < 10,
    ensures
        r@ == seq![spec_digit(d as int)],
{
    match d {
        0 => {
            proof {
                reveal_strlit("0");
                assert("0"@ =~= seq![spec_digit(0)]);
            }
            "0"
        },
        1 => {
            proof {
                reveal_strlit("1");
                assert("1"@ =~= seq![spec_digit(1)]);
            }
            "1"
        },
        2 => {
            proof {
                reveal_strlit("2");
                assert("2"@ =~= seq![spec_digit(2)]);
            }
            "2"
        },
        3 => {
            proof {
                reveal_strlit("3");
                assert("3"@ =~= seq![spec_digit(3)]);
            }
            "3"
        },
        4 => {
            proof {
                reveal_strlit("4");
                assert("4"@ =~= seq![spec_digit(4)]);
            }
            "4"
        },
        5 => {
            proof {
                reveal_strlit("5");
                assert("5"@ =~= seq![spec_digit(5)]);
            }
            "5"
        },
        6 => {
            proof {
                reveal_strlit("6");
                assert("6"@ =~= seq![spec_digit(6)]);
            }
            "6"
        },
        7 => {
            proof {
                reveal_strlit("7");
                assert("7"@ =~= seq![spec_digit(7)]);
            }
            "7"
        },
        8 => {
            proof {
                reveal_strlit("8");
                assert("8"@ =~= seq![spec_digit(8)]);
            }
            "8"
        },
        _ => {
            proof {
                reveal_strlit("9");
                assert("9"@ =~= seq![spec_digit(9)]);
            }
            "9"
        },
    }
}

/// The decimal text of a natural number.
pub fn nat_digits(n: u64) -> (s: String)
    ensures
        s@ == spec_nat_digits(n as nat),
    decreases n,
{
    if n < 10 {
        digit_str(n).to_owned()
    } else {
        let mut s = nat_digits(n / 10);
        s.append(digit_str(n % 10));
        s
    }
}

/// The readout text for a value in thousandths of a unit, rounded to
/// one decimal place.
pub fn readout_text(v: i64) -> (s: String)
    requires
        -2 * VALUE_LIMIT <= v <= 2 * VALUE_LIMIT,
    ensures
        s@ == spec_readout(v as int),
{
    let neg: bool = v < 0;
    let mag: u64 = if neg {
        (-v) as u64
    } else {
        v as u64
    };
    let t: u64 = (mag + 50) / 100;
    let mut s = String::new();
    if neg && t > 0 {
        proof {
            reveal_strlit("-");
            assert("-"@ =~= seq!['-']);
        }
        s.append("-");
    }
    let whole = nat_digits(t / 10);
    s.append(whole.as_str());
    proof {
        reveal_strlit(".");
        assert("."@ =~= seq!['.']);
    }
    s.append(".");
    s.append(digit_str(t % 10));
    proof {
        assert(s@ =~= spec_readout(v as int));
    }
    s
}

/// One readout sync pass: the text to display, or nothing when this
/// slider's readout is hidden.  The unverified edge writes the text
/// only on frames where the ratio actually changed.
pub fn update_slider_readout(slider: &ParamSlider) -> (r: Option<String>)
    requires
        slider.wf(),
    ensures
        match r {
            None => !slider.config.show_current,
            Some(s) => slider.config.show_current && s@ == spec_readout(slider.spec_value()),
        },
{
    if !slider.config.show_current {
        None
    } else {
        Some(readout_text(slider.value()))
    }
}

} // verus!
