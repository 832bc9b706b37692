//! The on-screen overlay that slides in when the battery changes: its
//! animation timer, the texts and colours it shows, the path data of its
//! battery outline, and the packing of its pixels into the window buffer.
use vstd::prelude::*;
use vstd::utf8::encode_utf8;

use crate::text::{int_string, int_text};

verus! {

// ---------------------------------------------------------------------------
// Animation
// ---------------------------------------------------------------------------

/// Phase of the overlay's slide-in, show, slide-out cycle.
#[derive(Clone, Copy, Debug, PartialEq, Eq, Structural)]
pub enum AnimationState {
    SlidingIn,
    Visible,
    SlidingOut,
    Hidden,
}

/// Position of a phase in the cycle.
pub open spec fn phase_rank(state: AnimationState) -> int {
    match state {
        AnimationState::SlidingIn => 0,
        AnimationState::Visible => 1,
        AnimationState::SlidingOut => 2,
        AnimationState::Hidden => 3,
    }
}

/// Time in milliseconds from `since` to `now` on a monotonic clock; zero if
/// `now` is not later.
pub open spec fn elapsed_ms(since: u64, now: u64) -> int {
    if now >= since {
        now - since
    } else {
        0
    }
}

/// Drives the overlay's animation. Times are milliseconds on a monotonic
/// clock that the caller reads.
pub struct AnimationTimer {
    /// Current phase.
    pub state: AnimationState,
    /// When the current slide (in or out) started.
    pub start_time: u64,
    /// How long a slide lasts.
    pub slide_duration: u64,
    /// How long the overlay stays fully visible.
    pub visible_duration: u64,
    /// When the overlay became fully visible, while it is.
    pub visible_start: Option<u64>,
}

/// The timer after `update` at time `now`.
pub open spec fn timer_after_update(timer: AnimationTimer, now: u64) -> AnimationTimer {
    match timer.state {
        AnimationState::SlidingIn => if elapsed_ms(timer.start_time, now) >= timer.slide_duration {
            AnimationTimer {
                state: AnimationState::Visible,
                visible_start: Some(now),
                ..timer
            }
        } else {
            timer
        },
        AnimationState::Visible => match timer.visible_start {
            Some(visible_start) => if elapsed_ms(visible_start, now) >= timer.visible_duration {
                AnimationTimer { state: AnimationState::SlidingOut, start_time: now, ..timer }
            } else {
                timer
            },
            None => timer,
        },
        AnimationState::SlidingOut => if elapsed_ms(timer.start_time, now)
            >= timer.slide_duration {
            AnimationTimer { state: AnimationState::Hidden, ..timer }
        } else {
            timer
        },
        AnimationState::Hidden => timer,
    }
}

/// Whether the overlay still has to be drawn after `update` at time `now`.
pub open spec fn shown_after_update(timer: AnimationTimer, now: u64) -> bool {
    timer_after_update(timer, now).state != AnimationState::Hidden
}

impl AnimationTimer {
    /// A hidden timer with slides of 250 ms and 4 s of full visibility.
    pub fn new(now: u64) -> (timer: Self)
        ensures
            timer.state == AnimationState::Hidden,
            timer.start_time == now,
            timer.slide_duration == 250,
            timer.visible_duration == 4000,
            timer.visible_start is None,
    {
        AnimationTimer {
            state: AnimationState::Hidden,
            start_time: now,
            slide_duration: 250,
            visible_duration: 4000,
            visible_start: None,
        }
    }

    /// Starts sliding the overlay in at time `now`.
    pub fn start_slide_in(&mut self, now: u64)
        ensures
            final(self).state == AnimationState::SlidingIn,
            final(self).start_time == now,
            final(self).visible_start is None,
            final(self).slide_duration == old(self).slide_duration,
            final(self).visible_duration == old(self).visible_duration,
    {
        self.state = AnimationState::SlidingIn;
        self.start_time = now;
        self.visible_start = None;
    }

    /// Advances the animation to time `now`: a finished slide-in makes the
    /// overlay visible, a finished visible period starts the slide-out, and a
    /// finished slide-out hides it. Returns whether the overlay must still be
    /// drawn.
    pub fn update(&mut self, now: u64, _is_focused: bool) -> (shown: bool)
        ensures
            *final(self) == timer_after_update(*old(self), now),
            shown == shown_after_update(*old(self), now),
    {
        match self.state {
            AnimationState::SlidingIn => {
                if now >= self.start_time && now - self.start_time >= self.slide_duration {
                    self.state = AnimationState::Visible;
                    self.visible_start = Some(now);
                } else if now < self.start_time && self.slide_duration == 0 {
                    self.state = AnimationState::Visible;
                    self.visible_start = Some(now);
                }
                true
            },
            AnimationState::Visible => {
                if let Some(visible_start) = self.visible_start {
                    if (now >= visible_start && now - visible_start >= self.visible_duration) || (
                    now < visible_start && self.visible_duration == 0) {
                        self.state = AnimationState::SlidingOut;
                        self.start_time = now;
                    }
                }
                true
            },
            AnimationState::SlidingOut => {
                if (now >= self.start_time && now - self.start_time >= self.slide_duration) || (now
                    < self.start_time && self.slide_duration == 0) {
                    self.state = AnimationState::Hidden;
                    return false;
                }
                true
            },
            AnimationState::Hidden => false,
        }
    }
}

/// `update` returns whether the overlay is still to be drawn: true exactly
/// when the timer is not hidden afterwards.
pub proof fn lemma_update_reports_visibility(timer: AnimationTimer, now: u64)
    ensures
        shown_after_update(timer, now) == (timer_after_update(timer, now).state
            != AnimationState::Hidden),
{
}

/// A hidden overlay stays hidden: `update` changes nothing and reports
/// nothing to draw.
pub proof fn lemma_hidden_is_final(timer: AnimationTimer, now: u64)
    requires
        timer.state == AnimationState::Hidden,
    ensures
        timer_after_update(timer, now) == timer,
        !shown_after_update(timer, now),
{
}

/// `update` moves through the cycle in order, at most one phase at a time,
/// and never changes the durations.
pub proof fn lemma_update_advances_one_phase(timer: AnimationTimer, now: u64)
    ensures
        phase_rank(timer.state) <= phase_rank(timer_after_update(timer, now).state) <= phase_rank(
            timer.state,
        ) + 1,
        timer_after_update(timer, now).slide_duration == timer.slide_duration,
        timer_after_update(timer, now).visible_duration == timer.visible_duration,
{
}

// ---------------------------------------------------------------------------
// Battery outline path data
// ---------------------------------------------------------------------------

/// The attribute opening `d="` starts at index `i` of `svg`.
pub open spec fn path_attr_at(svg: Seq<char>, i: int) -> bool {
    0 <= i && i + 3 <= svg.len() && svg[i] == 'd' && svg[i + 1] == '=' && svg[i + 2] == '"'
}

/// `i` is where the first `d="` of `svg` starts.
pub open spec fn first_path_attr(svg: Seq<char>, i: int) -> bool {
    path_attr_at(svg, i) && forall|j: int| 0 <= j < i ==> !path_attr_at(svg, j)
}

/// `e` is the first index from `from` on that holds a double quote.
pub open spec fn first_quote_from(svg: Seq<char>, from: int, e: int) -> bool {
    from <= e < svg.len() && svg[e] == '"' && forall|j: int| from <= j < e ==> svg[j] != '"'
}

/// `data` is the value of the first `d="..."` attribute of `svg`: the text
/// between that opening and the next double quote.
pub open spec fn is_svg_path_data(svg: Seq<char>, data: Seq<char>) -> bool {
    exists|i: int, e: int|
        #[trigger] first_path_attr(svg, i) && #[trigger] first_quote_from(svg, i + 3, e) && data
            == svg.subrange(i + 3, e)
}

/// `svg` has a first `d="` that a double quote closes.
pub open spec fn has_svg_path_data(svg: Seq<char>) -> bool {
    exists|i: int, e: int| #[trigger] first_path_attr(svg, i) && #[trigger] first_quote_from(svg, i + 3, e)
}

/// The value of the first `d="..."` attribute in an SVG document: `None`
/// when there is no `d="`, or no closing quote after it.
#[verifier::spinoff_prover]
pub fn extract_svg_path_data(svg: &str) -> (data: Option<&str>)
    ensures
        data is Some <==> has_svg_path_data(svg@),
        data matches Some(d) ==> is_svg_path_data(svg@, d@),
{
    let n = svg.unicode_len();
    let mut i: usize = 0;
    while n >= 3 && i <= n - 3
        invariant
            n == svg@.len(),
            forall|j: int| 0 <= j < i ==> !path_attr_at(svg@, j),
        decreases n - i,
    {
        if svg.get_char(i) == 'd' && svg.get_char(i + 1) == '=' && svg.get_char(i + 2) == '"' {
            assert(first_path_attr(svg@, i as int));
            let mut e: usize = i + 3;
            while e < n
                invariant
                    n == svg@.len(),
                    i + 3 <= e <= n,
                    first_path_attr(svg@, i as int),
                    forall|j: int| i + 3 <= j < e ==> svg@[j] != '"',
                decreases n - e,
            {
                if svg.get_char(e) == '"' {
                    let d = svg.substring_char(i + 3, e);
                    assert(first_quote_from(svg@, i + 3, e as int));
                    return Some(d);
                }
                e += 1;
            }
            assert forall|i2: int, e2: int|
                #[trigger] first_path_attr(svg@, i2) && #[trigger] first_quote_from(
                    svg@,
                    i2 + 3,
                    e2,
                ) implies false by {
                if i2 < i {
                    assert(!path_attr_at(svg@, i2));
                } else if i2 > i {
                    assert(!path_attr_at(svg@, i as int));
                }
            }
            return None;
        }
        i += 1;
    }
    assert forall|i2: int, e2: int|
        #[trigger] first_path_attr(svg@, i2) && #[trigger] first_quote_from(
            svg@,
            i2 + 3,
            e2,
        ) implies false by {
        assert(!path_attr_at(svg@, i2));
    }
    None
}

/// The path data of the battery outline SVG; the outline is bundled with the
/// program, so it is known to hold a `d="..."` attribute.
pub fn battery_svg_path_data(svg: &str) -> (data: &str)
    requires
        has_svg_path_data(svg@),
    ensures
        is_svg_path_data(svg@, data@),
{
    match extract_svg_path_data(svg) {
        Some(d) => d,
        None => svg,
    }
}

// ---------------------------------------------------------------------------
// Overlay contents
// ---------------------------------------------------------------------------

/// The battery percentage brought into 0..=100.
pub open spec fn clamped_percent(battery_level: int) -> int {
    if battery_level < 0 {
        0
    } else if battery_level > 100 {
        100
    } else {
        battery_level
    }
}

/// The battery percentage the overlay shows, brought into 0..=100; the
/// battery outline is filled by this many hundredths.
pub fn display_percent(battery_level: isize) -> (p: isize)
    ensures
        p == clamped_percent(battery_level as int),
        0 <= p <= 100,
{
    let p = if battery_level < 0 {
        0
    } else {
        battery_level
    };
    if p > 100 {
        100
    } else {
        p
    }
}

/// Colour of the battery drawn in the overlay: green while charging, red
/// below 5%, orange below 15%, green otherwise.
pub open spec fn battery_color(battery_level: int, is_charging: bool) -> (u8, u8, u8) {
    if is_charging {
        (110, 255, 90)
    } else if battery_level < 5 {
        (255, 50, 50)
    } else if battery_level < 15 {
        (255, 165, 0)
    } else {
        (110, 255, 90)
    }
}

/// While charging the battery is drawn in the colour of a healthy battery,
/// whatever the level; on battery the colour warns more as the level drops:
/// red below 5%, orange below 15%, and the healthy colour from 15% on.
pub proof fn lemma_charging_looks_healthy(battery_level: int, other_level: int)
    ensures
        battery_color(battery_level, true) == battery_color(other_level, true),
        battery_color(battery_level, true) == battery_color(100, false),
        battery_level >= 15 ==> battery_color(battery_level, false) == battery_color(
            battery_level,
            true,
        ),
        battery_level < 15 ==> battery_color(battery_level, false) != battery_color(
            battery_level,
            true,
        ),
        battery_level < 5 && 5 <= other_level < 15 ==> battery_color(battery_level, false)
            != battery_color(other_level, false),
{
}

/// RGB colour of the battery drawn in the overlay.
pub fn battery_icon_color(battery_level: isize, is_charging: bool) -> (rgb: (u8, u8, u8))
    ensures
        rgb == battery_color(battery_level as int, is_charging),
{
    if is_charging {
        (110, 255, 90)
    } else if battery_level < 5 {
        (255, 50, 50)
    } else if battery_level < 15 {
        (255, 165, 0)
    } else {
        (110, 255, 90)
    }
}

/// The percentage text of the overlay, e.g. `57%`.
pub fn percent_label(battery_level: isize) -> (label: String)
    ensures
        label@ == int_text(clamped_percent(battery_level as int)) + "%"@,
{
    let p = display_percent(battery_level);
    let digits = int_string(p);
    digits.concat("%")
}

/// The headset name as the overlay shows it: names of more than 28 bytes are
/// cut to their first 28 characters followed by an ellipsis.
pub open spec fn shown_name(name: Seq<char>) -> Seq<char> {
    if encode_utf8(name).len() > 28 {
        name.take(if name.len() < 28 {
            name.len() as int
        } else {
            28
        }) + seq!['\u{2026}']
    } else {
        name
    }
}

/// The headset name shown in the overlay.
pub fn overlay_name(headset_name: &str) -> (name: String)
    ensures
        name@ == shown_name(headset_name@),
{
    if headset_name.as_bytes().len() > 28 {
        let n = headset_name.unicode_len();
        let keep = if n < 28 {
            n
        } else {
            28
        };
        let head = String::from_str(headset_name.substring_char(0, keep));
        proof {
            reveal_strlit("\u{2026}");
        }
        head.concat("\u{2026}")
    } else {
        String::from_str(headset_name)
    }
}

/// A pixel packed as the window buffer stores it: alpha, red, green, blue from
/// the high byte down.
pub open spec fn packed_argb(r: u8, g: u8, b: u8, a: u8) -> int {
    a * 0x100_0000 + r * 0x1_0000 + g * 0x100 + b
}

/// Packs an RGBA pixel into the 32-bit word of the window buffer.
pub fn pack_pixel(r: u8, g: u8, b: u8, a: u8) -> (word: u32)
    ensures
        word == packed_argb(r, g, b, a),
{
    let r32 = r as u32;
    let g32 = g as u32;
    let b32 = b as u32;
    let a32 = a as u32;
    let word = (a32 << 24) | (r32 << 16) | (g32 << 8) | b32;
    assert(word == a32 * 0x100_0000 + r32 * 0x1_0000 + g32 * 0x100 + b32) by (bit_vector)
        requires
            a32 < 256,
            r32 < 256,
            g32 < 256,
            b32 < 256,
            word == (a32 << 24) | (r32 << 16) | (g32 << 8) | b32,
    ;
    word
}

} // verus!
