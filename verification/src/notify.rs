//! Desktop notifications about the battery: when one is raised, what it says,
//! which bundled picture goes with it, and the file URI under which the
//! notification system finds that picture.
use vstd::prelude::*;
use vstd::utf8::encode_utf8;

use crate::battery::BatteryStatus;
use crate::text::{int_string, int_text};

verus! {

// ---------------------------------------------------------------------------
// Notification pictures
// ---------------------------------------------------------------------------

/// The level a notification picture shows for a battery percentage.
pub open spec fn notif_bucket_label(battery_percent: int) -> Seq<char> {
    if 0 <= battery_percent <= 7 {
        "5"@
    } else if 8 <= battery_percent <= 17 {
        "10"@
    } else if 18 <= battery_percent <= 37 {
        "25"@
    } else if 38 <= battery_percent <= 62 {
        "50"@
    } else if 63 <= battery_percent <= 87 {
        "75"@
    } else {
        "full"@
    }
}

/// File name of the bundled notification picture: `batt-<level>.png`, with
/// `-charg` before the extension while charging.
pub open spec fn notif_png_name(battery_percent: int, charging: bool) -> Seq<char> {
    "batt-"@ + notif_bucket_label(battery_percent) + (if charging {
        "-charg"@
    } else {
        Seq::<char>::empty()
    }) + ".png"@
}

/// Name of the bundled notification picture for a battery percentage and
/// charging state. Every state has one, so the result is always `Some`.
pub fn embedded_notif_png(battery_percent: isize, charging: bool) -> (name: Option<&'static str>)
    ensures
        name is Some,
        name->0@ == notif_png_name(battery_percent as int, charging),
{
    proof {
        reveal_strlit("5");
        reveal_strlit("10");
        reveal_strlit("25");
        reveal_strlit("50");
        reveal_strlit("75");
        reveal_strlit("full");
        reveal_strlit("batt-");
        reveal_strlit("-charg");
        reveal_strlit(".png");
        reveal_strlit("batt-5.png");
        reveal_strlit("batt-5-charg.png");
        reveal_strlit("batt-10.png");
        reveal_strlit("batt-10-charg.png");
        reveal_strlit("batt-25.png");
        reveal_strlit("batt-25-charg.png");
        reveal_strlit("batt-50.png");
        reveal_strlit("batt-50-charg.png");
        reveal_strlit("batt-75.png");
        reveal_strlit("batt-75-charg.png");
        reveal_strlit("batt-full.png");
        reveal_strlit("batt-full-charg.png");
    }
    let bucket: u8 = if 0 <= battery_percent && battery_percent <= 7 {
        5
    } else if 8 <= battery_percent && battery_percent <= 17 {
        10
    } else if 18 <= battery_percent && battery_percent <= 37 {
        25
    } else if 38 <= battery_percent && battery_percent <= 62 {
        50
    } else if 63 <= battery_percent && battery_percent <= 87 {
        75
    } else {
        100
    };
    let name = match (bucket, charging) {
        (5, false) => "batt-5.png",
        (5, true) => "batt-5-charg.png",
        (10, false) => "batt-10.png",
        (10, true) => "batt-10-charg.png",
        (25, false) => "batt-25.png",
        (25, true) => "batt-25-charg.png",
        (50, false) => "batt-50.png",
        (50, true) => "batt-50-charg.png",
        (75, false) => "batt-75.png",
        (75, true) => "batt-75-charg.png",
        (_, false) => "batt-full.png",
        (_, true) => "batt-full-charg.png",
    };
    assert(name@ =~= notif_png_name(battery_percent as int, charging));
    Some(name)
}

// ---------------------------------------------------------------------------
// File URIs
// ---------------------------------------------------------------------------

/// The `\\?\` prefix of extended-length Windows paths.
pub open spec fn long_path_prefix() -> Seq<char> {
    seq!['\\', '\\', '?', '\\']
}

/// The path with one leading `\\?\` removed.
pub open spec fn without_long_path_prefix(path: Seq<char>) -> Seq<char> {
    if path.len() >= 4 && path.take(4) == long_path_prefix() {
        path.skip(4)
    } else {
        path
    }
}

/// The path with every backslash turned into a forward slash.
pub open spec fn forward_slashes(path: Seq<char>) -> Seq<char> {
    path.map_values(|c: char| if c == '\\' { '/' } else { c })
}

/// The path as the URI part after `file://`.
pub open spec fn uri_path(path: Seq<char>) -> Seq<char> {
    forward_slashes(without_long_path_prefix(path))
}

/// `file:///` before a drive-letter path (whose second byte is a colon),
/// `file://` before a path that starts with a slash, nothing otherwise.
pub open spec fn path_file_uri(path: Seq<char>) -> Option<Seq<char>> {
    let p = uri_path(path);
    if encode_utf8(p).len() >= 2 && encode_utf8(p)[1] == 58u8 {
        Some("file:///"@ + p)
    } else if p.len() > 0 && p[0] == '/' {
        Some("file://"@ + p)
    } else {
        None
    }
}

/// The `file://` URI of an absolute path written as text: the `\\?\` prefix
/// that Windows gives canonical paths is dropped (a URI made from it is not
/// understood), backslashes become slashes, and a drive-letter path gets a
/// third slash. A path that is neither a drive-letter path nor rooted gets no
/// URI.
#[verifier::spinoff_prover]
pub fn path_to_file_uri(path: &str) -> (uri: Option<String>)
    ensures
        match uri {
            Some(u) => path_file_uri(path@) == Some(u@),
            None => path_file_uri(path@) is None,
        },
{
    let n = path.unicode_len();
    let start: usize = if n >= 4 && path.get_char(0) == '\\' && path.get_char(1) == '\\'
        && path.get_char(2) == '?' && path.get_char(3) == '\\' {
        4
    } else {
        0
    };
    proof {
        if n >= 4 && path@.take(4) == long_path_prefix() {
            assert(path@[0] == path@.take(4)[0]);
            assert(path@[1] == path@.take(4)[1]);
            assert(path@[2] == path@.take(4)[2]);
            assert(path@[3] == path@.take(4)[3]);
        }
        if start == 4 {
            assert(path@.take(4) =~= long_path_prefix());
        }
        assert(without_long_path_prefix(path@) =~= path@.subrange(start as int, n as int));
    }
    let mut s = String::new();
    let mut i = start;
    while i < n
        invariant
            n == path@.len(),
            start <= i <= n,
            s@ == forward_slashes(path@.subrange(start as int, i as int)),
        decreases n - i,
    {
        let c = path.get_char(i);
        proof {
            reveal_strlit("/");
        }
        if c == '\\' {
            s.append("/");
        } else {
            let one = path.substring_char(i, i + 1);
            assert(one@ =~= seq![c]);
            s.append(one);
        }
        assert(forward_slashes(path@.subrange(start as int, i + 1)) =~= forward_slashes(
            path@.subrange(start as int, i as int),
        ).push(if c == '\\' {
            '/'
        } else {
            c
        }));
        i += 1;
    }
    assert(s@ == uri_path(path@));
    let bytes = s.as_str().as_bytes();
    if bytes.len() >= 2 && bytes[1] == 58u8 {
        let uri = String::from_str("file:///");
        return Some(uri.concat(s.as_str()));
    }
    if s.unicode_len() > 0 && s.as_str().get_char(0) == '/' {
        let uri = String::from_str("file://");
        return Some(uri.concat(s.as_str()));
    }
    None
}

/// A URI made by `path_to_file_uri` starts with `file://` and holds no
/// backslash.
pub proof fn lemma_file_uri_shape(path: Seq<char>)
    ensures
        path_file_uri(path) matches Some(u) ==> u.take(7) == "file://"@ && forall|i: int|
            0 <= i < u.len() ==> u[i] != '\\',
{
    reveal_strlit("file:///");
    reveal_strlit("file://");
    let p = uri_path(path);
    assert forall|i: int| 0 <= i < p.len() implies p[i] != '\\' by {}
    if let Some(u) = path_file_uri(path) {
        assert(u.take(7) =~= "file://"@);
        assert forall|i: int| 0 <= i < u.len() implies u[i] != '\\' by {
            if encode_utf8(p).len() >= 2 && encode_utf8(p)[1] == 58u8 {
                if i >= 8 {
                    assert(u[i] == p[i - 8]);
                }
            } else {
                if i >= 7 {
                    assert(u[i] == p[i - 7]);
                }
            }
        }
    }
}

// ---------------------------------------------------------------------------
// When to notify
// ---------------------------------------------------------------------------

/// Why a notification is raised.
#[derive(Clone, Copy, Debug, PartialEq, Eq, Structural)]
pub enum BatteryAlert {
    /// The level fell to 10% or below while running on battery.
    Low,
    /// The level fell to 3% or below while running on battery.
    Critical,
    /// The headset started charging.
    ChargingStarted,
    /// The level reached 100% while charging.
    Full,
}

/// The notification raised when a headset that last reported
/// (`last_level`, `last_status`) now reports (`level`, `status`).
pub open spec fn battery_alert(
    last_level: int,
    last_status: BatteryStatus,
    level: int,
    status: BatteryStatus,
) -> Option<BatteryAlert> {
    let on_battery = status != BatteryStatus::Charging && status != BatteryStatus::Unavailable;
    if level <= 10 && last_level > 10 && on_battery {
        Some(BatteryAlert::Low)
    } else if level <= 3 && last_level > 3 && on_battery {
        Some(BatteryAlert::Critical)
    } else if status == BatteryStatus::Charging && last_status != BatteryStatus::Charging {
        Some(BatteryAlert::ChargingStarted)
    } else if level == 100 && last_level < 100 && status == BatteryStatus::Charging {
        Some(BatteryAlert::Full)
    } else {
        None
    }
}

/// Remembers the last battery reading, to notify on changes.
pub struct NotificationTracker {
    /// The last reading seen, if any.
    pub last_notification_state: Option<(isize, BatteryStatus)>,
}

impl NotificationTracker {
    /// A tracker that has seen no reading yet.
    pub fn new() -> (tracker: Self)
        ensures
            tracker.last_notification_state is None,
    {
        NotificationTracker { last_notification_state: None }
    }

    /// Takes a new reading and returns the notification it raises, if any.
    /// Nothing is raised while notifications are disabled or for the first
    /// reading; the reading is remembered either way.
    pub fn check_notifications(
        &mut self,
        notifications_enabled: bool,
        current_level: isize,
        current_status: BatteryStatus,
    ) -> (alert: Option<BatteryAlert>)
        ensures
            final(self).last_notification_state == Some((current_level, current_status)),
            alert == if !notifications_enabled {
                None
            } else {
                match old(self).last_notification_state {
                    Some((last_level, last_status)) => battery_alert(
                        last_level as int,
                        last_status,
                        current_level as int,
                        current_status,
                    ),
                    None => None,
                }
            },
    {
        if !notifications_enabled {
            self.last_notification_state = Some((current_level, current_status));
            return None;
        }
        let mut msg = None;
        if let Some((last_level, last_status)) = self.last_notification_state {
            let on_battery = current_status != BatteryStatus::Charging && current_status
                != BatteryStatus::Unavailable;
            if current_level <= 10 && last_level > 10 && on_battery {
                msg = Some(BatteryAlert::Low);
            } else if current_level <= 3 && last_level > 3 && on_battery {
                msg = Some(BatteryAlert::Critical);
            } else if current_status == BatteryStatus::Charging && last_status
                != BatteryStatus::Charging {
                msg = Some(BatteryAlert::ChargingStarted);
            } else if current_level == 100 && last_level < 100 && current_status
                == BatteryStatus::Charging {
                msg = Some(BatteryAlert::Full);
            }
        }
        self.last_notification_state = Some((current_level, current_status));
        msg
    }
}

/// A reading that repeats the last one raises no notification.
pub proof fn lemma_repeated_reading_is_quiet(level: int, status: BatteryStatus)
    ensures
        battery_alert(level, status, level, status) is None,
{
}

/// A notification about a low battery is raised only when running on battery
/// (neither charging nor without a level).
pub proof fn lemma_low_alerts_only_on_battery(
    last_level: int,
    last_status: BatteryStatus,
    level: int,
    status: BatteryStatus,
)
    requires
        battery_alert(last_level, last_status, level, status) == Some(BatteryAlert::Low)
            || battery_alert(last_level, last_status, level, status) == Some(
            BatteryAlert::Critical,
        ),
    ensures
        status == BatteryStatus::Available,
        level <= 10,
{
}

/// Each notification is raised only when its threshold is crossed: a low
/// alert when the level falls from above 10% to 10% or below, a critical one
/// when it falls from above 3% to 3% or below, charging-started when charging
/// begins, and full when the level reaches 100% from below while charging.
/// So no reading that follows one already at or below a threshold raises
/// that threshold's alert again.
pub proof fn lemma_alerts_need_a_crossing(
    last_level: int,
    last_status: BatteryStatus,
    level: int,
    status: BatteryStatus,
)
    ensures
        battery_alert(last_level, last_status, level, status) == Some(BatteryAlert::Low) ==> (
        last_level > 10 && level <= 10 && status == BatteryStatus::Available),
        battery_alert(last_level, last_status, level, status) == Some(BatteryAlert::Critical) ==> (
        last_level > 3 && level <= 3 && status == BatteryStatus::Available),
        battery_alert(last_level, last_status, level, status) == Some(
            BatteryAlert::ChargingStarted,
        ) ==> (status == BatteryStatus::Charging && last_status != BatteryStatus::Charging),
        battery_alert(last_level, last_status, level, status) == Some(BatteryAlert::Full) ==> (
        level == 100 && last_level < 100 && status == BatteryStatus::Charging),
{
}

/// Every crossing is announced: falling through 10% on battery raises the low
/// alert, falling through 3% from within (3, 10] raises the critical one,
/// plugging in raises charging-started, and reaching 100% while charging
/// raises full.
pub proof fn lemma_crossings_are_announced(
    last_level: int,
    last_status: BatteryStatus,
    level: int,
    status: BatteryStatus,
)
    ensures
        last_level > 10 && level <= 10 && status == BatteryStatus::Available ==> battery_alert(
            last_level,
            last_status,
            level,
            status,
        ) == Some(BatteryAlert::Low),
        3 < last_level <= 10 && level <= 3 && status == BatteryStatus::Available ==> battery_alert(
            last_level,
            last_status,
            level,
            status,
        ) == Some(BatteryAlert::Critical),
        status == BatteryStatus::Charging && last_status != BatteryStatus::Charging ==> battery_alert(
            last_level,
            last_status,
            level,
            status,
        ) == Some(BatteryAlert::ChargingStarted),
        status == BatteryStatus::Charging && last_status == BatteryStatus::Charging && level == 100
            && last_level < 100 ==> battery_alert(last_level, last_status, level, status) == Some(
            BatteryAlert::Full,
        ),
{
}

/// A reading at or below 3% that follows one at or below 3% raises nothing
/// while on battery: the critical alert is not repeated as the level drops.
pub proof fn lemma_no_repeat_below_critical(
    last_level: int,
    last_status: BatteryStatus,
    level: int,
    status: BatteryStatus,
)
    requires
        last_level <= 3,
        level <= last_level,
        status == BatteryStatus::Available,
    ensures
        battery_alert(last_level, last_status, level, status) is None,
{
}

/// The charging picture is the on-battery picture of the same level with
/// `-charg` before the extension: both end in `.png`, and only the charging
/// one carries the suffix.
pub proof fn lemma_charging_picture_suffix(battery_percent: int)
    ensures
        notif_png_name(battery_percent, true) =~= notif_png_name(battery_percent, false).subrange(
            0,
            notif_png_name(battery_percent, false).len() - 4,
        ) + "-charg.png"@,
        notif_png_name(battery_percent, false).subrange(
            notif_png_name(battery_percent, false).len() - 4,
            notif_png_name(battery_percent, false).len() as int,
        ) =~= ".png"@,
        notif_png_name(battery_percent, true).take(5) =~= "batt-"@,
{
    reveal_strlit("-charg.png");
    reveal_strlit("-charg");
    reveal_strlit(".png");
    reveal_strlit("batt-");
    reveal_strlit("5");
    reveal_strlit("10");
    reveal_strlit("25");
    reveal_strlit("50");
    reveal_strlit("75");
    reveal_strlit("full");
    let off = notif_png_name(battery_percent, false);
    assert(off =~= "batt-"@ + notif_bucket_label(battery_percent) + ".png"@);
    let stem = "batt-"@ + notif_bucket_label(battery_percent);
    assert(off.subrange(0, off.len() - 4) =~= stem);
    assert(off.subrange(off.len() - 4, off.len() as int) =~= ".png"@);
}

// ---------------------------------------------------------------------------
// What a notification says
// ---------------------------------------------------------------------------

/// Body text of a notification.
pub open spec fn alert_text(alert: BatteryAlert, level: int) -> Seq<char> {
    match alert {
        BatteryAlert::Low => "Battery low ("@ + int_text(level) + "%)"@,
        BatteryAlert::Critical => "Battery critical ("@ + int_text(level) + "%)"@,
        BatteryAlert::ChargingStarted => "Charging started ["@ + int_text(level) + "%]"@,
        BatteryAlert::Full => "Battery full"@,
    }
}

/// The body text of the notification for `alert` at battery level `level`.
pub fn alert_message(alert: BatteryAlert, level: isize) -> (text: String)
    ensures
        text@ == alert_text(alert, level as int),
{
    match alert {
        BatteryAlert::Low => {
            let s = String::from_str("Battery low (");
            let n = int_string(level);
            s.concat(n.as_str()).concat("%)")
        },
        BatteryAlert::Critical => {
            let s = String::from_str("Battery critical (");
            let n = int_string(level);
            s.concat(n.as_str()).concat("%)")
        },
        BatteryAlert::ChargingStarted => {
            let s = String::from_str("Charging started [");
            let n = int_string(level);
            s.concat(n.as_str()).concat("%]")
        },
        BatteryAlert::Full => String::from_str("Battery full"),
    }
}

/// Everything a battery notification shows and how the notification system
/// files it.
pub struct ToastContent {
    /// Title: the headset's product name.
    pub title: String,
    /// Body: the text of `alert_message`.
    pub body: String,
    /// Tag `battery_<level>`.
    pub tag: String,
    /// Group `battery`.
    pub group: String,
    /// Sequence number: the level, as a `u32`.
    pub id: u32,
}

/// The notification for `alert` at `level` about the headset `product_name`.
pub fn toast_content(alert: BatteryAlert, level: isize, product_name: &str) -> (toast: ToastContent)
    ensures
        toast.title@ == product_name@,
        toast.body@ == alert_text(alert, level as int),
        toast.tag@ == "battery_"@ + int_text(level as int),
        toast.group@ == "battery"@,
        toast.id == level as u32,
{
    let title = String::from_str(product_name);
    let body = alert_message(alert, level);
    let n = int_string(level);
    let tag = String::from_str("battery_").concat(n.as_str());
    let group = String::from_str("battery");
    ToastContent { title, body, tag, group, id: level as u32 }
}

// ---------------------------------------------------------------------------
// Square notification logo
// ---------------------------------------------------------------------------

/// What `image` decodes a PNG file to: width, height and RGBA bytes row by
/// row.
pub uninterp spec fn png_rgba_decoding(png: Seq<u8>) -> Option<(u32, u32, Seq<u8>)>;

/// The PNG file that `image` encodes an RGBA image of the given size to.
pub uninterp spec fn png_rgba_encoding(width: u32, height: u32, pixels: Seq<u8>) -> Option<Seq<u8>>;

/// Calls `image::load_from_memory_with_format` with the PNG format and turns
/// the image into RGBA bytes (`to_rgba8`). Claimed: the result depends on the
/// bytes alone; `None` when `image` reports an error.
#[verifier::external_body]
fn decode_png_rgba(png: &[u8]) -> (decoded: Option<(u32, u32, Vec<u8>)>)
    ensures
        match decoded {
            Some((w, h, px)) => png_rgba_decoding(png@) == Some((w, h, px@)),
            None => png_rgba_decoding(png@) is None,
        },
{
    match image::load_from_memory_with_format(png, image::ImageFormat::Png) {
        Ok(img) => {
            let rgba = img.to_rgba8();
            let (w, h) = rgba.dimensions();
            Some((w, h, rgba.into_raw()))
        },
        Err(_) => None,
    }
}

/// Calls `image::ImageBuffer::write_to` with the PNG format on the RGBA image
/// made by `RgbaImage::from_raw` from the arguments. Claimed: the result
/// depends on the arguments alone; `None` when `image` reports an error (or
/// the bytes are too few for the size).
#[verifier::external_body]
fn encode_png_rgba(width: u32, height: u32, pixels: Vec<u8>) -> (png: Option<Vec<u8>>)
    ensures
        match png {
            Some(bytes) => png_rgba_encoding(width, height, pixels@) == Some(bytes@),
            None => png_rgba_encoding(width, height, pixels@) is None,
        },
{
    let img = image::RgbaImage::from_raw(width, height, pixels)?;
    let mut out = std::io::Cursor::new(Vec::new());
    match img.write_to(&mut out, image::ImageFormat::Png) {
        Ok(()) => Some(out.into_inner()),
        Err(_) => None,
    }
}

/// Side of the square logo made from a `width` x `height` picture.
pub open spec fn logo_side(width: int, height: int) -> int {
    if width >= height {
        width
    } else {
        height
    }
}

/// Byte `c` of pixel (dx, dy) of the square logo: the picture is centred
/// (rounding left and up) on a transparent square.
pub open spec fn square_logo_byte(
    width: int,
    height: int,
    pixels: Seq<u8>,
    dx: int,
    dy: int,
    c: int,
) -> u8 {
    let side = logo_side(width, height);
    let ox = (side - width) / 2;
    let oy = (side - height) / 2;
    if ox <= dx < ox + width && oy <= dy < oy + height {
        pixels[4 * ((dy - oy) * width + (dx - ox)) + c]
    } else {
        0u8
    }
}

/// The square logo's RGBA bytes, row by row.
pub open spec fn square_logo_pixels(width: int, height: int, pixels: Seq<u8>) -> Seq<u8> {
    let side = logo_side(width, height);
    Seq::new(
        (4 * side * side) as nat,
        |k: int| square_logo_byte(width, height, pixels, (k / 4) % side, (k / 4) / side, k % 4),
    )
}

/// Byte `c` of pixel (dx, dy) of an RGBA image `side` pixels wide.
pub open spec fn grid_byte(img: Seq<u8>, side: int, dx: int, dy: int, c: int) -> u8 {
    img[4 * (dy * side + dx) + c]
}

proof fn lemma_grid_index_unique(a: int, b: int, a2: int, b2: int, s: int)
    requires
        0 <= b < s,
        0 <= b2 < s,
        a * s + b == a2 * s + b2,
    ensures
        a == a2,
        b == b2,
{
    if a < a2 {
        assert(a2 * s >= (a + 1) * s) by (nonlinear_arith)
            requires
                a < a2,
                0 < s,
        ;
        assert((a + 1) * s == a * s + s) by (nonlinear_arith);
    } else if a > a2 {
        assert(a * s >= (a2 + 1) * s) by (nonlinear_arith)
            requires
                a > a2,
                0 < s,
        ;
        assert((a2 + 1) * s == a2 * s + s) by (nonlinear_arith);
    }
}

proof fn lemma_grid_bound(a: int, b: int, rows: int, cols: int)
    requires
        0 <= a < rows,
        0 <= b < cols,
    ensures
        0 <= a * cols + b < rows * cols,
{
    assert(0 <= a * cols + b < rows * cols) by (nonlinear_arith)
        requires
            0 <= a < rows,
            0 <= b < cols,
    ;
}

/// The square logo as bytes, from its pixels by coordinates.
#[verifier::spinoff_prover]
proof fn lemma_square_from_grid(width: int, height: int, pixels: Seq<u8>, sq: Seq<u8>)
    requires
        width >= 0,
        height >= 0,
        sq.len() == 4 * logo_side(width, height) * logo_side(width, height),
        forall|dx: int, dy: int, c: int|
            0 <= dx < logo_side(width, height) && 0 <= dy < logo_side(width, height) && 0 <= c < 4
                ==> #[trigger] grid_byte(sq, logo_side(width, height), dx, dy, c)
                == square_logo_byte(width, height, pixels, dx, dy, c),
    ensures
        sq == square_logo_pixels(width, height, pixels),
{
    let side = logo_side(width, height);
    let target = square_logo_pixels(width, height, pixels);
    assert forall|k: int| 0 <= k < sq.len() implies sq[k] == target[k] by {
        let p = k / 4;
        let c = k % 4;
        assert(k == 4 * p + c);
        assert(side > 0) by {
            if side == 0 {
                assert(sq.len() == 0);
            }
        }
        vstd::arithmetic::div_mod::lemma_fundamental_div_mod(p, side);
        vstd::arithmetic::div_mod::lemma_mod_pos_bound(p, side);
        vstd::arithmetic::div_mod::lemma_div_pos_is_pos(p, side);
        let dx = p % side;
        let dy = p / side;
        assert(p == dy * side + dx) by (nonlinear_arith)
            requires
                p == side * (p / side) + (p % side),
                dx == p % side,
                dy == p / side,
        ;
        assert(p < side * side) by (nonlinear_arith)
            requires
                k < 4 * side * side,
                p == k / 4,
        ;
        assert(dy < side) by (nonlinear_arith)
            requires
                p == dy * side + dx,
                p < side * side,
                0 <= dx,
                0 < side,
        ;
        assert(grid_byte(sq, side, dx, dy, c) == square_logo_byte(
            width,
            height,
            pixels,
            dx,
            dy,
            c,
        ));
    }
    assert(sq =~= target);
}

/// The square logo for a `width` x `height` RGBA picture: a transparent
/// square with the side of the picture's longer edge, the picture centred in
/// it.
#[verifier::spinoff_prover]
pub fn square_logo(width: u32, height: u32, pixels: &Vec<u8>) -> (square: Vec<u8>)
    requires
        pixels@.len() >= 4 * width * height,
        4 * logo_side(width as int, height as int) * logo_side(width as int, height as int)
            <= usize::MAX,
    ensures
        square@ == square_logo_pixels(width as int, height as int, pixels@),
{
    let side: u32 = if width >= height {
        width
    } else {
        height
    };
    let x = (side - width) / 2;
    let y = (side - height) / 2;
    let plen = pixels.len();
    proof {
        let si = side as int;
        let wi = width as int;
        let hi = height as int;
        assert(si * si >= 0) by (nonlinear_arith);
        assert(4 * (si * si) == 4 * si * si) by (nonlinear_arith);
        assert(wi * hi >= 0) by (nonlinear_arith)
            requires
                wi >= 0,
                hi >= 0,
        ;
        assert(4 * (wi * hi) == 4 * wi * hi) by (nonlinear_arith);
    }
    let total: usize = (side as usize) * (side as usize) * 4;
    let mut square: Vec<u8> = vec![0u8; total];
    assert forall|dx: int, dy: int, c: int|
        0 <= dx < side && 0 <= dy < side && 0 <= c < 4 implies #[trigger] grid_byte(
            square@,
            side as int,
            dx,
            dy,
            c,
        ) == 0u8 by {
        lemma_grid_bound(dy, dx, side as int, side as int);
        assert(square@[4 * (dy * side + dx) + c] == 0u8);
    }
    let mut yy: u32 = 0;
    while yy < height
        invariant
            side == logo_side(width as int, height as int),
            x == (side - width) / 2,
            y == (side - height) / 2,
            yy <= height,
            plen == pixels@.len(),
            pixels@.len() >= 4 * (width as int * height as int),
            square@.len() == 4 * (side as int * side as int),
            4 * (side as int * side as int) <= usize::MAX,
            forall|dx: int, dy: int, c: int|
                0 <= dx < side && 0 <= dy < side && 0 <= c < 4 ==> #[trigger] grid_byte(
                    square@,
                    side as int,
                    dx,
                    dy,
                    c,
                ) == if x <= dx < x + width && y <= dy < y + yy {
                    square_logo_byte(width as int, height as int, pixels@, dx, dy, c)
                } else {
                    0u8
                },
        decreases height - yy,
    {
        let mut xx: u32 = 0;
        while xx < width
            invariant
                side == logo_side(width as int, height as int),
                x == (side - width) / 2,
                y == (side - height) / 2,
                yy < height,
                xx <= width,
                plen == pixels@.len(),
                pixels@.len() >= 4 * (width as int * height as int),
                square@.len() == 4 * (side as int * side as int),
                4 * (side as int * side as int) <= usize::MAX,
                forall|dx: int, dy: int, c: int|
                    0 <= dx < side && 0 <= dy < side && 0 <= c < 4 ==> #[trigger] grid_byte(
                        square@,
                        side as int,
                        dx,
                        dy,
                        c,
                    ) == if (x <= dx < x + width && y <= dy < y + yy) || (dy == y + yy && x <= dx
                        < x + xx) {
                        square_logo_byte(width as int, height as int, pixels@, dx, dy, c)
                    } else {
                        0u8
                    },
            decreases width - xx,
        {
            proof {
                lemma_grid_bound(yy as int, xx as int, height as int, width as int);
                lemma_grid_bound((y + yy) as int, (x + xx) as int, side as int, side as int);
                assert(yy as int * width as int + xx <= height as int * width as int);
                assert(height as int * width as int == width as int * height as int) by (nonlinear_arith);
            }
            let src: usize = ((yy as usize) * (width as usize) + (xx as usize)) * 4;
            let dst: usize = (((y + yy) as usize) * (side as usize) + ((x + xx) as usize)) * 4;
            let ghost before = square@;
            square.set(dst, pixels[src]);
            square.set(dst + 1, pixels[src + 1]);
            square.set(dst + 2, pixels[src + 2]);
            square.set(dst + 3, pixels[src + 3]);
            assert forall|dx: int, dy: int, c: int|
                0 <= dx < side && 0 <= dy < side && 0 <= c < 4 implies #[trigger] grid_byte(
                    square@,
                    side as int,
                    dx,
                    dy,
                    c,
                ) == if (x <= dx < x + width && y <= dy < y + yy) || (dy == y + yy && x <= dx < x
                    + xx + 1) {
                    square_logo_byte(width as int, height as int, pixels@, dx, dy, c)
                } else {
                    0u8
                } by {
                lemma_grid_bound(dy, dx, side as int, side as int);
                if dx == x + xx && dy == y + yy {
                    assert(grid_byte(square@, side as int, dx, dy, c) == square@[dst + c]);
                } else {
                    if dy * side + dx == (y + yy) * side + (x + xx) {
                        lemma_grid_index_unique(dy, dx, (y + yy) as int, (x + xx) as int, side as int);
                    }
                    assert(grid_byte(square@, side as int, dx, dy, c) == grid_byte(
                        before,
                        side as int,
                        dx,
                        dy,
                        c,
                    ));
                }
            }
            xx += 1;
        }
        yy += 1;
    }
    proof {
        lemma_square_from_grid(width as int, height as int, pixels@, square@);
    }
    square
}

/// The square logo file made from a bundled (wide) notification picture: the
/// PNG decoded, centred on a transparent square, and encoded as PNG again.
pub open spec fn toast_logo(png: Seq<u8>) -> Option<Seq<u8>> {
    match png_rgba_decoding(png) {
        Some((w, h, px)) => {
            let side = logo_side(w as int, h as int);
            if px.len() >= 4 * w * h && 4 * side * side <= usize::MAX {
                png_rgba_encoding(side as u32, side as u32, square_logo_pixels(w as int, h as int, px))
            } else {
                None
            }
        },
        None => None,
    }
}

/// Makes the square PNG logo for a notification from a bundled picture:
/// notification logos must be square, the pictures are wide. `None` when the
/// picture cannot be decoded, the square cannot be encoded, or the square
/// would not fit in memory.
#[verifier::spinoff_prover]
pub fn toast_logo_png(png: &[u8]) -> (logo: Option<Vec<u8>>)
    ensures
        match logo {
            Some(bytes) => toast_logo(png@) == Some(bytes@),
            None => toast_logo(png@) is None,
        },
{
    match decode_png_rgba(png) {
        None => None,
        Some((width, height, pixels)) => {
            let plen = pixels.len();
            let side: u32 = if width >= height {
                width
            } else {
                height
            };
            let big_enough = match (width as usize).checked_mul(height as usize) {
                Some(area) => match area.checked_mul(4) {
                    Some(bytes) => plen >= bytes,
                    None => false,
                },
                None => false,
            };
            let fits = match (side as usize).checked_mul(side as usize) {
                Some(area) => match area.checked_mul(4) {
                    Some(_) => true,
                    None => false,
                },
                None => false,
            };
            proof {
                let wi = width as int;
                let hi = height as int;
                let si = side as int;
                assert(4 * (wi * hi) == 4 * wi * hi) by (nonlinear_arith);
                assert((wi * hi) * 4 == 4 * wi * hi) by (nonlinear_arith);
                assert(4 * (si * si) == 4 * si * si) by (nonlinear_arith);
                assert((si * si) * 4 == 4 * si * si) by (nonlinear_arith);
                assert(wi * hi >= 0) by (nonlinear_arith)
            requires
                wi >= 0,
                hi >= 0,
        ;
                assert(si * si >= 0) by (nonlinear_arith);
            }
            if big_enough && fits {
                let square = square_logo(width, height, &pixels);
                encode_png_rgba(side, side, square)
            } else {
                None
            }
        },
    }
}

} // verus!
