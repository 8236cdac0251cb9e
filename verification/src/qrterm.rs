//! Rendering the pairing QR into a terminal.
//!
//! The QR has to be photographed off the host's own screen — that is what makes
//! "physical access is required to enrol a controller" a property of the
//! system rather than a promise. The console draws it with Unicode half-block
//! characters, two module rows per text row.

use vstd::prelude::*;
use qrcode::render::unicode;
use qrcode::{EcLevel, QrCode};

verus! {

/// The state of a left-to-right scan of rendered text: the length of the
/// current line so far, whether its last character is a carriage return, and
/// the widest finished line.
pub struct LineScan {
    pub current: nat,
    pub ends_with_cr: bool,
    pub widest: nat,
}

/// The scan after reading `s`. A `\n` ends a line; a `\r` right before it
/// belongs to the line ending, not to the line.
pub open spec fn scan(s: Seq<char>) -> LineScan
    decreases s.len(),
{
    if s.len() == 0 {
        LineScan { current: 0, ends_with_cr: false, widest: 0 }
    } else {
        let before = scan(s.drop_last());
        if s.last() == '\n' {
            let width: nat = if before.ends_with_cr { (before.current - 1) as nat } else { before.current };
            LineScan { current: 0, ends_with_cr: false, widest: if width > before.widest { width } else { before.widest } }
        } else {
            LineScan { current: before.current + 1, ends_with_cr: s.last() == '\r', widest: before.widest }
        }
    }
}

/// The number of characters in the widest line of `s`, as `str::lines`
/// splits it.
pub open spec fn widest_line(s: Seq<char>) -> nat {
    let end = scan(s);
    if end.current > end.widest { end.current } else { end.widest }
}

proof fn lemma_scan_bounds(s: Seq<char>)
    ensures
        scan(s).current <= s.len(),
        scan(s).widest <= s.len(),
        scan(s).ends_with_cr ==> scan(s).current >= 1,
    decreases s.len(),
{
    if s.len() > 0 {
        lemma_scan_bounds(s.drop_last());
    }
}

/// Terminal columns a rendered code needs, including its quiet zone: the
/// character count of its widest line.
pub fn width_in_columns(rendered: &str) -> (w: usize)
    ensures
        w == widest_line(rendered@),
{
    let n = rendered.unicode_len();
    let mut current: usize = 0;
    let mut ends_with_cr = false;
    let mut widest: usize = 0;
    let mut i: usize = 0;
    while i < n
        invariant
            n == rendered@.len(),
            i <= n,
            current as nat == scan(rendered@.subrange(0, i as int)).current,
            ends_with_cr == scan(rendered@.subrange(0, i as int)).ends_with_cr,
            widest as nat == scan(rendered@.subrange(0, i as int)).widest,
        decreases n - i,
    {
        proof {
            assert(rendered@.subrange(0, i + 1).drop_last() =~= rendered@.subrange(0, i as int));
            lemma_scan_bounds(rendered@.subrange(0, i as int));
        }
        let c = rendered.get_char(i);
        if c == '\n' {
            let width = if ends_with_cr { current - 1 } else { current };
            if width > widest {
                widest = width;
            }
            current = 0;
            ends_with_cr = false;
        } else {
            current = current + 1;
            ends_with_cr = c == '\r';
        }
        i = i + 1;
    }
    assert(rendered@.subrange(0, n as int) =~= rendered@);
    if current > widest { current } else { widest }
}

/// The half-block text of the QR code for `payload` at the lowest error
/// correction level with a quiet zone, or `None` when the payload does not
/// fit in any symbol.
pub uninterp spec fn qr_text(payload: Seq<char>) -> Option<Seq<char>>;

/// `QrCode::with_error_correction_level(payload, EcLevel::L)` rendered by
/// `render::<unicode::Dense1x2>().quiet_zone(true).build()`: the text depends
/// on the payload alone, and is absent when the payload is too long for any
/// symbol version.
#[verifier::external_body]
fn render_dense(payload: &str) -> (r: Option<String>)
    ensures
        match r {
            Some(t) => qr_text(payload@) == Some(t@),
            None => qr_text(payload@) is None,
        },
{
    match QrCode::with_error_correction_level(payload, EcLevel::L) {
        Ok(code) => Some(code.render::<unicode::Dense1x2>().quiet_zone(true).build()),
        Err(_) => None,
    }
}

/// Why a payload could not be drawn.
#[derive(Debug, Clone, Copy, PartialEq, Eq)]
pub enum QrError {
    /// The payload does not fit in a QR symbol at the lowest error
    /// correction level.
    TooLarge,
}

/// Render `payload` as half-block text.
///
/// Error correction is fixed at the lowest level on purpose: a phone camera
/// held near a monitor has no meaningful error rate, and capacity spent on
/// redundancy buys a larger symbol, which a narrow terminal cannot show.
pub fn render(payload: &str) -> (r: Result<String, QrError>)
    ensures
        match r {
            Ok(t) => qr_text(payload@) == Some(t@),
            Err(e) => qr_text(payload@) is None && e == QrError::TooLarge,
        },
{
    match render_dense(payload) {
        Some(t) => Ok(t),
        None => Err(QrError::TooLarge),
    }
}

} // verus!
