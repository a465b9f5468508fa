//! Human-readable rendering of a byte count.
//!
//! The display picks the largest unit of a two-tier ladder (kilobyte,
//! megabyte) for which the quantity is at least `1.0`: below one megabyte the
//! kilobyte tier is used, from exactly one megabyte on the megabyte tier.
//! The quantity is shown with two fraction digits, rounded to the nearest
//! hundredth (half away from zero); in the kilobyte tier the display is
//! capped at `999.99` so that rounding never shows `1000.00` in a tier whose
//! next unit would take over at that magnitude. The ladder has no tier above
//! megabytes, so values of a gigabyte and more show a megabyte quantity of
//! `1000.00` or higher.

use crate::text::{dec_str, push_dec, spec_digit_char};
use vstd::arithmetic::div_mod::{
    lemma_div_is_ordered, lemma_div_multiples_vanish_fancy, lemma_fundamental_div_mod,
    lemma_hoist_over_denominator,
};
use vstd::prelude::*;

verus! {

/// One megabyte, in bytes (decimal units, as the container format uses).
pub const ONE_MB_AS_BYTES: u64 = 1_000_000;

/// One kilobyte, in bytes.
pub const ONE_KB_AS_BYTES: u64 = 1_000;

/// The displayed quantity in hundredths of the chosen unit: hundredths of a
/// kilobyte below one megabyte (capped at `999.99`), hundredths of a megabyte
/// from one megabyte on. Rounds to the nearest hundredth, half away from zero.
pub open spec fn size_centi(bytes: nat) -> nat {
    if bytes < ONE_MB_AS_BYTES {
        let c = (bytes + 5) / 10;
        if c > 99_999 {
            99_999
        } else {
            c
        }
    } else {
        (bytes + 5_000) / 10_000
    }
}

/// A quantity of hundredths rendered as a decimal number with exactly two
/// fraction digits.
pub open spec fn centi_str(c: nat) -> Seq<char> {
    dec_str(c / 100) + (".")@ + seq![spec_digit_char((c / 10) % 10), spec_digit_char(c % 10)]
}

/// The full human-readable size display for a byte count.
pub open spec fn size_display(bytes: nat) -> Seq<char> {
    if bytes < ONE_MB_AS_BYTES {
        centi_str(size_centi(bytes)) + (" KB")@
    } else {
        centi_str(size_centi(bytes)) + (" MB")@
    }
}

/// Renders a byte count as a human-readable size string, for example
/// `"0.00 KB"`, `"999.99 KB"`, `"1.25 MB"`.
pub fn format_size(bytes: u64) -> (r: String)
    ensures
        r@ == size_display(bytes as nat),
{
    let centi: u64;
    let suffix: &'static str;
    if bytes < ONE_MB_AS_BYTES {
        let c = (bytes + 5) / 10;
        centi = if c > 99_999 {
            99_999
        } else {
            c
        };
        suffix = " KB";
    } else {
        let q = bytes / 10_000;
        let rem = bytes % 10_000;
        centi = q + (rem + 5_000) / 10_000;
        proof {
            lemma_fundamental_div_mod(bytes as int, 10_000);
            lemma_hoist_over_denominator((rem + 5_000) as int, q as int, 10_000nat);
            assert(centi == (bytes + 5_000) as nat / 10_000);
        }
        suffix = " MB";
    }
    let mut r = String::new();
    push_dec(&mut r, centi / 100);
    r.append(".");
    crate::text::push_digit(&mut r, (centi / 10) % 10);
    crate::text::push_digit(&mut r, centi % 10);
    r.append(suffix);
    proof {
        assert(r@ =~= size_display(bytes as nat));
    }
    r
}

/// The displayed magnitude stays below `1000.00` wherever a unit choice can
/// achieve that: in the kilobyte tier always, and in the megabyte tier for
/// every byte count whose rounded megabyte quantity is below one gigabyte.
/// (Counts of a gigabyte and above have no larger tier to move to, so their
/// megabyte quantity reaches `1000.00` or more.)
pub proof fn lemma_size_display_bounded(bytes: nat)
    requires
        bytes <= 999_994_999,
    ensures
        size_centi(bytes) < 100_000,
        size_display(bytes) == centi_str(size_centi(bytes)) + (if bytes < ONE_MB_AS_BYTES {
            (" KB")@
        } else {
            (" MB")@
        }),
{
    if bytes >= ONE_MB_AS_BYTES {
        lemma_div_multiples_vanish_fancy(99_999, 9_999, 10_000);
        assert(999_999_999int / 10_000 == 99_999);
        lemma_div_is_ordered((bytes + 5_000) as int, 999_999_999, 10_000);
    }
}

} // verus!
