use vstd::prelude::*;

use crate::error::{ConfigError, ConfigErrorView};
use crate::strings::{
    all_digits, decimal, digits_value, leading_digits, lemma_decimal_digits, lemma_leading_digits,
    lemma_leading_digits_of_concat, owned, read_leading_digits,
};
use crate::validator::ConfigValidator;

verus! {

/// Refuses a number that is present and zero.
pub struct PositiveU32;

impl ConfigValidator<Option<u32>> for PositiveU32 {
    open spec fn spec_check(value: Option<u32>) -> Option<ConfigErrorView> {
        match value {
            Some(v) => if v == 0 {
                Some(ConfigErrorView::InvalidValue("must be greater than 0"@))
            } else {
                None
            },
            None => None,
        }
    }

    fn validate(value: &Option<u32>) -> (r: Result<(), ConfigError>) {
        match value {
            Some(v) => if *v == 0 {
                Err(ConfigError::InvalidValue(owned("must be greater than 0")))
            } else {
                Ok(())
            },
            None => Ok(()),
        }
    }
}

/// Whether `s` is two positive decimal numbers joined by `x`, such as `320x180`.
pub open spec fn dimensions_ok(s: Seq<char>) -> bool {
    let k = leading_digits(s) as int;
    let rest = s.skip(k + 1);
    &&& 0 < k < s.len()
    &&& s[k] == 'x'
    &&& rest.len() > 0
    &&& all_digits(rest)
    &&& digits_value(s.take(k)) > 0
    &&& digits_value(rest) > 0
}

/// Whether `s` is two positive decimal numbers joined by `x`.
pub fn check_dimensions(s: &str) -> (r: bool)
    ensures
        r == dimensions_ok(s@),
{
    let n = s.unicode_len();
    let (k, first) = read_leading_digits(s);
    proof {
        lemma_leading_digits(s@);
    }
    if k == 0 || k >= n || s.get_char(k) != 'x' {
        return false;
    }
    let rest = s.substring_char(k + 1, n);
    proof {
        assert(rest@ =~= s@.skip(k + 1));
    }
    let (k2, second) = read_leading_digits(rest);
    proof {
        lemma_leading_digits(rest@);
        assert(rest@.take(rest@.len() as int) =~= rest@);
        if all_digits(rest@) {
            lemma_leading_digits_of_concat(rest@, Seq::<char>::empty());
            assert(rest@ + Seq::<char>::empty() =~= rest@);
        }
    }
    if k2 == 0 || k2 != rest.unicode_len() {
        return false;
    }
    let first_positive = match first {
        Some(v) => v > 0,
        None => true,
    };
    let second_positive = match second {
        Some(v) => v > 0,
        None => true,
    };
    first_positive && second_positive
}

/// Thumbnail sizes in `WIDTHxHEIGHT` form.
pub struct ThumbnailSize;

impl ConfigValidator<Option<String>> for ThumbnailSize {
    open spec fn spec_check(value: Option<Seq<char>>) -> Option<ConfigErrorView> {
        match value {
            Some(s) => if dimensions_ok(s) {
                None
            } else {
                Some(ConfigErrorView::InvalidValue("expected WIDTHxHEIGHT, e.g. 320x180"@))
            },
            None => None,
        }
    }

    fn validate(value: &Option<String>) -> (r: Result<(), ConfigError>) {
        match value {
            Some(s) => {
                assert(value.deep_view() == Some(s@));
                if check_dimensions(s.as_str()) {
                    Ok(())
                } else {
                    Err(ConfigError::InvalidValue(owned("expected WIDTHxHEIGHT, e.g. 320x180")))
                }
            },
            None => Ok(()),
        }
    }
}

/// Thumbnail grids in `COLSxROWS` form.
pub struct ThumbnailGrid;

impl ConfigValidator<Option<String>> for ThumbnailGrid {
    open spec fn spec_check(value: Option<Seq<char>>) -> Option<ConfigErrorView> {
        match value {
            Some(s) => if dimensions_ok(s) {
                None
            } else {
                Some(ConfigErrorView::InvalidValue("expected COLSxROWS, e.g. 3x3"@))
            },
            None => None,
        }
    }

    fn validate(value: &Option<String>) -> (r: Result<(), ConfigError>) {
        match value {
            Some(s) => {
                assert(value.deep_view() == Some(s@));
                if check_dimensions(s.as_str()) {
                    Ok(())
                } else {
                    Err(ConfigError::InvalidValue(owned("expected COLSxROWS, e.g. 3x3")))
                }
            },
            None => Ok(()),
        }
    }
}

/// The positive-number check refuses exactly a present zero: every present number of at
/// least 1, and an absent one, passes.
pub proof fn lemma_positive_accepts_positive(v: Option<u32>)
    ensures
        PositiveU32::spec_check(v) is None <==> v != Some(0u32),
        v matches Some(n) && n >= 1 ==> PositiveU32::spec_check(v) is None,
{
}

/// The dimension check accepts any two positive decimal numbers joined by `x`, whatever
/// their number of digits, and so do the thumbnail size and grid validators.
pub proof fn lemma_dimensions_of_positive_numbers(w: nat, h: nat)
    requires
        w > 0,
        h > 0,
    ensures
        dimensions_ok(decimal(w) + seq!['x'] + decimal(h)),
        ThumbnailSize::spec_check(Some(decimal(w) + seq!['x'] + decimal(h))) is None,
        ThumbnailGrid::spec_check(Some(decimal(w) + seq!['x'] + decimal(h))) is None,
{
    lemma_decimal_digits(w);
    lemma_decimal_digits(h);
    let rest = seq!['x'] + decimal(h);
    let s = decimal(w) + rest;
    assert(decimal(w) + seq!['x'] + decimal(h) =~= s);
    lemma_leading_digits_of_concat(decimal(w), rest);
    let k = decimal(w).len() as int;
    assert(s[k] == 'x');
    assert(s.skip(k + 1) =~= decimal(h));
}

} // verus!
