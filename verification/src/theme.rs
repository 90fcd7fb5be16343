//! The system-theme decision: combining the theme library's answer with
//! the desktop settings probes. Running the probes is the surrounding
//! program's job; deciding from their output happens here.

use vstd::prelude::*;
use crate::command::ThemeMode;

verus! {

/// Whether `needle` occurs contiguously in `hay`.
pub open spec fn contains_seq(hay: Seq<u8>, needle: Seq<u8>) -> bool {
    exists|i: int|
        0 <= i && i + needle.len() <= hay.len() && #[trigger] hay.subrange(
            i,
            i + needle.len() as int,
        ) == needle
}

/// ASCII lowercasing of a byte sequence.
pub open spec fn ascii_lower(s: Seq<u8>) -> Seq<u8> {
    Seq::new(
        s.len(),
        |i: int|
            if 65 <= s[i] <= 90 {
                (s[i] + 32) as u8
            } else {
                s[i]
            },
    )
}

fn to_ascii_lower(s: &Vec<u8>) -> (r: Vec<u8>)
    ensures
        r@ =~= ascii_lower(s@),
{
    let n = s.len();
    let mut out: Vec<u8> = Vec::new();
    let mut i: usize = 0;
    while i < n
        invariant
            i <= n,
            n == s@.len(),
            out@.len() == i,
            forall|t: int| 0 <= t < i ==> out@[t] == ascii_lower(s@)[t],
        decreases n - i,
    {
        let c = s[i];
        if 65 <= c && c <= 90 {
            out.push(c + 32);
        } else {
            out.push(c);
        }
        i = i + 1;
    }
    out
}

fn contains_bytes(hay: &Vec<u8>, needle: &Vec<u8>) -> (r: bool)
    ensures
        r == contains_seq(hay@, needle@),
{
    let n = hay.len();
    let m = needle.len();
    if m > n {
        return false;
    }
    let mut i: usize = 0;
    while i <= n - m
        invariant
            i <= n,
            m <= n,
            n == hay@.len(),
            m == needle@.len(),
            forall|t: int|
                0 <= t < i ==> #[trigger] hay@.subrange(t, t + needle@.len() as int) != needle@,
        decreases n - i,
    {
        let mut k: usize = 0;
        let mut matched = true;
        while k < m
            invariant
                k <= m,
                i + m <= n,
                n == hay@.len(),
                m == needle@.len(),
                matched ==> forall|t: int| 0 <= t < k ==> hay@[i + t] == needle@[t],
                !matched ==> exists|t: int| 0 <= t < m && hay@[i + t] != needle@[t],
            decreases m - k,
        {
            if hay[i + k] != needle[k] {
                matched = false;
                k = m;
            } else {
                k = k + 1;
            }
        }
        if matched {
            proof {
                assert(hay@.subrange(i as int, i + needle@.len() as int) =~= needle@);
            }
            return true;
        }
        proof {
            if hay@.subrange(i as int, i + needle@.len() as int) == needle@ {
                let w = choose|w: int|
                    0 <= w < m && hay@[i + w] != needle@[w];
                assert(hay@.subrange(i as int, i + needle@.len() as int)[w] == needle@[w]);
            }
        }
        i = i + 1;
    }
    false
}

/// The settings outputs that indicate a dark theme: a color-scheme answer
/// naming "prefer-dark", or a theme name carrying a "-dark" or ":dark"
/// mark, compared without case.
pub open spec fn probes_indicate_dark(
    color_scheme: Option<Seq<u8>>,
    theme_name: Option<Seq<u8>>,
) -> bool {
    ||| (color_scheme matches Some(o) && contains_seq(
        ascii_lower(o),
        encode_dark_probe_prefer(),
    ))
    ||| (theme_name matches Some(o) && (contains_seq(ascii_lower(o), encode_dark_probe_dash())
        || contains_seq(ascii_lower(o), encode_dark_probe_colon())))
}

/// The bytes of "prefer-dark".
pub open spec fn encode_dark_probe_prefer() -> Seq<u8> {
    seq![112u8, 114, 101, 102, 101, 114, 45, 100, 97, 114, 107]
}

/// The bytes of "-dark".
pub open spec fn encode_dark_probe_dash() -> Seq<u8> {
    seq![45u8, 100, 97, 114, 107]
}

/// The bytes of ":dark".
pub open spec fn encode_dark_probe_colon() -> Seq<u8> {
    seq![58u8, 100, 97, 114, 107]
}

/// Decides the theme from the theme library's answer and the settings
/// probes: a dark answer stands; otherwise a dark mark in either probe
/// output makes it dark; otherwise the initial answer stands.
pub fn resolve_theme(
    initial: ThemeMode,
    color_scheme: Option<Vec<u8>>,
    theme_name: Option<Vec<u8>>,
) -> (r: ThemeMode)
    ensures
        initial is Dark ==> r is Dark,
        !(initial is Dark) && probes_indicate_dark(
            match color_scheme {
                Some(o) => Some(o@),
                None => None,
            },
            match theme_name {
                Some(o) => Some(o@),
                None => None,
            },
        ) ==> r is Dark,
        !(initial is Dark) && !probes_indicate_dark(
            match color_scheme {
                Some(o) => Some(o@),
                None => None,
            },
            match theme_name {
                Some(o) => Some(o@),
                None => None,
            },
        ) ==> r == initial,
{
    if let ThemeMode::Dark = initial {
        return ThemeMode::Dark;
    }
    let prefer_dark: Vec<u8> = vec![112u8, 114, 101, 102, 101, 114, 45, 100, 97, 114, 107];
    let dash_dark: Vec<u8> = vec![45u8, 100, 97, 114, 107];
    let colon_dark: Vec<u8> = vec![58u8, 100, 97, 114, 107];
    proof {
        assert(prefer_dark@ =~= encode_dark_probe_prefer());
        assert(dash_dark@ =~= encode_dark_probe_dash());
        assert(colon_dark@ =~= encode_dark_probe_colon());
    }
    if let Some(out) = &color_scheme {
        let low = to_ascii_lower(out);
        if contains_bytes(&low, &prefer_dark) {
            return ThemeMode::Dark;
        }
    }
    if let Some(out) = &theme_name {
        let low = to_ascii_lower(out);
        if contains_bytes(&low, &dash_dark) || contains_bytes(&low, &colon_dark) {
            return ThemeMode::Dark;
        }
    }
    initial
}

} // verus!
