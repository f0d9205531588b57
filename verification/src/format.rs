//! Format Mapper: translates the container's native pixel-format tag and
//! free-form textual format tokens into the pipeline's closed pixel-format
//! enumeration.

use vstd::prelude::*;

verus! {

/// The closed set of generic pixel formats that the pipeline supports.
#[derive(Clone, Copy, Debug, PartialEq, Eq, Structural)]
pub enum PixelFormat {
    /// Single-channel 8-bit unsigned normalized.
    R8Unorm,
    /// Four-channel 8-bit unsigned normalized.
    Rgba8Unorm,
    /// Block-compressed 7 (BPTC), gamma-encoded variant.
    BptcUnormSrgb,
}

/// Native container tag for four-channel 8-bit unsigned normalized pixels.
pub const TAG_R8G8B8A8_UNORM: u32 = 28;

/// Native container tag for single-channel 8-bit unsigned normalized pixels.
pub const TAG_R8_UNORM: u32 = 61;

/// Native container tag for block-compressed 7, linear variant.
pub const TAG_BC7_UNORM: u32 = 98;

/// Native container tag for block-compressed 7, gamma-encoded variant.
pub const TAG_BC7_UNORM_SRGB: u32 = 99;

/// Which pipeline format a native container tag stands for, if any.
pub open spec fn spec_tag_to_format(tag: u32) -> Option<PixelFormat> {
    if tag == TAG_R8G8B8A8_UNORM {
        Some(PixelFormat::Rgba8Unorm)
    } else if tag == TAG_R8_UNORM {
        Some(PixelFormat::R8Unorm)
    } else if tag == TAG_BC7_UNORM || tag == TAG_BC7_UNORM_SRGB {
        Some(PixelFormat::BptcUnormSrgb)
    } else {
        None
    }
}

/// Map a native container pixel-format tag to a pipeline format; `None`
/// signals an unsupported container pixel format.
pub fn tag_to_format(tag: u32) -> (r: Option<PixelFormat>)
    ensures
        r == spec_tag_to_format(tag),
{
    if tag == TAG_R8G8B8A8_UNORM {
        Some(PixelFormat::Rgba8Unorm)
    } else if tag == TAG_R8_UNORM {
        Some(PixelFormat::R8Unorm)
    } else if tag == TAG_BC7_UNORM || tag == TAG_BC7_UNORM_SRGB {
        Some(PixelFormat::BptcUnormSrgb)
    } else {
        None
    }
}

/// ASCII upper-casing of one character; characters outside `a..=z` are kept.
pub open spec fn upcase_char(c: char) -> char {
    if 'a' <= c && c <= 'z' {
        (((c as u8) - 32) as char)
    } else {
        c
    }
}

/// ASCII upper-casing of a whole character sequence.
pub open spec fn upcase_seq(s: Seq<char>) -> Seq<char> {
    Seq::new(s.len(), |i: int| upcase_char(s[i]))
}

/// Which pipeline format a textual token names, ignoring ASCII case.
/// The recognized spellings are `R8`, `RGBA8`, and `BC7` with its alias
/// `BPTC`; every other token is unsupported.
pub open spec fn spec_token_to_format(s: Seq<char>) -> Option<PixelFormat> {
    if upcase_seq(s) == "R8"@ {
        Some(PixelFormat::R8Unorm)
    } else if upcase_seq(s) == "RGBA8"@ {
        Some(PixelFormat::Rgba8Unorm)
    } else if upcase_seq(s) == "BC7"@ || upcase_seq(s) == "BPTC"@ {
        Some(PixelFormat::BptcUnormSrgb)
    } else {
        None
    }
}

fn char_upcase(c: char) -> (r: char)
    ensures
        r == upcase_char(c),
{
    if 'a' <= c && c <= 'z' {
        (((c as u8) - 32) as char)
    } else {
        c
    }
}

/// Whether `token`, upper-cased, spells exactly `target`.
fn token_matches(token: &str, target: &str) -> (r: bool)
    ensures
        r == (upcase_seq(token@) == target@),
{
    let n = token.unicode_len();
    if n != target.unicode_len() {
        proof {
            assert(upcase_seq(token@).len() == token@.len());
        }
        return false;
    }
    let mut i: usize = 0;
    while i < n
        invariant
            n == token@.len(),
            n == target@.len(),
            i <= n,
            forall|j: int| 0 <= j < i ==> upcase_char(token@[j]) == target@[j],
        decreases n - i,
    {
        let c = token.get_char(i);
        let t = target.get_char(i);
        if char_upcase(c) != t {
            proof {
                assert(upcase_seq(token@)[i as int] != target@[i as int]);
            }
            return false;
        }
        i += 1;
    }
    proof {
        assert(upcase_seq(token@) =~= target@);
    }
    true
}

/// Resolve a free-form format token, ignoring ASCII case; `None` signals an
/// unsupported format token.
pub fn token_to_format(token: &str) -> (r: Option<PixelFormat>)
    ensures
        r == spec_token_to_format(token@),
{
    if token_matches(token, "R8") {
        Some(PixelFormat::R8Unorm)
    } else if token_matches(token, "RGBA8") {
        Some(PixelFormat::Rgba8Unorm)
    } else if token_matches(token, "BC7") || token_matches(token, "BPTC") {
        Some(PixelFormat::BptcUnormSrgb)
    } else {
        None
    }
}

/// Token mapping is case-insensitive: any two tokens with the same ASCII
/// case folding resolve to the same result.
pub proof fn lemma_token_mapping_case_insensitive(s: Seq<char>, t: Seq<char>)
    requires
        upcase_seq(s) == upcase_seq(t),
    ensures
        spec_token_to_format(s) == spec_token_to_format(t),
{
}

/// Upper-casing is idempotent, so a token always resolves like its own
/// upper-cased spelling.
pub proof fn lemma_upcase_idempotent(s: Seq<char>)
    ensures
        upcase_seq(upcase_seq(s)) == upcase_seq(s),
        spec_token_to_format(upcase_seq(s)) == spec_token_to_format(s),
{
    assert forall|i: int| 0 <= i < s.len() implies upcase_char(upcase_char(s[i]))
        == upcase_char(s[i]) by {
        let c = s[i];
        if 'a' <= c && c <= 'z' {
            let d = (((c as u8) - 32) as char);
            assert(d < 'a');
        }
    }
    assert(upcase_seq(upcase_seq(s)) =~= upcase_seq(s));
    lemma_token_mapping_case_insensitive(upcase_seq(s), s);
}

} // verus!
