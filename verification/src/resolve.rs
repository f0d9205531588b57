//! Input Resolver: turns a file path, its bytes, and optional explicit
//! overrides into one canonical `(width, height, format, payload)` record,
//! trying structured container decoding first and falling back to the
//! explicit parameters.

use vstd::prelude::*;

use crate::format::{spec_tag_to_format, spec_token_to_format, tag_to_format, token_to_format,
    PixelFormat};

verus! {

/// Whether container-bytes parse as a structured container.
pub uninterp spec fn container_parses(bytes: Seq<u8>) -> bool;

/// The pixel width recorded in a parsed container.
pub uninterp spec fn container_width(bytes: Seq<u8>) -> u32;

/// The pixel height recorded in a parsed container.
pub uninterp spec fn container_height(bytes: Seq<u8>) -> u32;

/// The native pixel-format tag of a parsed container, if it carries one.
pub uninterp spec fn container_native_tag(bytes: Seq<u8>) -> Option<u32>;

/// The first layer's decoded byte data of a parsed container, if it can be
/// extracted.
pub uninterp spec fn container_mip(bytes: Seq<u8>) -> Option<Seq<u8>>;

/// The volume depth of a parsed container (one for flat textures).
pub uninterp spec fn container_depth(bytes: Seq<u8>) -> u32;

/// The mip-level count recorded in a parsed container (at least the base
/// level counts as one).
pub uninterp spec fn container_mip_count(bytes: Seq<u8>) -> u32;

/// The raw array-size field of a parsed container's extended header, if the
/// container has one.
pub uninterp spec fn container_array_size(bytes: Seq<u8>) -> Option<u32>;

/// What a successful structured header decode hands back: plain values only.
pub struct ContainerHeader {
    /// Pixel width from the container header.
    pub width: u32,
    /// Pixel height from the container header.
    pub height: u32,
    /// Native pixel-format tag, as the numeric value of the container
    /// format enumeration; `None` when the container carries no such tag.
    pub native_tag: Option<u32>,
    /// Volume depth (one for flat textures).
    pub depth: u32,
    /// Recorded mip-level count (at least one).
    pub mip_count: u32,
    /// Raw array-size field of the extended header, if present.
    pub array_size: Option<u32>,
}

/// Relies on ddsfile's `Dds::read` to parse the byte buffer, and on
/// `Dds::get_width`, `Dds::get_height`, `Dds::get_dxgi_format`,
/// `Dds::get_depth`, `Dds::get_num_mipmap_levels` and the extended header's
/// `array_size` field for the parsed values; each outcome is a function of
/// the byte buffer alone, and none of these performs layout arithmetic.
/// The native tag is carried as the numeric value of the format
/// enumeration.
#[verifier::external_body]
fn read_container_header(bytes: &[u8]) -> (r: Result<ContainerHeader, String>)
    ensures
        r is Ok <==> container_parses(bytes@),
        r matches Ok(hdr) ==> {
            &&& hdr.width == container_width(bytes@)
            &&& hdr.height == container_height(bytes@)
            &&& hdr.native_tag == container_native_tag(bytes@)
            &&& hdr.depth == container_depth(bytes@)
            &&& hdr.mip_count == container_mip_count(bytes@)
            &&& hdr.array_size == container_array_size(bytes@)
        },
{
    match ddsfile::Dds::read(bytes) {
        Ok(dds) => Ok(ContainerHeader {
            width: dds.get_width(),
            height: dds.get_height(),
            native_tag: dds.get_dxgi_format().map(|f| f as u32),
            depth: dds.get_depth(),
            mip_count: dds.get_num_mipmap_levels(),
            array_size: dds.header10.as_ref().map(|h| h.array_size),
        }),
        Err(e) => Err(format!("{}", e)),
    }
}

/// Largest container width or height the layer extraction is asked to lay
/// out.
pub const MAX_CONTAINER_DIM: u32 = 8192;

/// Largest volume depth the layer extraction is asked to lay out; the
/// pipeline handles flat textures only.
pub const MAX_CONTAINER_DEPTH: u32 = 1;

/// Largest recorded mip-level count the layer extraction is asked to lay
/// out.
pub const MAX_CONTAINER_MIPS: u32 = 16;

/// Largest extended-header array size the layer extraction is asked to lay
/// out.
pub const MAX_CONTAINER_LAYERS: u32 = 1024;

/// Whether a parsed container's recorded dimensions are small enough for
/// the decoder's 32-bit layout arithmetic to hold: with these bounds every
/// per-mip product (at most bytes-per-pixel 16 times width times height
/// times depth, halving each level) and the layer count stay far below the
/// 32-bit limit, so layer extraction cannot abort on overflow.
pub open spec fn container_within_limits(data: Seq<u8>) -> bool {
    &&& container_width(data) <= MAX_CONTAINER_DIM
    &&& container_height(data) <= MAX_CONTAINER_DIM
    &&& container_depth(data) <= MAX_CONTAINER_DEPTH
    &&& container_mip_count(data) <= MAX_CONTAINER_MIPS
    &&& (container_array_size(data) matches Some(a) ==> a <= MAX_CONTAINER_LAYERS)
}

/// Relies on ddsfile's `Dds::read` and `Dds::get_data` (layer 0); both
/// outcomes are functions of the byte buffer alone. `get_data` computes the
/// layer's offset and size with unchecked 32-bit arithmetic over the
/// header's width, height, depth, mip count and array size, so the
/// `requires` admits only containers whose recorded dimensions keep every
/// step of that arithmetic below the 32-bit limit; for such containers the
/// call returns normally.
#[verifier::external_body]
fn extract_layer(bytes: &[u8]) -> (r: Result<Vec<u8>, String>)
    requires
        container_parses(bytes@),
        container_within_limits(bytes@),
    ensures
        r is Ok <==> container_mip(bytes@) is Some,
        r matches Ok(d) ==> container_mip(bytes@) == Some(d@),
{
    match ddsfile::Dds::read(bytes) {
        Ok(dds) => match dds.get_data(0) {
            Ok(d) => Ok(d.to_vec()),
            Err(e) => Err(format!("{}", e)),
        },
        Err(e) => Err(format!("{}", e)),
    }
}

/// Whether the path's extension indicates the structured container format:
/// it ends in `.dds` with at least one character before the dot that is not
/// a path separator.
pub open spec fn has_container_ext(s: Seq<char>) -> bool {
    &&& s.len() >= 5
    &&& s.subrange(s.len() - 4, s.len() as int) == ".dds"@
    &&& s[s.len() - 5] != '/'
}

/// Decide whether a path names a structured container file.
pub fn path_has_container_ext(path: &str) -> (r: bool)
    ensures
        r == has_container_ext(path@),
{
    proof {
        reveal_strlit(".dds");
    }
    let n = path.unicode_len();
    if n < 5 {
        return false;
    }
    if path.get_char(n - 5) == '/' {
        return false;
    }
    let r = path.get_char(n - 4) == '.' && path.get_char(n - 3) == 'd'
        && path.get_char(n - 2) == 'd' && path.get_char(n - 1) == 's';
    proof {
        let tail = path@.subrange(n - 4, n as int);
        if r {
            assert(tail =~= ".dds"@);
        } else {
            assert(tail[0] == path@[n - 4]);
            assert(tail[1] == path@[n - 3]);
            assert(tail[2] == path@[n - 2]);
            assert(tail[3] == path@[n - 1]);
        }
    }
    r
}

/// Why a resolution attempt failed.
#[derive(Debug)]
pub enum ResolveError {
    /// The container parsed but carries no native pixel-format tag.
    NoNativeFormat,
    /// The container's native tag (carried) has no pipeline mapping.
    UnsupportedNativeFormat(u32),
    /// The container parsed but its layer data could not be extracted;
    /// carries the extraction error's text.
    MipDataUnavailable(String),
    /// No structured decode, and no explicit width was supplied.
    MissingWidth,
    /// No structured decode, and no explicit height was supplied.
    MissingHeight,
    /// No structured decode, and no explicit format token was supplied.
    MissingFormat,
    /// The explicit format token (carried) names no supported format.
    UnsupportedFormatToken(String),
}

/// Which of the two resolution paths produced the record.
#[derive(Debug)]
pub enum Provenance {
    /// Structured decoding succeeded and supplied the record; carries the
    /// container's native pixel-format tag for an informational diagnostic.
    Container(u32),
    /// The path had the container extension but decoding failed (the decode
    /// error's text is carried for a warning diagnostic); the explicit
    /// overrides supplied the record.
    Fallback(String),
    /// The path did not have the container extension; the explicit
    /// overrides supplied the record.
    Raw,
}

/// The canonical resolved fragment of a texture descriptor.
#[derive(Debug)]
pub struct ResolvedInput {
    /// Pixel width.
    pub width: u32,
    /// Pixel height.
    pub height: u32,
    /// Resolved pipeline pixel format.
    pub format: PixelFormat,
    /// The raw payload for the single mip level, not yet reconciled.
    pub payload: Vec<u8>,
    /// Which resolution path produced this record.
    pub provenance: Provenance,
}

/// The view of an optional owned token.
pub open spec fn opt_str_view(t: Option<String>) -> Option<Seq<char>> {
    match t {
        Some(s) => Some(s@),
        None => None,
    }
}

/// The structured-decode path determines the result exactly when the
/// extension matches, decoding succeeds, and the recorded dimensions are
/// within the decoder's layout limits; any other decode outcome falls back
/// to the explicit overrides.
pub open spec fn takes_container_route(path: Seq<char>, data: Seq<u8>) -> bool {
    has_container_ext(path) && container_parses(data) && container_within_limits(data)
}

/// A decoded container resolves successfully when it carries a native tag,
/// the tag has a pipeline mapping, and its layer data can be extracted.
pub open spec fn container_resolution_ok(data: Seq<u8>) -> bool {
    &&& container_native_tag(data) matches Some(t)
    &&& spec_tag_to_format(t) is Some
    &&& container_mip(data) is Some
}

/// The explicit path resolves successfully when width, height and a
/// supported format token are all supplied.
pub open spec fn explicit_resolution_ok(
    w: Option<u32>,
    h: Option<u32>,
    tok: Option<Seq<char>>,
) -> bool {
    &&& w is Some
    &&& h is Some
    &&& tok matches Some(t)
    &&& spec_token_to_format(t) is Some
}

/// When resolution as a whole succeeds.
pub open spec fn spec_resolve_ok(
    path: Seq<char>,
    data: Seq<u8>,
    w: Option<u32>,
    h: Option<u32>,
    tok: Option<Seq<char>>,
) -> bool {
    if takes_container_route(path, data) {
        container_resolution_ok(data)
    } else {
        explicit_resolution_ok(w, h, tok)
    }
}

/// The width a successful resolution returns.
pub open spec fn spec_resolved_width(path: Seq<char>, data: Seq<u8>, w: Option<u32>) -> u32 {
    if takes_container_route(path, data) {
        container_width(data)
    } else {
        w->0
    }
}

/// The height a successful resolution returns.
pub open spec fn spec_resolved_height(path: Seq<char>, data: Seq<u8>, h: Option<u32>) -> u32 {
    if takes_container_route(path, data) {
        container_height(data)
    } else {
        h->0
    }
}

/// The pixel format a successful resolution returns.
pub open spec fn spec_resolved_format(
    path: Seq<char>,
    data: Seq<u8>,
    tok: Option<Seq<char>>,
) -> PixelFormat {
    if takes_container_route(path, data) {
        spec_tag_to_format(container_native_tag(data)->0)->0
    } else {
        spec_token_to_format(tok->0)->0
    }
}

/// The payload a successful resolution returns: the container's decoded
/// layer data on the structured path, the raw file bytes otherwise.
pub open spec fn spec_resolved_payload(path: Seq<char>, data: Seq<u8>) -> Seq<u8> {
    if takes_container_route(path, data) {
        container_mip(data)->0
    } else {
        data
    }
}

/// The error the explicit path owes for its inputs: each missing override is
/// named in order, then an unsupported token is carried back.
pub open spec fn spec_explicit_error(
    w: Option<u32>,
    h: Option<u32>,
    tok: Option<Seq<char>>,
    e: ResolveError,
) -> bool {
    if w is None {
        e is MissingWidth
    } else if h is None {
        e is MissingHeight
    } else {
        match tok {
            None => e is MissingFormat,
            Some(t) => spec_token_to_format(t) is None && (e matches
                ResolveError::UnsupportedFormatToken(s) && s@ == t),
        }
    }
}

/// The error resolution owes for its inputs.
pub open spec fn spec_resolve_error(
    path: Seq<char>,
    data: Seq<u8>,
    w: Option<u32>,
    h: Option<u32>,
    tok: Option<Seq<char>>,
    e: ResolveError,
) -> bool {
    if takes_container_route(path, data) {
        match container_native_tag(data) {
            None => e is NoNativeFormat,
            Some(t) => if spec_tag_to_format(t) is None {
                e == ResolveError::UnsupportedNativeFormat(t)
            } else {
                container_mip(data) is None && e is MipDataUnavailable
            },
        }
    } else {
        spec_explicit_error(w, h, tok, e)
    }
}

fn explicit_resolve(
    data: Vec<u8>,
    width: Option<u32>,
    height: Option<u32>,
    format_token: &Option<String>,
    provenance: Provenance,
) -> (r: Result<ResolvedInput, ResolveError>)
    ensures
        r is Ok <==> explicit_resolution_ok(width, height, opt_str_view(*format_token)),
        r matches Ok(res) ==> {
            &&& res.width == width->0
            &&& res.height == height->0
            &&& Some(res.format) == spec_token_to_format(opt_str_view(*format_token)->0)
            &&& res.payload@ == data@
            &&& res.provenance == provenance
        },
        r matches Err(e) ==> spec_explicit_error(
            width,
            height,
            opt_str_view(*format_token),
            e,
        ),
{
    let w = match width {
        Some(w) => w,
        None => {
            return Err(ResolveError::MissingWidth);
        },
    };
    let h = match height {
        Some(h) => h,
        None => {
            return Err(ResolveError::MissingHeight);
        },
    };
    let tok = match format_token {
        Some(t) => t,
        None => {
            return Err(ResolveError::MissingFormat);
        },
    };
    let fmt = match token_to_format(tok.as_str()) {
        Some(f) => f,
        None => {
            return Err(ResolveError::UnsupportedFormatToken(tok.clone()));
        },
    };
    Ok(ResolvedInput { width: w, height: h, format: fmt, payload: data, provenance })
}

/// Resolve one texture input. Structured decoding is attempted exactly when
/// the path has the container extension; a decode failure, or a container
/// whose recorded dimensions exceed the decoding limits, falls back to the
/// explicit overrides, which must then all be present; any other path uses
/// the overrides directly with the raw file bytes as payload.
pub fn resolve_input(
    path: &str,
    data: Vec<u8>,
    width: Option<u32>,
    height: Option<u32>,
    format_token: &Option<String>,
) -> (r: Result<ResolvedInput, ResolveError>)
    ensures
        r is Ok <==> spec_resolve_ok(path@, data@, width, height, opt_str_view(*format_token)),
        r matches Ok(res) ==> {
            &&& res.width == spec_resolved_width(path@, data@, width)
            &&& res.height == spec_resolved_height(path@, data@, height)
            &&& res.format == spec_resolved_format(path@, data@, opt_str_view(*format_token))
            &&& res.payload@ == spec_resolved_payload(path@, data@)
            &&& (res.provenance is Container <==> takes_container_route(path@, data@))
            &&& (res.provenance matches Provenance::Container(t) ==> container_native_tag(data@)
                == Some(t))
            &&& (res.provenance is Raw <==> !has_container_ext(path@))
            &&& (res.provenance is Fallback <==> has_container_ext(path@) && !(
            container_parses(data@) && container_within_limits(data@)))
        },
        r matches Err(e) ==> spec_resolve_error(
            path@,
            data@,
            width,
            height,
            opt_str_view(*format_token),
            e,
        ),
{
    if path_has_container_ext(path) {
        match read_container_header(data.as_slice()) {
            Ok(hdr) => {
                let within_limits = hdr.width <= MAX_CONTAINER_DIM
                    && hdr.height <= MAX_CONTAINER_DIM && hdr.depth <= MAX_CONTAINER_DEPTH
                    && hdr.mip_count <= MAX_CONTAINER_MIPS && (match hdr.array_size {
                    Some(a) => a <= MAX_CONTAINER_LAYERS,
                    None => true,
                });
                if !within_limits {
                    return explicit_resolve(
                        data,
                        width,
                        height,
                        format_token,
                        Provenance::Fallback(
                            "container dimensions exceed the supported decoding limits".to_owned(),
                        ),
                    );
                }
                let tag = match hdr.native_tag {
                    Some(t) => t,
                    None => {
                        return Err(ResolveError::NoNativeFormat);
                    },
                };
                let fmt = match tag_to_format(tag) {
                    Some(f) => f,
                    None => {
                        return Err(ResolveError::UnsupportedNativeFormat(tag));
                    },
                };
                match extract_layer(data.as_slice()) {
                    Ok(mip) => Ok(ResolvedInput {
                        width: hdr.width,
                        height: hdr.height,
                        format: fmt,
                        payload: mip,
                        provenance: Provenance::Container(tag),
                    }),
                    Err(msg) => Err(ResolveError::MipDataUnavailable(msg)),
                }
            },
            Err(msg) => explicit_resolve(
                data,
                width,
                height,
                format_token,
                Provenance::Fallback(msg),
            ),
        }
    } else {
        explicit_resolve(data, width, height, format_token, Provenance::Raw)
    }
}

} // verus!
