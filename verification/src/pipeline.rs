//! Conversion Driver core: resolve the input, assemble the canonical
//! descriptor, and reconcile the payload against the declared mip-level
//! budget. The caller reads the input file beforehand and afterwards runs
//! the platform swizzle transform and writes the output.

use vstd::prelude::*;

use crate::descriptor::{build_descriptor, spec_default_sampler, TextureDescriptor};
use crate::reconcile::{lemma_reconcile_len, reconcile, spec_reconcile};
use crate::resolve::{container_native_tag, container_parses, container_within_limits,
    has_container_ext, opt_str_view, resolve_input, spec_resolve_error, spec_resolve_ok,
    spec_resolved_format, spec_resolved_height, spec_resolved_payload, spec_resolved_width,
    takes_container_route, Provenance, ResolveError};

verus! {

/// One invocation's command surface, as plain values.
#[derive(Debug)]
pub struct Args {
    /// Path of the input file.
    pub input: String,
    /// Path of the output file.
    pub output: String,
    /// Explicit width override; required when no container decode succeeds.
    pub width: Option<u32>,
    /// Explicit height override; required when no container decode succeeds.
    pub height: Option<u32>,
    /// Explicit format token; required when no container decode succeeds.
    pub format: Option<String>,
    /// Declared byte budget of the single mip level.
    pub mip_size: u32,
}

/// Everything the swizzle transform and the output write need, plus the
/// diagnostic trail of how the record was produced.
#[derive(Debug)]
pub struct PreparedConversion {
    /// The canonical descriptor handed to the transform.
    pub descriptor: TextureDescriptor,
    /// The payload, reconciled to exactly the declared mip byte budget.
    pub payload: Vec<u8>,
    /// Which resolution path produced the record.
    pub provenance: Provenance,
    /// Whether the reconciler had to pad or truncate the payload.
    pub payload_was_adjusted: bool,
    /// The payload length before reconciliation, for diagnostics.
    pub resolved_len: usize,
}

/// Run the decision core of one invocation: resolve `(path, data)` with the
/// explicit overrides, build the descriptor, and force the payload to
/// exactly `mip_size` bytes, so that the descriptor's declared mip byte
/// size always equals the payload length handed onward.
pub fn prepare_conversion(
    path: &str,
    data: Vec<u8>,
    width: Option<u32>,
    height: Option<u32>,
    format_token: &Option<String>,
    mip_size: u32,
) -> (r: Result<PreparedConversion, ResolveError>)
    ensures
        r is Ok <==> spec_resolve_ok(path@, data@, width, height, opt_str_view(*format_token)),
        r matches Err(e) ==> spec_resolve_error(
            path@,
            data@,
            width,
            height,
            opt_str_view(*format_token),
            e,
        ),
        r matches Ok(p) ==> {
            &&& p.descriptor.wf()
            &&& p.descriptor.width == spec_resolved_width(path@, data@, width)
            &&& p.descriptor.height == spec_resolved_height(path@, data@, height)
            &&& p.descriptor.format == spec_resolved_format(
                path@,
                data@,
                opt_str_view(*format_token),
            )
            &&& p.descriptor.layer_count == 1
            &&& p.descriptor.mip_byte_sizes@ == seq![mip_size]
            &&& p.descriptor.tiling_hint == 0
            &&& p.descriptor.swizzle_hint == 0
            &&& p.descriptor.sampler == spec_default_sampler()
            &&& p.payload@ == spec_reconcile(spec_resolved_payload(path@, data@), mip_size as nat)
            &&& p.payload@.len() == p.descriptor.mip_byte_sizes@[0]
            &&& p.payload@.len() == mip_size
            &&& p.payload_was_adjusted == (spec_resolved_payload(path@, data@).len() != mip_size)
            &&& p.resolved_len == spec_resolved_payload(path@, data@).len()
            &&& (p.provenance is Container <==> takes_container_route(path@, data@))
            &&& (p.provenance matches Provenance::Container(t) ==> container_native_tag(data@)
                == Some(t))
            &&& (p.provenance is Raw <==> !has_container_ext(path@))
            &&& (p.provenance is Fallback <==> has_container_ext(path@) && !(
            container_parses(data@) && container_within_limits(data@)))
        },
{
    let resolved = match resolve_input(path, data, width, height, format_token) {
        Ok(res) => res,
        Err(e) => {
            return Err(e);
        },
    };
    let descriptor = build_descriptor(resolved.width, resolved.height, resolved.format, mip_size);
    let resolved_len = resolved.payload.len();
    let expected = mip_size as usize;
    let (payload, adjusted) = reconcile(resolved.payload, expected);
    proof {
        lemma_reconcile_len(spec_resolved_payload(path@, data@), mip_size as nat);
    }
    Ok(PreparedConversion {
        descriptor,
        payload,
        provenance: resolved.provenance,
        payload_was_adjusted: adjusted,
        resolved_len,
    })
}

} // verus!
