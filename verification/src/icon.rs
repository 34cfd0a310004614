use vstd::prelude::*;

use crate::codec::{bgra_to_rgba, data_url_of, encode_rgba_as_data_url, png_bytes_of,
    swap_red_blue, MAX_BASE64_INPUT_LEN};
use crate::errors::ShellError;
use crate::shell::{port_frame, port_resources_unchanged, session_record_unchanged, ShellPort,
    ShellPortView};

verus! {

broadcast use vstd::multiset::group_multiset_axioms;

/// The smallest icon edge length a caller can request.
pub const MIN_ICON_SIZE: u32 = 16;

/// The largest icon edge length a caller can request.
pub const MAX_ICON_SIZE: u32 = 256;

/// The edge length used when the caller requests none.
pub const DEFAULT_ICON_SIZE: u32 = 64;

/// The edge length an icon request resolves to: the requested size clamped
/// to `[16, 256]`, or 64 when no size was requested.
pub open spec fn clamped_size(size: Option<u32>) -> u32 {
    match size {
        Option::None => DEFAULT_ICON_SIZE,
        Option::Some(s) => if s < MIN_ICON_SIZE {
            MIN_ICON_SIZE
        } else if s > MAX_ICON_SIZE {
            MAX_ICON_SIZE
        } else {
            s
        },
    }
}

/// Clamps a requested icon size to the supported range, defaulting to 64.
pub fn clamp_requested_size(size: Option<u32>) -> (r: u32)
    ensures
        r == clamped_size(size),
        MIN_ICON_SIZE <= r <= MAX_ICON_SIZE,
{
    match size {
        None => DEFAULT_ICON_SIZE,
        Some(s) => if s < MIN_ICON_SIZE {
            MIN_ICON_SIZE
        } else if s > MAX_ICON_SIZE {
            MAX_ICON_SIZE
        } else {
            s
        },
    }
}

/// The image an icon resolution returns on success, before encoding: the
/// port's BGRA rasterization of some icon handle for the path, reordered
/// into canonical RGBA.
pub open spec fn resolved_icon_url<S: ShellPortView>(
    port: S,
    icon: u64,
    size: u32,
) -> Seq<char> {
    data_url_of(png_bytes_of(size, size, swap_red_blue(port.rendered(icon, size))))
}

/// Resolves the OS shell icon for `path` into a `data:image/png;base64,...`
/// URL of exactly the clamped size.
///
/// Whatever the outcome, every acquired resource is released: the port's
/// icon, surface, shell-identifier and COM accounts end as they began. The
/// error pins the failing step: an unsupported platform acquires nothing, a
/// failed shell query acquires nothing, a failed surface allocation leaves
/// exactly one acquisition (the icon handle, released again), and an
/// encoding failure - possible only when the PNG bytes outgrow the base64
/// input bound - leaves exactly two (icon and surface, both released).
pub fn resolve_icon<S: ShellPort>(shell: &mut S, path: &String, size: Option<u32>) -> (r: Result<
    String,
    ShellError,
>)
    ensures
        port_frame(*old(shell), *final(shell)),
        port_resources_unchanged(*old(shell), *final(shell)),
        session_record_unchanged(*old(shell), *final(shell)),
        (r == Err::<String, ShellError>(ShellError::PlatformUnsupportedError)) <==> !old(shell).native_supported(),
        !old(shell).native_supported() ==> final(shell).acquire_count() == old(shell).acquire_count(),
        r == Err::<String, ShellError>(ShellError::ShellQueryError) ==> final(shell).acquire_count() == old(shell).acquire_count(),
        r == Err::<String, ShellError>(ShellError::SurfaceAllocationError) ==> final(shell).acquire_count() == old(shell).acquire_count() + 1,
        r == Err::<String, ShellError>(ShellError::EncodeError) ==> final(shell).acquire_count()
            == old(shell).acquire_count() + 2 && (exists|icon: u64|
            png_bytes_of(
                clamped_size(size),
                clamped_size(size),
                swap_red_blue(old(shell).rendered(icon, clamped_size(size))),
            ).len() > MAX_BASE64_INPUT_LEN),
        r matches Err(e) ==> (e == ShellError::PlatformUnsupportedError || e
            == ShellError::ShellQueryError || e == ShellError::SurfaceAllocationError || e
            == ShellError::EncodeError),
        r matches Ok(url) ==> old(shell).native_supported() && final(shell).acquire_count() == old(shell).acquire_count() + 2 && (exists|icon: u64|
            url@ == resolved_icon_url(*old(shell), icon, clamped_size(size))),
{
    let csize = clamp_requested_size(size);
    if !shell.supports_native_shell() {
        return Err(ShellError::PlatformUnsupportedError);
    }
    let icon = match shell.query_file_icon(path) {
        None => {
            return Err(ShellError::ShellQueryError);
        },
        Some(icon) => icon,
    };
    let surface = match shell.allocate_surface(csize) {
        None => {
            shell.release_icon(icon);
            proof {
                assert(shell.icons() =~= old(shell).icons());
            }
            return Err(ShellError::SurfaceAllocationError);
        },
        Some(surface) => surface,
    };
    let bgra = shell.render_icon(icon, surface, csize);
    shell.release_icon(icon);
    shell.release_surface(surface);
    proof {
        assert(shell.icons() =~= old(shell).icons());
        assert(shell.surfaces() =~= old(shell).surfaces());
    }
    proof {
        let n = csize as int;
        vstd::arithmetic::mul::lemma_mul_is_associative(4int, n, n);
        let m = n * n;
        assert((4 * m) % 4 == 0);
        assert(crate::codec::pixel_buffer_len(csize) == 4 * n * n);
    }
    let rgba = bgra_to_rgba(&bgra);
    match encode_rgba_as_data_url(csize, rgba) {
        Ok(url) => {
            assert(url@ == resolved_icon_url(*old(shell), icon, csize));
            Ok(url)
        },
        Err(e) => Err(e),
    }
}

} // verus!
