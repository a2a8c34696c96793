//! The bundled-image gallery: which filenames count as seed images, the
//! containment check that guards against path traversal, and transfer
//! encoding of an image (or of its thumbnail) for the UI. Image re-encoding
//! and base64 are delegated to their crates behind trusted wrappers.

use vstd::prelude::*;
use vstd::string::*;
use crate::text::{
    spec_lower,
    eq_ignore_ascii_case,
    spec_last_dot_at,
    rfind_dot,
    spec_starts_with,
    str_starts_with,
};

verus! {

/// The thumbnail bound used when the caller does not pick one.
pub const DEFAULT_THUMBNAIL_SIZE: u32 = 80;

/// `name` carries the extension `ext` (ASCII case-insensitive) after its
/// last dot, with a non-empty stem before that dot.
pub open spec fn spec_has_ext(name: Seq<char>, i: int, ext: Seq<char>) -> bool {
    &&& spec_last_dot_at(name, i)
    &&& 0 < i
    &&& spec_lower(name.subrange(i + 1, name.len() as int)) == spec_lower(ext)
}

/// The gallery lists files whose extension is png, jpg or jpeg.
pub open spec fn spec_is_seed_filename(name: Seq<char>) -> bool {
    exists|i: int|
        spec_has_ext(name, i, "png"@) || spec_has_ext(name, i, "jpg"@) || spec_has_ext(
            name,
            i,
            "jpeg"@,
        )
}

proof fn lemma_last_dot_unique(name: Seq<char>, i: int, j: int)
    requires
        spec_last_dot_at(name, i),
        spec_last_dot_at(name, j),
    ensures
        i == j,
{
}

/// Decide whether one filename belongs in the gallery listing.
pub fn is_seed_filename(name: &str) -> (r: bool)
    ensures
        r == spec_is_seed_filename(name@),
{
    let n = name.unicode_len();
    match rfind_dot(name) {
        None => {
            proof {
                assert forall|i: int|
                    !(spec_has_ext(name@, i, "png"@) || spec_has_ext(name@, i, "jpg"@)
                        || spec_has_ext(name@, i, "jpeg"@)) by {};
            }
            false
        },
        Some(i) => {
            if i == 0 {
                proof {
                    assert forall|j: int|
                        !(spec_has_ext(name@, j, "png"@) || spec_has_ext(name@, j, "jpg"@)
                            || spec_has_ext(name@, j, "jpeg"@)) by {
                        if spec_last_dot_at(name@, j) {
                            lemma_last_dot_unique(name@, i as int, j);
                        }
                    };
                }
                false
            } else {
                let ext = name.substring_char(i + 1, n);
                let r = eq_ignore_ascii_case(ext, "png") || eq_ignore_ascii_case(ext, "jpg")
                    || eq_ignore_ascii_case(ext, "jpeg");
                proof {
                    if r {
                        assert(spec_has_ext(name@, i as int, "png"@) || spec_has_ext(
                            name@,
                            i as int,
                            "jpg"@,
                        ) || spec_has_ext(name@, i as int, "jpeg"@));
                    }
                    if !r {
                        assert forall|j: int|
                            !(spec_has_ext(name@, j, "png"@) || spec_has_ext(name@, j, "jpg"@)
                                || spec_has_ext(name@, j, "jpeg"@)) by {
                            if spec_last_dot_at(name@, j) {
                                lemma_last_dot_unique(name@, i as int, j);
                            }
                        };
                    }
                }
                r
            }
        },
    }
}

/// The listing keeps exactly the seed filenames, in directory order.
pub fn filter_seed_filenames(names: &Vec<String>) -> (r: Vec<String>)
    ensures
        crate::text::spec_views(r@) == crate::text::spec_views(names@).filter(
            |n: Seq<char>| spec_is_seed_filename(n),
        ),
{
    let ghost views = crate::text::spec_views(names@);
    let ghost pred = (|n: Seq<char>| spec_is_seed_filename(n));
    let mut out: Vec<String> = Vec::new();
    proof {
        reveal(Seq::filter);
        assert(views.subrange(0, 0) =~= Seq::<Seq<char>>::empty());
    }
    let mut i: usize = 0;
    while i < names.len()
        invariant
            views == crate::text::spec_views(names@),
            pred == (|n: Seq<char>| spec_is_seed_filename(n)),
            views.len() == names@.len(),
            0 <= i <= names@.len(),
            crate::text::spec_views(out@) =~= views.subrange(0, i as int).filter(pred),
        decreases names@.len() - i,
    {
        let ghost out0 = out@;
        proof {
            assert(views[i as int] == names@[i as int]@);
            assert(views.subrange(0, i + 1).drop_last() =~= views.subrange(0, i as int));
            reveal(Seq::filter);
        }
        if is_seed_filename(names[i].as_str()) {
            out.push(names[i].clone());
            proof {
                assert(crate::text::spec_views(out@) =~= crate::text::spec_views(out0).push(
                    names@[i as int]@,
                ));
            }
        }
        i += 1;
    }
    proof {
        assert(views.subrange(0, names@.len() as int) =~= views);
    }
    out
}

/// The canonical `path` lies within the canonical `base`: it is the base
/// itself, or sits below it past a separator.
pub open spec fn spec_within(base: Seq<char>, path: Seq<char>) -> bool {
    path == base || spec_starts_with(path, base + "/"@)
}

/// Containment check over canonicalized paths.
pub fn path_within(base: &str, path: &str) -> (r: bool)
    ensures
        r == spec_within(base@, path@),
{
    let n = path.unicode_len();
    let b = base.unicode_len();
    if n == b {
        let r = str_starts_with(path, base);
        proof {
            reveal_strlit("/");
            if path@ == base@ {
                assert(path@.subrange(0, base@.len() as int) =~= base@);
            }
            if spec_starts_with(path@, base@) {
                assert(path@.subrange(0, base@.len() as int) =~= path@);
            }
        }
        r
    } else {
        let mut pre = String::from_str(base);
        pre.append("/");
        str_starts_with(path, pre.as_str())
    }
}

/// The standard padded base64 encoding of `bytes`.
pub uninterp spec fn base64_of(bytes: Seq<u8>) -> Seq<char>;

/// Relies on base64's STANDARD engine: the encoding is a function of the
/// input bytes alone, four output characters per started three-byte block
/// (the engine pads, see base64::encoded_len).
#[verifier::external_body]
fn base64_encode(bytes: &Vec<u8>) -> (r: String)
    ensures
        r@ == base64_of(bytes@),
        r@.len() == 4 * ((bytes@.len() + 2) / 3),
{
    base64::Engine::encode(&base64::engine::general_purpose::STANDARD, bytes.as_slice())
}

/// The JPEG-encoded thumbnail of the image `bytes`, bounded to `max`
/// pixels on the longer side.
pub uninterp spec fn thumbnail_jpeg_of(bytes: Seq<u8>, max: u32) -> Seq<u8>;

/// The image `bytes` decodes, so a thumbnail bounded to `max` can be made.
pub uninterp spec fn thumbnail_ok(bytes: Seq<u8>, max: u32) -> bool;

/// The (width, height) that decoding the image `bytes` reports.
pub uninterp spec fn image_dims_of(bytes: Seq<u8>) -> (u32, u32);

/// The (width, height) that resizing a `w` by `h` image to fit within a
/// `max` by `max` box yields (image's resize_dimensions: the aspect-ratio
/// preserving scale, rounded, each side clamped up to one pixel).
pub uninterp spec fn thumb_dims_of(w: u32, h: u32, max: u32) -> (u32, u32);

/// Relies on image::load_from_memory, DynamicImage::thumbnail and write_to
/// in JPEG format: decoding, resizing and re-encoding depend on the bytes
/// and the bound alone. The thumbnail's dimensions are resize_dimensions
/// applied to the decoded dimensions; that rule scales both sides by one
/// common ratio chosen to fit the box and rounds monotonically, so each
/// side stays within a positive bound (the one-pixel clamp exceeds a zero
/// bound), neither side is zero, and the wider-than-tall orientation is
/// kept.
#[verifier::external_body]
fn thumbnail_jpeg(bytes: &Vec<u8>, max: u32) -> (r: Result<Vec<u8>, String>)
    ensures
        r is Ok <==> thumbnail_ok(bytes@, max),
        r is Ok ==> r->Ok_0@ == thumbnail_jpeg_of(bytes@, max),
        r is Ok ==> image_dims_of(r->Ok_0@) == thumb_dims_of(
            image_dims_of(bytes@).0,
            image_dims_of(bytes@).1,
            max,
        ),
        r is Ok && max >= 1 ==> image_dims_of(r->Ok_0@).0 <= max && image_dims_of(r->Ok_0@).1
            <= max,
        r is Ok ==> image_dims_of(r->Ok_0@).0 >= 1 && image_dims_of(r->Ok_0@).1 >= 1,
        r is Ok && image_dims_of(bytes@).0 >= image_dims_of(bytes@).1 ==> image_dims_of(
            r->Ok_0@,
        ).0 >= image_dims_of(r->Ok_0@).1,
        r is Ok && image_dims_of(bytes@).1 >= image_dims_of(bytes@).0 ==> image_dims_of(
            r->Ok_0@,
        ).1 >= image_dims_of(r->Ok_0@).0,
{
    let img = image::load_from_memory(bytes.as_slice()).map_err(|e| e.to_string())?;
    let thumb = img.thumbnail(max, max);
    let mut out: Vec<u8> = Vec::new();
    let mut cursor = std::io::Cursor::new(&mut out);
    thumb.write_to(&mut cursor, image::ImageFormat::Jpeg).map_err(|e| e.to_string())?;
    Ok(out)
}

/// Why a seed read was refused.
#[derive(Debug)]
pub enum SeedError {
    /// The requested file resolves outside the gallery directory.
    InvalidPath,
    /// The image could not be decoded or re-encoded.
    Thumbnail { detail: String },
}

/// Transfer-encode a seed file's bytes, after checking that its canonical
/// path stays inside the gallery.
pub fn read_seed_as_base64(canonical_base: &str, canonical_path: &str, data: &Vec<u8>) -> (r:
    Result<String, SeedError>)
    ensures
        r is Ok <==> spec_within(canonical_base@, canonical_path@),
        r matches Ok(s) ==> s@ == base64_of(data@),
        r is Err ==> r matches Err(SeedError::InvalidPath),
{
    if path_within(canonical_base, canonical_path) {
        Ok(base64_encode(data))
    } else {
        Err(SeedError::InvalidPath)
    }
}

/// The thumbnail bound in effect: the caller's, or the default.
pub open spec fn spec_thumbnail_bound(max_size: Option<u32>) -> u32 {
    match max_size {
        Some(m) => m,
        None => DEFAULT_THUMBNAIL_SIZE,
    }
}

/// Thumbnail a seed image — bounded to `max_size`, or the default bound —
/// and transfer-encode the JPEG, after the same containment check.
pub fn read_seed_thumbnail(
    canonical_base: &str,
    canonical_path: &str,
    data: &Vec<u8>,
    max_size: Option<u32>,
) -> (r: Result<String, SeedError>)
    ensures
        !spec_within(canonical_base@, canonical_path@) ==> r matches Err(SeedError::InvalidPath),
        spec_within(canonical_base@, canonical_path@) ==> (r is Ok <==> thumbnail_ok(
            data@,
            spec_thumbnail_bound(max_size),
        )),
        r matches Ok(s) ==> {
            &&& spec_within(canonical_base@, canonical_path@)
            &&& s@ == base64_of(thumbnail_jpeg_of(data@, spec_thumbnail_bound(max_size)))
        },
        r is Ok ==> image_dims_of(thumbnail_jpeg_of(data@, spec_thumbnail_bound(max_size)))
            == thumb_dims_of(
            image_dims_of(data@).0,
            image_dims_of(data@).1,
            spec_thumbnail_bound(max_size),
        ),
        r is Ok && spec_thumbnail_bound(max_size) >= 1 ==> {
            &&& image_dims_of(thumbnail_jpeg_of(data@, spec_thumbnail_bound(max_size))).0
                <= spec_thumbnail_bound(max_size)
            &&& image_dims_of(thumbnail_jpeg_of(data@, spec_thumbnail_bound(max_size))).1
                <= spec_thumbnail_bound(max_size)
        },
        r is Ok && image_dims_of(data@).0 >= image_dims_of(data@).1 ==> image_dims_of(
            thumbnail_jpeg_of(data@, spec_thumbnail_bound(max_size)),
        ).0 >= image_dims_of(thumbnail_jpeg_of(data@, spec_thumbnail_bound(max_size))).1,
        r is Ok && image_dims_of(data@).1 >= image_dims_of(data@).0 ==> image_dims_of(
            thumbnail_jpeg_of(data@, spec_thumbnail_bound(max_size)),
        ).1 >= image_dims_of(thumbnail_jpeg_of(data@, spec_thumbnail_bound(max_size))).0,
        r matches Err(SeedError::Thumbnail { .. }) ==> spec_within(
            canonical_base@,
            canonical_path@,
        ),
{
    if !path_within(canonical_base, canonical_path) {
        return Err(SeedError::InvalidPath);
    }
    let max = match max_size {
        Some(m) => m,
        None => DEFAULT_THUMBNAIL_SIZE,
    };
    match thumbnail_jpeg(data, max) {
        Ok(jpeg) => Ok(base64_encode(&jpeg)),
        Err(detail) => Err(SeedError::Thumbnail { detail }),
    }
}

} // verus!
