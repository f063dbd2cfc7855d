//! The window icon: the largest image of the application's ICO file.

use vstd::prelude::*;
use crate::text::{cat, cat3, decimal, decimal_string, owned};

verus! {

/// What `ico::IconDir::read` gives for the bytes of an ICO file: the width
/// and height of each entry, in file order, or the text of the error.
pub uninterp spec fn ico_read(bytes: Seq<u8>) -> Result<Seq<(u32, u32)>, Seq<char>>;

/// What `ico::IconDirEntry::decode` gives for entry `index` of the ICO file
/// `bytes`: its RGBA pixels, width and height, or the text of the error.
pub uninterp spec fn ico_decode(bytes: Seq<u8>, index: int) -> Result<(Seq<u8>, u32, u32), Seq<char>>;

/// Reads the directory of an ICO file with `ico::IconDir::read` and gives the
/// width and height (`IconDirEntry::width`, `IconDirEntry::height`) of each
/// entry, or the error's text. The contract claims only that the outcome is a
/// function of the bytes.
#[verifier::external_body]
fn read_icon_sizes(bytes: &[u8]) -> (r: Result<Vec<(u32, u32)>, String>)
    ensures
        match (r, ico_read(bytes@)) {
            (Ok(v), Ok(s)) => v@ == s,
            (Err(e), Err(m)) => e@ == m,
            _ => false,
        },
{
    match ico::IconDir::read(std::io::Cursor::new(bytes)) {
        Ok(dir) => Ok(dir.entries().iter().map(|e| (e.width(), e.height())).collect()),
        Err(e) => Err(e.to_string()),
    }
}

/// Decodes entry `index` of an ICO file with `ico::IconDirEntry::decode` and
/// gives `IconImage::rgba_data`, `width` and `height`, or the error's text.
/// The contract claims that the outcome is a function of the bytes and the
/// index, and, as `decode` checks, that a decoded image has the size that the
/// directory gives for the entry. The entry's size must be decodable: the BMP
/// reader of `ico` computes `width * height` and `4 * width * height` in `u32`.
#[verifier::external_body]
fn decode_icon(bytes: &[u8], index: usize) -> (r: Result<(Vec<u8>, u32, u32), String>)
    requires
        ico_read(bytes@) is Ok,
        index < ico_read(bytes@)->Ok_0.len(),
        icon_size_decodable(ico_read(bytes@)->Ok_0[index as int]),
    ensures
        match (r, ico_decode(bytes@, index as int)) {
            (Ok(v), Ok(d)) => v.0@ == d.0 && v.1 == d.1 && v.2 == d.2,
            (Err(e), Err(m)) => e@ == m,
            _ => false,
        },
        r is Ok ==> r->Ok_0.1 == ico_read(bytes@)->Ok_0[index as int].0
            && r->Ok_0.2 == ico_read(bytes@)->Ok_0[index as int].1,
{
    let dir = match ico::IconDir::read(std::io::Cursor::new(bytes)) {
        Ok(dir) => dir,
        Err(e) => return Err(e.to_string()),
    };
    match dir.entries()[index].decode() {
        Ok(image) => Ok((image.rgba_data().to_vec(), image.width(), image.height())),
        Err(e) => Err(e.to_string()),
    }
}

/// An image size whose pixel buffer the decoder can size in `u32`: each side
/// at most 65535 and four bytes per pixel within `u32::MAX`.
pub open spec fn icon_size_decodable(size: (u32, u32)) -> bool {
    size.0 <= 65535 && size.1 <= 65535 && 4 * (size.0 as int) * (size.1 as int) <= u32::MAX
}

/// Whether an image size can be decoded (see [`icon_size_decodable`]).
pub fn size_decodable(size: (u32, u32)) -> (b: bool)
    ensures
        b == icon_size_decodable(size),
{
    if size.0 > 65535 || size.1 > 65535 {
        return false;
    }
    let w = size.0 as u64;
    let h = size.1 as u64;
    assert(4 * (w as int) * (h as int) <= 4 * 65535 * 65535) by (nonlinear_arith)
        requires
            w <= 65535,
            h <= 65535,
    {
    }
    4 * w * h <= 0xFFFF_FFFF
}

/// The pixel count of an image of the given width and height.
pub open spec fn area(size: (u32, u32)) -> int {
    size.0 as int * size.1 as int
}

/// `i` is the last of the entries with the greatest area.
pub open spec fn is_largest_index(sizes: Seq<(u32, u32)>, i: int) -> bool {
    &&& 0 <= i < sizes.len()
    &&& forall|j: int| 0 <= j < sizes.len() ==> area(#[trigger] sizes[j]) <= area(sizes[i])
    &&& forall|j: int| i < j < sizes.len() ==> area(#[trigger] sizes[j]) < area(sizes[i])
}

proof fn lemma_area_fits(w: u32, h: u32)
    ensures
        0 <= area((w, h)) <= u64::MAX,
{
    assert(0 <= (w as int) * (h as int) <= (u32::MAX as int) * (u32::MAX as int)) by (nonlinear_arith)
        requires
            0 <= w <= u32::MAX,
            0 <= h <= u32::MAX,
    {
    }
}

/// The index of the largest entry (the last one among equals), or `None` for
/// a directory without entries.
pub fn largest_icon_index(sizes: &Vec<(u32, u32)>) -> (r: Option<usize>)
    ensures
        r is None <==> sizes@.len() == 0,
        r is Some ==> is_largest_index(sizes@, r->0 as int),
{
    if sizes.len() == 0 {
        return None;
    }
    let mut best: usize = 0;
    proof { lemma_area_fits(sizes@[0].0, sizes@[0].1); }
    let mut best_area: u64 = (sizes[0].0 as u64) * (sizes[0].1 as u64);
    let mut i: usize = 1;
    while i < sizes.len()
        invariant
            1 <= i <= sizes@.len(),
            best < i,
            best_area == area(sizes@[best as int]),
            forall|j: int| 0 <= j < i ==> area(#[trigger] sizes@[j]) <= area(sizes@[best as int]),
            forall|j: int| best < j < i ==> area(#[trigger] sizes@[j]) < area(sizes@[best as int]),
        decreases sizes@.len() - i,
    {
        proof { lemma_area_fits(sizes@[i as int].0, sizes@[i as int].1); }
        let a: u64 = (sizes[i].0 as u64) * (sizes[i].1 as u64);
        if a >= best_area {
            best = i;
            best_area = a;
        }
        i = i + 1;
    }
    Some(best)
}

/// An image to show as the window icon.
pub struct IconImage {
    pub rgba: Vec<u8>,
    pub width: u32,
    pub height: u32,
}

/// The window icon: the largest image of the ICO file `bytes`, decoded, or
/// the warning that says why there is none. A largest image too large to
/// decode is refused before decoding.
pub fn load_window_icon(bytes: &[u8]) -> (r: Result<IconImage, String>)
    ensures
        ico_read(bytes@) is Err ==> r is Err
            && r->Err_0@ == "Failed to read window icon: "@ + ico_read(bytes@)->Err_0,
        ico_read(bytes@) is Ok && ico_read(bytes@)->Ok_0.len() == 0 ==> r is Err
            && r->Err_0@ == "Window icon file does not contain any images"@,
        ico_read(bytes@) is Ok && ico_read(bytes@)->Ok_0.len() > 0 ==> exists|i: int| #![trigger is_largest_index(ico_read(bytes@)->Ok_0, i)] {
            let size = ico_read(bytes@)->Ok_0[i];
            &&& is_largest_index(ico_read(bytes@)->Ok_0, i)
            &&& !icon_size_decodable(size) ==> r is Err && r->Err_0@ == "Window icon image is too large: "@
                + decimal(size.0 as nat) + "x"@ + decimal(size.1 as nat)
            &&& icon_size_decodable(size) ==> match ico_decode(bytes@, i) {
                Ok(d) => r is Ok && r->Ok_0.rgba@ == d.0 && r->Ok_0.width == d.1
                    && r->Ok_0.height == d.2,
                Err(m) => r is Err && r->Err_0@ == "Failed to decode window icon: "@ + m,
            }
        },
{
    let sizes = match read_icon_sizes(bytes) {
        Ok(sizes) => sizes,
        Err(e) => return Err(cat("Failed to read window icon: ", e.as_str())),
    };
    let index = match largest_icon_index(&sizes) {
        Some(i) => i,
        None => return Err(owned("Window icon file does not contain any images")),
    };
    let size = sizes[index];
    if !size_decodable(size) {
        let w = decimal_string(size.0 as u64);
        let h = decimal_string(size.1 as u64);
        let mut m = cat3("Window icon image is too large: ", w.as_str(), "x");
        m.append(h.as_str());
        return Err(m);
    }
    match decode_icon(bytes, index) {
        Ok((rgba, width, height)) => Ok(IconImage { rgba, width, height }),
        Err(e) => Err(cat("Failed to decode window icon: ", e.as_str())),
    }
}

} // verus!
