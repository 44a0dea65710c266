//! High-level .ps2_texture reader.
//!
//! Reading a texture opens the .ps2_texture file and, for palettized textures, the
//! .ps2_palette file next to it. The reader below makes every decision of that process;
//! the caller performs the reads it asks for, in this order:
//!
//! 1. read the texture header, then [Ps2TextureReader::accept_texture_header], which names
//!    the palette file to open, if any;
//! 2. for a palette: read its header, then [Ps2TextureReader::accept_palette_header]; read
//!    [Ps2TextureReader::palette_data_size] bytes at [Ps2TextureReader::palette_data_start],
//!    then [Ps2TextureReader::store_palette_data];
//! 3. read [Ps2TextureReader::texture_data_size] bytes at
//!    [Ps2TextureReader::texture_data_start], then [Ps2TextureReader::store_texture_data].
//!
//! [Ps2TextureReader::convert_to_rgba] then gives the texture's pixels.

use vstd::prelude::*;
use crate::format::Validatable;
use crate::format::ps2_palette::Ps2PaletteHeader;
use crate::format::ps2_texture::Ps2TextureHeader;
use crate::util::Ps2Rgba;
use crate::util::bytes::{le_u16, read_u16_le};
use crate::util::path::{
    path_extension, path_file_name, path_with_extension, path_with_file_name, spec_path_extension,
    spec_path_file_name, spec_path_with_extension, spec_path_with_file_name,
};
use crate::util::text::{replace, spec_replace, str_to_chars, string_from_chars};

verus! {

/// Errors of reading a texture.
#[derive(Debug)]
pub enum Error {
    /// Underlying I/O error.
    IoError(std::io::Error),
    /// Invalid texture/palette file header.
    InvalidHeader,
    /// Couldn't read enough bytes from either texture or palette file.
    ReadTooSmall,
}

/// The characters of `texture_`.
pub open spec fn texture_prefix() -> Seq<char> {
    seq!['t', 'e', 'x', 't', 'u', 'r', 'e', '_']
}

/// The characters of `palette_`.
pub open spec fn palette_prefix() -> Seq<char> {
    seq!['p', 'a', 'l', 'e', 't', 't', 'e', '_']
}

/// The characters of `ps2_palette`.
pub open spec fn palette_extension() -> Seq<char> {
    seq!['p', 's', '2', '_', 'p', 'a', 'l', 'e', 't', 't', 'e']
}

/// The palette file name that goes with the texture file name `name`: each `texture_` in it
/// becomes `palette_`.
pub open spec fn spec_palette_file_name(name: Seq<char>) -> Seq<char> {
    spec_replace(name, texture_prefix(), palette_prefix())
}

/// The path of the palette file that goes with the texture at `path` (`None`: the path has
/// no file name to derive it from).
///
/// A lot of textures use the `texture_<name>.b` pattern; their palette is in the
/// `palette_<name>.b` file. Other textures come from a `.ps2_texture` file, whose palette has
/// the extension `.ps2_palette`. A path without an extension is its own palette path.
pub open spec fn spec_palette_path(path: Seq<char>) -> Option<Seq<char>> {
    match spec_path_extension(path) {
        None => Some(path),
        Some(ext) => if ext == seq!['b'] {
            match spec_path_file_name(path) {
                Some(name) => Some(spec_path_with_file_name(path, spec_palette_file_name(name))),
                None => None,
            }
        } else {
            Some(spec_path_with_extension(path, palette_extension()))
        },
    }
}

/// The palette file name for the texture file name `name` (`texture_` becomes `palette_`).
pub fn palette_file_name(name: &str) -> (r: String)
    ensures
        r@ == spec_palette_file_name(name@),
{
    let name_chars = str_to_chars(name);
    proof {
        reveal_strlit("texture_");
        reveal_strlit("palette_");
    }
    let from = str_to_chars("texture_");
    let to = str_to_chars("palette_");
    assert(from@ =~= texture_prefix());
    assert(to@ =~= palette_prefix());
    let replaced = replace(&name_chars, &from, &to);
    string_from_chars(&replaced)
}

/// The path of the palette file for the texture at `path`, or `None` where
/// [spec_palette_path] has none.
pub fn palette_path(path: &str) -> (r: Option<String>)
    ensures
        r is Some <==> spec_palette_path(path@) is Some,
        r matches Some(p) ==> spec_palette_path(path@) == Some(p@),
{
    match path_extension(path) {
        None => Some(path.to_owned()),
        Some(ext) => {
            let ext_chars = str_to_chars(ext.as_str());
            if ext_chars.len() == 1 && ext_chars[0] == 'b' {
                assert(ext@ =~= seq!['b']);
                match path_file_name(path) {
                    Some(name) => {
                        let new_name = palette_file_name(name.as_str());
                        Some(path_with_file_name(path, new_name.as_str()))
                    },
                    None => None,
                }
            } else {
                assert(ext@ != seq!['b']) by {
                    if ext@ == seq!['b'] {
                        assert(ext_chars@[0] == 'b');
                    }
                }
                proof {
                    reveal_strlit("ps2_palette");
                    assert("ps2_palette"@ =~= palette_extension());
                }
                let p = path_with_extension(path, "ps2_palette");
                assert("ps2_palette"@ =~= palette_extension());
                Some(p)
            }
        },
    }
}

/// The number of texture data bytes a header describes: width * height * (bpp / 8).
pub open spec fn spec_texture_data_size(h: Ps2TextureHeader) -> nat {
    (h.width * h.height * (h.bpp / 8)) as nat
}

/// Whether computing the texture data size of `h` stays within `u32`.
pub open spec fn texture_size_fits(h: Ps2TextureHeader) -> bool {
    h.width * h.height * (h.bpp / 8) <= u32::MAX
}

/// The number of palette data bytes a header describes: 4 bytes per color.
pub open spec fn spec_palette_data_size(h: Ps2PaletteHeader) -> nat {
    (h.color_count * 4) as nat
}

/// Whether computing the palette data size of `h` stays within `u16`.
pub open spec fn palette_size_fits(h: Ps2PaletteHeader) -> bool {
    h.color_count * 4 <= u16::MAX
}

/// `v` resized to `n` elements: truncated, or extended with zeros.
pub open spec fn resized(v: Seq<u8>, n: nat) -> Seq<u8> {
    if n <= v.len() {
        v.take(n as int)
    } else {
        v + Seq::new((n - v.len()) as nat, |i: int| 0u8)
    }
}

/// `old` resized to `n` bytes, with the bytes `read` over its start.
pub open spec fn read_into(old: Seq<u8>, n: nat, read: Seq<u8>) -> Seq<u8> {
    read + resized(old, n).skip(read.len() as int)
}

/// High-level reader for PS2 textures.
pub struct Ps2TextureReader {
    /// The initial path to the .ps2_texture file.
    path: String,
    texture_header: Ps2TextureHeader,
    texture_data: Vec<u8>,
    has_palette: bool,
    palette_header: Ps2PaletteHeader,
    palette_data: Vec<u8>,
}

impl Ps2TextureReader {
    pub closed spec fn spec_path(&self) -> Seq<char> {
        self.path@
    }

    pub closed spec fn spec_texture_header(&self) -> Ps2TextureHeader {
        self.texture_header
    }

    pub closed spec fn spec_texture_data(&self) -> Seq<u8> {
        self.texture_data@
    }

    pub closed spec fn spec_has_palette(&self) -> bool {
        self.has_palette
    }

    pub closed spec fn spec_palette_header(&self) -> Ps2PaletteHeader {
        self.palette_header
    }

    pub closed spec fn spec_palette_data(&self) -> Seq<u8> {
        self.palette_data@
    }

    /// A reader for the texture at `path`, with nothing read yet.
    pub fn new(path: &str) -> (r: Ps2TextureReader)
        ensures
            r.spec_path() == path@,
            r.spec_texture_header().is_zeroed(),
            r.spec_texture_data().len() == 0,
            !r.spec_has_palette(),
            r.spec_palette_header().is_zeroed(),
            r.spec_palette_data().len() == 0,
    {
        Ps2TextureReader {
            path: path.to_owned(),
            texture_header: Ps2TextureHeader::default(),
            texture_data: Vec::new(),
            has_palette: false,
            palette_header: Ps2PaletteHeader::default(),
            palette_data: Vec::new(),
        }
    }

    /// The texture header taken so far.
    pub fn texture_header(&self) -> (r: &Ps2TextureHeader)
        ensures
            *r == self.spec_texture_header(),
    {
        &self.texture_header
    }

    /// Whether the texture was found palettized.
    pub fn has_palette(&self) -> (r: bool)
        ensures
            r == self.spec_has_palette(),
    {
        self.has_palette
    }

    /// The palette header taken so far.
    pub fn palette_header(&self) -> (r: &Ps2PaletteHeader)
        ensures
            *r == self.spec_palette_header(),
    {
        &self.palette_header
    }

    /// The path of the .ps2_texture file.
    pub fn path(&self) -> (r: &str)
        ensures
            r@ == self.spec_path(),
    {
        self.path.as_str()
    }

    /// Take the texture header that was read from the texture file.
    ///
    /// An invalid header is [Error::InvalidHeader]. A valid header of 8 bits per pixel
    /// marks the texture as palettized. For a palettized texture the result is the path of
    /// the palette file to read next ([Error::InvalidHeader] when there is none); otherwise
    /// `None`.
    pub fn accept_texture_header(&mut self, header: Ps2TextureHeader) -> (r: Result<
        Option<String>,
        Error,
    >)
        requires
            header.spec_valid() ==> texture_size_fits(header),
        ensures
            final(self).spec_texture_header() == header,
            final(self).spec_path() == old(self).spec_path(),
            final(self).spec_texture_data() == old(self).spec_texture_data(),
            final(self).spec_palette_header() == old(self).spec_palette_header(),
            final(self).spec_palette_data() == old(self).spec_palette_data(),
            final(self).spec_has_palette() == (old(self).spec_has_palette() || (header.spec_valid()
                && header.bpp == 8)),
            !header.spec_valid() ==> (r matches Err(e) && e is InvalidHeader),
            header.spec_valid() && !final(self).spec_has_palette() ==> r == Ok::<
                Option<String>,
                Error,
            >(None),
            header.spec_valid() && final(self).spec_has_palette() ==> match spec_palette_path(
                old(self).spec_path(),
            ) {
                Some(p) => (r matches Ok(Some(s)) && s@ == p),
                None => (r matches Err(e) && e is InvalidHeader),
            },
    {
        let valid = header.valid();
        let bpp = header.bpp;
        self.texture_header = header;
        if !valid {
            return Err(Error::InvalidHeader);
        }
        if bpp == 8 {
            self.has_palette = true;
        }
        if self.has_palette {
            match palette_path(self.path.as_str()) {
                Some(p) => Ok(Some(p)),
                None => Err(Error::InvalidHeader),
            }
        } else {
            Ok(None)
        }
    }

    /// Take the palette header that was read from the palette file; an invalid header is
    /// [Error::InvalidHeader].
    pub fn accept_palette_header(&mut self, header: Ps2PaletteHeader) -> (r: Result<(), Error>)
        requires
            header.spec_valid() ==> palette_size_fits(header),
        ensures
            final(self).spec_palette_header() == header,
            final(self).spec_path() == old(self).spec_path(),
            final(self).spec_texture_header() == old(self).spec_texture_header(),
            final(self).spec_texture_data() == old(self).spec_texture_data(),
            final(self).spec_has_palette() == old(self).spec_has_palette(),
            final(self).spec_palette_data() == old(self).spec_palette_data(),
            header.spec_valid() <==> r is Ok,
            r matches Err(e) ==> e is InvalidHeader,
    {
        let valid = header.valid();
        self.palette_header = header;
        if valid {
            Ok(())
        } else {
            Err(Error::InvalidHeader)
        }
    }

    /// Where the palette color data starts in the palette file.
    pub fn palette_data_start(&self) -> (r: u32)
        ensures
            r == self.spec_palette_header().data_start,
    {
        self.palette_header.data_start
    }

    /// How many bytes of palette color data to read: 4 per color (every known palette is
    /// 32 bits per color).
    pub fn palette_data_size(&self) -> (r: usize)
        requires
            palette_size_fits(self.spec_palette_header()),
        ensures
            r == spec_palette_data_size(self.spec_palette_header()),
    {
        (self.palette_header.color_count * 4) as usize
    }

    /// Take the bytes that one read of the palette data gave. The palette buffer is resized
    /// to the palette data size and `read` is copied over its start; fewer bytes than the
    /// data size is [Error::ReadTooSmall].
    pub fn store_palette_data(&mut self, read: &[u8]) -> (r: Result<(), Error>)
        requires
            palette_size_fits(old(self).spec_palette_header()),
            read@.len() <= spec_palette_data_size(old(self).spec_palette_header()),
        ensures
            final(self).spec_palette_data() == read_into(
                old(self).spec_palette_data(),
                spec_palette_data_size(old(self).spec_palette_header()),
                read@,
            ),
            final(self).spec_path() == old(self).spec_path(),
            final(self).spec_texture_header() == old(self).spec_texture_header(),
            final(self).spec_texture_data() == old(self).spec_texture_data(),
            final(self).spec_has_palette() == old(self).spec_has_palette(),
            final(self).spec_palette_header() == old(self).spec_palette_header(),
            r is Ok <==> read@.len() == spec_palette_data_size(old(self).spec_palette_header()),
            r matches Err(e) ==> e is ReadTooSmall,
    {
        let size = self.palette_data_size();
        resize_and_fill(&mut self.palette_data, size, read);
        if read.len() != size {
            Err(Error::ReadTooSmall)
        } else {
            Ok(())
        }
    }

    /// Where the texture data starts in the texture file.
    pub fn texture_data_start(&self) -> (r: u32)
        ensures
            r == self.spec_texture_header().data_start_offset,
    {
        self.texture_header.data_start_offset
    }

    /// How many bytes of texture data to read: width * height * (bpp / 8).
    pub fn texture_data_size(&self) -> (r: usize)
        requires
            texture_size_fits(self.spec_texture_header()),
        ensures
            r == spec_texture_data_size(self.spec_texture_header()),
    {
        let h = &self.texture_header;
        let (w, ht, d) = (h.width as u32, h.height as u32, (h.bpp / 8) as u32);
        assert(w * ht <= 0xFFFF * 0xFFFF) by (nonlinear_arith)
            requires
                w <= 0xFFFF,
                ht <= 0xFFFF,
        ;
        assert((w * ht) * d == w * ht * d);
        ((w * ht) * d) as usize
    }

    /// Take the bytes that one read of the texture data gave. The texture buffer is resized
    /// to the texture data size and `read` is copied over its start; fewer bytes than the
    /// data size is [Error::ReadTooSmall].
    pub fn store_texture_data(&mut self, read: &[u8]) -> (r: Result<(), Error>)
        requires
            texture_size_fits(old(self).spec_texture_header()),
            read@.len() <= spec_texture_data_size(old(self).spec_texture_header()),
        ensures
            final(self).spec_texture_data() == read_into(
                old(self).spec_texture_data(),
                spec_texture_data_size(old(self).spec_texture_header()),
                read@,
            ),
            final(self).spec_path() == old(self).spec_path(),
            final(self).spec_texture_header() == old(self).spec_texture_header(),
            final(self).spec_has_palette() == old(self).spec_has_palette(),
            final(self).spec_palette_header() == old(self).spec_palette_header(),
            final(self).spec_palette_data() == old(self).spec_palette_data(),
            r is Ok <==> read@.len() == spec_texture_data_size(old(self).spec_texture_header()),
            r matches Err(e) ==> e is ReadTooSmall,
    {
        let size = self.texture_data_size();
        resize_and_fill(&mut self.texture_data, size, read);
        if read.len() != size {
            Err(Error::ReadTooSmall)
        } else {
            Ok(())
        }
    }
    /// The number of pixels of the texture.
    pub open spec fn spec_pixel_count(&self) -> nat {
        (self.spec_texture_header().width * self.spec_texture_header().height) as nat
    }

    /// Whether the data read so far can be converted: palettized textures need a 32-bit
    /// palette holding every color index the pixels use; other textures must be 16 or 32
    /// bits per pixel. The pixel data must hold every pixel, and the RGBA buffer must fit in
    /// memory.
    pub open spec fn spec_convertible(&self) -> bool {
        let n = self.spec_pixel_count();
        let data = self.spec_texture_data();
        let pal = self.spec_palette_header();
        &&& 4 * n <= usize::MAX
        &&& if self.spec_has_palette() {
            &&& pal.palette_bpp == 32
            &&& self.spec_palette_data().len() >= 4 * pal.color_count
            &&& data.len() >= n
            &&& forall|i: int| 0 <= i < n ==> #[trigger] data[i] < pal.color_count
        } else if self.spec_texture_header().bpp == 16 {
            data.len() >= 2 * n
        } else if self.spec_texture_header().bpp == 32 {
            data.len() >= 4 * n
        } else {
            false
        }
    }

    /// The PS2 color of pixel `i` (pixels are in row-major order): for a palettized texture,
    /// the palette color its byte indexes; for 16 bits per pixel, the 16-bit color stored
    /// little-endian; for 32 bits per pixel, the 4 bytes red, green, blue, alpha.
    pub open spec fn spec_pixel(&self, i: int) -> Ps2Rgba {
        let data = self.spec_texture_data();
        if self.spec_has_palette() {
            Ps2Rgba::spec_from_bytes(self.spec_palette_data(), 4 * data[i])
        } else if self.spec_texture_header().bpp == 16 {
            Ps2Rgba::spec_from_rgb565(le_u16(data, 2 * i))
        } else {
            Ps2Rgba::spec_from_bytes(data, 4 * i)
        }
    }

    /// The texture as an RGBA image buffer: row-major, 4 bytes per pixel (red, green, blue,
    /// alpha), each pixel the 8-bit color of its PS2 color.
    pub open spec fn spec_rgba_bytes(&self) -> Seq<u8> {
        Seq::new(4 * self.spec_pixel_count(), |j: int| self.spec_pixel(j / 4).spec_rgba_channels()[j % 4])
    }

    /// Whether the data read so far can be converted (see [Self::spec_convertible]).
    #[verifier::loop_isolation(false)]
    pub fn can_convert(&self) -> (r: bool)
        ensures
            r == self.spec_convertible(),
    {
        let w = self.texture_header.width as usize;
        let h = self.texture_header.height as usize;
        assert(w * h <= 0xFFFF * 0xFFFF) by (nonlinear_arith)
            requires
                w <= 0xFFFF,
                h <= 0xFFFF,
        ;
        let n: u64 = w as u64 * h as u64;
        if n * 4 > usize::MAX as u64 {
            return false;
        }
        let n = n as usize;
        if self.has_palette {
            let count = self.palette_header.color_count;
            if self.palette_header.palette_bpp != 32 || self.palette_data.len() < 4 * count as usize
                || self.texture_data.len() < n {
                return false;
            }
            let mut i: usize = 0;
            while i < n
                invariant
                    i <= n,
                    n <= self.texture_data@.len(),
                    count == self.palette_header.color_count,
                    forall|j: int| 0 <= j < i ==> #[trigger] self.texture_data@[j] < count,
                decreases n - i,
            {
                if self.texture_data[i] as u16 >= count {
                    assert(self.spec_texture_data()[i as int] >= count);
                    return false;
                }
                i = i + 1;
            }
            true
        } else if self.texture_header.bpp == 16 {
            self.texture_data.len() / 2 >= n
        } else if self.texture_header.bpp == 32 {
            self.texture_data.len() / 4 >= n
        } else {
            false
        }
    }

    /// Convert the read data into an RGBA image buffer (row-major, 4 bytes per pixel), as
    /// [Self::spec_rgba_bytes] states.
    pub fn convert_to_rgba(&self) -> (r: Vec<u8>)
        requires
            self.spec_convertible(),
        ensures
            r@ == self.spec_rgba_bytes(),
    {
        let w = self.texture_header.width as usize;
        let h = self.texture_header.height as usize;
        assert(w * h <= 0xFFFF * 0xFFFF) by (nonlinear_arith)
            requires
                w <= 0xFFFF,
                h <= 0xFFFF,
        ;
        let n = w * h;
        let mut out: Vec<u8> = Vec::new();
        let mut i: usize = 0;
        while i < n
            invariant
                i <= n,
                n == self.spec_pixel_count(),
                self.spec_convertible(),
                out@.len() == 4 * i,
                forall|j: int| 0 <= j < 4 * i ==> #[trigger] out@[j] == self.spec_rgba_bytes()[j],
            decreases n - i,
        {
            let color = self.pixel(i);
            let c = color.to_rgba_channels();
            let ghost out0 = out@;
            out.push(c[0]);
            out.push(c[1]);
            out.push(c[2]);
            out.push(c[3]);
            proof {
                assert forall|j: int| 0 <= j < 4 * (i + 1) implies #[trigger] out@[j]
                    == self.spec_rgba_bytes()[j] by {
                    if j >= 4 * i {
                        assert(j / 4 == i);
                        assert(out@[j] == c@[j - 4 * i]);
                    } else {
                        assert(out@[j] == out0[j]);
                    }
                }
            }
            i = i + 1;
        }
        assert(out@ =~= self.spec_rgba_bytes());
        out
    }

    /// The PS2 color of pixel `i`.
    fn pixel(&self, i: usize) -> (r: Ps2Rgba)
        requires
            self.spec_convertible(),
            i < self.spec_pixel_count(),
        ensures
            r == self.spec_pixel(i as int),
    {
        if self.has_palette {
            let idx = self.texture_data[i] as usize;
            let p = &self.palette_data;
            Ps2Rgba { r: p[4 * idx], g: p[4 * idx + 1], b: p[4 * idx + 2], a: p[4 * idx + 3] }
        } else if self.texture_header.bpp == 16 {
            Ps2Rgba::from_rgb565(read_u16_le(self.texture_data.as_slice(), 2 * i))
        } else {
            let d = &self.texture_data;
            Ps2Rgba { r: d[4 * i], g: d[4 * i + 1], b: d[4 * i + 2], a: d[4 * i + 3] }
        }
    }
}

/// A 16- or 32-bit texture whose data was read in full converts, provided its RGBA buffer
/// fits in memory.
pub proof fn lemma_full_read_convertible(reader: Ps2TextureReader)
    requires
        !reader.spec_has_palette(),
        reader.spec_texture_header().bpp == 16 || reader.spec_texture_header().bpp == 32,
        reader.spec_texture_data().len() == spec_texture_data_size(reader.spec_texture_header()),
        4 * reader.spec_pixel_count() <= usize::MAX,
    ensures
        reader.spec_convertible(),
{
    let h = reader.spec_texture_header();
    assert(h.width * h.height * (h.bpp / 8) == (h.bpp / 8) * (h.width * h.height)) by (nonlinear_arith);
}

/// A palettized texture whose data and 32-bit palette were read in full converts when each
/// pixel indexes a color of the palette, provided its RGBA buffer fits in memory.
pub proof fn lemma_full_read_palette_convertible(reader: Ps2TextureReader)
    requires
        reader.spec_has_palette(),
        reader.spec_texture_header().bpp == 8,
        reader.spec_texture_data().len() == spec_texture_data_size(reader.spec_texture_header()),
        reader.spec_palette_header().palette_bpp == 32,
        reader.spec_palette_data().len() == spec_palette_data_size(reader.spec_palette_header()),
        forall|i: int|
            0 <= i < reader.spec_pixel_count() ==> #[trigger] reader.spec_texture_data()[i]
                < reader.spec_palette_header().color_count,
        4 * reader.spec_pixel_count() <= usize::MAX,
    ensures
        reader.spec_convertible(),
{
    let h = reader.spec_texture_header();
    assert(h.bpp / 8 == 1);
    assert(h.width * h.height * (h.bpp / 8) == h.width * h.height) by (nonlinear_arith)
        requires
            h.bpp / 8 == 1,
    ;
}

/// In a 32-bit texture, each pixel's red, green and blue are its data bytes, and its alpha
/// is its data alpha doubled (255 from 128 up).
pub proof fn lemma_rgba_direct_32(reader: Ps2TextureReader, i: int)
    requires
        !reader.spec_has_palette(),
        reader.spec_texture_header().bpp == 32,
        0 <= i < reader.spec_pixel_count(),
    ensures
        ({
            let out = reader.spec_rgba_bytes();
            let d = reader.spec_texture_data();
            &&& out[4 * i] == d[4 * i]
            &&& out[4 * i + 1] == d[4 * i + 1]
            &&& out[4 * i + 2] == d[4 * i + 2]
            &&& out[4 * i + 3] == (if d[4 * i + 3] >= 128 { 255 } else { 2 * d[4 * i + 3] })
        }),
{
    assert((4 * i) / 4 == i && (4 * i + 1) / 4 == i && (4 * i + 2) / 4 == i && (4 * i + 3) / 4 == i);
    assert((4 * i) % 4 == 0 && (4 * i + 1) % 4 == 1 && (4 * i + 2) % 4 == 2 && (4 * i + 3) % 4 == 3);
}

/// In a palettized texture, pixels holding the same color index get the same color, and
/// that color is the palette entry's (red, green, blue, doubled alpha).
pub proof fn lemma_rgba_palette(reader: Ps2TextureReader, i: int, j: int)
    requires
        reader.spec_has_palette(),
        0 <= i < reader.spec_pixel_count(),
        0 <= j < reader.spec_pixel_count(),
        reader.spec_texture_data()[i] == reader.spec_texture_data()[j],
    ensures
        reader.spec_rgba_bytes().subrange(4 * i, 4 * i + 4) == reader.spec_rgba_bytes().subrange(
            4 * j,
            4 * j + 4,
        ),
        reader.spec_rgba_bytes()[4 * i] == reader.spec_palette_data()[4 * reader.spec_texture_data()[i]],
        reader.spec_rgba_bytes()[4 * i + 1] == reader.spec_palette_data()[4 * reader.spec_texture_data()[i] + 1],
        reader.spec_rgba_bytes()[4 * i + 2] == reader.spec_palette_data()[4 * reader.spec_texture_data()[i] + 2],
{
    let out = reader.spec_rgba_bytes();
    assert((4 * i) / 4 == i && (4 * i + 1) / 4 == i && (4 * i + 2) / 4 == i && (4 * i + 3) / 4 == i);
    assert((4 * j) / 4 == j && (4 * j + 1) / 4 == j && (4 * j + 2) / 4 == j && (4 * j + 3) / 4 == j);
    assert((4 * i) % 4 == 0 && (4 * i + 1) % 4 == 1 && (4 * i + 2) % 4 == 2 && (4 * i + 3) % 4 == 3);
    assert((4 * j) % 4 == 0 && (4 * j + 1) % 4 == 1 && (4 * j + 2) % 4 == 2 && (4 * j + 3) % 4 == 3);
    let si = out.subrange(4 * i, 4 * i + 4);
    let sj = out.subrange(4 * j, 4 * j + 4);
    assert(si[0] == out[4 * i] && si[1] == out[4 * i + 1] && si[2] == out[4 * i + 2] && si[3]
        == out[4 * i + 3]);
    assert(sj[0] == out[4 * j] && sj[1] == out[4 * j + 1] && sj[2] == out[4 * j + 2] && sj[3]
        == out[4 * j + 3]);
    assert(si =~= sj);
}

/// Resize `v` to `n` bytes (truncating, or extending with zeros), then copy `read` over its
/// start.
fn resize_and_fill(v: &mut Vec<u8>, n: usize, read: &[u8])
    requires
        read@.len() <= n,
    ensures
        final(v)@ == read_into(old(v)@, n as nat, read@),
{
    if n <= v.len() {
        v.truncate(n);
    } else {
        while v.len() < n
            invariant
                old(v)@.len() <= v@.len() <= n,
                v@ == old(v)@ + Seq::new((v@.len() - old(v)@.len()) as nat, |i: int| 0u8),
            decreases n - v@.len(),
        {
            v.push(0);
        }
    }
    assert(v@ =~= resized(old(v)@, n as nat));
    let ghost base = v@;
    let mut i: usize = 0;
    while i < read.len()
        invariant
            i <= read@.len(),
            read@.len() <= n,
            v@.len() == n,
            v@ == read@.take(i as int) + base.skip(i as int),
            base.len() == n,
        decreases read@.len() - i,
    {
        v.set(i, read[i]);
        i = i + 1;
        assert(v@ =~= read@.take(i as int) + base.skip(i as int));
    }
    assert(read@.take(read@.len() as int) =~= read@);
}

} // verus!
