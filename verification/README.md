# jmmt

Verified library for the file formats of Jonny Moseley Mad Trix (PS2), written in Verus.

- `src/format`: on-disk structures (package groups and file chunks, `package.toc` entries,
  `.ps2_texture` and `.ps2_palette` headers), each decoded from little-endian bytes, with
  their validity checks (`Validatable`).
- `src/lzss`: the LZSS header that precedes compressed chunks.
- `src/hash`: the file name hash (case-folded CRC-32) and the `.DAT`/`.MET` names built
  from it.
- `src/read`: the decisions of reading `package.toc` and textures, fed with the bytes read,
  and the conversion of texture data to RGBA pixels.
- `src/util`: colors, C strings, string and path helpers.
- `app/`: the command line (`export` a texture to PNG, `rename` the hashed `.DAT` files),
  which performs the file reads the library asks for.
