use vstd::prelude::*;

verus! {

/// The little-endian 16-bit value at offset `o`.
pub open spec fn u16_at(s: Seq<u8>, o: int) -> int {
    s[o] as int + s[o + 1] as int * 256
}

/// The little-endian 32-bit value at offset `o`.
pub open spec fn u32_at(s: Seq<u8>, o: int) -> int {
    u16_at(s, o) + u16_at(s, o + 2) * 65536
}

/// Where the legacy header keeps the offset of the image headers.
pub const NEW_HEADER_POINTER: usize = 0x3C;

/// Where the image headers start.
pub open spec fn nt_offset(s: Seq<u8>) -> int {
    u32_at(s, 0x3C)
}

/// Where the optional header starts.
pub open spec fn optional_offset(s: Seq<u8>) -> int {
    nt_offset(s) + 24
}

/// Marks a 32-bit image.
pub const PE32_MAGIC: u16 = 0x10B;
/// Marks a 64-bit image.
pub const PE32_PLUS_MAGIC: u16 = 0x20B;

pub open spec fn spec_magic(s: Seq<u8>) -> int {
    u16_at(s, optional_offset(s))
}

/// The little-endian 64-bit value at offset `o`.
pub open spec fn u64_at(s: Seq<u8>, o: int) -> int {
    u32_at(s, o) + u32_at(s, o + 4) * 0x1_0000_0000
}

/// The address the image was linked to run at.
pub open spec fn spec_image_base(s: Seq<u8>) -> int {
    if spec_magic(s) == PE32_PLUS_MAGIC {
        u64_at(s, optional_offset(s) + 24)
    } else {
        u32_at(s, optional_offset(s) + 28)
    }
}

/// Where the base relocation directory entry lies in the optional header.
pub open spec fn reloc_dir_offset(s: Seq<u8>) -> int {
    if spec_magic(s) == PE32_PLUS_MAGIC {
        optional_offset(s) + 152
    } else {
        optional_offset(s) + 136
    }
}

pub open spec fn spec_reloc_rva(s: Seq<u8>) -> int {
    u32_at(s, reloc_dir_offset(s))
}

pub open spec fn spec_reloc_size(s: Seq<u8>) -> int {
    u32_at(s, reloc_dir_offset(s) + 4)
}

pub open spec fn spec_entry_rva(s: Seq<u8>) -> int {
    u32_at(s, optional_offset(s) + 16)
}

pub open spec fn spec_size_of_image(s: Seq<u8>) -> int {
    u32_at(s, optional_offset(s) + 56)
}

pub open spec fn spec_size_of_headers(s: Seq<u8>) -> int {
    u32_at(s, optional_offset(s) + 60)
}

pub open spec fn spec_section_count(s: Seq<u8>) -> int {
    u16_at(s, nt_offset(s) + 6)
}

pub open spec fn spec_section_table(s: Seq<u8>) -> int {
    optional_offset(s) + u16_at(s, nt_offset(s) + 20)
}

/// The file is an executable image that can be laid out: both signatures are
/// in place, the headers and the section table lie inside the file, and the
/// entry point and headers lie inside the image.
pub open spec fn spec_image_valid(s: Seq<u8>) -> bool {
    &&& s.len() >= 64
    &&& s[0] == 0x4D && s[1] == 0x5A
    &&& optional_offset(s) + 160 <= s.len()
    &&& (spec_magic(s) == PE32_MAGIC || spec_magic(s) == PE32_PLUS_MAGIC)
    &&& s[nt_offset(s)] == 0x50 && s[nt_offset(s) + 1] == 0x45
    &&& s[nt_offset(s) + 2] == 0 && s[nt_offset(s) + 3] == 0
    &&& 0 < spec_size_of_image(s)
    &&& spec_entry_rva(s) < spec_size_of_image(s)
    &&& spec_size_of_headers(s) <= spec_size_of_image(s)
    &&& spec_section_table(s) + 40 * spec_section_count(s) <= s.len()
}

/// What the layout of an image needs from its headers.
#[derive(Debug, Clone, Copy, PartialEq, Eq, Structural)]
pub struct ImageInfo {
    pub entry_rva: u32,
    pub size_of_image: u32,
    pub size_of_headers: u32,
    pub section_count: u16,
    pub section_table: usize,
    pub image_base: u64,
    pub reloc_rva: u32,
    pub reloc_size: u32,
}

impl ImageInfo {
    /// The fields are those that the headers of `s` give.
    pub open spec fn describes(&self, s: Seq<u8>) -> bool {
        &&& self.entry_rva as int == spec_entry_rva(s)
        &&& self.size_of_image as int == spec_size_of_image(s)
        &&& self.size_of_headers as int == spec_size_of_headers(s)
        &&& self.section_count as int == spec_section_count(s)
        &&& self.section_table as int == spec_section_table(s)
        &&& self.image_base as int == spec_image_base(s)
        &&& self.reloc_rva as int == spec_reloc_rva(s)
        &&& self.reloc_size as int == spec_reloc_size(s)
    }
}

pub fn read_u16(b: &Vec<u8>, o: usize) -> (r: u16)
    requires
        o + 2 <= b@.len(),
    ensures
        r as int == u16_at(b@, o as int),
{
    let _n = b.len();
    let lo = b[o] as u16;
    let hi = b[o + 1] as u16;
    assert(hi as int * 256 <= 255 * 256) by (nonlinear_arith)
        requires hi <= 255;
    lo + hi * 256
}

pub fn read_u32(b: &Vec<u8>, o: usize) -> (r: u32)
    requires
        o + 4 <= b@.len(),
    ensures
        r as int == u32_at(b@, o as int),
{
    let _n = b.len();
    let lo = read_u16(b, o) as u32;
    let hi = read_u16(b, o + 2) as u32;
    assert(hi as int * 65536 <= 65535 * 65536) by (nonlinear_arith)
        requires hi <= 65535;
    lo + hi * 65536
}

pub fn read_u64(b: &Vec<u8>, o: usize) -> (r: u64)
    requires
        o + 8 <= b@.len(),
    ensures
        r as int == u64_at(b@, o as int),
{
    let _n = b.len();
    let lo = read_u32(b, o) as u64;
    let hi = read_u32(b, o + 4) as u64;
    assert(hi as int * 0x1_0000_0000 <= 0xFFFF_FFFF * 0x1_0000_0000) by (nonlinear_arith)
        requires hi <= 0xFFFF_FFFF;
    lo + hi * 0x1_0000_0000
}

/// Reads the headers of an executable image; `None` when the file is not one
/// that can be laid out.
pub fn parse_image(file: &Vec<u8>) -> (r: Option<ImageInfo>)
    ensures
        r is Some <==> spec_image_valid(file@),
        r matches Some(info) ==> info.describes(file@),
{
    let s = Ghost(file@);
    if file.len() < 64 {
        return None;
    }
    if file[0] != 0x4D || file[1] != 0x5A {
        return None;
    }
    let nt = read_u32(file, NEW_HEADER_POINTER) as usize;
    if nt > file.len() || file.len() - nt < 24 + 160 {
        return None;
    }
    let opt = nt + 24;
    if file[nt] != 0x50 || file[nt + 1] != 0x45 || file[nt + 2] != 0 || file[nt + 3] != 0 {
        return None;
    }
    let magic = read_u16(file, opt);
    if magic != PE32_MAGIC && magic != PE32_PLUS_MAGIC {
        return None;
    }
    let (image_base, dir) = if magic == PE32_PLUS_MAGIC {
        (read_u64(file, opt + 24), opt + 152)
    } else {
        (read_u32(file, opt + 28) as u64, opt + 136)
    };
    let reloc_rva = read_u32(file, dir);
    let reloc_size = read_u32(file, dir + 4);
    let entry_rva = read_u32(file, opt + 16);
    let size_of_image = read_u32(file, opt + 56);
    let size_of_headers = read_u32(file, opt + 60);
    let section_count = read_u16(file, nt + 6);
    let optional_size = read_u16(file, nt + 20) as usize;
    if size_of_image == 0 || entry_rva >= size_of_image || size_of_headers > size_of_image {
        return None;
    }
    if optional_size > file.len() - opt {
        return None;
    }
    let table = opt + optional_size;
    if (file.len() - table) / 40 < section_count as usize {
        assert(spec_section_table(s@) + 40 * spec_section_count(s@) > s@.len()) by (nonlinear_arith)
            requires
                table as int == spec_section_table(s@),
                section_count as int == spec_section_count(s@),
                table > s@.len() || (s@.len() - table) / 40 < section_count as int,
                table >= 0;
        return None;
    }
    assert(spec_section_table(s@) + 40 * spec_section_count(s@) <= s@.len()) by (nonlinear_arith)
        requires
            table as int == spec_section_table(s@),
            section_count as int == spec_section_count(s@),
            table <= s@.len(),
            (s@.len() - table) / 40 >= section_count as int;
    Some(
        ImageInfo {
            entry_rva,
            size_of_image,
            size_of_headers,
            section_count,
            section_table: table,
            image_base,
            reloc_rva,
            reloc_size,
        },
    )
}


/// A field of the `k`-th entry of the section table.
pub open spec fn section_field(s: Seq<u8>, table: int, k: int, field: int) -> int {
    u32_at(s, table + 40 * k + field)
}

pub open spec fn min_int(a: int, b: int) -> int {
    if a <= b {
        a
    } else {
        b
    }
}

/// Where the raw data of the `k`-th section goes in an image of `size` bytes:
/// (offset in the image, offset in the file, length). Data that would fall
/// outside the image or the file is cut off.
pub open spec fn section_span(s: Seq<u8>, table: int, size: int, k: int) -> (int, int, int) {
    let va = section_field(s, table, k, 12);
    let raw = section_field(s, table, k, 16);
    let ptr = section_field(s, table, k, 20);
    if va < size && ptr < s.len() {
        (va, ptr, min_int(raw, min_int(size - va, s.len() - ptr)))
    } else {
        (0, 0, 0)
    }
}

/// `img` with `n` bytes of `src`, from `from`, put at `at`.
pub open spec fn overlay(img: Seq<u8>, src: Seq<u8>, at: int, from: int, n: int) -> Seq<u8> {
    Seq::new(img.len(), |i: int| if at <= i < at + n { src[from + i - at] } else { img[i] })
}

/// The image after its headers and its first `k` sections are laid out, in
/// the order of the section table.
pub open spec fn spec_layout(s: Seq<u8>, info: ImageInfo, k: nat) -> Seq<u8>
    decreases k,
{
    if k == 0 {
        overlay(
            Seq::new(info.size_of_image as nat, |i: int| 0u8),
            s,
            0,
            0,
            min_int(info.size_of_headers as int, s.len() as int),
        )
    } else {
        let span = section_span(s, info.section_table as int, info.size_of_image as int, k - 1);
        overlay(spec_layout(s, info, (k - 1) as nat), s, span.0, span.1, span.2)
    }
}

/// The whole image as it lies in memory: headers, then each section.
pub open spec fn spec_mapped_image(s: Seq<u8>, info: ImageInfo) -> Seq<u8> {
    spec_layout(s, info, info.section_count as nat)
}

/// Copies `n` bytes of `src`, from `from`, into `img` at `at`.
fn copy_into(img: &mut Vec<u8>, src: &Vec<u8>, at: usize, from: usize, n: usize)
    requires
        at + n <= old(img)@.len(),
        from + n <= src@.len(),
    ensures
        final(img)@ == overlay(old(img)@, src@, at as int, from as int, n as int),
{
    let ghost start = img@;
    let src_len = src.len();
    let img_len = img.len();
    let mut j: usize = 0;
    while j < n
        invariant
            j <= n,
            at + n <= img_len,
            img_len == start.len(),
            from + n <= src_len,
            src_len == src@.len(),
            img@ == overlay(start, src@, at as int, from as int, j as int),
        decreases n - j,
    {
        img.set(at + j, src[from + j]);
        j = j + 1;
        assert(img@ =~= overlay(start, src@, at as int, from as int, j as int));
    }
}

/// Lays the image of `file` out as it lies in memory once loaded: the headers
/// first, then the raw data of each section at its offset in the image, in
/// the order of the section table, with the rest zero.
pub fn map_image(file: &Vec<u8>, info: ImageInfo) -> (r: Vec<u8>)
    requires
        spec_image_valid(file@),
        info.describes(file@),
    ensures
        r@ == spec_mapped_image(file@, info),
        r@.len() == info.size_of_image,
{
    let size = info.size_of_image as usize;
    let mut img: Vec<u8> = Vec::new();
    let mut i: usize = 0;
    while i < size
        invariant
            i <= size,
            img@ =~= Seq::new(i as nat, |k: int| 0u8),
        decreases size - i,
    {
        img.push(0u8);
        i = i + 1;
    }
    let headers = if (info.size_of_headers as usize) < file.len() {
        info.size_of_headers as usize
    } else {
        file.len()
    };
    let flen = file.len();
    copy_into(&mut img, file, 0, 0, headers);
    assert(img@ =~= spec_layout(file@, info, 0));
    let mut k: u16 = 0;
    while k < info.section_count
        invariant
            k <= info.section_count,
            spec_image_valid(file@),
            info.describes(file@),
            img@ == spec_layout(file@, info, k as nat),
            img@.len() == size,
            size == info.size_of_image,
            flen == file@.len(),
        decreases info.section_count - k,
    {
        let ghost s = file@;
        assert(info.section_table + 40 * k + 40 <= s.len()) by (nonlinear_arith)
            requires
                k < info.section_count,
                info.section_table + 40 * info.section_count <= s.len();
        let entry = info.section_table + 40 * (k as usize);
        let va = read_u32(file, entry + 12) as usize;
        let raw = read_u32(file, entry + 16) as usize;
        let ptr = read_u32(file, entry + 20) as usize;
        let ghost span = section_span(s, info.section_table as int, size as int, k as int);
        if va < size && ptr < file.len() {
            let mut n = raw;
            if size - va < n {
                n = size - va;
            }
            if file.len() - ptr < n {
                n = file.len() - ptr;
            }
            assert(span == (va as int, ptr as int, n as int));
            copy_into(&mut img, file, va, ptr, n);
        } else {
            assert(span == (0int, 0int, 0int));
            let ghost before = img@;
            assert(overlay(before, s, 0, 0, 0) =~= before);
        }
        k = k + 1;
    }
    img
}


/// `256` to the power `k`.
pub open spec fn pow256(k: nat) -> int
    decreases k,
{
    if k == 0 {
        1
    } else {
        256 * pow256((k - 1) as nat)
    }
}

/// `img` with the `n` bytes from `at` holding `v` in little-endian order.
pub open spec fn put_le(img: Seq<u8>, at: int, v: int, n: int) -> Seq<u8> {
    Seq::new(
        img.len(),
        |i: int|
            if at <= i < at + n {
                ((v / pow256((i - at) as nat)) % 256) as u8
            } else {
                img[i]
            },
    )
}

/// A kind of relocation entry: a 64-bit address to adjust.
pub const REL_BASED_DIR64: u16 = 10;
/// A kind of relocation entry: a 32-bit address to adjust.
pub const REL_BASED_HIGHLOW: u16 = 3;

/// `img` after relocation entry `e` of the block for page `page` is applied
/// with `delta`: the address that the entry points at is moved by `delta`,
/// wrapping at its width. Entries of other kinds, or that reach past the
/// image, change nothing.
pub open spec fn spec_reloc_entry(img: Seq<u8>, page: int, e: int, delta: u64) -> Seq<u8> {
    let kind = e / 4096;
    let at = page + e % 4096;
    if kind == REL_BASED_DIR64 && at + 8 <= img.len() {
        put_le(img, at, (u64_at(img, at) + delta) % 0x1_0000_0000_0000_0000, 8)
    } else if kind == REL_BASED_HIGHLOW && at + 4 <= img.len() {
        put_le(img, at, (u32_at(img, at) + delta % 0x1_0000_0000) % 0x1_0000_0000, 4)
    } else {
        img
    }
}

/// `img` after the first `k` entries of the block at `blk` of the table in
/// `table` are applied.
pub open spec fn spec_reloc_block(table: Seq<u8>, img: Seq<u8>, blk: int, k: nat, delta: u64) -> Seq<
    u8,
>
    decreases k,
{
    if k == 0 {
        img
    } else {
        spec_reloc_entry(
            spec_reloc_block(table, img, blk, (k - 1) as nat, delta),
            u32_at(table, blk),
            u16_at(table, blk + 8 + 2 * (k - 1)),
            delta,
        )
    }
}

/// `img` after the blocks of the relocation table in `table`, from `pos` up
/// to `end`, are applied in order. A block is a page offset, its own size
/// and its entries; the table ends early at a block that is too small or
/// that reaches past `end`.
pub open spec fn spec_relocate(table: Seq<u8>, img: Seq<u8>, pos: int, end: int, delta: u64) -> Seq<
    u8,
>
    decreases end - pos,
{
    if pos < 0 || pos + 8 > end || end > table.len() {
        img
    } else {
        let size = u32_at(table, pos + 4);
        if size < 8 || pos + size > end {
            img
        } else {
            spec_relocate(
                table,
                spec_reloc_block(table, img, pos, ((size - 8) / 2) as nat, delta),
                pos + size,
                end,
                delta,
            )
        }
    }
}

/// Writes `v` into `img` as `n` little-endian bytes from `at`.
fn write_le(img: &mut Vec<u8>, at: usize, v: u64, n: usize)
    requires
        at + n <= old(img)@.len(),
    ensures
        final(img)@ == put_le(old(img)@, at as int, v as int, n as int),
{
    let ghost start = img@;
    let len = img.len();
    let mut cur = v;
    let mut k: usize = 0;
    while k < n
        invariant
            k <= n,
            at + n <= len,
            len == start.len(),
            img@.len() == len,
            cur as int == v as int / pow256(k as nat),
            forall|i: int| 0 <= i < len ==> #[trigger] img@[i] == (if at <= i < at + k {
                ((v as int / pow256((i - at) as nat)) % 256) as u8
            } else {
                start[i]
            }),
        decreases n - k,
    {
        img.set(at + k, (cur % 256) as u8);
        proof {
            lemma_pow256_positive(k as nat);
            vstd::arithmetic::div_mod::lemma_div_denominator(v as int, pow256(k as nat), 256);
            assert(pow256((k + 1) as nat) == pow256(k as nat) * 256);
        }
        cur = cur / 256;
        k = k + 1;
    }
    assert(img@ =~= put_le(start, at as int, v as int, n as int));
}

proof fn lemma_pow256_positive(k: nat)
    ensures
        pow256(k) > 0,
    decreases k,
{
    if k > 0 {
        lemma_pow256_positive((k - 1) as nat);
    }
}

/// Applies one relocation entry; see `spec_reloc_entry`.
fn apply_entry(img: &mut Vec<u8>, page: usize, e: u16, delta: u64)
    ensures
        final(img)@ == spec_reloc_entry(old(img)@, page as int, e as int, delta),
        final(img)@.len() == old(img)@.len(),
{
    let kind = e / 4096;
    let off = (e % 4096) as usize;
    let len = img.len();
    if page > len || len - page < off {
        return;
    }
    let at = page + off;
    if kind == REL_BASED_DIR64 && len - at >= 8 {
        let v = read_u64(img, at);
        let nv = if v <= u64::MAX - delta {
            v + delta
        } else {
            v - (u64::MAX - delta) - 1
        };
        write_le(img, at, nv, 8);
    } else if kind == REL_BASED_HIGHLOW && len - at >= 4 {
        let v = read_u32(img, at) as u64;
        let nv = (v + delta % 0x1_0000_0000) % 0x1_0000_0000;
        write_le(img, at, nv, 4);
    }
}

/// Moves every address that the image's relocation table lists by the
/// distance between `base`, where the image now lies, and the base it was
/// linked for. The table is read from `table`, the image as laid out.
pub fn relocate(img: &mut Vec<u8>, table: &Vec<u8>, info: ImageInfo, base: u64)
    requires
        old(img)@.len() == table@.len(),
    ensures
        final(img)@ == spec_relocate(
            table@,
            old(img)@,
            info.reloc_rva as int,
            spec_reloc_end(info, table@.len() as int),
            spec_delta(base, info.image_base),
        ),
        final(img)@.len() == old(img)@.len(),
{
    let delta: u64 = if base >= info.image_base {
        base - info.image_base
    } else {
        u64::MAX - (info.image_base - base) + 1
    };
    let tlen = table.len();
    let rva = info.reloc_rva as usize;
    let end: usize = if rva <= tlen && info.reloc_size as usize <= tlen - rva {
        rva + info.reloc_size as usize
    } else {
        tlen
    };
    assert(delta == spec_delta(base, info.image_base));
    assert(end == spec_reloc_end(info, tlen as int));
    let ghost start = img@;
    let ghost goal = spec_relocate(table@, img@, rva as int, end as int, delta);
    let mut pos: usize = rva;
    while pos <= end && end - pos >= 8
        invariant
            end <= tlen,
            tlen == table@.len(),
            spec_relocate(table@, img@, pos as int, end as int, delta) == goal,
            start == old(img)@,
            img@.len() == tlen,
            old(img)@.len() == tlen,
            goal == spec_relocate(
                table@,
                start,
                info.reloc_rva as int,
                spec_reloc_end(info, tlen as int),
                spec_delta(base, info.image_base),
            ),
        decreases end - pos,
    {
        let size = read_u32(table, pos + 4) as usize;
        if size < 8 || size > end - pos {
            assert(spec_relocate(table@, img@, pos as int, end as int, delta) == img@);
            return;
        }
        let page = read_u32(table, pos) as usize;
        let count = (size - 8) / 2;
        let ghost block_start = img@;
        let mut k: usize = 0;
        while k < count
            invariant
                k <= count,
                count == (size - 8) / 2,
                8 <= size <= end - pos,
                end <= tlen,
                tlen == table@.len(),
                page as int == u32_at(table@, pos as int),
                img@.len() == tlen,
                img@ == spec_reloc_block(table@, block_start, pos as int, k as nat, delta),
            decreases count - k,
        {
            let e = read_u16(table, pos + 8 + 2 * k);
            apply_entry(img, page, e, delta);
            k = k + 1;
        }
        pos = pos + size;
    }
}

/// How far the image moves: from the base it was linked for to `base`,
/// wrapping at 64 bits.
pub open spec fn spec_delta(base: u64, image_base: u64) -> u64 {
    ((base as int - image_base as int + 0x1_0000_0000_0000_0000) % 0x1_0000_0000_0000_0000) as u64
}

/// Where the relocation table ends: at its declared end, or at the end of
/// the image when it would reach past it.
pub open spec fn spec_reloc_end(info: ImageInfo, len: int) -> int {
    if info.reloc_rva <= len && info.reloc_size <= len - info.reloc_rva {
        info.reloc_rva + info.reloc_size
    } else {
        len
    }
}


/// The image as it must lie at `base`: laid out, then relocated by the
/// relocation table it holds.
pub open spec fn spec_loaded_image(s: Seq<u8>, info: ImageInfo, base: u64) -> Seq<u8> {
    let m = spec_mapped_image(s, info);
    spec_relocate(
        m,
        m,
        info.reloc_rva as int,
        spec_reloc_end(info, m.len() as int),
        spec_delta(base, info.image_base),
    )
}

/// Lays the image of `file` out and relocates it for `base`.
pub fn load_image(file: &Vec<u8>, info: ImageInfo, base: u64) -> (r: Vec<u8>)
    requires
        spec_image_valid(file@),
        info.describes(file@),
    ensures
        r@ == spec_loaded_image(file@, info, base),
        r@.len() == info.size_of_image,
{
    let mut img = map_image(file, info);
    let table = img.clone();
    assert(table@ == img@);
    relocate(&mut img, &table, info, base);
    img
}

} // verus!
