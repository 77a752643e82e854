use vstd::prelude::*;

use crate::error::ChunkDecodeError;
use crate::wire::copy_range;
use crate::varint::rest_of;

verus! {

/// Block ids in one 16x16x16 section.
pub const SECTION_BLOCKS: usize = 4096;

/// Bytes of a nibble array covering one section.
pub const NIBBLE_ARRAY: usize = 2048;

/// Bytes of a column's biome array.
pub const BIOME_BYTES: usize = 256;

/// How the per-section arrays of a column payload are laid out.
#[derive(Debug, Clone, Copy, PartialEq, Eq, Structural)]
pub enum ChunkLayout {
    /// A 4096-byte block array per section.
    Blocks,
    /// A 4096-byte block id array per section, then a 2048-byte metadata
    /// nibble array per section.
    BlocksAndMetadata,
}

/// The arrays of one present section.
#[derive(Debug, Clone)]
pub struct SectionData {
    pub blocks: Vec<u8>,
    pub metadata: Option<Vec<u8>>,
    pub block_light: Vec<u8>,
    pub sky_light: Option<Vec<u8>>,
}

/// One decoded column: a slot per section, the biomes when the payload
/// carried them, and the number of payload bytes it took.
#[derive(Debug, Clone)]
pub struct DecodedColumn {
    pub sections: Vec<Option<SectionData>>,
    pub biomes: Option<Vec<u8>>,
    pub consumed: usize,
}

/// Whether bit `i` of `mask` is set.
pub open spec fn bit_set(mask: u16, i: u16) -> bool {
    (mask >> i) & 1u16 == 1u16
}

/// The number of set bits of `mask` below bit `i`.
pub open spec fn rank(mask: u16, i: nat) -> nat
    decreases i,
{
    if i == 0 {
        0
    } else {
        rank(mask, (i - 1) as nat) + if bit_set(mask, (i - 1) as u16) {
            1nat
        } else {
            0nat
        }
    }
}

/// The number of set bits of `mask`.
pub open spec fn popcount(mask: u16) -> nat {
    rank(mask, 16)
}

/// Offsets of the array groups in a column payload.
pub open spec fn metadata_base(mask: u16) -> int {
    4096 * (popcount(mask) as int)
}

pub open spec fn light_base(layout: ChunkLayout, mask: u16) -> int {
    metadata_base(mask) + if layout == ChunkLayout::BlocksAndMetadata {
        2048 * popcount(mask)
    } else {
        0
    }
}

pub open spec fn sky_base(layout: ChunkLayout, mask: u16) -> int {
    light_base(layout, mask) + 2048 * popcount(mask)
}

pub open spec fn add_base(layout: ChunkLayout, mask: u16, sky_light: bool) -> int {
    sky_base(layout, mask) + if sky_light {
        2048 * popcount(mask)
    } else {
        0
    }
}

pub open spec fn biome_base(layout: ChunkLayout, mask: u16, add_mask: u16, sky_light: bool) -> int {
    add_base(layout, mask, sky_light) + 2048 * popcount(add_mask)
}

/// Bytes a column takes: every array the masks and flags announce.
pub open spec fn column_size(
    layout: ChunkLayout,
    mask: u16,
    add_mask: u16,
    sky_light: bool,
    ground_up: bool,
) -> int {
    biome_base(layout, mask, add_mask, sky_light) + if ground_up {
        256int
    } else {
        0int
    }
}

/// What slot `i` of a column decoded from `data` holds.
pub open spec fn section_matches(
    sec: Option<SectionData>,
    layout: ChunkLayout,
    mask: u16,
    sky_light: bool,
    data: Seq<u8>,
    i: nat,
) -> bool {
    let r = rank(mask, i) as int;
    if bit_set(mask, i as u16) {
        match sec {
            Some(s) => {
                &&& s.blocks@ == data.subrange(4096 * r, 4096 * r + 4096)
                &&& s.block_light@ == data.subrange(
                    light_base(layout, mask) + 2048 * r,
                    light_base(layout, mask) + 2048 * r + 2048,
                )
                &&& match s.metadata {
                    Some(m) => layout == ChunkLayout::BlocksAndMetadata && m@ == data.subrange(
                        metadata_base(mask) + 2048 * r,
                        metadata_base(mask) + 2048 * r + 2048,
                    ),
                    None => layout == ChunkLayout::Blocks,
                }
                &&& match s.sky_light {
                    Some(k) => sky_light && k@ == data.subrange(
                        sky_base(layout, mask) + 2048 * r,
                        sky_base(layout, mask) + 2048 * r + 2048,
                    ),
                    None => !sky_light,
                }
            },
            None => false,
        }
    } else {
        sec is None
    }
}

proof fn lemma_rank_bound(mask: u16, i: nat, j: nat)
    requires
        i <= j,
    ensures
        rank(mask, i) <= rank(mask, j),
        rank(mask, j) <= rank(mask, i) + (j - i),
    decreases j,
{
    if i < j {
        lemma_rank_bound(mask, i, (j - 1) as nat);
    }
}

/// Counts the set bits of `mask`.
fn count_bits(mask: u16) -> (r: usize)
    ensures
        r == popcount(mask),
        r <= 16,
{
    let mut n: usize = 0;
    let mut i: u16 = 0;
    while i < 16
        invariant
            i <= 16,
            n == rank(mask, i as nat),
            n <= i,
        decreases 16 - i,
    {
        if (mask >> i) & 1u16 == 1u16 {
            n = n + 1;
        }
        i = i + 1;
    }
    n
}

/// `col` is what slicing `data` with these masks and flags gives.
pub open spec fn column_decoded(
    col: DecodedColumn,
    layout: ChunkLayout,
    mask: u16,
    add_mask: u16,
    sky_light: bool,
    ground_up: bool,
    data: Seq<u8>,
) -> bool {
    &&& column_size(layout, mask, add_mask, sky_light, ground_up) <= data.len()
    &&& col.consumed == column_size(layout, mask, add_mask, sky_light, ground_up)
    &&& col.sections@.len() == 16
    &&& forall|i: int|
        0 <= i < 16 ==> section_matches(
            #[trigger] col.sections@[i],
            layout,
            mask,
            sky_light,
            data,
            i as nat,
        )
    &&& match col.biomes {
        Some(b) => ground_up && b@ == data.subrange(
            biome_base(layout, mask, add_mask, sky_light),
            biome_base(layout, mask, add_mask, sky_light) + 256,
        ),
        None => !ground_up,
    }
}

/// Slices a column payload into its section arrays. `mask` tells which
/// sections are present, `add_mask` which carry an extra block-id nibble
/// array (read past, not kept), `sky_light` whether sky-light arrays follow the
/// block-light ones, `ground_up` whether a biome array ends the column.
pub fn decode_column(
    layout: ChunkLayout,
    mask: u16,
    add_mask: u16,
    sky_light: bool,
    ground_up: bool,
    data: &[u8],
) -> (r: Result<DecodedColumn, ChunkDecodeError>)
    ensures
        match r {
            Ok(col) => column_decoded(col, layout, mask, add_mask, sky_light, ground_up, data@),
            Err(e) => {
                &&& column_size(layout, mask, add_mask, sky_light, ground_up) > data@.len()
                &&& e.needed == column_size(layout, mask, add_mask, sky_light, ground_up)
                &&& e.available == data@.len()
            },
        },
{
    let n = count_bits(mask);
    let n_add = count_bits(add_mask);
    let meta_base = SECTION_BLOCKS * n;
    let light = meta_base + if layout == ChunkLayout::BlocksAndMetadata {
        NIBBLE_ARRAY * n
    } else {
        0
    };
    let sky = light + NIBBLE_ARRAY * n;
    let add = sky + if sky_light {
        NIBBLE_ARRAY * n
    } else {
        0
    };
    let biome = add + NIBBLE_ARRAY * n_add;
    let needed = biome + if ground_up {
        BIOME_BYTES
    } else {
        0
    };
    if needed > data.len() {
        return Err(ChunkDecodeError { needed, available: data.len() });
    }
    let mut sections: Vec<Option<SectionData>> = Vec::new();
    let mut i: u16 = 0;
    let mut r: usize = 0;
    while i < 16
        invariant
            i <= 16,
            r == rank(mask, i as nat),
            r <= n,
            n == popcount(mask),
            meta_base == metadata_base(mask),
            light == light_base(layout, mask),
            sky == sky_base(layout, mask),
            add == add_base(layout, mask, sky_light),
            needed == column_size(layout, mask, add_mask, sky_light, ground_up),
            needed <= data@.len(),
            sections@.len() == i,
            forall|j: int|
                0 <= j < i ==> section_matches(
                    #[trigger] sections@[j],
                    layout,
                    mask,
                    sky_light,
                    data@,
                    j as nat,
                ),
        decreases 16 - i,
    {
        proof {
            lemma_rank_bound(mask, (i + 1) as nat, 16);
            assert(rank(mask, (i + 1) as nat) == r + if bit_set(mask, i) {
                1nat
            } else {
                0nat
            });
        }
        if (mask >> i) & 1u16 == 1u16 {
            assert(r + 1 <= n);
            let blocks = copy_range(data, SECTION_BLOCKS * r, SECTION_BLOCKS * r + SECTION_BLOCKS);
            let metadata = if layout == ChunkLayout::BlocksAndMetadata {
                Some(copy_range(data, meta_base + NIBBLE_ARRAY * r, meta_base + NIBBLE_ARRAY * r + NIBBLE_ARRAY))
            } else {
                None
            };
            let block_light = copy_range(data, light + NIBBLE_ARRAY * r, light + NIBBLE_ARRAY * r + NIBBLE_ARRAY);
            let sky_arr = if sky_light {
                Some(copy_range(data, sky + NIBBLE_ARRAY * r, sky + NIBBLE_ARRAY * r + NIBBLE_ARRAY))
            } else {
                None
            };
            sections.push(Some(SectionData { blocks, metadata, block_light, sky_light: sky_arr }));
            r = r + 1;
        } else {
            sections.push(None);
        }
        i = i + 1;
    }
    let biomes = if ground_up {
        Some(copy_range(data, biome, biome + BIOME_BYTES))
    } else {
        None
    };
    Ok(DecodedColumn { sections, biomes, consumed: needed })
}

/// One column of a batch: where it sits and which sections it carries.
#[derive(Debug, Clone, Copy, PartialEq, Eq, Structural)]
pub struct ColumnRequest {
    pub x: i32,
    pub z: i32,
    pub mask: u16,
    pub add_mask: u16,
}

/// A decoded column with its coordinates.
#[derive(Debug, Clone)]
pub struct LoadedColumn {
    pub x: i32,
    pub z: i32,
    pub column: DecodedColumn,
}

/// The offset after the first `k` columns of a batch.
pub open spec fn batch_end(
    layout: ChunkLayout,
    reqs: Seq<ColumnRequest>,
    sky_light: bool,
    ground_up: bool,
    k: int,
) -> int
    decreases k,
{
    if k <= 0 || k > reqs.len() {
        0
    } else {
        batch_end(layout, reqs, sky_light, ground_up, k - 1) + column_size(
            layout,
            reqs[k - 1].mask,
            reqs[k - 1].add_mask,
            sky_light,
            ground_up,
        )
    }
}

/// What decoding a batch gives: every column, each sliced from where the
/// one before it ended, and the bytes they took; an error exactly when the
/// columns need more bytes than there are.
pub open spec fn batch_decoded(
    r: Result<(Vec<LoadedColumn>, usize), ChunkDecodeError>,
    layout: ChunkLayout,
    reqs: Seq<ColumnRequest>,
    sky_light: bool,
    ground_up: bool,
    data: Seq<u8>,
) -> bool {
    match r {
        Ok((cols, used)) => {
            &&& used == batch_end(layout, reqs, sky_light, ground_up, reqs.len() as int)
            &&& used <= data.len()
            &&& cols@.len() == reqs.len()
            &&& forall|k: int|
                0 <= k < reqs.len() ==> {
                    &&& (#[trigger] cols@[k]).x == reqs[k].x
                    &&& cols@[k].z == reqs[k].z
                    &&& column_decoded(
                        cols@[k].column,
                        layout,
                        reqs[k].mask,
                        reqs[k].add_mask,
                        sky_light,
                        ground_up,
                        rest_of(data, batch_end(layout, reqs, sky_light, ground_up, k)),
                    )
                }
        },
        Err(_) => batch_end(layout, reqs, sky_light, ground_up, reqs.len() as int) > data.len(),
    }
}

proof fn lemma_column_size_nonneg(layout: ChunkLayout, mask: u16, add_mask: u16, sky_light: bool, ground_up: bool)
    ensures
        column_size(layout, mask, add_mask, sky_light, ground_up) >= 0,
{
}

proof fn lemma_batch_end_mono(layout: ChunkLayout, reqs: Seq<ColumnRequest>, sky_light: bool, ground_up: bool, j: int, k: int)
    requires
        0 <= j <= k <= reqs.len(),
    ensures
        batch_end(layout, reqs, sky_light, ground_up, j) <= batch_end(layout, reqs, sky_light, ground_up, k),
    decreases k,
{
    if j < k {
        lemma_batch_end_mono(layout, reqs, sky_light, ground_up, j, k - 1);
        lemma_column_size_nonneg(layout, reqs[k - 1].mask, reqs[k - 1].add_mask, sky_light, ground_up);
    }
}

/// Decodes columns that lie back to back in one buffer. Bytes after the last
/// column are left alone: the caller sees how many were used.
pub fn decode_batch(
    layout: ChunkLayout,
    reqs: &Vec<ColumnRequest>,
    sky_light: bool,
    ground_up: bool,
    data: &[u8],
) -> (r: Result<(Vec<LoadedColumn>, usize), ChunkDecodeError>)
    ensures
        batch_decoded(r, layout, reqs@, sky_light, ground_up, data@),
{
    let len = data.len();
    let mut cols: Vec<LoadedColumn> = Vec::new();
    let mut offset: usize = 0;
    let mut k: usize = 0;
    while k < reqs.len()
        invariant
            k <= reqs@.len(),
            offset == batch_end(layout, reqs@, sky_light, ground_up, k as int),
            offset <= data@.len(),
            len == data@.len(),
            cols@.len() == k,
            forall|j: int|
                0 <= j < k ==> {
                    &&& (#[trigger] cols@[j]).x == reqs@[j].x
                    &&& cols@[j].z == reqs@[j].z
                    &&& column_decoded(
                        cols@[j].column,
                        layout,
                        reqs@[j].mask,
                        reqs@[j].add_mask,
                        sky_light,
                        ground_up,
                        rest_of(data@, batch_end(layout, reqs@, sky_light, ground_up, j)),
                    )
                },
        decreases reqs@.len() - k,
    {
        let req = reqs[k];
        let (_, rest) = data.split_at(offset);
        assert(rest@ =~= rest_of(data@, offset as int));
        match decode_column(layout, req.mask, req.add_mask, sky_light, ground_up, rest) {
            Ok(column) => {
                assert(column.consumed <= len - offset);
                offset = offset + column.consumed;
                cols.push(LoadedColumn { x: req.x, z: req.z, column });
                k = k + 1;
            },
            Err(e) => {
                proof {
                    lemma_batch_end_mono(layout, reqs@, sky_light, ground_up, k + 1, reqs@.len() as int);
                }
                return Err(e);
            },
        }
    }
    Ok((cols, offset))
}

/// Names what zlib decompression of `b` yields: the inflated bytes, or
/// `None` when the stream is damaged or ends early.
pub uninterp spec fn zlib_inflate(b: Seq<u8>) -> Option<Seq<u8>>;

/// Relies on flate2's `ZlibDecoder` read to the end: the output depends on
/// the input bytes alone.
#[verifier::external_body]
pub(crate) fn inflate(data: &[u8]) -> (r: Option<Vec<u8>>)
    ensures
        match r {
            Some(out) => zlib_inflate(data@) == Some(out@),
            None => zlib_inflate(data@) is None,
        },
{
    let mut out: Vec<u8> = Vec::new();
    let mut decoder = flate2::read::ZlibDecoder::new(data);
    match std::io::Read::read_to_end(&mut decoder, &mut out) {
        Ok(_) => Some(out),
        Err(_) => None,
    }
}

} // verus!
