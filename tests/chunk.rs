use std::io::Write;

use minecrab::chunk::{decode_batch, decode_column, ChunkLayout, ColumnRequest};
use minecrab::error::ChunkDecodeError;
use minecrab::types::{ChunkMetadata, ChunkMetadata_47};
use minecrab::wrapper::{ChunkData, ChunkLoadError};

fn patterned(len: usize) -> Vec<u8> {
    (0..len).map(|i| (i % 251) as u8).collect()
}

fn zlib(data: &[u8]) -> Vec<u8> {
    let mut enc = flate2::write::ZlibEncoder::new(Vec::new(), flate2::Compression::default());
    enc.write_all(data).unwrap();
    enc.finish().unwrap()
}

#[test]
fn two_sections_with_sky_light_and_biomes() {
    let len = 2 * 4096 + 2 * 2048 + 2 * 2048 + 256;
    let data = patterned(len);
    let col = decode_column(ChunkLayout::Blocks, 0x0003, 0, true, true, &data).unwrap();
    assert_eq!(col.consumed, len);
    assert_eq!(col.sections.len(), 16);
    assert_eq!(col.sections.iter().filter(|s| s.is_some()).count(), 2);
    let s0 = col.sections[0].as_ref().unwrap();
    let s1 = col.sections[1].as_ref().unwrap();
    assert_eq!(s0.blocks, data[0..4096].to_vec());
    assert_eq!(s1.blocks, data[4096..8192].to_vec());
    assert_eq!(s0.block_light, data[8192..10240].to_vec());
    assert_eq!(s1.block_light, data[10240..12288].to_vec());
    assert_eq!(s0.sky_light.as_ref().unwrap(), &data[12288..14336].to_vec());
    assert_eq!(s1.sky_light.as_ref().unwrap(), &data[14336..16384].to_vec());
    assert!(s0.metadata.is_none());
    assert_eq!(col.biomes.unwrap(), data[16384..16640].to_vec());
}

#[test]
fn one_byte_short_is_chunk_decode_error() {
    let len = 2 * 4096 + 2 * 2048 + 2 * 2048 + 256;
    let data = patterned(len - 1);
    let err = decode_column(ChunkLayout::Blocks, 0x0003, 0, true, true, &data).unwrap_err();
    assert_eq!(err, ChunkDecodeError { needed: len, available: len - 1 });
}

#[test]
fn empty_mask_without_biomes_takes_nothing() {
    let col = decode_column(ChunkLayout::Blocks, 0, 0, false, false, &[]).unwrap();
    assert_eq!(col.consumed, 0);
    assert!(col.sections.iter().all(|s| s.is_none()));
    assert!(col.biomes.is_none());
}

#[test]
fn legacy_layout_has_metadata_and_add_arrays() {
    // sections 2 and 5, add array for section 5, no sky light, no biomes
    let len = 2 * 4096 + 2 * 2048 + 2 * 2048 + 2048;
    let data = patterned(len + 10);
    let col = decode_column(ChunkLayout::BlocksAndMetadata, 0b100100, 0b100000, false, false, &data).unwrap();
    assert_eq!(col.consumed, len);
    assert!(col.sections[0].is_none());
    let s2 = col.sections[2].as_ref().unwrap();
    let s5 = col.sections[5].as_ref().unwrap();
    assert_eq!(s5.blocks, data[4096..8192].to_vec());
    assert_eq!(s2.metadata.as_ref().unwrap(), &data[8192..10240].to_vec());
    assert_eq!(s5.block_light, data[14336..16384].to_vec());
    assert!(s5.sky_light.is_none());
}

#[test]
fn full_mask_needs_every_section() {
    let len = 16 * 4096 + 16 * 2048 + 256;
    let data = patterned(len);
    let col = decode_column(ChunkLayout::Blocks, 0xffff, 0, false, true, &data).unwrap();
    assert_eq!(col.consumed, len);
    assert!(col.sections.iter().all(|s| s.is_some()));
}

#[test]
fn batch_columns_follow_each_other() {
    let one = 4096 + 2048 + 256;
    let data = patterned(2 * one + 7);
    let reqs = vec![
        ColumnRequest { x: 1, z: 2, mask: 1, add_mask: 0 },
        ColumnRequest { x: 3, z: 4, mask: 2, add_mask: 0 },
    ];
    let (cols, used) = decode_batch(ChunkLayout::Blocks, &reqs, false, true, &data).unwrap();
    assert_eq!(used, 2 * one);
    assert_eq!(cols.len(), 2);
    assert_eq!((cols[1].x, cols[1].z), (3, 4));
    assert_eq!(cols[1].column.sections[1].as_ref().unwrap().blocks, data[one..one + 4096].to_vec());
    let err = decode_batch(ChunkLayout::Blocks, &reqs, false, true, &data[..2 * one - 1]).unwrap_err();
    assert_eq!(err, ChunkDecodeError { needed: one, available: one - 1 });
}

#[test]
fn bulk_47_loads_columns() {
    let one = 4096 + 2048 + 256;
    let data = patterned(one + 3);
    let chunk = ChunkData::Bulk_47 {
        sky_light_sent: false,
        meta: vec![ChunkMetadata_47 { chunk_x: 5, chunk_z: -5, bitmap: 1 }],
        data: data.clone(),
    };
    let (cols, used) = chunk.load().unwrap();
    assert_eq!(used, one);
    assert_eq!(cols[0].x, 5);
    assert_eq!(cols[0].column.sections[0].as_ref().unwrap().blocks, data[..4096].to_vec());
}

#[test]
fn compressed_single_column_is_inflated() {
    let len = 4096 + 2048 + 2048 + 256;
    let raw = patterned(len);
    let chunk = ChunkData::Single_5 {
        x: 0,
        z: 0,
        ground_up: true,
        bit_map: 1,
        add_bit_map: 0,
        compressed_chunk_data: zlib(&raw),
    };
    let (cols, used) = chunk.load().unwrap();
    assert_eq!(used, len);
    let s = cols[0].column.sections[0].as_ref().unwrap();
    assert_eq!(s.blocks, raw[..4096].to_vec());
    assert_eq!(s.metadata.as_ref().unwrap(), &raw[4096..6144].to_vec());
}

#[test]
fn compressed_bulk_is_inflated() {
    let one = 4096 + 2048 + 2048 + 2048 + 256;
    let raw = patterned(one);
    let chunk = ChunkData::Bulk_5 {
        sky_light_sent: true,
        data: zlib(&raw),
        meta: vec![ChunkMetadata { chunk_x: 1, chunk_z: 1, primary_bitmap: 1, add_bitmap: 0 }],
    };
    let (cols, used) = chunk.load().unwrap();
    assert_eq!(used, one);
    assert_eq!(cols[0].column.biomes.as_ref().unwrap(), &raw[one - 256..].to_vec());
}

#[test]
fn damaged_zlib_stream_is_reported() {
    let chunk = ChunkData::Single_5 {
        x: 0,
        z: 0,
        ground_up: false,
        bit_map: 0,
        add_bit_map: 0,
        compressed_chunk_data: vec![1, 2, 3, 4],
    };
    assert_eq!(chunk.load().unwrap_err(), ChunkLoadError::Decompress);
}

#[test]
fn newer_single_columns_are_not_sliced() {
    let chunk = ChunkData::Single_107 { x: 0, z: 0, ground_up: false, bit_map: 0, chunk_data: vec![] };
    assert_eq!(chunk.load().unwrap_err(), ChunkLoadError::Unsupported);
}
