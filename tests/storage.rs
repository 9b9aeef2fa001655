use r2_d2::backend::{
    config_listing, listing_dir, listing_error, read_range, select_entries, store_error, ConfigProbe, ErrorKind,
    ListEntry,
};
use r2_d2::content::{locate, ContentId, ContentType};
use r2_d2::upload::{
    assemble_parts, public_location, upload_key, AssembleError, ChunkPlan, CompletedPart, PlanError,
    CHUNK_SIZE, MAX_CHUNKS,
};

const HEX: &str = "0123456789abcdef0123456789abcdef0123456789abcdef0123456789abcdef";
const MIB: u64 = 1024 * 1024;

fn id() -> ContentId {
    ContentId::parse(HEX).unwrap()
}

#[test]
fn locate_config_is_fixed() {
    assert_eq!(locate(ContentType::Config, &id()), "config");
    assert_eq!(locate(ContentType::Config, &ContentId::zero()), "config");
}

#[test]
fn locate_pack_fans_out() {
    assert_eq!(locate(ContentType::Pack, &id()), format!("data/01/{HEX}"));
}

#[test]
fn locate_other_types() {
    assert_eq!(locate(ContentType::Index, &id()), format!("index/{HEX}"));
    assert_eq!(locate(ContentType::Key, &id()), format!("keys/{HEX}"));
    assert_eq!(locate(ContentType::Snapshot, &id()), format!("snapshots/{HEX}"));
}

#[test]
fn locate_distinct_ids_differ() {
    let other = ContentId::zero();
    for t in [ContentType::Pack, ContentType::Index, ContentType::Key, ContentType::Snapshot] {
        assert_ne!(locate(t, &id()), locate(t, &other));
        assert_eq!(locate(t, &id()), locate(t, &id()));
    }
}

#[test]
fn hex_round_trip() {
    assert_eq!(id().to_hex(), HEX);
    let upper = HEX.to_uppercase();
    assert_eq!(ContentId::parse(&upper).unwrap().to_hex(), HEX);
    assert_eq!(id().as_bytes()[0], 0x01);
    assert_eq!(id().as_bytes()[1], 0x23);
}

#[test]
fn malformed_ids_are_refused() {
    assert!(ContentId::parse("").is_none());
    assert!(ContentId::parse(&HEX[..62]).is_none());
    let bad = format!("{}g", &HEX[..63]);
    assert!(ContentId::parse(&bad).is_none());
    assert!(ContentId::from_bytes(vec![1, 2, 3]).is_none());
    assert_eq!(ContentId::from_bytes(vec![0u8; 32]).unwrap(), ContentId::zero());
}

#[test]
fn upload_120_mib_in_50_mib_chunks() {
    let plan = ChunkPlan::new(120 * MIB, 50 * MIB).unwrap();
    assert_eq!(plan.chunk_count, 3);
    let lengths: Vec<u64> = (0..3).map(|i| plan.chunk_length(i)).collect();
    assert_eq!(lengths, vec![50 * MIB, 50 * MIB, 20 * MIB]);
    let parts = plan.parts();
    let numbers: Vec<u64> = parts.iter().map(|p| p.part_number).collect();
    assert_eq!(numbers, vec![1, 2, 3]);
    assert_eq!(parts[2].offset, 100 * MIB);
    assert_eq!(parts.iter().map(|p| p.length).sum::<u64>(), 120 * MIB);
}

#[test]
fn exact_multiple_has_full_last_chunk() {
    let plan = ChunkPlan::new(100 * MIB, 50 * MIB).unwrap();
    assert_eq!(plan.chunk_count, 2);
    assert_eq!(plan.last_chunk_size, 50 * MIB);
    let plan = ChunkPlan::new(1, CHUNK_SIZE).unwrap();
    assert_eq!(plan.chunk_count, 1);
    assert_eq!(plan.last_chunk_size, 1);
}

#[test]
fn chunk_lengths_sum_to_size() {
    for size in [1u64, 7, 49, 50, 51, 99, 100, 101, 12345] {
        let plan = ChunkPlan::new(size, 50).unwrap();
        let total: u64 = plan.parts().iter().map(|p| p.length).sum();
        assert_eq!(total, size);
        assert_eq!(plan.chunk_count, size.div_ceil(50));
        assert!(plan.last_chunk_size > 0);
    }
}

#[test]
fn empty_file_is_refused() {
    assert_eq!(ChunkPlan::new(0, CHUNK_SIZE), Err(PlanError::EmptyFile));
}

#[test]
fn too_many_chunks_is_refused() {
    let size = MAX_CHUNKS * CHUNK_SIZE + 1;
    assert_eq!(
        ChunkPlan::new(size, CHUNK_SIZE),
        Err(PlanError::TooManyChunks { chunk_count: MAX_CHUNKS + 1 })
    );
    assert!(ChunkPlan::new(MAX_CHUNKS * CHUNK_SIZE, CHUNK_SIZE).is_ok());
    assert_eq!(ChunkPlan::new(u64::MAX, 1), Err(PlanError::TooManyChunks { chunk_count: u64::MAX }));
}

#[test]
fn upload_key_is_file_name() {
    assert_eq!(upload_key("/home/user/video.mp4"), "video.mp4");
    assert_eq!(upload_key("video.mp4"), "video.mp4");
    assert_eq!(upload_key("dir/"), "");
}

#[test]
fn public_location_uses_domain() {
    assert_eq!(public_location(Some("files.example.com"), "a.txt"), "https://files.example.com/a.txt");
    assert_eq!(public_location(None, "a.txt"), "a.txt");
    assert_eq!(public_location(Some("d.example"), "a b.txt"), "https://d.example/a%20b.txt");
    assert_eq!(public_location(Some("bad domain"), "a.txt"), "a.txt");
}

#[test]
fn config_listing_without_config_is_empty() {
    let listed = config_listing(ConfigProbe::NotFound).unwrap();
    assert!(listed.is_empty());
}

#[test]
fn config_listing_found() {
    let listed = config_listing(ConfigProbe::Found { length: 155 }).unwrap();
    assert_eq!(listed, vec![(ContentId::zero(), 155)]);
}

#[test]
fn config_listing_errors() {
    let err = config_listing(ConfigProbe::Failed { reason: "denied".to_string() }).unwrap_err();
    assert_eq!(err.kind, ErrorKind::Backend);
    assert_eq!(err.context[0], ("type".to_string(), "Config".to_string()));
    assert_eq!(err.context[1], ("reason".to_string(), "denied".to_string()));
    let err = config_listing(ConfigProbe::Found { length: 1 << 32 }).unwrap_err();
    assert_eq!(err.kind, ErrorKind::Internal);
    assert_eq!(err.context, vec![("length".to_string(), "4294967296".to_string())]);
}

#[test]
fn pack_listing_skips_malformed_names() {
    let entries = vec![
        ListEntry { name: "not-a-hex-name".to_string(), is_file: true, length: 10 },
        ListEntry { name: HEX.to_string(), is_file: true, length: 42 },
        ListEntry { name: "01/".to_string(), is_file: false, length: 0 },
    ];
    let (found, skipped) = select_entries(&entries).unwrap();
    assert_eq!(found, vec![(id(), 42)]);
    assert_eq!(skipped, vec!["not-a-hex-name".to_string()]);
}

#[test]
fn listing_with_oversized_file_fails() {
    let entries = vec![ListEntry { name: HEX.to_string(), is_file: true, length: u64::from(u32::MAX) + 1 }];
    let err = select_entries(&entries).unwrap_err();
    assert_eq!(err.kind, ErrorKind::Internal);
    assert_eq!(err.context, vec![("length".to_string(), "4294967296".to_string())]);
}

#[test]
fn listing_dirs() {
    assert_eq!(listing_dir(ContentType::Pack), "data/");
    assert_eq!(listing_dir(ContentType::Snapshot), "snapshots/");
}

#[test]
fn partial_read_range() {
    assert_eq!(read_range(10, 5), (10, 15));
    assert_eq!(read_range(u32::MAX, u32::MAX), (u64::from(u32::MAX), 2 * u64::from(u32::MAX)));
    let b: Vec<u8> = (0u8..100).collect();
    let (start, end) = read_range(10, 5);
    assert_eq!(&b[start as usize..end as usize], &[10, 11, 12, 13, 14]);
}

#[test]
fn store_error_context() {
    let err = store_error("Reading failed", "data/01/x".to_string(), ContentType::Pack, &id());
    assert_eq!(err.kind, ErrorKind::Backend);
    assert_eq!(err.message, "Reading failed");
    let keys: Vec<&str> = err.context.iter().map(|(k, _)| k.as_str()).collect();
    assert_eq!(keys, vec!["path", "type", "id"]);
    assert_eq!(err.context[0].1, "data/01/x");
    assert_eq!(err.context[1].1, "Pack");
    assert_eq!(err.context[2].1, "01234567");
}

fn part(n: u64, tag: &str) -> CompletedPart {
    CompletedPart { part_number: n, tag: tag.to_string() }
}

#[test]
fn parts_are_assembled_in_order() {
    let plan = ChunkPlan::new(120 * MIB, 50 * MIB).unwrap();
    let done = vec![part(3, "c"), part(1, "a"), part(2, "b")];
    let parts = assemble_parts(plan.chunk_count, &done).unwrap();
    assert_eq!(parts, vec![part(1, "a"), part(2, "b"), part(3, "c")]);
}

#[test]
fn incomplete_parts_are_refused() {
    assert_eq!(
        assemble_parts(3, &vec![part(1, "a"), part(3, "c")]),
        Err(AssembleError::WrongCount { expected: 3, got: 2 })
    );
    assert_eq!(
        assemble_parts(3, &vec![part(1, "a"), part(1, "x"), part(3, "c")]),
        Err(AssembleError::MissingPart { part_number: 2 })
    );
    assert_eq!(
        assemble_parts(2, &vec![part(1, "a"), part(5, "e")]),
        Err(AssembleError::MissingPart { part_number: 2 })
    );
    assert_eq!(assemble_parts(0, &vec![]), Ok(vec![]));
}

#[test]
fn listing_error_context() {
    let err = listing_error("Listing failed", ContentType::Snapshot);
    assert_eq!(err.kind, ErrorKind::Backend);
    assert_eq!(
        err.context,
        vec![
            ("path".to_string(), "snapshots/".to_string()),
            ("type".to_string(), "Snapshot".to_string()),
        ]
    );
}

#[test]
fn display_names_and_short_ids() {
    assert_eq!(ContentType::Config.display_name(), "Config");
    assert_eq!(ContentType::Key.display_name(), "Key");
    assert_eq!(id().short_hex(), "01234567");
}
