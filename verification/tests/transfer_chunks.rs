use ddc_shob::transfer::{chunk_split, upload_plan, UPLOAD_CHUNK_SIZE, UPLOAD_FILE_MODE};

#[test]
fn chunks_are_in_order_and_exact() {
    let data: Vec<u8> = (0u8..10).collect();
    let chunks = chunk_split(&data, 4);
    assert_eq!(chunks.len(), 3);
    assert_eq!(chunks[0], vec![0, 1, 2, 3]);
    assert_eq!(chunks[1], vec![4, 5, 6, 7]);
    assert_eq!(chunks[2], vec![8, 9]);
}

#[test]
fn empty_data_needs_no_chunks() {
    let data: Vec<u8> = Vec::new();
    assert!(chunk_split(&data, 1000).is_empty());
    let plan = upload_plan("build_x.tar.gz", &data, 1000);
    assert_eq!(plan.declared_len, 0);
    assert!(plan.chunks.is_empty());
}

#[test]
fn three_megabytes_in_thousand_byte_chunks_is_three_thousand_writes() {
    let data = vec![7u8; 3_000_000];
    let plan = upload_plan("build_x.tar.gz", &data, 1000);
    assert_eq!(plan.chunks.len(), 3000);
    assert!(plan.chunks.iter().all(|c| c.len() == 1000));
    let written: usize = plan.chunks.iter().map(|c| c.len()).sum();
    assert_eq!(written as u64, plan.declared_len);
    assert_eq!(plan.declared_len, 3_000_000);
}

#[test]
fn final_partial_chunk_carries_the_remainder() {
    let data = vec![1u8; 3001];
    let chunks = chunk_split(&data, 1000);
    assert_eq!(chunks.len(), 4);
    assert_eq!(chunks[3].len(), 1);
    let total: usize = chunks.iter().map(|c| c.len()).sum();
    assert_eq!(total, 3001);
}

#[test]
fn declared_size_equals_bytes_written() {
    let data: Vec<u8> = (0u8..=255).cycle().take(12_345).collect();
    let plan = upload_plan("build_y.tar.gz", &data, UPLOAD_CHUNK_SIZE);
    let written: Vec<u8> = plan.chunks.concat();
    assert_eq!(written.len() as u64, plan.declared_len);
    assert_eq!(written, data);
}

#[test]
fn upload_declares_path_and_mode_up_front() {
    let data = vec![9u8; 10];
    let plan = upload_plan("build_z.tar.gz", &data, 4);
    assert_eq!(plan.remote_path, "/tmp/build_z.tar.gz");
    assert_eq!(plan.mode, 0o644);
    assert_eq!(plan.mode, UPLOAD_FILE_MODE);
    assert_eq!(plan.declared_len, 10);
}
