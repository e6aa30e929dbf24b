//! The bitstream segmenter: units split at start-code boundaries, each
//! emitted with its own start code.
use vulkan_video::video::{nal_units, next_offset};

fn collect(stream: &[u8]) -> Vec<Vec<u8>> {
    let mut units = nal_units(stream);
    let mut out = Vec::new();
    while let Some(unit) = units.next() {
        out.push(unit.to_vec());
    }
    out
}

#[test]
fn splits_at_nal() {
    let stream = [];
    assert!(nal_units(&stream).next().is_none());

    let stream = [2, 3];
    assert!(nal_units(&stream).next().is_none());

    let stream = [0, 0, 1];
    assert_eq!(collect(&stream), vec![vec![0, 0, 1]]);

    let stream = [0, 0, 1, 2];
    assert_eq!(collect(&stream), vec![vec![0, 0, 1, 2]]);

    let stream = [0, 0, 1, 2, 0, 0, 1];
    assert_eq!(collect(&stream), vec![vec![0, 0, 1, 2], vec![0, 0, 1]]);

    let stream = [0, 0, 0, 0, 0, 1, 2, 0, 0, 1];
    assert_eq!(collect(&stream), vec![vec![0, 0, 1, 2], vec![0, 0, 1]]);

    let stream = [0, 0, 0, 0, 0, 1, 2, 0, 0];
    assert_eq!(collect(&stream), vec![vec![0, 0, 1, 2, 0, 0]]);

    let stream = [0, 0, 0, 0, 0, 1, 2, 0, 0, 1, 2, 3, 0, 0, 1];
    assert_eq!(
        collect(&stream),
        vec![vec![0, 0, 1, 2], vec![0, 0, 1, 2, 3], vec![0, 0, 1]]
    );
}

#[test]
fn no_start_code_yields_nothing() {
    // A buffer with zero start codes yields an empty sequence.
    assert!(collect(&[]).is_empty());
    assert!(collect(&[7]).is_empty());
    assert!(collect(&[0, 0]).is_empty());
    assert!(collect(&[0, 1, 0, 1, 0, 1]).is_empty());
    assert!(collect(&[255; 64]).is_empty());
}

#[test]
fn two_start_codes_yield_two_units() {
    // `00 00 01 <payload> 00 00 01` yields exactly two units, each
    // beginning with its own start code.
    let payload = [9, 8, 7, 6];
    let mut stream = vec![0, 0, 1];
    stream.extend_from_slice(&payload);
    stream.extend_from_slice(&[0, 0, 1]);
    let units = collect(&stream);
    assert_eq!(units.len(), 2);
    assert_eq!(units[0], vec![0, 0, 1, 9, 8, 7, 6]);
    assert_eq!(units[1], vec![0, 0, 1]);
    assert_eq!(&units[0][..3], &[0, 0, 1]);
    assert_eq!(&units[1][..3], &[0, 0, 1]);
}

#[test]
fn leading_garbage_is_skipped() {
    let stream = [9, 9, 0, 0, 1, 42];
    assert_eq!(collect(&stream), vec![vec![0, 0, 1, 42]]);
}

#[test]
fn restart_from_scratch_yields_same_units() {
    let stream = [0, 0, 1, 5, 0, 0, 1, 6, 6];
    let first = collect(&stream);
    let second = collect(&stream);
    assert_eq!(first, second);
    assert_eq!(first, vec![vec![0, 0, 1, 5], vec![0, 0, 1, 6, 6]]);
}

#[test]
fn next_offset_finds_least_boundary() {
    let stream = [0, 0, 1, 2, 0, 0, 1];
    assert_eq!(next_offset(&stream, 0), Some(3));
    assert_eq!(next_offset(&stream, 3), Some(7));
    assert_eq!(next_offset(&stream, 5), None);
    let empty: [u8; 0] = [];
    assert_eq!(next_offset(&empty, 0), None);
    // Three zeros before the one: the boundary needs only the last two.
    let stream = [0, 0, 0, 1, 9];
    assert_eq!(next_offset(&stream, 0), Some(4));
    // The two zeros must lie at or after the scan start.
    assert_eq!(next_offset(&stream, 2), None);
}
