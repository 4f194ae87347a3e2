//! Tests of the day-planning helpers.
use libdav::planner::{
    event_intersects_with_timeblock, get_timeblocks, remove_intersecting_segments, TimeBlock,
};

#[test]
fn timeblocks_cover_the_span_in_chunks() {
    let blocks = get_timeblocks(480, 600, 30);
    assert_eq!(blocks.len(), 4);
    assert_eq!(blocks[0], TimeBlock { start_time: 480, block_duration: 30, end_time: 510 });
    assert_eq!(blocks[3], TimeBlock { start_time: 570, block_duration: 30, end_time: 600 });

    // A partial chunk at the end is not planned.
    let blocks = get_timeblocks(0, 70, 30);
    assert_eq!(blocks.len(), 2);

    // A span shorter than one chunk yields nothing.
    let blocks = get_timeblocks(0, 20, 30);
    assert_eq!(blocks.len(), 0);
}

#[test]
fn intersection_covers_start_end_and_containment() {
    let block = TimeBlock::new(100, 50);
    // Event starting inside the block.
    assert!(event_intersects_with_timeblock(&block, 120, 200));
    // Event ending inside the block.
    assert!(event_intersects_with_timeblock(&block, 50, 120));
    // Event covering the whole block.
    assert!(event_intersects_with_timeblock(&block, 50, 200));
    // Touching at the edges does not intersect.
    assert!(!event_intersects_with_timeblock(&block, 150, 200));
    assert!(!event_intersects_with_timeblock(&block, 50, 100));
}

#[test]
fn busy_blocks_are_removed() {
    let blocks = get_timeblocks(0, 120, 30);
    let free = remove_intersecting_segments(40, 70, blocks);
    assert_eq!(
        free,
        vec![
            TimeBlock { start_time: 0, block_duration: 30, end_time: 30 },
            TimeBlock { start_time: 90, block_duration: 30, end_time: 120 },
        ]
    );
}
