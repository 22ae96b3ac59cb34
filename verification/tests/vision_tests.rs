use bobo_ro_ctd::{
    analyze_components, count_red_blocks, count_square_blocks, loop_task, normalized,
    BlockAnalysis, ComponentStats, DebugFrame, TaskCtx,
};

fn comp(width: i32, height: i32, area: i32) -> ComponentStats {
    ComponentStats { width, height, area }
}

fn ctx(threshold: usize, debug: bool) -> TaskCtx {
    TaskCtx { block_threshold: threshold, block_min_width: 5, block_max_width: 50, debug_enabled: debug }
}

#[test]
fn background_is_never_counted() {
    // a background entry that would pass every filter
    let stats = vec![comp(20, 20, 400)];
    assert_eq!(count_red_blocks(&stats), 0);
    assert_eq!(count_red_blocks(&Vec::new()), 0);
}

#[test]
fn square_components_are_counted() {
    let stats = vec![comp(1920, 1080, 100000), comp(20, 20, 400), comp(30, 25, 700), comp(6, 6, 36)];
    assert_eq!(count_red_blocks(&stats), 3);
}

#[test]
fn noise_is_rejected() {
    let stats = vec![comp(0, 0, 0), comp(20, 20, 35), comp(6, 6, 35)];
    assert_eq!(count_red_blocks(&stats), 0);
}

#[test]
fn side_bounds_are_exclusive() {
    let stats = vec![comp(0, 0, 0), comp(5, 8, 40), comp(8, 5, 40), comp(50, 45, 2000), comp(45, 50, 2000), comp(49, 49, 2000)];
    assert_eq!(count_red_blocks(&stats), 1);
}

#[test]
fn aspect_ratio_limit() {
    // 13 by 10 is exactly the limit, 14 by 10 is over it
    let stats = vec![comp(0, 0, 0), comp(13, 10, 100), comp(10, 13, 100), comp(14, 10, 100), comp(10, 14, 100)];
    assert_eq!(count_red_blocks(&stats), 2);
}

#[test]
fn custom_side_bounds() {
    let stats = vec![comp(0, 0, 0), comp(60, 60, 3600), comp(20, 20, 400)];
    assert_eq!(count_square_blocks(&stats, 30, 100), 1);
    assert_eq!(count_square_blocks(&stats, 5, 50), 1);
    assert_eq!(count_square_blocks(&stats, 5, 100), 2);
}

#[test]
fn more_blocks_than_threshold_trigger() {
    let c = ctx(2, false);
    let result = loop_task(&c, BlockAnalysis { count: 3, debug_mask_half: None });
    assert!(result.triggered);
    let result = loop_task(&c, BlockAnalysis { count: 2, debug_mask_half: None });
    assert!(!result.triggered);
}

#[test]
fn debug_mask_is_passed_on_only_while_debugging() {
    let stats = vec![comp(0, 0, 0), comp(20, 20, 400)];
    let mask = DebugFrame { width: 2, height: 1, gray_pixels: vec![0, 255] };
    let analysis = analyze_components(&ctx(0, true), &stats, Some(mask.clone()));
    assert_eq!(analysis.count, 1);
    let result = loop_task(&ctx(0, true), analysis);
    assert!(result.triggered);
    let frame = result.debug_frame.expect("mask kept");
    assert_eq!((frame.width, frame.height), (2, 1));
    assert_eq!(frame.gray_pixels, vec![0, 255]);

    let analysis = analyze_components(&ctx(0, false), &stats, Some(mask));
    assert!(analysis.debug_mask_half.is_none());
}

#[test]
fn file_name_separators_removed() {
    assert_eq!(normalized("monitor|1\\a:b/c.png".to_string()), "monitor1abc.png");
    assert_eq!(normalized("显示器-1.png".to_string()), "显示器-1.png");
    assert_eq!(normalized(String::new()), "");
}
