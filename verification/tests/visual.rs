use xcolor::visual::find_argb_visual;
use xcolor::visual::DepthInfo;
use xcolor::visual::VisualInfo;
use xcolor::visual::VISUAL_CLASS_TRUE_COLOR;

fn depth(depth: u8, visuals: Vec<VisualInfo>) -> DepthInfo {
    DepthInfo { depth, visuals }
}

fn visual(id: u32, class: u8) -> VisualInfo {
    VisualInfo { id, class }
}

#[test]
fn no_depths_means_no_visual() {
    assert_eq!(find_argb_visual(&vec![]), None);
}

#[test]
fn shallow_depths_are_skipped() {
    let depths = vec![
        depth(24, vec![visual(1, VISUAL_CLASS_TRUE_COLOR)]),
        depth(16, vec![visual(2, VISUAL_CLASS_TRUE_COLOR)]),
    ];
    assert_eq!(find_argb_visual(&depths), None);
}

#[test]
fn deep_depth_without_true_color_is_skipped() {
    let depths = vec![depth(32, vec![visual(5, 3), visual(6, 0)])];
    assert_eq!(find_argb_visual(&depths), None);
}

#[test]
fn finds_true_color_at_depth_32() {
    let depths = vec![
        depth(24, vec![visual(1, VISUAL_CLASS_TRUE_COLOR)]),
        depth(32, vec![visual(7, 3), visual(8, VISUAL_CLASS_TRUE_COLOR)]),
    ];
    assert_eq!(find_argb_visual(&depths), Some(8));
}

#[test]
fn first_match_in_listed_order_wins() {
    let depths = vec![
        depth(32, vec![visual(10, VISUAL_CLASS_TRUE_COLOR), visual(11, VISUAL_CLASS_TRUE_COLOR)]),
        depth(32, vec![visual(12, VISUAL_CLASS_TRUE_COLOR)]),
    ];
    assert_eq!(find_argb_visual(&depths), Some(10));
}

#[test]
fn later_deep_depth_is_found_when_first_has_no_true_color() {
    let depths = vec![
        depth(32, vec![visual(20, 3)]),
        depth(32, vec![visual(21, VISUAL_CLASS_TRUE_COLOR)]),
    ];
    assert_eq!(find_argb_visual(&depths), Some(21));
}
