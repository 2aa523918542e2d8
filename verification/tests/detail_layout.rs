use git_tailor::app::DetailState;
use git_tailor::scroll::ScrollState;
use git_tailor::views::commit_detail::{
    clamp_detail_scroll, detail_header, set_detail_layout, Area, ScrollLayout,
};

#[test]
fn detail_header_pads_between_title_and_context() {
    let h = detail_header(40, 3);
    assert_eq!(h, format!("Commit information{}context: 3 ", " ".repeat(40 - 18 - 11)));
    assert_eq!(h.chars().count(), 40);
    assert_eq!(detail_header(10, 12), "Commit informationcontext: 12 ");
}

fn area() -> Area {
    Area { x: 0, y: 0, width: 10, height: 5 }
}

#[test]
fn detail_layout_shifts_file_starts_and_clamps() {
    let mut d = DetailState {
        v: ScrollState { offset: 50, max: 0, visible_height: 0 },
        h: ScrollState { offset: 7, max: 0, visible_height: 0 },
        context_lines: 3,
        file_start_lines: vec![1, 2],
    };
    let layout = ScrollLayout {
        text_area: area(),
        v_scrollbar_area: area(),
        h_scrollbar_area: area(),
        total_lines: 30,
        max_line_width: 12,
        text_area_width: 9,
        visible_height: 5,
        max_scroll: 25,
        max_h_scroll: 3,
    };
    set_detail_layout(&mut d, 6, Some(&vec![0, 4, 9]), &layout);
    assert_eq!(d.file_start_lines, vec![6, 10, 15]);
    assert_eq!((d.v.max, d.v.visible_height, d.v.offset), (25, 5, 50));
    clamp_detail_scroll(&mut d);
    assert_eq!((d.v.offset, d.h.offset), (25, 3));
    set_detail_layout(&mut d, 6, None, &layout);
    assert!(d.file_start_lines.is_empty());
}
