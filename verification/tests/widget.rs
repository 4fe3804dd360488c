use semantic_editor::ui::{Color, Rect, UI};
use semantic_editor::widget::{Orientation, Widget};

fn text(s: &str) -> Widget {
    Widget::Text { contents: s.to_string() }
}

#[test]
fn weights_and_ranges() {
    let children = vec![(1, text("a")), (2, text("b")), (0, text("c")), (3, text("d"))];
    assert_eq!(Widget::total_weight(&children), 6);
    assert_eq!(Widget::weight_ranges(&children), vec![(0, 1), (1, 3), (3, 3), (3, 6)]);
    let none: Vec<(usize, Widget)> = Vec::new();
    assert_eq!(Widget::total_weight(&none), 0);
    assert!(Widget::weight_ranges(&none).is_empty());
}

#[test]
fn sub_clips_keep_the_other_direction() {
    let total = Rect { left: 4, top: 2, right: 40, bottom: 20 };
    assert_eq!(Orientation::Horizontal.sub_clip(&total, 10, 30), Rect { left: 10, top: 2, right: 30, bottom: 20 });
    assert_eq!(Orientation::Vertical.sub_clip(&total, 5, 9), Rect { left: 4, top: 5, right: 40, bottom: 9 });
}

#[test]
fn text_widgets_are_bold_white_on_blue() {
    let mut ui = UI::new(3, 1);
    let cells = Widget::render_text(&mut ui, "ab");
    assert_eq!(cells.len(), 5);
    for c in &cells {
        assert!(c.style.bold);
        assert_eq!(c.style.foreground_color, Color::White);
        assert_eq!(c.style.background_color, Color::Blue);
    }
    assert_eq!((cells[3].x, cells[3].ch), (0, 'a'));
    assert_eq!((cells[4].x, cells[4].ch), (1, 'b'));
    assert!(ui.style().bold);
}
