use semantic_editor::ui::{Cell, Color, Rect, Style, UI};

fn plain() -> Style {
    Style {
        bold: false,
        underline: false,
        reverse: false,
        foreground_color: Color::Default,
        background_color: Color::Default,
    }
}

#[test]
fn new_ui_covers_the_terminal() {
    let ui = UI::new(4, 3);
    let cells = ui.fill();
    assert_eq!(cells.len(), 12);
    assert_eq!(cells[0], Cell { x: 0, y: 0, ch: ' ', style: plain() });
    assert_eq!(cells[5], Cell { x: 1, y: 1, ch: ' ', style: plain() });
    assert_eq!(cells[11], Cell { x: 3, y: 2, ch: ' ', style: plain() });
}

#[test]
fn fill_of_clip_is_row_major() {
    let mut ui = UI::new(80, 24);
    *ui.clip() = Rect { left: 2, top: 5, right: 5, bottom: 7 };
    let cells = ui.fill();
    let positions: Vec<(usize, usize)> = cells.iter().map(|c| (c.x, c.y)).collect();
    assert_eq!(positions, vec![(2, 5), (3, 5), (4, 5), (2, 6), (3, 6), (4, 6)]);
}

#[test]
fn empty_clips_paint_nothing() {
    let mut ui = UI::new(80, 24);
    *ui.clip() = Rect { left: 5, top: 5, right: 5, bottom: 9 };
    assert!(ui.fill().is_empty());
    *ui.clip() = Rect { left: 7, top: 5, right: 3, bottom: 9 };
    assert!(ui.fill().is_empty());
    *ui.clip() = Rect { left: 0, top: 9, right: 3, bottom: 2 };
    assert!(ui.fill().is_empty());
}

#[test]
fn draw_text_fills_then_writes_on_top_row() {
    let mut ui = UI::new(80, 24);
    *ui.clip() = Rect { left: 1, top: 1, right: 4, bottom: 2 };
    ui.style().bold = true;
    let cells = ui.draw_text("hello");
    let mut style = plain();
    style.bold = true;
    assert_eq!(cells.len(), 3 + 5);
    assert!(cells[..3].iter().all(|c| c.ch == ' ' && c.y == 1 && c.style == style));
    let text: Vec<(usize, usize, char)> = cells[3..].iter().map(|c| (c.x, c.y, c.ch)).collect();
    assert_eq!(text, vec![(1, 1, 'h'), (2, 1, 'e'), (3, 1, 'l'), (4, 1, 'l'), (5, 1, 'o')]);
}

#[test]
fn draw_text_counts_characters_not_bytes() {
    let ui = UI::new(0, 0);
    let cells = ui.draw_text("é—x");
    assert_eq!(cells.len(), 3);
    assert_eq!(cells[1], Cell { x: 1, y: 0, ch: '—', style: plain() });
}

#[test]
fn push_starts_afresh() {
    let mut ui = UI::new(10, 2);
    *ui.clip() = Rect { left: 3, top: 1, right: 4, bottom: 2 };
    ui.style().background_color = Color::Red;
    let fresh = ui.push();
    assert_eq!(fresh.fill().len(), 20);
    assert!(fresh.fill().iter().all(|c| c.style == plain()));
    assert_eq!(ui.fill(), vec![Cell { x: 3, y: 1, ch: ' ', style: Style { background_color: Color::Red, ..plain() } }]);
}
