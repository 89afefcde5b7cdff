use showcase::channel::{call_status, permission_status, CallState, StatusLine};
use showcase::grid::{
    two_tone_board, board_square, column_swatches, columns_heading, ring_alpha, ring_alphas, strip, strip_cell,
    strip_tap_message, Cell,
};
use showcase::grid::{row_tap_message, row_title};
use showcase::palette::Rgb;
use showcase::selection::{
    carousel_caption, count_press, dismiss_row, dismissed_label, message_titles, press_label, selected_option,
    set_row_selected,
};

#[test]
fn call_status_lines() {
    assert_eq!(
        call_status(&None),
        StatusLine { text: "Not asked yet.".to_string(), color: Rgb { r: 140, g: 140, b: 140 } }
    );
    assert_eq!(
        call_status(&Some(CallState::Pending)),
        StatusLine { text: "Asking native\u{2026} (waiting for a reply)".to_string(), color: Rgb { r: 200, g: 140, b: 0 } }
    );
    assert_eq!(
        call_status(&Some(CallState::Resolved("\"iOS 18.1\"".to_string()))),
        StatusLine { text: "\u{2705} \"iOS 18.1\"".to_string(), color: Rgb { r: 30, g: 140, b: 60 } }
    );
    assert_eq!(
        call_status(&Some(CallState::Failed("no handler".to_string()))),
        StatusLine { text: "\u{274c} no handler".to_string(), color: Rgb { r: 180, g: 40, b: 40 } }
    );
}

#[test]
fn permission_status_lines() {
    assert_eq!(permission_status(None).text, "Not asked yet.");
    assert_eq!(permission_status(Some(true)).text, "\u{2705} Granted");
    assert_eq!(permission_status(Some(true)).color, Rgb { r: 30, g: 140, b: 60 });
    assert_eq!(permission_status(Some(false)).text, "\u{274c} Denied");
    assert_eq!(permission_status(Some(false)).color, Rgb { r: 180, g: 40, b: 40 });
}

#[test]
fn two_tone_board_alternates() {
    assert_eq!(board_square(0, 0), Cell { color: Rgb { r: 40, g: 70, b: 120 }, label: "00".to_string() });
    assert_eq!(board_square(0, 1), Cell { color: Rgb { r: 100, g: 130, b: 120 }, label: "01".to_string() });
    let board = two_tone_board();
    assert_eq!(board.len(), 8);
    for row in 0..8 {
        assert_eq!(board[row].len(), 8);
        for col in 0..8 {
            assert_eq!(board[row][col].label, format!("{row}{col}"));
            if col + 1 < 8 {
                assert_ne!(board[row][col].color, board[row][col + 1].color);
            }
        }
    }
    assert_eq!(board[7][7].label, "77");
}

#[test]
fn strips_and_rings() {
    assert_eq!(strip_cell(3, 0), Cell { color: Rgb { r: 40, g: 44, b: 70 }, label: "3.0".to_string() });
    assert_eq!(strip_cell(3, 11).color, Rgb { r: 128, g: 44, b: 70 });
    let s = strip(5);
    assert_eq!(s.len(), 12);
    assert_eq!(s[10].label, "5.10");
    assert_eq!(strip_tap_message(59, 11), "Cell 59.11");
    assert_eq!(ring_alpha(0), 255);
    assert_eq!(ring_alphas(), vec![255, 205, 155, 105]);
}

#[test]
fn column_demo() {
    let cells = column_swatches(4);
    assert_eq!(cells.len(), 4);
    assert_eq!(cells[0], Cell { color: Rgb { r: 60, g: 90, b: 170 }, label: "1/4".to_string() });
    assert_eq!(cells[3], Cell { color: Rgb { r: 150, g: 90, b: 170 }, label: "4/4".to_string() });
    assert!(column_swatches(0).is_empty());
    assert_eq!(columns_heading(2), "2 column(s)");
}

#[test]
fn data_table_selection() {
    let mut v = vec![false, false, true];
    set_row_selected(&mut v, 1, true);
    assert_eq!(v, vec![false, true, true]);
    set_row_selected(&mut v, 2, false);
    assert_eq!(v, vec![false, true, false]);
    set_row_selected(&mut v, 7, true);
    assert_eq!(v, vec![false, true, false]);
}

#[test]
fn dropdown_clamps_selection() {
    let options = vec!["Small", "Medium", "Large"];
    assert_eq!(selected_option(&options, 0), "Small");
    assert_eq!(selected_option(&options, 2), "Large");
    assert_eq!(selected_option(&options, 40), "Large");
    assert_eq!(selected_option(&vec!["Alpha", "Beta", "Gamma"], 1), "Beta");
}

#[test]
fn counters_and_labels() {
    assert_eq!(count_press(0), 1);
    assert_eq!(press_label(3), "Pressed 3 times");
    assert_eq!(message_titles(), vec!["Message 1", "Message 2", "Message 3", "Message 4"]);
    assert_eq!(dismiss_row(2, 4), (3, "Message 4 dismissed".to_string()));
    assert_eq!(dismissed_label(3), "Dismissed so far: 3");
    assert_eq!(carousel_caption(0), "Try it \u{2014} swipe, page 1");
}

#[test]
fn list_row_labels() {
    assert_eq!(row_title("Row", 9999), "Row 9999");
    assert_eq!(row_tap_message("Row", 7), "Row 7 tapped");
    assert_eq!(row_title("Compact item", 0), "Compact item 0");
    assert_eq!(row_tap_message("Clean row", 199), "Clean row 199 tapped");
}

#[test]
fn presses_and_dismissals_add_up() {
    let mut presses = 5;
    for _ in 0..3 {
        presses = count_press(presses);
    }
    assert_eq!(presses, 8);
    assert_eq!(press_label(presses), "Pressed 8 times");
    let mut removed = 0;
    for i in [3, 1, 4] {
        removed = dismiss_row(removed, i).0;
    }
    assert_eq!(removed, 3);
    assert_eq!(dismissed_label(removed), "Dismissed so far: 3");
}
