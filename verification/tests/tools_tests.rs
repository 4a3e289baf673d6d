use liriodendron::action::Action;
use liriodendron::brush::Brush;
use liriodendron::brushcolor::BrushColor;
use liriodendron::generationnumber::GenerationNumber;
use liriodendron::pixel::FullPixel;
use liriodendron::setter::Cursor;
use liriodendron::tools::{CellTool, Grid, Tool};

#[test]
fn it_corrects_a_brush_action() {
    let (left_correction, top_correction) = (Some(5), Some(2));
    let (brush_x, brush_y) = (8, 8);
    let mut action = Action::new(
        (Grid::Generation, 0),
        Tool::CellSetter(CellTool::PixelBrush(FullPixel::Body, brush_x, brush_y)),
    );
    let not_checked = action.checked;
    action = action.corrected(left_correction, top_correction);
    if let Tool::CellSetter(cell_tool) = action.get_tool() {
        if let CellTool::PixelBrush(_pixel, x, y) = cell_tool {
            assert!(
                !not_checked
                    && action.checked
                    && (x == brush_x - left_correction.unwrap())
                    && (y == brush_y - top_correction.unwrap())
            );
        }
    }
}

#[test]
fn it_corrects_an_eraser_action() {
    let (left_correction, top_correction) = (Some(2), Some(5));
    let (eraser_x, eraser_y) = (3, 18);
    let mut action = Action::new(
        (Grid::Generation, 0),
        Tool::CellSetter(CellTool::PixelEraser(eraser_x, eraser_y)),
    );
    let not_checked = action.checked;
    action = action.corrected(left_correction, top_correction);
    if let Tool::CellSetter(cell_tool) = action.get_tool() {
        if let CellTool::PixelEraser(x, y) = cell_tool {
            assert!(
                !not_checked
                    && action.checked
                    && (x == eraser_x - left_correction.unwrap())
                    && (y == eraser_y - top_correction.unwrap())
            );
        }
    }
}

#[test]
fn it_does_not_correct_a_checked_action() {
    let (left_correction, top_correction) = (Some(2), Some(5));
    let (eraser_x, eraser_y) = (3, 18);
    let mut action = Action::new(
        (Grid::Generation, 0),
        Tool::CellSetter(CellTool::PixelEraser(eraser_x, eraser_y)),
    );
    action.checked = true;
    let checked = action.checked;
    action = action.corrected(left_correction, top_correction);
    if let Tool::CellSetter(cell_tool) = action.get_tool() {
        if let CellTool::PixelEraser(x, y) = cell_tool {
            assert!(checked && action.checked && (x == eraser_x) && (y == eraser_y));
        }
    }
}

#[test]
fn it_passes_to_previous_brush() {
    let mut brush = Brush::new();
    let init_brush = brush.current_action;
    brush.previous();
    assert!((init_brush == 0) && (brush.current_action == 4));
}

#[test]
fn it_passes_to_next_brush() {
    let mut brush = Brush::new();
    brush.previous();
    let init_brush = brush.current_action;
    brush.next();
    assert!((init_brush == 4) && (brush.current_action == 0));
}

#[test]
fn it_sets_brush_color() {
    let mut brush = Brush::new();
    let init_color = brush.get_color();
    let new_color = (200, 150, 8);
    brush.set_color(new_color);
    assert!((init_color == (255, 255, 255)) && (brush.get_color() == new_color));
}

#[test]
fn it_sets_color_with_the_char_sequence_123_34567892_67895_67895_000() {
    let mut brushcolor = BrushColor::new();
    let color = "123345678926789567895000";
    let res = (String::from("123"), String::from("255"), String::from("000"));
    for number in color.chars() {
        brushcolor.set_value(number);
    }
    assert_eq!(brushcolor.get_value(), res);
}

#[test]
fn it_sets_cursor_to_the_right() {
    let mut cursor = Cursor::new(vec!['0', '1', '2', '3', '4'], 0, 10000);
    let init_pos = cursor.get_pos();
    cursor.cursor_right();
    let second_pos = cursor.get_pos();
    let value_len = cursor.value.len() - 1;
    for _i in 2..=value_len {
        cursor.cursor_right();
    }
    let third_pos = cursor.get_pos();
    cursor.cursor_right();
    assert!(
        (init_pos == 0)
            && (second_pos == 1)
            && (third_pos == value_len)
            && (cursor.get_pos() == value_len)
    );
}

#[test]
fn it_sets_cursor_to_the_left() {
    let mut cursor = Cursor::new(vec!['0', '1', '2', '3', '4'], 0, 10000);
    cursor.cursor_right();
    let init_pos = cursor.get_pos();
    cursor.cursor_left();
    let second_pos = cursor.get_pos();
    cursor.cursor_left();
    assert!((init_pos == 1) && (second_pos == 0) && (cursor.get_pos() == 0));
}

#[test]
fn it_resets_cursor() {
    let mut cursor = Cursor::new(vec!['0', '1', '2', '3', '4'], 0, 10000);
    let value_len = cursor.value.len() - 1;
    for _i in 1..=value_len {
        cursor.cursor_right();
    }
    let init_pos = cursor.get_pos();
    cursor.reset_cursor();
    assert!((init_pos == value_len) && (cursor.get_pos() == 0));
}

#[test]
fn it_sets_number_with_the_char_sequences_56789400_0512345678901234567890_00_0() {
    let mut generationnumber = GenerationNumber::new();
    let first_number = "56789400";
    let first_res = String::from("400");
    for number in first_number.chars() {
        generationnumber.set_value(number);
    }
    let first_test = first_res == generationnumber.get_value();
    generationnumber.cursor_left();
    generationnumber.cursor_left();
    let second_number = "0512345678901234567890";
    let second_res = String::from("500");
    for number in second_number.chars() {
        generationnumber.set_value(number);
    }
    let second_test = second_res == generationnumber.get_value();
    generationnumber.cursor_left();
    generationnumber.cursor_left();
    generationnumber.set_value('1');
    generationnumber.set_value('1');
    generationnumber.cursor_left();
    generationnumber.cursor_left();
    generationnumber.set_value('0');
    generationnumber.set_value('0');
    let third_res = String::from("010");
    let third_test = third_res == generationnumber.get_value();
    generationnumber.cursor_right();
    generationnumber.set_value('1');
    generationnumber.cursor_left();
    generationnumber.set_value('0');
    generationnumber.set_value('0');
    let forth_res = String::from("001");
    let forth_test = forth_res == generationnumber.get_value();
    assert!(first_test && second_test && third_test && forth_test);
}
