use liriodendron::action::Action;
use liriodendron::log::Log;
use liriodendron::tools::{CellTool, Grid, Tool};

#[test]
fn it_adds_a_brush_action() {
    let mut log = Log::new(1, 1);
    let len = log.actions_len();
    log.brush((1, 1));
    assert_eq!(log.actions_len(), len + 1);
}

#[test]
fn it_adds_an_erase_action() {
    let mut log = Log::new(1, 1);
    let len = log.actions_len();
    log.erase((1, 1));
    assert_eq!(log.actions_len(), len + 1);
}

#[test]
fn it_adds_a_clear_action() {
    let mut log = Log::new(1, 2);
    log.brush((1, 1));
    let len = log.actions_len();
    log.clear();
    assert_eq!(log.actions_len(), len + 1);
}

#[test]
fn it_adds_an_increment_width_action() {
    let mut log = Log::new(0, 1);
    let init_len = log.actions_len();
    log.increment_width();
    assert!(log.actions_len() == init_len + 1);
}

#[test]
fn it_adds_an_increment_height_action() {
    let mut log = Log::new(0, 1);
    let init_len = log.actions_len();
    log.increment_height();
    assert!(log.actions_len() == init_len + 1);
}

#[test]
fn it_adds_a_decrement_width_action() {
    let mut log = Log::new(0, 1);
    let init_len = log.actions_len();
    log.decrement_width();
    assert!(log.actions_len() == init_len + 1);
}

#[test]
fn it_adds_a_decrement_height_action() {
    let mut log = Log::new(0, 1);
    let init_len = log.actions_len();
    log.decrement_height();
    assert!(log.actions_len() == init_len + 1);
}

#[test]
fn it_adds_an_addgrid_action() {
    let mut log = Log::new(0, 1);
    let init_len = log.actions_len();
    log.gridname_setvalue('0');
    log.grids_add();
    assert!(log.actions_len() == init_len + 1);
}

#[test]
fn it_adds_a_renamegrid_action() {
    let mut log = Log::new(0, 1);
    let init_len = log.actions_len();
    log.gridname_setvalue('0');
    log.grids_renamecurrentgrid();
    assert!(log.actions_len() == init_len + 1);
}

#[test]
fn it_adds_a_deletegrid_action() {
    let mut log = Log::new(0, 1);
    let init_len = log.actions_len();
    log.grids_deletecurrentgrid();
    assert!(log.actions_len() == init_len + 1);
}

#[test]
fn it_adds_a_switchgrid_action() {
    let mut log = Log::new(0, 1);
    let init_len = log.actions_len();
    log.grids_switchorder();
    assert!(log.actions_len() == init_len + 1);
}

#[test]
fn it_does_not_add_an_addgrid_action_with_an_empty_grid_name() {
    let mut log = Log::new(0, 1);
    let init_len = log.actions_len();
    log.grids_add();
    assert!(log.actions_len() == init_len);
}

#[test]
fn it_does_not_add_an_addgrid_action_with_an_used_grid_name() {
    let mut log = Log::new(0, 2);
    let grid_area = (0, log.grids_getwidth(), 0, log.grids_getheight());
    log.gridname_setvalue('0');
    log.grids_add();
    log.check_last_action(grid_area);
    let init_len = log.actions_len();
    log.gridname_reset();
    log.gridname_setvalue('0');
    log.grids_add();
    assert!(log.actions_len() == init_len);
}

#[test]
fn it_brushes_the_correct_grid_after_an_addgrid_action() {
    let mut log = Log::new(2, 3);
    let grid_area = (0, log.grids_getwidth(), 0, log.grids_getheight());
    log.gridname_setvalue('0');
    log.grids_add();
    log.check_last_action(grid_area);
    log.brush((1, 1));
    log.check_last_action(grid_area);
    let filled_cells_grid2_a = log.grids_getcurrentgrid().len();
    log.grids_previous();
    let filled_cells_grid1_a = log.grids_getcurrentgrid().len();
    log.brush((2, 2));
    log.check_last_action(grid_area);
    let filled_cells_grid1_b = log.grids_getcurrentgrid().len();
    log.grids_next();
    let filled_cells_grid2_b = log.grids_getcurrentgrid().len();
    assert!(
        (log.actions_len() == 3)
            && (filled_cells_grid1_a == 0)
            && (filled_cells_grid2_a == 1)
            && (filled_cells_grid1_b == 1)
            && (filled_cells_grid2_b == 1)
    );
}

#[test]
fn it_erases_the_correct_grid_after_an_addgrid_action() {
    let mut log = Log::new(2, 3);
    let grid_area = (0, log.grids_getwidth(), 0, log.grids_getheight());
    log.gridname_setvalue('0');
    log.grids_add();
    log.check_last_action(grid_area);
    log.brush((1, 1));
    log.check_last_action(grid_area);
    let filled_cells_grid2_a = log.grids_getcurrentgrid().len();
    log.grids_previous();
    let filled_cells_grid1_a = log.grids_getcurrentgrid().len();

    log.erase((1, 1));
    log.check_last_action(grid_area);
    let filled_cells_grid1_b = log.grids_getcurrentgrid().len();
    log.grids_next();
    let filled_cells_grid2_b = log.grids_getcurrentgrid().len();
    log.grids_previous();

    log.brush((1, 1));
    log.check_last_action(grid_area);
    let filled_cells_grid1_c = log.grids_getcurrentgrid().len();
    log.grids_next();
    let filled_cells_grid2_c = log.grids_getcurrentgrid().len();

    log.erase((1, 1));
    log.check_last_action(grid_area);
    let filled_cells_grid2_d = log.grids_getcurrentgrid().len();
    log.grids_previous();
    let filled_cells_grid1_d = log.grids_getcurrentgrid().len();
    log.grids_next();

    log.brush((1, 1));
    log.check_last_action(grid_area);
    let filled_cells_grid2_e = log.grids_getcurrentgrid().len();
    log.grids_previous();
    let filled_cells_grid1_e = log.grids_getcurrentgrid().len();

    log.erase((1, 1));
    log.check_last_action(grid_area);
    let filled_cells_grid1_f = log.grids_getcurrentgrid().len();
    log.grids_next();
    let filled_cells_grid2_f = log.grids_getcurrentgrid().len();

    assert!(
        (filled_cells_grid1_a == 0)
            && (filled_cells_grid2_a == 1)
            && (filled_cells_grid1_b == 0)
            && (filled_cells_grid2_b == 1)
            && (filled_cells_grid1_c == 1)
            && (filled_cells_grid2_c == 1)
            && (filled_cells_grid1_d == 1)
            && (filled_cells_grid2_d == 0)
            && (filled_cells_grid1_e == 1)
            && (filled_cells_grid2_e == 1)
            && (filled_cells_grid1_f == 0)
            && (filled_cells_grid2_f == 1)
    );
}

#[test]
fn it_clears_the_correct_grid_after_an_addgrid_action() {
    let mut log = Log::new(2, 3);
    let grid_area = (0, log.grids_getwidth(), 0, log.grids_getheight());
    log.gridname_setvalue('0');
    log.brush((1, 1));
    log.check_last_action(grid_area);
    log.grids_add();
    log.check_last_action(grid_area);

    log.brush((2, 2));
    log.check_last_action(grid_area);
    let filled_cells_grid2_a = log.grids_getcurrentgrid().len();
    log.grids_previous();
    let filled_cells_grid1_a = log.grids_getcurrentgrid().len();

    log.clear();
    log.check_last_action(grid_area);
    let filled_cells_grid1_b = log.grids_getcurrentgrid().len();
    log.grids_next();
    let filled_cells_grid2_b = log.grids_getcurrentgrid().len();

    log.grids_previous();
    log.brush((2, 2));
    log.check_last_action(grid_area);
    let filled_cells_grid1_c = log.grids_getcurrentgrid().len();
    log.grids_next();
    let filled_cells_grid2_c = log.grids_getcurrentgrid().len();

    log.clear();
    log.check_last_action(grid_area);
    let filled_cells_grid2_d = log.grids_getcurrentgrid().len();
    log.grids_previous();
    let filled_cells_grid1_d = log.grids_getcurrentgrid().len();

    assert!(
        (filled_cells_grid1_a == 1)
            && (filled_cells_grid2_a == 1)
            && (filled_cells_grid1_b == 0)
            && (filled_cells_grid2_b == 1)
            && (filled_cells_grid1_c == 1)
            && (filled_cells_grid2_c == 1)
            && (filled_cells_grid1_d == 1)
            && (filled_cells_grid2_d == 0)
    );
}

#[test]
fn it_renames_the_correct_grids_after_an_addgrid_action() {
    let mut log = Log::new(2, 3);
    let grid_area = (0, log.grids_getwidth(), 0, log.grids_getheight());
    log.gridname_setvalue('0');
    log.grids_add();
    log.check_last_action(grid_area);
    let check1 = log.grids_getnames()[0].eq(&String::from("Grid1           "))
        && log.grids_getnames()[1].eq(&String::from("0               "))
        && log.grids_getnb() == 2;

    log.grids_previous();
    log.gridname_reset();
    log.gridname_setvalue('b');
    log.gridname_setvalue('l');
    log.gridname_setvalue('i');
    log.gridname_setvalue('b');
    log.gridname_setvalue('l');
    log.gridname_setvalue('i');
    log.grids_renamecurrentgrid();
    log.check_last_action(grid_area);
    let check2 = log.grids_getnames()[0].eq(&String::from("blibli          "))
        && log.grids_getnames()[1].eq(&String::from("0               "))
        && log.grids_getnb() == 2;

    log.grids_next();
    log.gridname_reset();
    log.gridname_setvalue('t');
    log.gridname_setvalue('l');
    log.gridname_setvalue('i');
    log.gridname_setvalue('t');
    log.gridname_setvalue('l');
    log.gridname_setvalue('i');
    log.grids_renamecurrentgrid();
    log.check_last_action(grid_area);
    let check3 = log.grids_getnames()[0].eq(&String::from("blibli          "))
        && log.grids_getnames()[1].eq(&String::from("tlitli          "))
        && log.grids_getnb() == 2;

    log.undo();
    let check4 = log.grids_getnames()[0].eq(&String::from("blibli          "))
        && log.grids_getnames()[1].eq(&String::from("0               "))
        && log.grids_getnb() == 2;

    log.redo();
    let check5 = log.grids_getnames()[0].eq(&String::from("blibli          "))
        && log.grids_getnames()[1].eq(&String::from("tlitli          "))
        && log.grids_getnb() == 2;

    log.undo();
    log.undo();
    let check6 = log.grids_getnames()[0].eq(&String::from("Grid1           "))
        && log.grids_getnames()[1].eq(&String::from("0               "))
        && log.grids_getnb() == 2;

    log.undo();
    let check7 =
        log.grids_getnames()[0].eq(&String::from("Grid1           ")) && log.grids_getnb() == 1;

    assert!(check1 && check2 && check3 && check4 && check5 && check6 && check7);
}

#[test]
fn it_deletes_a_grid() {
    let mut log = Log::new(0, 2);
    let grid_area = (0, log.grids_getwidth(), 0, log.grids_getheight());
    log.gridname_setvalue('0');
    log.grids_add();
    log.check_last_action(grid_area);
    let init_len = log.grids_getnb();
    log.grids_deletecurrentgrid();
    log.check_last_action(grid_area);
    assert!((init_len == 2) && (log.grids_getnb() == init_len - 1));
}

#[test]
fn it_brushes_2_grids_and_decrements_width_and_keeps_cells_of_first_grid() {
    let mut log = Log::new(4, 3);
    let grid_area = (0, log.grids_getwidth(), 0, log.grids_getheight());
    log.brush((5, 1));
    log.check_last_action(grid_area);
    log.brush((5, 2));
    log.check_last_action(grid_area);
    log.gridname_setvalue('0');
    log.grids_add();
    log.check_last_action(grid_area);
    log.brush((9, 1));
    log.check_last_action(grid_area);
    log.brush((9, 2));
    log.check_last_action(grid_area);
    let filled_cells_grid2_a = log.grids_getcurrentgrid().len();
    log.grids_previous();
    let filled_cells_grid1_a = log.grids_getcurrentgrid().len();

    log.decrement_width();
    log.check_last_action(grid_area);
    let filled_cells_grid1_b = log.grids_getcurrentgrid().len();
    log.grids_next();
    let filled_cells_grid2_b = log.grids_getcurrentgrid().len();
    assert!(
        (filled_cells_grid1_a == 2)
            && (filled_cells_grid2_a == 2)
            && (filled_cells_grid1_b == 2)
            && (filled_cells_grid2_b == 0)
    );
}

#[test]
fn it_brushes_2_grids_and_decrements_width_and_keeps_cells_of_second_grid() {
    let mut log = Log::new(4, 3);
    let grid_area = (0, log.grids_getwidth(), 0, log.grids_getheight());
    log.brush((5, 1));
    log.check_last_action(grid_area);
    log.brush((5, 2));
    log.check_last_action(grid_area);
    log.gridname_setvalue('0');
    log.grids_add();
    log.check_last_action(grid_area);
    log.brush((9, 1));
    log.check_last_action(grid_area);
    log.brush((9, 2));
    log.check_last_action(grid_area);
    let filled_cells_grid2_a = log.grids_getcurrentgrid().len();
    log.grids_previous();
    let filled_cells_grid1_a = log.grids_getcurrentgrid().len();

    log.grids_next();
    log.decrement_width();
    log.check_last_action(grid_area);
    let filled_cells_grid2_b = log.grids_getcurrentgrid().len();
    log.grids_previous();
    let filled_cells_grid1_b = log.grids_getcurrentgrid().len();
    assert!(
        (filled_cells_grid1_a == 2)
            && (filled_cells_grid2_a == 2)
            && (filled_cells_grid1_b == 2)
            && (filled_cells_grid2_b == 0)
    );
}

#[test]
fn it_brushes_2_grids_and_decrements_width_and_keeps_cells_of_none_of_them() {
    let mut log = Log::new(4, 3);
    let grid_area = (0, log.grids_getwidth(), 0, log.grids_getheight());
    log.brush((9, 1));
    log.check_last_action(grid_area);
    log.brush((9, 2));
    log.check_last_action(grid_area);
    log.gridname_setvalue('0');
    log.grids_add();
    log.check_last_action(grid_area);
    log.brush((9, 3));
    log.check_last_action(grid_area);
    log.brush((9, 4));
    log.check_last_action(grid_area);
    let filled_cells_grid2_a = log.grids_getcurrentgrid().len();
    log.grids_previous();
    let filled_cells_grid1_a = log.grids_getcurrentgrid().len();

    log.grids_next();
    log.decrement_width();
    log.check_last_action(grid_area);
    let filled_cells_grid2_b = log.grids_getcurrentgrid().len();
    log.grids_previous();
    let filled_cells_grid1_b = log.grids_getcurrentgrid().len();
    assert!(
        (filled_cells_grid1_a == 2)
            && (filled_cells_grid2_a == 2)
            && (filled_cells_grid1_b == 0)
            && (filled_cells_grid2_b == 0)
    );
}

#[test]
fn it_brushes_2_grids_and_decrements_width_and_keeps_cells_of_both_of_them() {
    let mut log = Log::new(4, 3);
    let grid_area = (0, log.grids_getwidth(), 0, log.grids_getheight());
    log.brush((7, 1));
    log.check_last_action(grid_area);
    log.brush((7, 2));
    log.check_last_action(grid_area);
    log.gridname_setvalue('0');
    log.grids_add();
    log.check_last_action(grid_area);
    log.brush((8, 3));
    log.check_last_action(grid_area);
    log.brush((8, 4));
    log.check_last_action(grid_area);
    let filled_cells_grid2_a = log.grids_getcurrentgrid().len();
    log.grids_previous();
    let filled_cells_grid1_a = log.grids_getcurrentgrid().len();

    log.grids_next();
    log.decrement_width();
    log.check_last_action(grid_area);
    let filled_cells_grid2_b = log.grids_getcurrentgrid().len();
    log.grids_previous();
    let filled_cells_grid1_b = log.grids_getcurrentgrid().len();
    assert!(
        (filled_cells_grid1_a == 2)
            && (filled_cells_grid2_a == 2)
            && (filled_cells_grid1_b == 2)
            && (filled_cells_grid2_b == 2)
    );
}

#[test]
fn it_brushes_2_grids_and_decrements_height_and_keeps_cells_of_first_grid() {
    let mut log = Log::new(4, 3);
    let grid_area = (0, log.grids_getwidth(), 0, log.grids_getheight());
    log.brush((5, 8));
    log.check_last_action(grid_area);
    log.brush((5, 7));
    log.check_last_action(grid_area);
    log.gridname_setvalue('0');
    log.grids_add();
    log.check_last_action(grid_area);
    log.brush((7, 9));
    log.check_last_action(grid_area);
    log.brush((6, 9));
    log.check_last_action(grid_area);
    let filled_cells_grid2_a = log.grids_getcurrentgrid().len();
    log.grids_previous();
    let filled_cells_grid1_a = log.grids_getcurrentgrid().len();

    log.decrement_height();
    log.check_last_action(grid_area);
    let filled_cells_grid1_b = log.grids_getcurrentgrid().len();
    log.grids_next();
    let filled_cells_grid2_b = log.grids_getcurrentgrid().len();
    assert!(
        (filled_cells_grid1_a == 2)
            && (filled_cells_grid2_a == 2)
            && (filled_cells_grid1_b == 2)
            && (filled_cells_grid2_b == 0)
    );
}

#[test]
fn it_brushes_2_grids_and_decrements_height_and_keeps_cells_of_second_grid() {
    let mut log = Log::new(4, 3);
    let grid_area = (0, log.grids_getheight(), 0, log.grids_getheight());
    log.brush((4, 9));
    log.check_last_action(grid_area);
    log.brush((3, 9));
    log.check_last_action(grid_area);
    log.gridname_setvalue('0');
    log.grids_add();
    log.check_last_action(grid_area);
    log.brush((6, 8));
    log.check_last_action(grid_area);
    log.brush((5, 8));
    log.check_last_action(grid_area);
    let filled_cells_grid2_a = log.grids_getcurrentgrid().len();
    log.grids_previous();
    let filled_cells_grid1_a = log.grids_getcurrentgrid().len();

    log.grids_next();
    log.decrement_height();
    log.check_last_action(grid_area);
    let filled_cells_grid2_b = log.grids_getcurrentgrid().len();
    log.grids_previous();
    let filled_cells_grid1_b = log.grids_getcurrentgrid().len();
    assert!(
        (filled_cells_grid1_a == 2)
            && (filled_cells_grid2_a == 2)
            && (filled_cells_grid1_b == 0)
            && (filled_cells_grid2_b == 2)
    );
}

#[test]
fn it_brushes_2_grids_and_decrements_height_and_keeps_cells_of_none_of_them() {
    let mut log = Log::new(4, 3);
    let grid_area = (0, log.grids_getheight(), 0, log.grids_getheight());
    log.brush((4, 9));
    log.check_last_action(grid_area);
    log.brush((5, 9));
    log.check_last_action(grid_area);
    log.gridname_setvalue('0');
    log.grids_add();
    log.check_last_action(grid_area);
    log.brush((6, 9));
    log.check_last_action(grid_area);
    log.brush((7, 9));
    log.check_last_action(grid_area);
    let filled_cells_grid2_a = log.grids_getcurrentgrid().len();
    log.grids_previous();
    let filled_cells_grid1_a = log.grids_getcurrentgrid().len();

    log.grids_next();
    log.decrement_height();
    log.check_last_action(grid_area);
    let filled_cells_grid2_b = log.grids_getcurrentgrid().len();
    log.grids_previous();
    let filled_cells_grid1_b = log.grids_getcurrentgrid().len();
    assert!(
        (filled_cells_grid1_a == 2)
            && (filled_cells_grid2_a == 2)
            && (filled_cells_grid1_b == 0)
            && (filled_cells_grid2_b == 0)
    );
}

#[test]
fn it_brushes_2_grids_and_decrements_height_and_keeps_cells_of_both_of_them() {
    let mut log = Log::new(4, 3);
    let grid_area = (0, log.grids_getheight(), 0, log.grids_getheight());
    log.brush((4, 6));
    log.check_last_action(grid_area);
    log.brush((5, 6));
    log.check_last_action(grid_area);
    log.gridname_setvalue('0');
    log.grids_add();
    log.check_last_action(grid_area);
    log.brush((6, 6));
    log.check_last_action(grid_area);
    log.brush((7, 6));
    log.check_last_action(grid_area);
    let filled_cells_grid2_a = log.grids_getcurrentgrid().len();
    log.grids_previous();
    let filled_cells_grid1_a = log.grids_getcurrentgrid().len();

    log.grids_next();
    log.decrement_height();
    log.check_last_action(grid_area);
    let filled_cells_grid2_b = log.grids_getcurrentgrid().len();
    log.grids_previous();
    let filled_cells_grid1_b = log.grids_getcurrentgrid().len();
    assert!(
        (filled_cells_grid1_a == 2)
            && (filled_cells_grid2_a == 2)
            && (filled_cells_grid1_b == 2)
            && (filled_cells_grid2_b == 2)
    );
}

#[test]
fn it_canceled_the_last_action() {
    let mut log = Log::new(1, 1);
    log.brush((1, 1));
    let actions_len = log.actions_len();
    let canceled_actions_len = log.canceled_len();
    log.undo();
    assert!(
        (actions_len == 1)
            && (canceled_actions_len == 0)
            && (log.actions_len() == 0)
            && (log.canceled_len() == 1)
    );
}

#[test]
fn it_canceled_several_last_actions() {
    let mut log = Log::new(3, 3);
    log.brush((1, 1));
    log.brush((2, 1));
    log.brush((1, 2));
    let actions_len = log.actions_len();
    let canceled_actions_len = log.canceled_len();
    log.undo();
    log.undo();
    log.undo();
    assert!(
        (actions_len == 3)
            && (canceled_actions_len == 0)
            && (log.actions_len() == 0)
            && (log.canceled_len() == 3)
    );
}

#[test]
fn it_did_not_cancel_last_action_because_there_are_no_last_action() {
    let mut log = Log::new(0, 1);
    let actions_len = log.actions_len();
    let canceled_actions_len = log.canceled_len();
    log.undo();
    assert!(
        (actions_len == 0)
            && (canceled_actions_len == 0)
            && (log.actions_len() == 0)
            && (log.canceled_len() == 0)
    );
}

#[test]
fn it_clears_canceled_actions_after_an_action() {
    let mut log = Log::new(3, 3);
    log.brush((1, 1));
    log.brush((2, 1));
    log.brush((1, 2));
    let actions_len = log.actions_len();
    let canceled_actions_len = log.canceled_len();
    log.undo();
    log.undo();
    let actions_len2 = log.actions_len();
    let canceled_actions_len2 = log.canceled_len();
    log.brush((1, 2));
    assert!(
        (actions_len == 3)
            && (canceled_actions_len == 0)
            && (actions_len2 == 1)
            && (canceled_actions_len2 == 2)
            && (log.actions_len() == 2)
            && (log.canceled_len() == 0)
    );
}

#[test]
fn it_redid_the_last_action() {
    let mut log = Log::new(1, 1);
    log.brush((1, 1));
    log.undo();
    let actions_len = log.actions_len();
    let canceled_actions_len = log.canceled_len();
    log.redo();
    assert!(
        (actions_len == 0)
            && (canceled_actions_len == 1)
            && (log.actions_len() == 1)
            && (log.canceled_len() == 0)
    );
}

#[test]
fn it_redid_several_last_actions() {
    let mut log = Log::new(3, 3);
    log.brush((1, 1));
    log.brush((2, 1));
    log.brush((1, 2));
    log.undo();
    log.undo();
    log.undo();
    let actions_len = log.actions_len();
    let canceled_actions_len = log.canceled_len();
    log.redo();
    log.redo();
    log.redo();
    assert!(
        (actions_len == 0)
            && (canceled_actions_len == 3)
            && (log.actions_len() == 3)
            && (log.canceled_len() == 0)
    );
}

#[test]
fn it_did_not_redo_last_action_because_there_are_no_canceled_action() {
    let mut log = Log::new(1, 1);
    log.brush((1, 1));
    let actions_len = log.actions_len();
    let canceled_actions_len = log.canceled_len();
    log.redo();
    assert!(
        (actions_len == 1)
            && (canceled_actions_len == 0)
            && (log.actions_len() == 1)
            && (log.canceled_len() == 0)
    );
}

#[test]
fn it_pushed_last_poped_action_inside_delayed_grid_when_log_is_full() {
    let mut log = Log::new(3, 1);
    let grid_area = (0, log.grids_getwidth(), 0, log.grids_getheight());
    log.brush((1, 1));
    log.check_last_action(grid_area);
    let actions_len = log.actions_len();
    let delayed_len = log.delayed_nb_filledcells();
    log.brush((1, 2));
    log.check_last_action(grid_area);
    let actions_len2 = log.actions_len();
    let delayed_len2 = log.delayed_nb_filledcells();
    log.brush((2, 2));
    log.check_last_action(grid_area);
    assert!(
        (actions_len == 1)
            && (delayed_len == 0)
            && (actions_len2 == 1)
            && (delayed_len2 == 1)
            && (log.actions_len() == 1)
            && (log.delayed_nb_filledcells() == 2)
    );
}

#[test]
fn it_pushed_last_poped_action_inside_delayed_grid_when_log_is_full_but_this_last_action_is_repetitive_so_log_poped_it_from_actions(
) {
    let mut log = Log::new(3, 2);
    let grid_area = (0, log.grids_getwidth(), 0, log.grids_getheight());
    log.brush((1, 1));
    log.check_last_action(grid_area);
    log.brush((1, 2));
    log.check_last_action(grid_area);
    let actions_len = log.actions_len();
    let delayed_len = log.delayed_nb_filledcells();
    log.brush((1, 2));
    log.check_last_action(grid_area);
    let actions_len2 = log.actions_len();
    let delayed_len2 = log.delayed_nb_filledcells();
    log.brush((2, 2));
    log.check_last_action(grid_area);
    assert!(
        (actions_len == 2)
            && (delayed_len == 0)
            && (actions_len2 == 1)
            && (delayed_len2 == 1)
            && (log.actions_len() == 2)
            && (log.delayed_nb_filledcells() == 1)
    );
}

#[test]
fn it_pops_1_action_when_1_new_action_is_pushed_inside_a_full_log() {
    let mut log = Log::new(2, 256);
    let queuecapacity = 256;
    while log.actions_len() < queuecapacity {
        log.brush((1, 1));
    }
    let init_len = log.actions_len();
    log.brush((2, 2));
    if let Some(last_brush) = log.last_action() {
        assert!(
            (init_len == queuecapacity)
                && (log.actions_len() == queuecapacity)
                && (last_brush
                    == Action::new(
                        (Grid::Generation, log.grids_getcurrentgridid()),
                        Tool::CellSetter(CellTool::PixelBrush(log.brush_getcurrentaction(), 2, 2)),
                    ))
        );
    }
}

#[test]
fn it_checks_6_last_action_outside_the_grid_and_pops_it() {
    let mut log = Log::new(6, 6);
    let (init_width, init_height) = (log.grids_getwidth(), log.grids_getheight());
    let grid_area = (5, init_width, 5, init_height);
    log.brush((init_width + 4, init_height + 4));
    log.check_last_action(grid_area);
    log.brush((init_width + 4, init_height - 1));
    log.check_last_action(grid_area);
    log.brush((init_width - 1, init_height + 4));
    log.check_last_action(grid_area);
    log.brush((4, 4));
    log.check_last_action(grid_area);
    log.brush((4, init_width - 1));
    log.check_last_action(grid_area);
    log.brush((init_width - 1, 4));
    log.check_last_action(grid_area);
    assert_eq!(log.actions_len(), 0);
}

#[test]
fn it_checks_last_brush_action_inside_the_grid_and_keeps_it() {
    let mut log = Log::new(1, 1);
    let (init_width, init_height) = (log.grids_getwidth(), log.grids_getheight());
    let grid_area = (0, init_width, 0, init_height);
    log.brush((4, 4));
    log.check_last_action(grid_area);
    assert_eq!(log.actions_len(), 1);
}

#[test]
fn it_checks_3_same_brush_action_inside_the_grid_and_pops_2_of_them() {
    let mut log = Log::new(1, 3);
    let (init_width, init_height) = (log.grids_getwidth(), log.grids_getheight());
    let grid_area = (0, init_width, 0, init_height);
    log.brush((4, 4));
    log.check_last_action(grid_area);
    log.brush((4, 4));
    log.check_last_action(grid_area);
    log.brush((4, 4));
    log.check_last_action(grid_area);
    assert_eq!(log.actions_len(), 1);
}

#[test]
fn it_checks_3_same_eraser_action_inside_the_grid_and_pops_2_of_them() {
    let mut log = Log::new(1, 4);
    let (init_width, init_height) = (log.grids_getwidth(), log.grids_getheight());
    let grid_area = (0, init_width, 0, init_height);
    log.brush((4, 4));
    log.check_last_action(grid_area);
    log.erase((4, 4));
    log.check_last_action(grid_area);
    log.erase((4, 4));
    log.check_last_action(grid_area);
    log.erase((4, 4));
    log.check_last_action(grid_area);
    assert_eq!(log.actions_len(), 2);
}

#[test]
fn it_checks_3_same_clear_action_and_pops_2_of_them() {
    let mut log = Log::new(1, 4);
    let (init_width, init_height) = (log.grids_getwidth(), log.grids_getheight());
    let grid_area = (0, init_width, 0, init_height);
    log.brush((4, 4));
    log.check_last_action(grid_area);
    log.clear();
    log.check_last_action(grid_area);
    log.clear();
    log.check_last_action(grid_area);
    log.clear();
    log.check_last_action(grid_area);
    assert_eq!(log.actions_len(), 2);
}

#[test]
fn it_checks_4_last_decrement_actions_and_keeps_it() {
    let mut log = Log::new(0, 4);
    let (init_width, init_height) = (log.grids_getwidth(), log.grids_getheight());
    log.decrement_width();
    log.check_last_action((0, init_width - 1, 0, init_height));
    log.decrement_width();
    log.check_last_action((0, init_width - 2, 0, init_height));
    log.decrement_height();
    log.check_last_action((0, init_width - 2, 0, init_height - 1));
    log.decrement_height();
    log.check_last_action((0, init_width - 2, 0, init_height - 2));
    assert!(
        (log.actions_len() == 4)
            && (log.grids_getwidth() == init_width - 2)
            && (log.grids_getheight() == init_height - 2)
    );
}

#[test]
fn it_checks_4_last_increment_actions_and_keeps_it() {
    let mut log = Log::new(0, 4);
    let (init_width, init_height) = (log.grids_getwidth(), log.grids_getheight());
    log.increment_width();
    log.check_last_action((0, init_width + 1, 0, init_height));
    log.increment_width();
    log.check_last_action((0, init_width + 2, 0, init_height));
    log.increment_height();
    log.check_last_action((0, init_width + 2, 0, init_height + 1));
    log.increment_height();
    log.check_last_action((0, init_width + 2, 0, init_height + 2));
    assert!(
        (log.actions_len() == 4)
            && (log.grids_getwidth() == init_width + 2)
            && (log.grids_getheight() == init_height + 2)
    );
}

#[test]
fn it_checks_last_brush_action_on_a_filled_cell_and_it_does_not_overflow_memory_grids() {
    let mut log = Log::new(2, 3);
    let (init_width, init_height) = (log.grids_getwidth(), log.grids_getheight());
    let grid_area = (0, init_width, 0, init_height);
    log.brush((4, 4));
    log.check_last_action(grid_area);
    log.brush((5, 4));
    log.check_last_action(grid_area);
    let init_len = log.actions_len();
    log.brush((5, 4));
    log.check_last_action(grid_area);
    assert!((init_len == 2) && (log.actions_len() == 2) && !log.overflow());
}

#[test]
fn it_checks_last_brush_action_on_an_empty_cell_and_it_overflows_memory_grids() {
    let mut log = Log::new(2, 3);
    let (init_width, init_height) = (log.grids_getwidth(), log.grids_getheight());
    let grid_area = (0, init_width, 0, init_height);
    log.brush((4, 4));
    log.check_last_action(grid_area);
    log.brush((5, 4));
    log.check_last_action(grid_area);
    let init_len = log.actions_len();
    log.brush((6, 4));
    log.check_last_action(grid_area);
    assert!((init_len == 2) && (log.actions_len() == 2) && log.overflow());
}

#[test]
fn it_checks_last_brush_action_on_a_filled_cell_after_a_memory_grids_overflow_and_it_does_not_overflow_grids(
) {
    let mut log = Log::new(2, 3);
    let (init_width, init_height) = (log.grids_getwidth(), log.grids_getheight());
    let grid_area = (0, init_width, 0, init_height);
    log.brush((4, 4));
    log.check_last_action(grid_area);
    log.brush((5, 4));
    log.check_last_action(grid_area);
    let init_len = log.actions_len();
    log.brush((6, 4));
    log.check_last_action(grid_area);
    let was_overflow = log.overflow();
    log.brush((5, 4));
    log.check_last_action(grid_area);
    assert!((init_len == 2) && (log.actions_len() == 2) && !log.overflow() && was_overflow);
}

#[test]
fn it_checks_last_eraser_action_after_a_memory_grids_overflow_and_it_does_not_overflow_grids() {
    let mut log = Log::new(2, 3);
    let (init_width, init_height) = (log.grids_getwidth(), log.grids_getheight());
    let grid_area = (0, init_width, 0, init_height);
    log.brush((4, 4));
    log.check_last_action(grid_area);
    log.brush((5, 4));
    log.check_last_action(grid_area);
    let init_len = log.actions_len();
    log.brush((6, 4));
    log.check_last_action(grid_area);
    let was_overflow = log.overflow();
    log.erase((5, 4));
    log.check_last_action(grid_area);
    assert!((init_len == 2) && (log.actions_len() == 3) && !log.overflow() && was_overflow);
}

#[test]
fn it_checks_last_missed_eraser_action_after_a_memory_grids_overflow_and_it_does_not_overflow_grids(
) {
    let mut log = Log::new(2, 3);
    let (init_width, init_height) = (log.grids_getwidth(), log.grids_getheight());
    let grid_area = (0, init_width, 0, init_height);
    log.brush((4, 4));
    log.check_last_action(grid_area);
    log.brush((5, 4));
    log.check_last_action(grid_area);
    let init_len = log.actions_len();
    log.brush((6, 4));
    log.check_last_action(grid_area);
    let was_overflow = log.overflow();
    log.erase((6, 4));
    log.check_last_action(grid_area);
    assert!((init_len == 2) && (log.actions_len() == 2) && !log.overflow() && was_overflow);
}

#[test]
fn it_checks_last_clear_action_after_a_memory_grids_overflow_and_it_does_not_overflow_grids() {
    let mut log = Log::new(2, 3);
    let (init_width, init_height) = (log.grids_getwidth(), log.grids_getheight());
    let grid_area = (0, init_width, 0, init_height);
    log.brush((4, 4));
    log.check_last_action(grid_area);
    log.brush((5, 4));
    log.check_last_action(grid_area);
    let init_len = log.actions_len();
    log.brush((6, 4));
    log.check_last_action(grid_area);
    let was_overflow = log.overflow();
    log.clear();
    log.check_last_action(grid_area);
    assert!((init_len == 2) && (log.actions_len() == 3) && !log.overflow() && was_overflow);
}

#[test]
fn it_increments_width_grid_after_a_memory_grids_overflow_and_it_does_not_overflow_grids() {
    let mut log = Log::new(2, 3);
    let (init_width, init_height) = (log.grids_getwidth(), log.grids_getheight());
    let grid_area = (0, init_width, 0, init_height);
    log.brush((4, 4));
    log.check_last_action(grid_area);
    log.brush((5, 4));
    log.check_last_action(grid_area);
    let init_len = log.actions_len();
    log.brush((6, 4));
    log.check_last_action(grid_area);
    let was_overflow = log.overflow();
    log.increment_width();
    log.check_last_action(grid_area);
    assert!((init_len == 2) && (log.actions_len() == 3) && !log.overflow() && was_overflow);
}

#[test]
fn it_increments_height_grid_after_a_memory_grids_overflow_and_it_does_not_overflow_grids() {
    let mut log = Log::new(2, 3);
    let (init_width, init_height) = (log.grids_getwidth(), log.grids_getheight());
    let grid_area = (0, init_width, 0, init_height);
    log.brush((4, 4));
    log.check_last_action(grid_area);
    log.brush((5, 4));
    log.check_last_action(grid_area);
    let init_len = log.actions_len();
    log.brush((6, 4));
    log.check_last_action(grid_area);
    let was_overflow = log.overflow();
    log.increment_height();
    log.check_last_action(grid_area);
    assert!((init_len == 2) && (log.actions_len() == 3) && !log.overflow() && was_overflow);
}

#[test]
fn it_decrements_width_grid_after_a_memory_grids_overflow_and_it_does_not_overflow_grids() {
    let mut log = Log::new(2, 3);
    let (init_width, init_height) = (log.grids_getwidth(), log.grids_getheight());
    let grid_area = (0, init_width, 0, init_height);
    log.brush((4, 4));
    log.check_last_action(grid_area);
    log.brush((5, 4));
    log.check_last_action(grid_area);
    let init_len = log.actions_len();
    log.brush((6, 4));
    log.check_last_action(grid_area);
    let was_overflow = log.overflow();
    log.decrement_width();
    log.check_last_action(grid_area);
    assert!((init_len == 2) && (log.actions_len() == 3) && !log.overflow() && was_overflow);
}

#[test]
fn it_decrements_height_grid_after_a_memory_grids_overflow_and_it_does_not_overflow_grids() {
    let mut log = Log::new(2, 3);
    let (init_width, init_height) = (log.grids_getwidth(), log.grids_getheight());
    let grid_area = (0, init_width, 0, init_height);
    log.brush((4, 4));
    log.check_last_action(grid_area);
    log.brush((5, 4));
    log.check_last_action(grid_area);
    let init_len = log.actions_len();
    log.brush((6, 4));
    log.check_last_action(grid_area);
    let was_overflow = log.overflow();
    log.decrement_height();
    log.check_last_action(grid_area);
    assert!((init_len == 2) && (log.actions_len() == 3) && !log.overflow() && was_overflow);
}

#[test]
fn it_brushed_an_empty_cell_and_gets_a_filler_grid() {
    let mut log = Log::new(1, 1);
    let (init_width, init_height) = (log.grids_getwidth(), log.grids_getheight());
    let grid_area = (0, init_width, 0, init_height);
    let init_len = log.grids_getcurrentgrid().len();
    log.brush((6, 6));
    log.check_last_action(grid_area);
    assert!((init_len == 0) && (log.grids_getcurrentgrid().len() == 1));
}

#[test]
fn it_brushed_a_filled_cell_and_gets_the_same_grid_and_a_len_log_equal_to_1() {
    let mut log = Log::new(2, 2);
    let (init_width, init_height) = (log.grids_getwidth(), log.grids_getheight());
    let grid_area = (0, init_width, 0, init_height);
    log.brush((6, 6));
    log.check_last_action(grid_area);
    let init_len = log.grids_getcurrentgrid().len();
    log.brush((6, 6));
    log.check_last_action(grid_area);
    assert!(
        (init_len == 1) && (log.grids_getcurrentgrid().len() == 1) && (log.actions_len() == 1)
    );
}

#[test]
fn it_erased_a_filled_cell_and_gets_an_emptier_grid() {
    let mut log = Log::new(1, 2);
    let (init_width, init_height) = (log.grids_getwidth(), log.grids_getheight());
    let grid_area = (0, init_width, 0, init_height);
    log.brush((6, 6));
    log.check_last_action(grid_area);
    let init_len = log.grids_getcurrentgrid().len();
    log.erase((6, 6));
    log.check_last_action(grid_area);
    assert!((init_len == 1) && (log.grids_getcurrentgrid().len() == 0));
}

#[test]
fn it_erased_an_empty_cell_and_gets_the_same_grid_and_an_empty_log() {
    let mut log = Log::new(0, 1);
    let (init_width, init_height) = (log.grids_getwidth(), log.grids_getheight());
    let grid_area = (0, init_width, 0, init_height);
    let init_len = log.grids_getcurrentgrid().len();
    log.erase((6, 6));
    log.check_last_action(grid_area);
    assert!(
        (init_len == 0) && (log.grids_getcurrentgrid().len() == 0) && (log.actions_len() == 0)
    );
}

#[test]
fn it_cleared_a_filled_cell_and_gets_an_empty_grid() {
    let mut log = Log::new(2, 3);
    let (init_width, init_height) = (log.grids_getwidth(), log.grids_getheight());
    let grid_area = (0, init_width, 0, init_height);
    log.brush((6, 6));
    log.check_last_action(grid_area);
    log.brush((7, 7));
    log.check_last_action(grid_area);
    let init_len = log.grids_getcurrentgrid().len();
    log.clear();
    log.check_last_action(grid_area);
    assert!((init_len == 2) && (log.grids_getcurrentgrid().len() == 0));
}

#[test]
fn it_cleared_an_empty_grid_and_gets_the_same_grid_and_an_empty_log() {
    let mut log = Log::new(0, 1);
    let (init_width, init_height) = (log.grids_getwidth(), log.grids_getheight());
    let grid_area = (0, init_width, 0, init_height);
    let init_len = log.grids_getcurrentgrid().len();
    log.clear();
    log.check_last_action(grid_area);
    assert!(
        (init_len == 0) && (log.grids_getcurrentgrid().len() == 0) && (log.actions_len() == 0)
    );
}

#[test]
fn it_brushed_an_empty_cell_1_but_decrements_width_and_erase_cell_1() {
    let mut log = Log::new(1, 2);
    let (init_width, init_height) = (log.grids_getwidth(), log.grids_getheight());
    let grid_area = (0, init_width, 0, init_height);
    log.brush((9, 1));
    log.check_last_action(grid_area);
    let init_len = log.grids_getcurrentgrid().len();
    log.decrement_width();
    log.check_last_action(grid_area);
    assert!(
        (init_len == 1)
            && (log.grids_getcurrentgrid().len() == 0)
            && (init_width == 10)
            && (log.grids_getwidth() == init_width - 1)
    );
}

#[test]
fn it_brushed_an_empty_cell_1_but_decrements_height_and_erase_cell_1() {
    let mut log = Log::new(1, 2);
    let (init_width, init_height) = (log.grids_getwidth(), log.grids_getheight());
    let grid_area = (0, init_width, 0, init_height);
    log.brush((1, 9));
    log.check_last_action(grid_area);
    let init_len = log.grids_getcurrentgrid().len();
    log.decrement_height();
    log.check_last_action(grid_area);
    assert!(
        (init_len == 1)
            && (log.grids_getcurrentgrid().len() == 0)
            && (init_height == 10)
            && (log.grids_getheight() == init_height - 1)
    );
}

#[test]
fn it_brushed_2_empty_cell_1_and_2_but_decrements_width_and_erase_cell_1() {
    let mut log = Log::new(2, 3);
    let (init_width, init_height) = (log.grids_getwidth(), log.grids_getheight());
    let grid_area = (0, init_width, 0, init_height);
    log.brush((9, 1));
    log.check_last_action(grid_area);
    log.brush((8, 2));
    log.check_last_action(grid_area);
    let init_len = log.grids_getcurrentgrid().len();
    log.decrement_width();
    log.check_last_action(grid_area);
    assert!(
        (init_len == 2)
            && (log.grids_getcurrentgrid().len() == 1)
            && (init_width == 10)
            && (log.grids_getwidth() == init_width - 1)
    );
}

#[test]
fn it_brushed_2_empty_cell_1_and_2_but_decrements_height_and_erase_cell_1() {
    let mut log = Log::new(2, 3);
    let (init_width, init_height) = (log.grids_getwidth(), log.grids_getheight());
    let grid_area = (0, init_width, 0, init_height);
    log.brush((1, 8));
    log.check_last_action(grid_area);
    log.brush((1, 9));
    log.check_last_action(grid_area);
    let init_len = log.grids_getcurrentgrid().len();
    log.decrement_height();
    log.check_last_action(grid_area);
    assert!(
        (init_len == 2)
            && (log.grids_getcurrentgrid().len() == 1)
            && (init_height == 10)
            && (log.grids_getheight() == init_height - 1)
    );
}

#[test]
fn it_brushed_2_empty_cells_but_decrements_width_and_erase_both() {
    let mut log = Log::new(2, 3);
    let (init_width, init_height) = (log.grids_getwidth(), log.grids_getheight());
    let grid_area = (0, init_width, 0, init_height);
    log.brush((9, 1));
    log.check_last_action(grid_area);
    log.brush((9, 2));
    log.check_last_action(grid_area);
    let init_len = log.grids_getcurrentgrid().len();
    log.decrement_width();
    log.check_last_action(grid_area);
    assert!(
        (init_len == 2)
            && (log.grids_getcurrentgrid().len() == 0)
            && (init_width == 10)
            && (log.grids_getwidth() == init_width - 1)
    );
}

#[test]
fn it_brushed_2_empty_cells_but_decrements_height_and_erase_both() {
    let mut log = Log::new(2, 3);
    let (init_width, init_height) = (log.grids_getwidth(), log.grids_getheight());
    let grid_area = (0, init_width, 0, init_height);
    log.brush((2, 9));
    log.check_last_action(grid_area);
    log.brush((1, 9));
    log.check_last_action(grid_area);
    let init_len = log.grids_getcurrentgrid().len();
    log.decrement_height();
    log.check_last_action(grid_area);
    assert!(
        (init_len == 2)
            && (log.grids_getcurrentgrid().len() == 0)
            && (init_height == 10)
            && (log.grids_getheight() == init_height - 1)
    );
}

#[test]
fn it_brushed_2_empty_cells_and_decrements_width() {
    let mut log = Log::new(2, 3);
    let (init_width, init_height) = (log.grids_getwidth(), log.grids_getheight());
    let grid_area = (0, init_width, 0, init_height);
    log.brush((7, 1));
    log.check_last_action(grid_area);
    log.brush((8, 1));
    log.check_last_action(grid_area);
    let init_len = log.grids_getcurrentgrid().len();
    log.decrement_width();
    log.check_last_action(grid_area);
    assert!(
        (init_len == 2)
            && (log.grids_getcurrentgrid().len() == 2)
            && (init_width == 10)
            && (log.grids_getwidth() == init_width - 1)
    );
}

#[test]
fn it_brushed_2_empty_cells_and_decrements_height() {
    let mut log = Log::new(2, 3);
    let (init_width, init_height) = (log.grids_getwidth(), log.grids_getheight());
    let grid_area = (0, init_width, 0, init_height);
    log.brush((1, 7));
    log.check_last_action(grid_area);
    log.brush((1, 8));
    log.check_last_action(grid_area);
    let init_len = log.grids_getcurrentgrid().len();
    log.decrement_height();
    log.check_last_action(grid_area);
    assert!(
        (init_len == 2)
            && (log.grids_getcurrentgrid().len() == 2)
            && (init_height == 10)
            && (log.grids_getheight() == init_height - 1)
    );
}
