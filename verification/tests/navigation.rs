use parquet_console::selection::{step_back, step_forward};
use parquet_console::app::command_for;
use parquet_console::{
    ActivePane, App, ColumnChunk, Command, InputEvent, KeyCode, KeyEvent, KeyEventKind, LoadError,
    MetadataModel, PhysicalType, RowGroup, SelectionState,
};

fn chunk(name: &str) -> ColumnChunk {
    ColumnChunk {
        path_in_schema: vec![name.to_string()],
        physical_type: PhysicalType::Int32,
        raw_statistics: None,
    }
}

fn model(sizes: &[usize]) -> MetadataModel {
    let mut row_groups = Vec::new();
    for (g, size) in sizes.iter().enumerate() {
        let mut columns = Vec::new();
        for c in 0..*size {
            columns.push(chunk(&format!("g{}c{}", g, c)));
        }
        row_groups.push(RowGroup { columns, total_byte_size: 0 });
    }
    MetadataModel { row_groups }
}

fn app(sizes: &[usize]) -> App {
    App::from("data.parquet".to_string(), model(sizes)).unwrap()
}

fn press(code: KeyCode) -> InputEvent {
    InputEvent::Key(KeyEvent { code, kind: KeyEventKind::Press })
}

fn state(pane: ActivePane, row_group: usize, column: usize) -> SelectionState {
    SelectionState { active_pane: pane, row_group_index: row_group, column_index: column }
}

#[test]
fn session_starts_in_row_group_browser_at_zero() {
    let app = app(&[2, 5, 1]);
    assert_eq!(app.selection(), state(ActivePane::RowGroupBrowser, 0, 0));
    assert_eq!(app.active_pane(), ActivePane::RowGroupBrowser);
    assert!(!app.exiting());
    assert_eq!(app.file_name(), "data.parquet");
    assert_eq!(SelectionState::new(), state(ActivePane::RowGroupBrowser, 0, 0));
    assert_eq!(ActivePane::default(), ActivePane::RowGroupBrowser);
}

#[test]
fn three_row_groups_wrap_and_keep_column_zero() {
    let mut app = app(&[2, 5, 1]);
    let mut seen = Vec::new();
    for _ in 0..3 {
        app.move_next();
        assert_eq!(app.selection().column_index, 0);
        assert_eq!(app.active_pane(), ActivePane::RowGroupBrowser);
        seen.push(app.selection().row_group_index);
    }
    assert_eq!(seen, vec![1, 2, 0]);
}

#[test]
fn column_browser_wraps_from_last_column_to_first() {
    let metadata = model(&[2, 5, 1]);
    let mut selection = state(ActivePane::ColumnBrowser, 1, 4);
    selection.move_next(&metadata);
    assert_eq!(selection, state(ActivePane::ColumnBrowser, 1, 0));
}

#[test]
fn column_browser_wraps_from_first_column_to_last() {
    let metadata = model(&[2, 5, 1]);
    let mut selection = state(ActivePane::ColumnBrowser, 1, 0);
    selection.move_prev(&metadata);
    assert_eq!(selection, state(ActivePane::ColumnBrowser, 1, 4));
}

#[test]
fn row_group_browser_wraps_backwards() {
    let mut app = app(&[2, 5, 1]);
    let mut seen = Vec::new();
    for _ in 0..4 {
        app.move_prev();
        assert_eq!(app.selection().column_index, 0);
        seen.push(app.selection().row_group_index);
    }
    assert_eq!(seen, vec![2, 1, 0, 2]);
}

#[test]
fn as_many_steps_as_items_lead_back() {
    let sizes = [4usize, 1, 7, 3];
    let metadata = model(&sizes);
    for (g, size) in sizes.iter().enumerate() {
        for start in 0..*size {
            let origin = state(ActivePane::ColumnBrowser, g, start);
            let mut forward = origin;
            let mut backward = origin;
            for _ in 0..*size {
                forward.move_next(&metadata);
                backward.move_prev(&metadata);
            }
            assert_eq!(forward, origin);
            assert_eq!(backward, origin);
        }
    }
    for start in 0..sizes.len() {
        let origin = state(ActivePane::RowGroupBrowser, start, 0);
        let mut forward = origin;
        let mut backward = origin;
        for _ in 0..sizes.len() {
            forward.move_next(&metadata);
            backward.move_prev(&metadata);
        }
        assert_eq!(forward, origin);
        assert_eq!(backward, origin);
    }
}

#[test]
fn full_circle_of_row_groups_restores_the_row_group_from_any_column() {
    let metadata = model(&[4, 2, 3]);
    let mut selection = state(ActivePane::RowGroupBrowser, 0, 3);
    for _ in 0..3 {
        selection.move_next(&metadata);
    }
    assert_eq!(selection.row_group_index, 0);
    assert_eq!(selection.column_index, 0);
}

#[test]
fn step_back_undoes_step_forward() {
    let sizes = [4usize, 1, 7, 3];
    let metadata = model(&sizes);
    for (g, size) in sizes.iter().enumerate() {
        for start in 0..*size {
            let origin = state(ActivePane::ColumnBrowser, g, start);
            let mut there = origin;
            there.move_next(&metadata);
            there.move_prev(&metadata);
            assert_eq!(there, origin);
            let mut back = origin;
            back.move_prev(&metadata);
            back.move_next(&metadata);
            assert_eq!(back, origin);
        }
        let origin = state(ActivePane::RowGroupBrowser, g, 0);
        let mut there = origin;
        there.move_next(&metadata);
        there.move_prev(&metadata);
        assert_eq!(there, origin);
        let mut back = origin;
        back.move_prev(&metadata);
        back.move_next(&metadata);
        assert_eq!(back, origin);
    }
}

#[test]
fn switching_the_row_group_selects_its_first_column() {
    let metadata = model(&[5, 2, 3]);
    let mut selection = state(ActivePane::RowGroupBrowser, 0, 4);
    selection.move_next(&metadata);
    assert_eq!(selection, state(ActivePane::RowGroupBrowser, 1, 0));
    let mut selection = state(ActivePane::RowGroupBrowser, 0, 4);
    selection.move_prev(&metadata);
    assert_eq!(selection, state(ActivePane::RowGroupBrowser, 2, 0));
}

#[test]
fn column_steps_leave_the_row_group() {
    let metadata = model(&[5, 2, 3]);
    let mut selection = state(ActivePane::ColumnBrowser, 2, 1);
    selection.move_next(&metadata);
    assert_eq!(selection, state(ActivePane::ColumnBrowser, 2, 2));
    selection.move_next(&metadata);
    assert_eq!(selection, state(ActivePane::ColumnBrowser, 2, 0));
    selection.move_prev(&metadata);
    assert_eq!(selection, state(ActivePane::ColumnBrowser, 2, 2));
}

#[test]
fn steps_in_the_detail_pane_change_nothing() {
    let metadata = model(&[5, 2, 3]);
    let origin = state(ActivePane::ColumnChunkDetail, 2, 1);
    let mut selection = origin;
    selection.move_next(&metadata);
    assert_eq!(selection, origin);
    selection.move_prev(&metadata);
    assert_eq!(selection, origin);
}

#[test]
fn steps_in_a_list_of_one_change_nothing() {
    let metadata = model(&[3]);
    let origin = state(ActivePane::RowGroupBrowser, 0, 2);
    let mut selection = origin;
    selection.move_next(&metadata);
    assert_eq!(selection, origin);
    selection.move_prev(&metadata);
    assert_eq!(selection, origin);

    let metadata = model(&[3, 1]);
    let origin = state(ActivePane::ColumnBrowser, 1, 0);
    let mut selection = origin;
    selection.move_next(&metadata);
    assert_eq!(selection, origin);
    selection.move_prev(&metadata);
    assert_eq!(selection, origin);
}

#[test]
fn three_toggles_close_the_cycle_of_panes() {
    let panes = [
        ActivePane::RowGroupBrowser,
        ActivePane::ColumnBrowser,
        ActivePane::ColumnChunkDetail,
    ];
    for (i, start) in panes.iter().enumerate() {
        let mut pane = *start;
        pane.toggle();
        assert_eq!(pane, panes[(i + 1) % 3]);
        pane.toggle();
        assert_eq!(pane, panes[(i + 2) % 3]);
        pane.toggle();
        assert_eq!(pane, *start);
    }
}

#[test]
fn toggling_the_pane_keeps_both_indices() {
    let mut selection = state(ActivePane::ColumnBrowser, 1, 3);
    selection.toggle_pane();
    assert_eq!(selection, state(ActivePane::ColumnChunkDetail, 1, 3));
    selection.toggle_pane();
    assert_eq!(selection, state(ActivePane::RowGroupBrowser, 1, 3));
    selection.toggle_pane();
    assert_eq!(selection, state(ActivePane::ColumnBrowser, 1, 3));
}

#[test]
fn keys_drive_the_session() {
    let mut app = app(&[2, 5, 1]);
    assert!(app.try_handle_event(press(KeyCode::Down)).is_ok());
    assert_eq!(app.selection(), state(ActivePane::RowGroupBrowser, 1, 0));
    assert!(app.try_handle_event(press(KeyCode::Tab)).is_ok());
    assert_eq!(app.selection(), state(ActivePane::ColumnBrowser, 1, 0));
    assert_eq!(app.num_column_chunks(), 5);
    for expected in [1usize, 2, 3, 4, 0] {
        assert!(app.try_handle_event(press(KeyCode::Down)).is_ok());
        assert_eq!(app.selection(), state(ActivePane::ColumnBrowser, 1, expected));
    }
    assert!(app.try_handle_event(press(KeyCode::Up)).is_ok());
    assert_eq!(app.selection(), state(ActivePane::ColumnBrowser, 1, 4));
    assert!(app.try_handle_event(press(KeyCode::Tab)).is_ok());
    assert!(app.try_handle_event(press(KeyCode::Up)).is_ok());
    assert_eq!(app.selection(), state(ActivePane::ColumnChunkDetail, 1, 4));
    assert!(app.try_handle_event(press(KeyCode::Tab)).is_ok());
    assert!(app.try_handle_event(press(KeyCode::Up)).is_ok());
    assert_eq!(app.selection(), state(ActivePane::RowGroupBrowser, 0, 0));
    assert!(!app.exiting());
}

#[test]
fn q_in_either_case_ends_the_session() {
    for key in ['q', 'Q'] {
        let mut app = app(&[2, 5, 1]);
        app.move_next();
        let before = app.selection();
        assert!(app.try_handle_event(press(KeyCode::Char(key))).is_ok());
        assert!(app.exiting());
        assert_eq!(app.selection(), before);
    }
}

#[test]
fn request_exit_sets_the_flag_and_nothing_else() {
    let mut app = app(&[2, 5, 1]);
    app.toggle_pane();
    app.move_next();
    let before = app.selection();
    app.request_exit();
    assert!(app.exiting());
    assert_eq!(app.selection(), before);
    app.request_exit();
    assert!(app.exiting());
}

#[test]
fn keys_that_are_no_command_are_ignored() {
    let mut app = app(&[2, 5, 1]);
    app.move_next();
    let before = app.selection();
    for code in [KeyCode::Char('x'), KeyCode::Char('j'), KeyCode::Char(' '), KeyCode::Other] {
        assert!(app.try_handle_event(press(code)).is_ok());
        assert_eq!(app.selection(), before);
        assert!(!app.exiting());
    }
    assert!(app.try_handle_event(InputEvent::Other).is_ok());
    assert_eq!(app.selection(), before);
    assert!(!app.exiting());
}

#[test]
fn only_presses_are_commands() {
    let mut app = app(&[2, 5, 1]);
    let before = app.selection();
    for kind in [KeyEventKind::Repeat, KeyEventKind::Release] {
        for code in [KeyCode::Down, KeyCode::Up, KeyCode::Tab, KeyCode::Char('q')] {
            let event = InputEvent::Key(KeyEvent { code, kind });
            assert!(app.try_handle_event(event).is_ok());
            assert_eq!(app.selection(), before);
            assert!(!app.exiting());
        }
    }
}

#[test]
fn events_map_to_commands() {
    assert_eq!(command_for(press(KeyCode::Char('q'))), Command::Quit);
    assert_eq!(command_for(press(KeyCode::Char('Q'))), Command::Quit);
    assert_eq!(command_for(press(KeyCode::Down)), Command::MoveNext);
    assert_eq!(command_for(press(KeyCode::Up)), Command::MovePrev);
    assert_eq!(command_for(press(KeyCode::Tab)), Command::TogglePane);
    assert_eq!(command_for(press(KeyCode::Other)), Command::Ignore);
    assert_eq!(command_for(press(KeyCode::Char('w'))), Command::Ignore);
    assert_eq!(command_for(InputEvent::Other), Command::Ignore);
    let release = InputEvent::Key(KeyEvent { code: KeyCode::Down, kind: KeyEventKind::Release });
    assert_eq!(command_for(release), Command::Ignore);
}

#[test]
fn commands_change_the_session() {
    let mut app = app(&[2, 5, 1]);
    app.apply(Command::MovePrev);
    assert_eq!(app.selection(), state(ActivePane::RowGroupBrowser, 2, 0));
    app.apply(Command::MoveNext);
    assert_eq!(app.selection(), state(ActivePane::RowGroupBrowser, 0, 0));
    app.apply(Command::TogglePane);
    assert_eq!(app.selection(), state(ActivePane::ColumnBrowser, 0, 0));
    app.apply(Command::Ignore);
    assert_eq!(app.selection(), state(ActivePane::ColumnBrowser, 0, 0));
    assert!(!app.exiting());
    app.apply(Command::Quit);
    assert!(app.exiting());
}

#[test]
fn a_file_without_row_groups_is_turned_down() {
    let outcome = App::from("empty.parquet".to_string(), model(&[]));
    assert_eq!(outcome.unwrap_err(), LoadError::MalformedMetadata);
    assert!(!model(&[]).is_well_formed());
}

#[test]
fn a_row_group_without_columns_is_turned_down() {
    for sizes in [vec![0usize], vec![2, 0, 1], vec![3, 4, 0]] {
        let outcome = App::from("odd.parquet".to_string(), model(&sizes));
        assert_eq!(outcome.unwrap_err(), LoadError::MalformedMetadata);
        assert!(!model(&sizes).is_well_formed());
    }
}

#[test]
fn a_file_with_columns_in_every_row_group_is_accepted() {
    for sizes in [vec![1usize], vec![2, 5, 1], vec![3, 3]] {
        assert!(model(&sizes).is_well_formed());
        let app = App::from("fine.parquet".to_string(), model(&sizes)).unwrap();
        assert_eq!(app.num_row_groups(), sizes.len());
        assert_eq!(app.num_column_chunks(), sizes[0]);
        assert_eq!(*app.parquet_metadata(), model(&sizes));
    }
}

#[test]
fn counts_follow_the_selected_row_group() {
    let mut app = app(&[2, 5, 1]);
    assert_eq!(app.num_row_groups(), 3);
    assert_eq!(app.num_column_chunks(), 2);
    app.move_next();
    assert_eq!(app.num_column_chunks(), 5);
    app.move_next();
    assert_eq!(app.num_column_chunks(), 1);
    let metadata = model(&[2, 5, 1]);
    assert_eq!(metadata.num_row_groups(), 3);
    assert_eq!(metadata.num_column_chunks(1), 5);
}

#[test]
fn the_selected_chunk_follows_the_selection() {
    let mut app = app(&[2, 5, 1]);
    assert_eq!(app.selected_column_chunk().path_in_schema, vec!["g0c0".to_string()]);
    app.move_next();
    app.toggle_pane();
    app.move_prev();
    assert_eq!(app.selected_column_chunk().path_in_schema, vec!["g1c4".to_string()]);
    assert_eq!(app.selected_row_group().columns.len(), 5);
}

#[test]
fn validity_of_a_selection_is_decided_against_the_file() {
    let metadata = model(&[2, 5, 1]);
    assert!(state(ActivePane::ColumnBrowser, 1, 4).is_valid_for(&metadata));
    assert!(!state(ActivePane::ColumnBrowser, 1, 5).is_valid_for(&metadata));
    assert!(!state(ActivePane::ColumnBrowser, 3, 0).is_valid_for(&metadata));
    assert!(state(ActivePane::RowGroupBrowser, 2, 0).is_valid_for(&metadata));
    assert!(!state(ActivePane::RowGroupBrowser, 2, 1).is_valid_for(&metadata));
}

#[test]
fn single_steps_in_a_circle() {
    assert_eq!(step_forward(0, 5), 1);
    assert_eq!(step_forward(3, 5), 4);
    assert_eq!(step_forward(4, 5), 0);
    assert_eq!(step_forward(0, 1), 0);
    assert_eq!(step_back(0, 5), 4);
    assert_eq!(step_back(4, 5), 3);
    assert_eq!(step_back(1, 5), 0);
    assert_eq!(step_back(0, 1), 0);
    assert_eq!(step_forward(usize::MAX - 1, usize::MAX), 0);
    assert_eq!(step_back(0, usize::MAX), usize::MAX - 1);
    for n in 1usize..8 {
        for i in 0..n {
            assert_eq!(step_forward(i, n), (i + 1) % n);
            assert_eq!(step_back(i, n), (i + n - 1) % n);
        }
    }
}
