use pdf_coord_picker::app::{
    check_input_field_click, handle_file_load_result, handle_open_file_dialog_native,
    load_pdf_page_image, page_list_view, poll_result, ChannelPoll,
    DialogAction, LoadReport, LoadState, PageListView, PdfCoordPickerApp, PdfPageInputId,
    PersistedState, SelectionStatus,
};
use pdf_coord_picker::export_scale::ExportPos;
use pdf_coord_picker::geometry::{Edge, Rect, ScreenPos, ScreenRect};
use pdf_coord_picker::page::PageInput;
use pdf_coord_picker::pdf_load::{PdfLoadError, RasterPage};
use pdf_coord_picker::pdf_text_input::{FieldInput, ResizeState};

fn shown() -> ScreenRect {
    ScreenRect { left: 100, top: 200, width: 600, height: 800 }
}

fn bitmaps(count: usize) -> Vec<RasterPage> {
    vec![RasterPage { width: 600, height: 800 }; count]
}

fn document(path: &str, count: usize) -> ChannelPoll {
    ChannelPoll::Ready(Ok((String::from(path), bitmaps(count))))
}

fn click_at(x: i32, y: i32) -> PageInput {
    PageInput {
        rect: shown(),
        interact_pos: Some(ScreenPos { x: 100 + x, y: 200 + y }),
        clicked: true,
        hover_pos: None,
    }
}

fn pointer(has_focus: bool, x: i32, y: i32, dragged: bool) -> FieldInput {
    FieldInput {
        has_focus,
        pointer: Some(ScreenPos { x: 100 + x, y: 200 + y }),
        dragged,
        clicked: false,
    }
}

fn clicked() -> FieldInput {
    FieldInput { has_focus: true, pointer: None, dragged: false, clicked: true }
}

fn loaded_app(count: usize) -> PdfCoordPickerApp {
    let mut app = PdfCoordPickerApp::default();
    app.request_open();
    let report = poll_result(&mut app, document("a.pdf", count));
    assert!(matches!(report, LoadReport::Loaded));
    app
}

fn page_count(app: &PdfCoordPickerApp) -> Option<usize> {
    app.pages().map(|pages| pages.len())
}

fn edges(app: &PdfCoordPickerApp, key: PdfPageInputId) -> (i64, i64, i64, i64) {
    let r = app.get_input_field(key).expect("the field").rect();
    (r.left(), r.top(), r.right(), r.bottom())
}

#[test]
fn the_initial_state_is_idle_and_empty() {
    let app = PdfCoordPickerApp::default();
    assert_eq!(app.load_state(), LoadState::Idle);
    assert!(!app.waiting_for_file());
    assert_eq!(app.pdf_file_path(), None);
    assert!(app.pages().is_none());
    assert_eq!(app.current_selection(), None);
    assert_eq!(app.page_max_width(), "");
    assert_eq!(app.page_max_height(), "");
    assert_eq!(app.selection_status(), SelectionStatus::NoSelection);
    assert_eq!(page_list_view(&app), PageListView::NoDocument);
}

#[test]
fn new_without_kept_state_is_the_initial_state() {
    let app = PdfCoordPickerApp::new(None);
    assert_eq!(app.load_state(), LoadState::Idle);
    assert_eq!(app.pdf_file_path(), None);
    assert!(app.pages().is_none());
}

#[test]
fn new_takes_over_what_was_kept() {
    let app = PdfCoordPickerApp::new(Some(PersistedState {
        page_max_width: String::from("595"),
        page_max_height: String::from("842"),
        pdf_file_path: Some(String::from("a.pdf")),
        waiting_for_file: false,
    }));
    assert_eq!(app.page_max_width(), "595");
    assert_eq!(app.page_max_height(), "842");
    assert_eq!(app.pdf_file_path(), Some("a.pdf"));
    assert_eq!(app.load_state(), LoadState::Idle);
    assert!(app.pages().is_none());
    assert_eq!(app.current_selection(), None);
    assert_eq!(page_list_view(&app), PageListView::LoadFailed);
}

#[test]
fn new_goes_on_waiting_where_the_kept_state_waited() {
    let app = PdfCoordPickerApp::new(Some(PersistedState {
        page_max_width: String::new(),
        page_max_height: String::new(),
        pdf_file_path: None,
        waiting_for_file: true,
    }));
    assert_eq!(app.load_state(), LoadState::Loading);
    assert!(app.waiting_for_file());
}

#[test]
fn persisted_keeps_texts_path_and_waiting() {
    let mut app = loaded_app(1);
    app.set_page_max_width(String::from("595"));
    app.set_page_max_height(String::from("842"));
    let kept = app.persisted();
    assert_eq!(kept.page_max_width, "595");
    assert_eq!(kept.page_max_height, "842");
    assert_eq!(kept.pdf_file_path, Some(String::from("a.pdf")));
    assert!(!kept.waiting_for_file);
    app.request_open();
    assert!(app.persisted().waiting_for_file);
}

#[test]
fn poll_before_any_request_is_idle_and_consumes_nothing() {
    let mut app = PdfCoordPickerApp::default();
    assert!(matches!(
        poll_result(&mut app, ChannelPoll::Empty),
        LoadReport::Idle
    ));
    assert!(matches!(
        poll_result(&mut app, document("a.pdf", 2)),
        LoadReport::Idle
    ));
    assert!(matches!(
        poll_result(&mut app, ChannelPoll::Disconnected),
        LoadReport::Idle
    ));
    assert_eq!(app.load_state(), LoadState::Idle);
    assert!(app.pages().is_none());
    assert_eq!(app.pdf_file_path(), None);
}

#[test]
fn a_click_on_open_starts_a_job_and_polls() {
    let mut app = PdfCoordPickerApp::default();
    let action = handle_open_file_dialog_native(&mut app, true);
    assert_eq!(action, DialogAction { start_job: true, poll: true });
    assert_eq!(app.load_state(), LoadState::Loading);
    assert!(app.waiting_for_file());
}

#[test]
fn a_frame_without_a_click_starts_nothing() {
    let mut app = PdfCoordPickerApp::default();
    let action = handle_open_file_dialog_native(&mut app, false);
    assert_eq!(action, DialogAction { start_job: false, poll: false });
    assert_eq!(app.load_state(), LoadState::Idle);
}

#[test]
fn a_frame_without_a_click_goes_on_polling_while_loading() {
    let mut app = PdfCoordPickerApp::default();
    handle_open_file_dialog_native(&mut app, true);
    let action = handle_open_file_dialog_native(&mut app, false);
    assert_eq!(action, DialogAction { start_job: false, poll: true });
}

#[test]
fn a_second_click_on_open_while_loading_is_rejected() {
    let mut app = PdfCoordPickerApp::default();
    handle_open_file_dialog_native(&mut app, true);
    let action = handle_open_file_dialog_native(&mut app, true);
    assert_eq!(action, DialogAction { start_job: false, poll: true });
    assert_eq!(app.load_state(), LoadState::Loading);
}

#[test]
fn clicks_while_loading_start_one_job_in_all() {
    let mut app = PdfCoordPickerApp::default();
    let mut started = 0;
    for _ in 0..5 {
        if handle_open_file_dialog_native(&mut app, true).start_job {
            started += 1;
        }
        assert!(matches!(poll_result(&mut app, ChannelPoll::Empty), LoadReport::Busy));
    }
    assert_eq!(started, 1);
    assert!(matches!(poll_result(&mut app, document("a.pdf", 2)), LoadReport::Loaded));
    assert!(matches!(poll_result(&mut app, ChannelPoll::Empty), LoadReport::Idle));
    assert!(matches!(poll_result(&mut app, document("b.pdf", 1)), LoadReport::Idle));
    assert_eq!(page_count(&app), Some(2));
}

#[test]
fn a_click_on_open_after_a_result_starts_the_next_job() {
    let mut app = loaded_app(1);
    let action = handle_open_file_dialog_native(&mut app, true);
    assert_eq!(action, DialogAction { start_job: true, poll: true });
    poll_result(&mut app, ChannelPoll::Ready(Err(PdfLoadError::FileError)));
    let action = handle_open_file_dialog_native(&mut app, true);
    assert_eq!(action, DialogAction { start_job: true, poll: true });
    poll_result(&mut app, ChannelPoll::Disconnected);
    let action = handle_open_file_dialog_native(&mut app, true);
    assert_eq!(action, DialogAction { start_job: true, poll: true });
}

#[test]
fn request_open_is_accepted_unless_a_job_is_awaited() {
    let mut app = PdfCoordPickerApp::default();
    assert!(app.request_open());
    assert_eq!(app.load_state(), LoadState::Loading);
    assert!(!app.request_open());
    assert!(!app.request_open());
    assert_eq!(app.load_state(), LoadState::Loading);
    poll_result(&mut app, document("a.pdf", 2));
    assert_eq!(app.load_state(), LoadState::Loaded);
    assert!(app.request_open());
    assert_eq!(page_count(&app), Some(2));
    assert_eq!(app.pdf_file_path(), Some("a.pdf"));
    poll_result(&mut app, ChannelPoll::Ready(Err(PdfLoadError::FileError)));
    assert_eq!(app.load_state(), LoadState::Failed);
    assert!(app.request_open());
    assert_eq!(app.load_state(), LoadState::Loading);
}

#[test]
fn at_most_one_look_reports_an_outcome_per_request() {
    let mut app = PdfCoordPickerApp::default();
    app.request_open();
    let looks = vec![
        ChannelPoll::Empty,
        ChannelPoll::Ready(Err(PdfLoadError::FileError)),
        document("a.pdf", 2),
        ChannelPoll::Disconnected,
        ChannelPoll::Empty,
        document("b.pdf", 1),
    ];
    let mut outcomes = 0;
    for look in looks {
        match poll_result(&mut app, look) {
            LoadReport::Loaded | LoadReport::Failed(_) | LoadReport::ConnectionLost => {
                outcomes += 1
            }
            LoadReport::Idle | LoadReport::Busy => {}
        }
    }
    assert_eq!(outcomes, 1);
    assert_eq!(app.load_state(), LoadState::Failed);
    assert!(app.pages().is_none());
}

#[test]
fn an_empty_channel_while_loading_is_busy() {
    let mut app = PdfCoordPickerApp::default();
    app.request_open();
    for _ in 0..3 {
        let report = poll_result(&mut app, ChannelPoll::Empty);
        assert!(matches!(report, LoadReport::Busy));
        assert_eq!(app.load_state(), LoadState::Loading);
    }
}

#[test]
fn a_document_replaces_the_pages_and_is_consumed_once() {
    let mut app = PdfCoordPickerApp::default();
    app.request_open();
    let report = poll_result(&mut app, document("a.pdf", 2));
    assert!(matches!(report, LoadReport::Loaded));
    assert_eq!(app.load_state(), LoadState::Loaded);
    assert_eq!(app.pdf_file_path(), Some("a.pdf"));
    assert_eq!(page_count(&app), Some(2));
    let again = poll_result(&mut app, document("b.pdf", 5));
    assert!(matches!(again, LoadReport::Idle));
    assert_eq!(app.pdf_file_path(), Some("a.pdf"));
    assert_eq!(page_count(&app), Some(2));
}

#[test]
fn the_pages_have_the_sizes_of_the_bitmaps_in_order() {
    let mut app = PdfCoordPickerApp::default();
    app.request_open();
    let pages = vec![
        RasterPage { width: 600, height: 800 },
        RasterPage { width: 842, height: 595 },
        RasterPage { width: 1, height: 1 },
    ];
    poll_result(
        &mut app,
        ChannelPoll::Ready(Ok((String::from("a.pdf"), pages))),
    );
    let got: Vec<(u32, u32)> =
        app.pages().expect("pages").iter().map(|p| (p.width(), p.height())).collect();
    assert_eq!(got, vec![(600, 800), (842, 595), (1, 1)]);
    assert!(app.pages().expect("pages").iter().all(|p| p.input_fields().len() == 0));
}

#[test]
fn a_file_error_leaves_the_pages_as_they_were() {
    let mut app = loaded_app(2);
    let key = {
        let id = app.handle_page_input(1, &click_at(50, 50)).expect("page 1").created.expect("id");
        PdfPageInputId { page_id: 1, input_field_key: id }
    };
    app.request_open();
    let report =
        poll_result(&mut app, ChannelPoll::Ready(Err(PdfLoadError::FileError)));
    assert!(matches!(report, LoadReport::Failed(PdfLoadError::FileError)));
    assert_eq!(app.load_state(), LoadState::Failed);
    assert_eq!(page_count(&app), Some(2));
    assert_eq!(app.pdf_file_path(), Some("a.pdf"));
    assert_eq!(edges(&app, key), (35, 35, 65, 65));
    let again = poll_result(&mut app, ChannelPoll::Empty);
    assert!(matches!(again, LoadReport::Idle));
}

#[test]
fn a_pdf_error_is_reported_with_path_and_cause() {
    let mut app = loaded_app(1);
    app.request_open();
    let error = PdfLoadError::PdfError((String::from("b.pdf"), String::from("bad xref")));
    let report = poll_result(&mut app, ChannelPoll::Ready(Err(error)));
    match report {
        LoadReport::Failed(PdfLoadError::PdfError((path, cause))) => {
            assert_eq!(path, "b.pdf");
            assert_eq!(cause, "bad xref");
        }
        _ => panic!("expected a pdf error"),
    }
    assert_eq!(app.load_state(), LoadState::Failed);
    assert_eq!(app.pdf_file_path(), Some("a.pdf"));
    assert_eq!(page_count(&app), Some(1));
}

#[test]
fn a_lost_connection_ends_the_wait_and_leaves_the_pages() {
    let mut app = loaded_app(2);
    app.request_open();
    let report = poll_result(&mut app, ChannelPoll::Disconnected);
    assert!(matches!(report, LoadReport::ConnectionLost));
    assert_eq!(app.load_state(), LoadState::Failed);
    assert!(!app.waiting_for_file());
    assert_eq!(page_count(&app), Some(2));
    let again = poll_result(&mut app, ChannelPoll::Disconnected);
    assert!(matches!(again, LoadReport::Idle));
}

#[test]
fn a_request_after_a_failure_loads_again() {
    let mut app = PdfCoordPickerApp::default();
    app.request_open();
    poll_result(&mut app, ChannelPoll::Ready(Err(PdfLoadError::FileError)));
    assert_eq!(app.load_state(), LoadState::Failed);
    assert!(app.pages().is_none());
    app.request_open();
    let report = poll_result(&mut app, document("c.pdf", 3));
    assert!(matches!(report, LoadReport::Loaded));
    assert_eq!(page_count(&app), Some(3));
}

#[test]
fn handle_file_load_result_takes_a_document_in_any_state() {
    let mut app = PdfCoordPickerApp::default();
    let report = handle_file_load_result(&mut app, Ok((String::from("a.pdf"), bitmaps(2))));
    assert!(matches!(report, LoadReport::Loaded));
    assert_eq!(app.load_state(), LoadState::Loaded);
    assert_eq!(page_count(&app), Some(2));
    let report = handle_file_load_result(&mut app, Err(PdfLoadError::FileError));
    assert!(matches!(report, LoadReport::Failed(PdfLoadError::FileError)));
    assert_eq!(app.load_state(), LoadState::Failed);
    assert_eq!(page_count(&app), Some(2));
}

#[test]
fn a_document_without_pages_gives_an_empty_page_list() {
    let app = loaded_app(0);
    assert_eq!(page_count(&app), Some(0));
    assert_eq!(page_list_view(&app), PageListView::Pages { row_height: 0, row_count: 0 });
}

#[test]
fn a_bitmap_without_area_leaves_no_pages() {
    let mut app = loaded_app(2);
    app.request_open();
    let pages = vec![RasterPage { width: 600, height: 800 }, RasterPage { width: 0, height: 800 }];
    let report = poll_result(
        &mut app,
        ChannelPoll::Ready(Ok((String::from("b.pdf"), pages))),
    );
    assert!(matches!(report, LoadReport::Loaded));
    assert!(app.pages().is_none());
    assert_eq!(app.pdf_file_path(), Some("b.pdf"));
    assert_eq!(page_list_view(&app), PageListView::LoadFailed);
}

#[test]
fn load_pdf_page_image_makes_one_blank_page_per_bitmap() {
    let pages = load_pdf_page_image(&bitmaps(3)).expect("pages");
    assert_eq!(pages.len(), 3);
    assert!(pages.iter().all(|p| p.width() == 600 && p.height() == 800));
    assert!(load_pdf_page_image(&vec![RasterPage { width: 5, height: 0 }]).is_none());
    assert_eq!(load_pdf_page_image(&Vec::new()).expect("no pages").len(), 0);
}

#[test]
fn init_pdf_page_images_replaces_the_pages_and_nothing_else() {
    let mut app = loaded_app(2);
    app.init_pdf_page_images(&bitmaps(4));
    assert_eq!(page_count(&app), Some(4));
    assert_eq!(app.pdf_file_path(), Some("a.pdf"));
    assert_eq!(app.load_state(), LoadState::Loaded);
}

#[test]
fn rows_are_as_high_as_the_first_page() {
    let mut app = PdfCoordPickerApp::default();
    app.request_open();
    let pages = vec![RasterPage { width: 600, height: 700 }, RasterPage { width: 600, height: 900 }];
    poll_result(
        &mut app,
        ChannelPoll::Ready(Ok((String::from("a.pdf"), pages))),
    );
    assert_eq!(page_list_view(&app), PageListView::Pages { row_height: 700, row_count: 2 });
}

#[test]
fn page_input_on_a_missing_page_does_nothing() {
    let mut app = PdfCoordPickerApp::default();
    assert!(app.handle_page_input(0, &click_at(50, 50)).is_none());
    let mut app = loaded_app(2);
    assert!(app.handle_page_input(2, &click_at(50, 50)).is_none());
    assert!(app.pages().expect("pages").iter().all(|p| p.input_fields().len() == 0));
}

#[test]
fn page_input_uses_the_two_size_texts_of_the_state() {
    let mut app = loaded_app(1);
    app.set_page_max_width(String::from("300"));
    app.set_page_max_height(String::from("high"));
    let input = PageInput {
        rect: shown(),
        interact_pos: None,
        clicked: false,
        hover_pos: Some(ScreenPos { x: 150, y: 270 }),
    };
    let feedback = app.handle_page_input(0, &input).expect("page 0");
    assert_eq!(feedback.hover_readout, Some(ExportPos { x: 25, y: 70 }));
    assert_eq!(feedback.created, None);
}

#[test]
fn fields_are_created_on_the_page_that_was_clicked() {
    let mut app = loaded_app(3);
    let id = app.handle_page_input(1, &click_at(50, 50)).expect("page 1").created.expect("id");
    let counts: Vec<usize> =
        app.pages().expect("pages").iter().map(|p| p.input_fields().len()).collect();
    assert_eq!(counts, vec![0, 1, 0]);
    assert!(app.get_input_field(PdfPageInputId { page_id: 1, input_field_key: id }).is_some());
    assert!(app.get_input_field(PdfPageInputId { page_id: 0, input_field_key: id }).is_none());
    assert!(app.get_input_field(PdfPageInputId { page_id: 3, input_field_key: id }).is_none());
}

#[test]
fn get_input_field_mut_reaches_the_field_through_the_document() {
    let mut app = loaded_app(2);
    let id = app.handle_page_input(1, &click_at(50, 50)).expect("page 1").created.expect("id");
    let key = PdfPageInputId { page_id: 1, input_field_key: id };
    app.get_input_field_mut(key).expect("the field").set_text(String::from("Name"));
    assert_eq!(app.get_input_field(key).expect("the field").text(), "Name");
    assert!(app.get_input_field_mut(PdfPageInputId { page_id: 0, input_field_key: id }).is_none());
    assert!(app.get_input_field_mut(PdfPageInputId { page_id: 9, input_field_key: id }).is_none());
}

#[test]
fn get_input_field_without_a_document_is_none() {
    let mut with_field = loaded_app(1);
    let id = with_field.handle_page_input(0, &click_at(5, 5)).expect("page").created.expect("id");
    let key = PdfPageInputId { page_id: 0, input_field_key: id };
    let mut empty = PdfCoordPickerApp::default();
    assert!(empty.get_input_field(key).is_none());
    assert!(empty.get_input_field_mut(key).is_none());
}

#[test]
fn a_click_on_a_field_selects_it_whatever_was_selected() {
    let mut app = loaded_app(2);
    let a = app.handle_page_input(0, &click_at(50, 50)).expect("page").created.expect("a");
    let b = app.handle_page_input(1, &click_at(90, 90)).expect("page").created.expect("b");
    let key_a = PdfPageInputId { page_id: 0, input_field_key: a };
    let key_b = PdfPageInputId { page_id: 1, input_field_key: b };
    check_input_field_click(&clicked(), &mut app, key_a);
    assert_eq!(app.current_selection(), Some(key_a));
    assert_eq!(app.selection_status(), SelectionStatus::Found(key_a));
    check_input_field_click(&clicked(), &mut app, key_b);
    assert_eq!(app.current_selection(), Some(key_b));
    check_input_field_click(&pointer(true, 50, 50, false), &mut app, key_a);
    assert_eq!(app.current_selection(), Some(key_b));
    app.select(key_a);
    assert_eq!(app.current_selection(), Some(key_a));
}

#[test]
fn a_selection_whose_field_is_gone_reads_as_not_found() {
    let mut app = loaded_app(2);
    let id = app.handle_page_input(1, &click_at(50, 50)).expect("page").created.expect("id");
    let key = PdfPageInputId { page_id: 1, input_field_key: id };
    app.select(key);
    assert_eq!(app.selection_status(), SelectionStatus::Found(key));
    app.request_open();
    poll_result(&mut app, document("b.pdf", 2));
    assert_eq!(app.current_selection(), Some(key));
    assert_eq!(app.selection_status(), SelectionStatus::NotFound(key));
    assert!(app.get_input_field(key).is_none());
}

#[test]
fn a_selection_on_a_page_that_is_gone_reads_as_not_found() {
    let mut app = loaded_app(3);
    let id = app.handle_page_input(2, &click_at(50, 50)).expect("page").created.expect("id");
    let key = PdfPageInputId { page_id: 2, input_field_key: id };
    app.select(key);
    app.init_pdf_page_images(&bitmaps(1));
    assert_eq!(app.selection_status(), SelectionStatus::NotFound(key));
    app.init_pdf_page_images(&vec![RasterPage { width: 0, height: 0 }]);
    assert_eq!(app.selection_status(), SelectionStatus::NotFound(key));
}

#[test]
fn a_selection_survives_a_failed_load() {
    let mut app = loaded_app(1);
    let id = app.handle_page_input(0, &click_at(50, 50)).expect("page").created.expect("id");
    let key = PdfPageInputId { page_id: 0, input_field_key: id };
    app.select(key);
    app.request_open();
    poll_result(&mut app, ChannelPoll::Ready(Err(PdfLoadError::FileError)));
    assert_eq!(app.selection_status(), SelectionStatus::Found(key));
}

#[test]
fn open_create_resize_select_reload() {
    let mut app = PdfCoordPickerApp::default();
    assert!(matches!(
        poll_result(&mut app, ChannelPoll::Empty),
        LoadReport::Idle
    ));
    let action = handle_open_file_dialog_native(&mut app, true);
    assert!(action.start_job && action.poll);
    assert!(matches!(
        poll_result(&mut app, ChannelPoll::Empty),
        LoadReport::Busy
    ));
    let report = poll_result(&mut app, document("two.pdf", 2));
    assert!(matches!(report, LoadReport::Loaded));
    assert_eq!(page_count(&app), Some(2));
    assert_eq!(page_list_view(&app), PageListView::Pages { row_height: 800, row_count: 2 });

    let feedback = app.handle_page_input(0, &click_at(50, 50)).expect("page 0");
    let key = PdfPageInputId { page_id: 0, input_field_key: feedback.created.expect("a field") };
    assert_eq!(
        app.get_input_field(key).expect("the field").rect(),
        Rect::new(35, 35, 65, 65).expect("valid rectangle")
    );

    let field = app.get_input_field_mut(key).expect("the field");
    let hint = field.ui_resize_control(shown(), pointer(true, 50, 36, true));
    assert_eq!(hint, Some(Edge::North));
    assert_eq!(field.resize_state(), ResizeState::ResizingNorth);
    field.ui_resize_control(shown(), pointer(true, 50, 10, true));
    assert_eq!(edges(&app, key), (35, 10, 65, 65));
    let field = app.get_input_field_mut(key).expect("the field");
    field.ui_resize_control(shown(), pointer(true, 50, 400, true));
    assert_eq!(edges(&app, key), (35, 65, 65, 65));
    let field = app.get_input_field_mut(key).expect("the field");
    field.ui_resize_control(shown(), pointer(true, 50, 10, true));
    field.ui_resize_control(shown(), pointer(true, 50, 10, false));
    assert_eq!(field.resize_state(), ResizeState::Idle);
    assert_eq!(edges(&app, key), (35, 10, 65, 65));

    check_input_field_click(&clicked(), &mut app, key);
    assert_eq!(app.selection_status(), SelectionStatus::Found(key));

    handle_open_file_dialog_native(&mut app, true);
    let report = poll_result(&mut app, document("one.pdf", 1));
    assert!(matches!(report, LoadReport::Loaded));
    assert_eq!(page_count(&app), Some(1));
    assert_eq!(app.pdf_file_path(), Some("one.pdf"));
    assert_eq!(app.selection_status(), SelectionStatus::NotFound(key));
}
