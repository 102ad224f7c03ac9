//! The state of the coordinate picker: the loaded pages with their fields,
//! the selected field, the two size texts, and the state of the load job.

use crate::field_arena::FieldId;
use crate::page::{handle_pdf_input_create, PageFeedback, PageInput, PageModel, PdfPageImage};
use crate::pdf_load::{LoadErrorModel, PdfLoadError, RasterPage};
use crate::pdf_text_input::{FieldInput, FieldModel, PdfInputFieldState};
use vstd::prelude::*;

verus! {

/// Names a field of the document: the index of its page and its id there.
/// It is a plain pair, not a reference: the field may be gone.
#[derive(Clone, Copy, Debug, PartialEq, Eq, Structural)]
pub struct PdfPageInputId {
    pub page_id: usize,
    pub input_field_key: FieldId,
}

/// Where the load job stands.
#[derive(Clone, Copy, Debug, PartialEq, Eq, Structural)]
pub enum LoadState {
    /// Nothing was requested yet.
    Idle,
    /// A job was started and its result is awaited.
    Loading,
    /// The last job delivered a document.
    Loaded,
    /// The last job failed or was lost.
    Failed,
}

/// What a non-blocking look at the result channel found.
#[derive(Debug)]
pub enum ChannelPoll {
    /// Nothing has arrived yet.
    Empty,
    /// The sending side is gone.
    Disconnected,
    /// The job's result: the path and the rendered pages, or the error.
    Ready(Result<(String, Vec<RasterPage>), PdfLoadError>),
}

/// The mathematical content of a load job's result: the path with the
/// sizes of the rendered pages, or the error.
pub type LoadResultModel = Result<(Seq<char>, Seq<RasterPage>), LoadErrorModel>;

/// The content of a load job's result.
pub open spec fn load_result_model(
    result: Result<(String, Vec<RasterPage>), PdfLoadError>,
) -> LoadResultModel {
    match result {
        Ok(document) => Ok((document.0@, document.1@)),
        Err(error) => Err(error@),
    }
}

/// The mathematical content of a [`ChannelPoll`].
pub enum PollModel {
    Empty,
    Disconnected,
    Ready(LoadResultModel),
}

impl View for ChannelPoll {
    type V = PollModel;

    open spec fn view(&self) -> PollModel {
        match self {
            ChannelPoll::Empty => PollModel::Empty,
            ChannelPoll::Disconnected => PollModel::Disconnected,
            ChannelPoll::Ready(result) => PollModel::Ready(load_result_model(*result)),
        }
    }
}

/// What one look at the load job came to, for the user interface to show.
#[derive(Debug)]
pub enum LoadReport {
    /// No job is awaited; nothing was consumed.
    Idle,
    /// The job is still running: show a busy indicator.
    Busy,
    /// A document arrived and replaced the pages.
    Loaded,
    /// The job failed; the pages are as they were.
    Failed(PdfLoadError),
    /// The job was lost; the pages are as they were.
    ConnectionLost,
}

/// The mathematical content of a [`LoadReport`].
pub enum ReportModel {
    Idle,
    Busy,
    Loaded,
    Failed(LoadErrorModel),
    ConnectionLost,
}

impl View for LoadReport {
    type V = ReportModel;

    open spec fn view(&self) -> ReportModel {
        match self {
            LoadReport::Idle => ReportModel::Idle,
            LoadReport::Busy => ReportModel::Busy,
            LoadReport::Loaded => ReportModel::Loaded,
            LoadReport::Failed(error) => ReportModel::Failed(error@),
            LoadReport::ConnectionLost => ReportModel::ConnectionLost,
        }
    }
}

impl ReportModel {
    /// What is reported when a job's result was taken.
    pub open spec fn of_result(result: LoadResultModel) -> ReportModel {
        match result {
            Ok(_) => ReportModel::Loaded,
            Err(error) => ReportModel::Failed(error),
        }
    }

    /// Whether the report is the outcome of a job: a document, an error,
    /// or a lost connection.
    pub open spec fn is_outcome(self) -> bool {
        self is Loaded || self is Failed || self is ConnectionLost
    }
}

/// What the side panel shows of the selection.
#[derive(Clone, Copy, Debug, PartialEq, Eq, Structural)]
pub enum SelectionStatus {
    /// No field is selected.
    NoSelection,
    /// The selected field does not exist any more.
    NotFound(PdfPageInputId),
    /// The selected field exists.
    Found(PdfPageInputId),
}

/// What the page area shows.
#[derive(Clone, Copy, Debug, PartialEq, Eq, Structural)]
pub enum PageListView {
    /// No file was opened: nothing is shown.
    NoDocument,
    /// A file was opened but there are no pages: say that it could not be
    /// loaded.
    LoadFailed,
    /// The pages, one row each; rows are as high as the first page.
    Pages { row_height: u32, row_count: usize },
}

/// What to do about the load job in this frame.
#[derive(Clone, Copy, Debug, PartialEq, Eq, Structural)]
pub struct DialogAction {
    /// Start a job that lets the user pick a file and renders it.
    pub start_job: bool,
    /// Look at the result channel and hand over what it holds.
    pub poll: bool,
}

/// The part of the state that outlives the program.
#[derive(Debug)]
pub struct PersistedState {
    pub page_max_width: String,
    pub page_max_height: String,
    pub pdf_file_path: Option<String>,
    pub waiting_for_file: bool,
}

/// The content of an optional text.
pub open spec fn text_of(text: Option<String>) -> Option<Seq<char>> {
    match text {
        Some(text) => Some(text@),
        None => None,
    }
}

/// The content of each page.
pub open spec fn page_models(pages: Seq<PdfPageImage>) -> Seq<PageModel> {
    pages.map_values(|page: PdfPageImage| page@)
}

/// The content of the pages, if there are any.
pub open spec fn document_model(pages: Option<Vec<PdfPageImage>>) -> Option<Seq<PageModel>> {
    match pages {
        Some(pages) => Some(page_models(pages@)),
        None => None,
    }
}

/// Whether every bitmap can become a page: each has a positive width and
/// height.
pub open spec fn usable(bitmaps: Seq<RasterPage>) -> bool {
    forall|i: int| 0 <= i < bitmaps.len() ==> (#[trigger] bitmaps[i]).width > 0 && bitmaps[i].height
        > 0
}

/// One page without fields for each bitmap, in order.
pub open spec fn blank_pages(bitmaps: Seq<RasterPage>) -> Seq<PageModel> {
    bitmaps.map_values(|bitmap: RasterPage| PageModel::blank(bitmap.width, bitmap.height))
}

/// The pages that a set of bitmaps gives: blank pages where every bitmap
/// is usable, none at all otherwise.
pub open spec fn document_of(bitmaps: Seq<RasterPage>) -> Option<Seq<PageModel>> {
    if usable(bitmaps) {
        Some(blank_pages(bitmaps))
    } else {
        None
    }
}

/// The mathematical content of a [`PdfCoordPickerApp`].
pub struct AppModel {
    pub page_max_width: Seq<char>,
    pub page_max_height: Seq<char>,
    pub pdf_file_path: Option<Seq<char>>,
    pub pages: Option<Seq<PageModel>>,
    pub selection: Option<PdfPageInputId>,
    pub load_state: LoadState,
}

impl AppModel {
    /// The state before anything was opened.
    pub open spec fn initial() -> AppModel {
        AppModel {
            page_max_width: Seq::empty(),
            page_max_height: Seq::empty(),
            pdf_file_path: None,
            pages: None,
            selection: None,
            load_state: LoadState::Idle,
        }
    }

    /// A job is awaited.
    pub open spec fn waiting_for_file(self) -> bool {
        self.load_state == LoadState::Loading
    }

    /// The field that `key` names, if it exists.
    pub open spec fn field_at(self, key: PdfPageInputId) -> Option<FieldModel> {
        match self.pages {
            Some(pages) => if key.page_id < pages.len() && pages[key.page_id as int].fields.fields.contains_key(
                key.input_field_key@,
            ) {
                Some(pages[key.page_id as int].fields.fields[key.input_field_key@])
            } else {
                None
            },
            None => None,
        }
    }

    /// The state with the field that `key` names replaced, if it exists.
    pub open spec fn with_field_changed(self, key: PdfPageInputId, field: FieldModel) -> AppModel {
        match self.pages {
            Some(pages) => if key.page_id < pages.len() {
                self.with_pages(
                    Some(
                        pages.update(
                            key.page_id as int,
                            pages[key.page_id as int].with_changed(key.input_field_key@, field),
                        ),
                    ),
                )
            } else {
                self
            },
            None => self,
        }
    }

    /// The state with other pages.
    pub open spec fn with_pages(self, pages: Option<Seq<PageModel>>) -> AppModel {
        AppModel {
            page_max_width: self.page_max_width,
            page_max_height: self.page_max_height,
            pdf_file_path: self.pdf_file_path,
            pages,
            selection: self.selection,
            load_state: self.load_state,
        }
    }

    /// The state with another selection.
    pub open spec fn with_selection(self, selection: Option<PdfPageInputId>) -> AppModel {
        AppModel {
            page_max_width: self.page_max_width,
            page_max_height: self.page_max_height,
            pdf_file_path: self.pdf_file_path,
            pages: self.pages,
            selection,
            load_state: self.load_state,
        }
    }

    /// The state with the load job in another state.
    pub open spec fn with_load_state(self, load_state: LoadState) -> AppModel {
        AppModel {
            page_max_width: self.page_max_width,
            page_max_height: self.page_max_height,
            pdf_file_path: self.pdf_file_path,
            pages: self.pages,
            selection: self.selection,
            load_state,
        }
    }

    /// What the side panel shows: the selection is looked up when it is
    /// read, and a field that is gone is an ordinary answer.
    pub open spec fn selection_status(self) -> SelectionStatus {
        match self.selection {
            None => SelectionStatus::NoSelection,
            Some(key) => if self.field_at(key) is Some {
                SelectionStatus::Found(key)
            } else {
                SelectionStatus::NotFound(key)
            },
        }
    }

    /// The state after a document arrived: its path is remembered, its
    /// pages replace all earlier ones, and the job is done. The selection
    /// stays as it is.
    pub open spec fn loaded(self, path: Seq<char>, bitmaps: Seq<RasterPage>) -> AppModel {
        AppModel {
            page_max_width: self.page_max_width,
            page_max_height: self.page_max_height,
            pdf_file_path: Some(path),
            pages: document_of(bitmaps),
            selection: self.selection,
            load_state: LoadState::Loaded,
        }
    }

    /// The state after a job's result was handed over: a document is
    /// [`AppModel::loaded`]; an error leaves everything but the state of the
    /// job as it was.
    pub open spec fn after_result(self, result: LoadResultModel) -> AppModel {
        match result {
            Ok(document) => self.loaded(document.0, document.1),
            Err(_) => self.with_load_state(LoadState::Failed),
        }
    }

    /// The state after a request to open a file. While a job is awaited
    /// the request is rejected and nothing changes: there is never more than
    /// one job.
    pub open spec fn requested(self) -> AppModel {
        if self.waiting_for_file() {
            self
        } else {
            self.with_load_state(LoadState::Loading)
        }
    }

    /// The state after one look at the result channel. Outside of
    /// `Loading` nothing is consumed and nothing changes.
    pub open spec fn polled(self, found: PollModel) -> AppModel {
        if self.load_state != LoadState::Loading {
            self
        } else {
            match found {
                PollModel::Empty => self,
                PollModel::Disconnected => self.with_load_state(LoadState::Failed),
                PollModel::Ready(result) => self.after_result(result),
            }
        }
    }

    /// What one look at the result channel reports.
    pub open spec fn poll_report(self, found: PollModel) -> ReportModel {
        if self.load_state != LoadState::Loading {
            ReportModel::Idle
        } else {
            match found {
                PollModel::Empty => ReportModel::Busy,
                PollModel::Disconnected => ReportModel::ConnectionLost,
                PollModel::Ready(result) => ReportModel::of_result(result),
            }
        }
    }

    /// The state after a row of looks at the result channel, one after
    /// the other.
    pub open spec fn polled_all(self, found: Seq<PollModel>) -> AppModel
        decreases found.len(),
    {
        if found.len() == 0 {
            self
        } else {
            self.polled(found[0]).polled_all(found.drop_first())
        }
    }

    /// How many of a row of looks at the result channel report the
    /// outcome of a job.
    pub open spec fn outcomes_reported(self, found: Seq<PollModel>) -> nat
        decreases found.len(),
    {
        if found.len() == 0 {
            0
        } else {
            let here: nat = if self.poll_report(found[0]).is_outcome() {
                1
            } else {
                0
            };
            here + self.polled(found[0]).outcomes_reported(found.drop_first())
        }
    }

    /// What the page area shows.
    pub open spec fn page_list(self) -> PageListView {
        if self.pdf_file_path is None {
            PageListView::NoDocument
        } else {
            match self.pages {
                None => PageListView::LoadFailed,
                Some(pages) => PageListView::Pages {
                    row_height: if pages.len() > 0 {
                        pages[0].height
                    } else {
                        0
                    },
                    row_count: pages.len() as usize,
                },
            }
        }
    }
}

/// The state of the coordinate picker.
pub struct PdfCoordPickerApp {
    page_max_width: String,
    page_max_height: String,
    pdf_file_path: Option<String>,
    pages: Option<Vec<PdfPageImage>>,
    selected_page_input_id: Option<PdfPageInputId>,
    load_state: LoadState,
}

impl View for PdfCoordPickerApp {
    type V = AppModel;

    closed spec fn view(&self) -> AppModel {
        AppModel {
            page_max_width: self.page_max_width@,
            page_max_height: self.page_max_height@,
            pdf_file_path: text_of(self.pdf_file_path),
            pages: document_model(self.pages),
            selection: self.selected_page_input_id,
            load_state: self.load_state,
        }
    }
}

impl Default for PdfCoordPickerApp {
    fn default() -> (app: Self)
        ensures
            app@ == AppModel::initial(),
    {
        Self {
            page_max_width: String::new(),
            page_max_height: String::new(),
            pdf_file_path: None,
            pages: None,
            selected_page_input_id: None,
            load_state: LoadState::Idle,
        }
    }
}

proof fn lemma_page_models_update(pages: Seq<PdfPageImage>, index: int)
    requires
        0 <= index < pages.len(),
    ensures
        forall|page: PdfPageImage| #[trigger]
            page_models(pages.update(index, page)) == page_models(pages).update(index, page@),
{
    assert forall|page: PdfPageImage| #[trigger]
        page_models(pages.update(index, page)) == page_models(pages).update(index, page@) by {
        assert(page_models(pages.update(index, page)) =~= page_models(pages).update(index, page@));
    }
}

/// Makes one page without fields for each bitmap, or nothing where a
/// bitmap has a side of length 0.
pub fn load_pdf_page_image(pdf_page_images: &Vec<RasterPage>) -> (pages: Option<Vec<PdfPageImage>>)
    ensures
        document_model(pages) == document_of(pdf_page_images@),
{
    let mut pages: Vec<PdfPageImage> = Vec::new();
    let mut i: usize = 0;
    while i < pdf_page_images.len()
        invariant
            i <= pdf_page_images.len(),
            usable(pdf_page_images@.take(i as int)),
            page_models(pages@) =~= blank_pages(pdf_page_images@.take(i as int)),
        decreases pdf_page_images.len() - i,
    {
        let image = pdf_page_images[i];
        match PdfPageImage::new(image.width, image.height) {
            Some(page) => {
                proof {
                    let before = pdf_page_images@.take(i as int);
                    let after = pdf_page_images@.take(i + 1);
                    assert(after =~= before.push(image));
                    assert(page_models(pages@.push(page)) =~= page_models(pages@).push(page@));
                    assert(blank_pages(after) =~= blank_pages(before).push(
                        PageModel::blank(image.width, image.height),
                    ));
                }
                pages.push(page);
            },
            None => {
                assert(!(pdf_page_images@[i as int].width > 0 && pdf_page_images@[i as int].height
                    > 0));
                return None;
            },
        }
        i += 1;
    }
    assert(pdf_page_images@.take(i as int) =~= pdf_page_images@);
    Some(pages)
}

impl PdfCoordPickerApp {
    /// The state at start: what was kept from the last run, or the initial
    /// state. Pages and selection are never kept.
    pub fn new(stored: Option<PersistedState>) -> (app: Self)
        ensures
            match stored {
                Some(kept) => app@ == (AppModel {
                    page_max_width: kept.page_max_width@,
                    page_max_height: kept.page_max_height@,
                    pdf_file_path: text_of(kept.pdf_file_path),
                    pages: None,
                    selection: None,
                    load_state: if kept.waiting_for_file {
                        LoadState::Loading
                    } else {
                        LoadState::Idle
                    },
                }),
                None => app@ == AppModel::initial(),
            },
    {
        match stored {
            Some(kept) => Self {
                page_max_width: kept.page_max_width,
                page_max_height: kept.page_max_height,
                pdf_file_path: kept.pdf_file_path,
                pages: None,
                selected_page_input_id: None,
                load_state: if kept.waiting_for_file {
                    LoadState::Loading
                } else {
                    LoadState::Idle
                },
            },
            None => Self {
                page_max_width: String::new(),
                page_max_height: String::new(),
                pdf_file_path: None,
                pages: None,
                selected_page_input_id: None,
                load_state: LoadState::Idle,
            },
        }
    }

    /// The part of the state that is kept for the next run.
    pub fn persisted(&self) -> (kept: PersistedState)
        ensures
            kept.page_max_width@ == self@.page_max_width,
            kept.page_max_height@ == self@.page_max_height,
            text_of(kept.pdf_file_path) == self@.pdf_file_path,
            kept.waiting_for_file == self@.waiting_for_file(),
    {
        PersistedState {
            page_max_width: self.page_max_width.clone(),
            page_max_height: self.page_max_height.clone(),
            pdf_file_path: match &self.pdf_file_path {
                Some(path) => Some(path.clone()),
                None => None,
            },
            waiting_for_file: self.waiting_for_file(),
        }
    }

    pub fn page_max_width(&self) -> (text: &str)
        ensures
            text@ == self@.page_max_width,
    {
        self.page_max_width.as_str()
    }

    pub fn page_max_height(&self) -> (text: &str)
        ensures
            text@ == self@.page_max_height,
    {
        self.page_max_height.as_str()
    }

    pub fn set_page_max_width(&mut self, text: String)
        ensures
            final(self)@ == (AppModel {
                page_max_width: text@,
                page_max_height: old(self)@.page_max_height,
                pdf_file_path: old(self)@.pdf_file_path,
                pages: old(self)@.pages,
                selection: old(self)@.selection,
                load_state: old(self)@.load_state,
            }),
    {
        self.page_max_width = text;
    }

    pub fn set_page_max_height(&mut self, text: String)
        ensures
            final(self)@ == (AppModel {
                page_max_width: old(self)@.page_max_width,
                page_max_height: text@,
                pdf_file_path: old(self)@.pdf_file_path,
                pages: old(self)@.pages,
                selection: old(self)@.selection,
                load_state: old(self)@.load_state,
            }),
    {
        self.page_max_height = text;
    }

    /// The path of the file that was opened last.
    pub fn pdf_file_path(&self) -> (path: Option<&str>)
        ensures
            path is Some <==> self@.pdf_file_path is Some,
            path is Some ==> path->0@ == self@.pdf_file_path->0,
    {
        match &self.pdf_file_path {
            Some(path) => Some(path.as_str()),
            None => None,
        }
    }

    /// The loaded pages.
    pub fn pages(&self) -> (pages: Option<&Vec<PdfPageImage>>)
        ensures
            pages is Some <==> self@.pages is Some,
            pages is Some ==> page_models(pages->0@) == self@.pages->0,
    {
        match &self.pages {
            Some(pages) => Some(pages),
            None => None,
        }
    }

    pub fn load_state(&self) -> (state: LoadState)
        ensures
            state == self@.load_state,
    {
        self.load_state
    }

    /// Whether a job's result is awaited.
    pub fn waiting_for_file(&self) -> (waiting: bool)
        ensures
            waiting == self@.waiting_for_file(),
    {
        match self.load_state {
            LoadState::Loading => true,
            _ => false,
        }
    }

    /// Replaces all pages by one blank page per bitmap. Where a bitmap
    /// has a side of length 0 there are no pages afterwards.
    pub fn init_pdf_page_images(&mut self, pdf_page_images: &Vec<RasterPage>)
        ensures
            final(self)@ == old(self)@.with_pages(document_of(pdf_page_images@)),
    {
        self.pages = load_pdf_page_image(pdf_page_images);
    }

    /// The field that `key` names, or `None` where the page or the field
    /// does not exist.
    pub fn get_input_field(&self, key: PdfPageInputId) -> (field: Option<&PdfInputFieldState>)
        ensures
            field is Some <==> self@.field_at(key) is Some,
            field is Some ==> field->0@ == self@.field_at(key)->0,
    {
        match &self.pages {
            Some(pages) => {
                if key.page_id < pages.len() {
                    pages[key.page_id].get_input_field(key.input_field_key)
                } else {
                    None
                }
            },
            None => None,
        }
    }

    /// The field that `key` names for writing, or `None` where the page or
    /// the field does not exist. Only that field can change through the
    /// reference.
    pub fn get_input_field_mut(&mut self, key: PdfPageInputId) -> (field: Option<
        &mut PdfInputFieldState,
    >)
        ensures
            field is Some <==> old(self)@.field_at(key) is Some,
            match field {
                Some(found) => found@ == old(self)@.field_at(key)->0 && final(self)@ == old(
                    self,
                )@.with_field_changed(key, final(found)@),
                None => final(self)@ == old(self)@,
            },
    {
        match &mut self.pages {
            Some(pages) => {
                if key.page_id < pages.len() {
                    proof {
                        let index = key.page_id as int;
                        lemma_page_models_update(pages@, index);
                        assert(page_models(pages@)[index] == pages@[index]@);
                        assert(page_models(pages@).update(index, pages@[index]@) =~= page_models(
                            pages@,
                        ));
                    }
                    pages[key.page_id].get_input_field_mut(key.input_field_key)
                } else {
                    None
                }
            },
            None => None,
        }
    }

    /// Makes `key` the selection, whatever was selected before.
    pub fn select(&mut self, key: PdfPageInputId)
        ensures
            final(self)@ == old(self)@.with_selection(Some(key)),
    {
        self.selected_page_input_id = Some(key);
    }

    /// The selection as it was last set. The field it names may be gone.
    pub fn current_selection(&self) -> (selection: Option<PdfPageInputId>)
        ensures
            selection == self@.selection,
    {
        self.selected_page_input_id
    }

    /// What the side panel shows of the selection: nothing selected, the
    /// selected field, or that the selected field does not exist any more.
    pub fn selection_status(&self) -> (status: SelectionStatus)
        ensures
            status == self@.selection_status(),
    {
        match self.selected_page_input_id {
            None => SelectionStatus::NoSelection,
            Some(key) => {
                if self.get_input_field(key).is_some() {
                    SelectionStatus::Found(key)
                } else {
                    SelectionStatus::NotFound(key)
                }
            },
        }
    }

    /// Asks for a load job. Where none is awaited the request is accepted
    /// and a result is awaited from now on; pages and selection stay until a
    /// document arrives. While one is awaited the request is rejected and
    /// nothing changes.
    pub fn request_open(&mut self) -> (accepted: bool)
        ensures
            accepted == !old(self)@.waiting_for_file(),
            final(self)@ == old(self)@.requested(),
            final(self)@.waiting_for_file(),
    {
        if self.waiting_for_file() {
            false
        } else {
            self.load_state = LoadState::Loading;
            true
        }
    }

    /// Applies one frame of canvas input to the page at `page_id`, with
    /// the two size texts of this state. `None` where there is no such page.
    pub fn handle_page_input(&mut self, page_id: usize, input: &PageInput) -> (feedback: Option<
        PageFeedback,
    >)
        ensures
            feedback is Some <==> old(self)@.pages is Some && page_id < old(self)@.pages->0.len(),
            feedback is None ==> final(self)@ == old(self)@,
            feedback is Some ==> ({
                let page = old(self)@.pages->0[page_id as int];
                let feedback = feedback->0;
                &&& feedback.created is Some <==> page.creates_field(*input)
                &&& feedback.hover_readout == page.hover_readout(
                    *input,
                    old(self)@.page_max_width,
                    old(self)@.page_max_height,
                )
                &&& match feedback.created {
                    Some(id) => !page.fields.fields.contains_key(id@) && final(self)@ == old(
                        self,
                    )@.with_pages(
                        Some(
                            old(self)@.pages->0.update(
                                page_id as int,
                                page.with_field(
                                    id@,
                                    FieldModel::fresh(
                                        PageModel::clicked_rect(input.interact_pos->0, input.rect),
                                    ),
                                ),
                            ),
                        ),
                    ),
                    None => final(self)@ == old(self)@,
                }
            }),
    {
        match &mut self.pages {
            Some(pages) => {
                if page_id < pages.len() {
                    proof {
                        lemma_page_models_update(pages@, page_id as int);
                    }
                    let ghost before = pages@;
                    let feedback = handle_pdf_input_create(
                        input,
                        &mut pages[page_id],
                        self.page_max_width.as_str(),
                        self.page_max_height.as_str(),
                    );
                    proof {
                        if feedback.created is None {
                            assert(page_models(pages@) =~= page_models(before));
                        }
                    }
                    Some(feedback)
                } else {
                    None
                }
            },
            None => None,
        }
    }
}

/// Selects the field that `key` names where it was clicked in this frame;
/// otherwise the selection stays.
pub fn check_input_field_click(input: &FieldInput, app: &mut PdfCoordPickerApp, key: PdfPageInputId)
    ensures
        final(app)@ == if input.clicked {
            old(app)@.with_selection(Some(key))
        } else {
            old(app)@
        },
{
    if input.clicked {
        app.selected_page_input_id = Some(key);
    }
}

/// Decides what to do about the load job in one frame. A click on "open"
/// starts a job unless one is awaited: then the click is rejected, so that
/// no two jobs ever run at once. While a result is awaited the channel is
/// looked at.
pub fn handle_open_file_dialog_native(app: &mut PdfCoordPickerApp, open_clicked: bool) -> (action:
    DialogAction)
    ensures
        action.start_job == (open_clicked && !old(app)@.waiting_for_file()),
        final(app)@ == if open_clicked && !old(app)@.waiting_for_file() {
            old(app)@.with_load_state(LoadState::Loading)
        } else {
            old(app)@
        },
        action.poll == final(app)@.waiting_for_file(),
{
    let start_job = open_clicked && app.request_open();
    DialogAction { start_job, poll: app.waiting_for_file() }
}

/// Takes the result of a load job. A document replaces all pages and its
/// path is remembered; an error leaves pages and path as they were. Either
/// way the job is no longer awaited.
pub fn handle_file_load_result(
    app: &mut PdfCoordPickerApp,
    result: Result<(String, Vec<RasterPage>), PdfLoadError>,
) -> (report: LoadReport)
    ensures
        final(app)@ == old(app)@.after_result(load_result_model(result)),
        report@ == ReportModel::of_result(load_result_model(result)),
        !final(app)@.waiting_for_file(),
{
    match result {
        Ok((path, page_images)) => {
            app.pdf_file_path = Some(path);
            app.load_state = LoadState::Loaded;
            app.init_pdf_page_images(&page_images);
            LoadReport::Loaded
        },
        Err(error) => {
            app.load_state = LoadState::Failed;
            LoadReport::Failed(error)
        },
    }
}

/// Takes what a non-blocking look at the result channel found.
///
/// While no job is awaited nothing is consumed and nothing changes. While
/// one is awaited, an empty channel changes nothing; a result is taken as
/// [`handle_file_load_result`] takes it; a lost connection ends the wait and
/// leaves the pages as they were.
pub fn poll_result(app: &mut PdfCoordPickerApp, found: ChannelPoll) -> (report: LoadReport)
    ensures
        final(app)@ == old(app)@.polled(found@),
        report@ == old(app)@.poll_report(found@),
{
    if !app.waiting_for_file() {
        return LoadReport::Idle;
    }
    match found {
        ChannelPoll::Empty => LoadReport::Busy,
        ChannelPoll::Disconnected => {
            app.load_state = LoadState::Failed;
            LoadReport::ConnectionLost
        },
        ChannelPoll::Ready(result) => handle_file_load_result(app, result),
    }
}

/// What the page area shows: nothing before a file was opened, a failure
/// where a file was opened but there are no pages, and else one row per
/// page.
pub fn page_list_view(app: &PdfCoordPickerApp) -> (view: PageListView)
    ensures
        view == app@.page_list(),
{
    if app.pdf_file_path.is_none() {
        return PageListView::NoDocument;
    }
    match &app.pages {
        None => PageListView::LoadFailed,
        Some(pages) => {
            let row_height: u32 = if pages.len() > 0 {
                pages[0].height()
            } else {
                0
            };
            PageListView::Pages { row_height, row_count: pages.len() }
        },
    }
}

/// A request to open a file while a job is awaited is rejected: nothing
/// changes, so the job that is awaited stays the only one.
pub proof fn lemma_request_while_waiting_is_rejected(app: AppModel)
    requires
        app.waiting_for_file(),
    ensures
        app.requested() == app,
{
}

/// After a request a job is awaited, whatever the state was, and nothing
/// but the state of the job has changed.
pub proof fn lemma_request_starts_waiting(app: AppModel)
    ensures
        app.requested().waiting_for_file(),
        app.requested() == app.with_load_state(LoadState::Loading),
{
}

/// A result that was taken is not taken again: after a look at the
/// channel that found a result or a lost connection, every further look
/// reports `Idle` and changes nothing, until a job is requested again.
pub proof fn lemma_result_is_consumed_once(app: AppModel, first: PollModel, second: PollModel)
    requires
        !(first is Empty),
    ensures
        app.polled(first).polled(second) == app.polled(first),
        app.polled(first).poll_report(second) == ReportModel::Idle,
{
}

/// However often the channel is looked at, and whatever is found there,
/// at most one look reports the outcome of a job: a document or a failure,
/// never both and never twice. Where no job is awaited, none does.
pub proof fn lemma_at_most_one_outcome_per_request(app: AppModel, found: Seq<PollModel>)
    ensures
        app.outcomes_reported(found) <= 1,
        !app.waiting_for_file() ==> app.outcomes_reported(found) == 0,
        !app.waiting_for_file() ==> app.polled_all(found) == app,
    decreases found.len(),
{
    if found.len() > 0 {
        lemma_at_most_one_outcome_per_request(app.polled(found[0]), found.drop_first());
    }
}

/// While a job is awaited and nothing has arrived, a look at the channel
/// reports `Busy` and the job stays awaited.
pub proof fn lemma_empty_channel_keeps_waiting(app: AppModel)
    requires
        app.load_state == LoadState::Loading,
    ensures
        app.polled(PollModel::Empty) == app,
        app.poll_report(PollModel::Empty) == ReportModel::Busy,
{
}

/// Before any request a look at the channel reports `Idle` and changes
/// nothing.
pub proof fn lemma_poll_before_request_is_idle(found: PollModel)
    ensures
        AppModel::initial().polled(found) == AppModel::initial(),
        AppModel::initial().poll_report(found) == ReportModel::Idle,
{
}

/// The pages are replaced exactly where a look at the channel reports a
/// document: then they are the document's pages, and in every other case
/// they are the pages that were there before.
pub proof fn lemma_pages_replaced_only_by_document(app: AppModel, found: PollModel)
    ensures
        app.poll_report(found) is Loaded <==> app.load_state == LoadState::Loading
            && found is Ready && found->Ready_0 is Ok,
        app.poll_report(found) is Loaded ==> app.polled(found).pages == document_of(
            found->Ready_0->Ok_0.1,
        ),
        !(app.poll_report(found) is Loaded) ==> app.polled(found).pages == app.pages,
        app.polled(found).selection == app.selection,
{
}

/// After a document arrived nothing that was selected before exists any
/// more: the new pages have no fields, so a selection that was kept reads as
/// "not found".
pub proof fn lemma_selection_is_stale_after_load(
    app: AppModel,
    path: Seq<char>,
    bitmaps: Seq<RasterPage>,
    key: PdfPageInputId,
)
    requires
        app.selection == Some(key),
    ensures
        app.loaded(path, bitmaps).selection_status() == SelectionStatus::NotFound(key),
{
}

} // verus!
