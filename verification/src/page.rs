//! One rendered page: its size and the fields drawn on it.

use crate::export_scale::{export_pos, to_export_scale, ExportPos};
use crate::field_arena::{ArenaModel, FieldArena, FieldId, FIELD_CAPACITY};
use crate::geometry::{
    page_local, to_page_local, PageSize, Rect, RectModel, ScreenPos, ScreenRect,
};
use crate::pdf_text_input::{FieldModel, PdfInputFieldState};
use vstd::prelude::*;

verus! {

/// Width and height of a field as a click creates it.
pub const DEFAULT_FIELD_SIZE: u32 = 30;

/// What the user interface reports about a page's canvas for one frame.
#[derive(Clone, Copy, Debug, PartialEq, Eq, Structural)]
pub struct PageInput {
    /// Where the page is shown.
    pub rect: ScreenRect,
    /// Where the pointer is while it interacts with the canvas.
    pub interact_pos: Option<ScreenPos>,
    /// The canvas, and no field on it, was clicked with the primary button.
    pub clicked: bool,
    /// Where the pointer hovers over the canvas.
    pub hover_pos: Option<ScreenPos>,
}

/// What a frame's input did to a page, and what to show for it.
#[derive(Clone, Copy, Debug, PartialEq, Eq, Structural)]
pub struct PageFeedback {
    /// The field that the click created.
    pub created: Option<FieldId>,
    /// The pointer's position in the coordinate space that the user asked
    /// for, to be shown next to the pointer.
    pub hover_readout: Option<ExportPos>,
}

/// The mathematical content of a [`PdfPageImage`].
pub struct PageModel {
    pub width: u32,
    pub height: u32,
    pub fields: ArenaModel,
}

impl PageModel {
    /// A page of the given size without fields.
    pub open spec fn blank(width: u32, height: u32) -> PageModel {
        PageModel { width, height, fields: ArenaModel::empty() }
    }

    /// Both sides of the page are positive.
    pub open spec fn has_area(self) -> bool {
        self.width > 0 && self.height > 0
    }

    /// The rectangle of the field that a click at `pos` creates.
    pub open spec fn clicked_rect(pos: ScreenPos, shown_at: ScreenRect) -> RectModel {
        RectModel::centered(page_local(pos, shown_at), DEFAULT_FIELD_SIZE, DEFAULT_FIELD_SIZE)
    }

    /// Whether a frame's input creates a field: the canvas was clicked
    /// while the pointer has a position, and the page takes another field.
    pub open spec fn creates_field(self, input: PageInput) -> bool {
        input.interact_pos is Some && input.clicked && self.fields.order.len() < FIELD_CAPACITY
    }

    /// The page with one more field under `id`.
    pub open spec fn with_field(self, id: u64, field: FieldModel) -> PageModel {
        PageModel { width: self.width, height: self.height, fields: self.fields.with_field(id, field) }
    }

    /// The page with the field under `id` replaced, if there is one.
    pub open spec fn with_changed(self, id: u64, field: FieldModel) -> PageModel {
        PageModel {
            width: self.width,
            height: self.height,
            fields: self.fields.with_changed(id, field),
        }
    }

    /// Whether the field that `earlier` held under `id` is still there,
    /// unchanged.
    pub open spec fn kept(self, earlier: PageModel, id: u64) -> bool {
        self.fields.fields.contains_key(id) && self.fields.fields[id] == earlier.fields.fields[id]
    }

    /// What is shown next to a hovering pointer.
    pub open spec fn hover_readout(
        self,
        input: PageInput,
        max_width: Seq<char>,
        max_height: Seq<char>,
    ) -> Option<ExportPos> {
        match input.hover_pos {
            Some(pos) => Some(
                export_pos(
                    page_local(pos, input.rect),
                    self.width,
                    self.height,
                    max_width,
                    max_height,
                ),
            ),
            None => None,
        }
    }
}

/// A rendered page with the fields drawn on it.
pub struct PdfPageImage {
    size: PageSize,
    input_fields: FieldArena,
}

impl View for PdfPageImage {
    type V = PageModel;

    closed spec fn view(&self) -> PageModel {
        PageModel {
            width: self.size.width(),
            height: self.size.height(),
            fields: self.input_fields@,
        }
    }
}

impl PdfPageImage {
    /// A page of the given size without fields, or `None` where one of the
    /// sides is 0.
    pub fn new(width: u32, height: u32) -> (page: Option<Self>)
        ensures
            page is Some <==> width > 0 && height > 0,
            page is Some ==> page->0@ == PageModel::blank(width, height),
    {
        match PageSize::new(width, height) {
            Some(size) => Some(PdfPageImage { size, input_fields: FieldArena::new() }),
            None => None,
        }
    }

    pub fn size(&self) -> (size: PageSize)
        ensures
            size.width() == self@.width,
            size.height() == self@.height,
            self@.has_area(),
    {
        proof {
            use_type_invariant(&self.size);
        }
        self.size
    }

    pub fn width(&self) -> (width: u32)
        ensures
            width == self@.width,
            width > 0,
    {
        self.size.width()
    }

    pub fn height(&self) -> (height: u32)
        ensures
            height == self@.height,
            height > 0,
    {
        self.size.height()
    }

    /// The fields of the page.
    pub fn input_fields(&self) -> (fields: &FieldArena)
        ensures
            fields@ == self@.fields,
    {
        &self.input_fields
    }

    /// The ids of the page's fields, in the order in which they were
    /// created.
    pub fn field_ids(&self) -> (ids: Vec<FieldId>)
        ensures
            ids@.map_values(|id: FieldId| id@) == self@.fields.order,
            self@.fields.is_consistent(),
    {
        self.input_fields.field_ids()
    }

    /// The field under `id`, or `None` where the page has none.
    pub fn get_input_field(&self, id: FieldId) -> (field: Option<&PdfInputFieldState>)
        ensures
            field is Some <==> self@.fields.fields.contains_key(id@),
            field is Some ==> field->0@ == self@.fields.fields[id@],
    {
        self.input_fields.get(id)
    }

    /// The field under `id` for writing, or `None` where the page has
    /// none. Only that field can change through the reference.
    pub fn get_input_field_mut(&mut self, id: FieldId) -> (field: Option<&mut PdfInputFieldState>)
        ensures
            field is Some <==> old(self)@.fields.fields.contains_key(id@),
            match field {
                Some(found) => found@ == old(self)@.fields.fields[id@] && final(self)@ == old(
                    self,
                )@.with_changed(id@, final(found)@),
                None => final(self)@ == old(self)@,
            },
    {
        self.input_fields.get_mut(id)
    }
}

/// Applies one frame of canvas input to a page.
///
/// A click with the primary button on the canvas creates a field of the
/// default size around the pointer's page-local position, with no text and
/// in the idle state; on a page that takes no more fields it creates
/// nothing. A hovering pointer gets its position in the coordinate space
/// that `max_width` and `max_height` ask for.
pub fn handle_pdf_input_create(
    input: &PageInput,
    pdf_page: &mut PdfPageImage,
    max_width: &str,
    max_height: &str,
) -> (feedback: PageFeedback)
    ensures
        feedback.created is Some <==> old(pdf_page)@.creates_field(*input),
        match feedback.created {
            Some(id) => !old(pdf_page)@.fields.fields.contains_key(id@) && final(pdf_page)@ == old(
                pdf_page,
            )@.with_field(
                id@,
                FieldModel::fresh(PageModel::clicked_rect(input.interact_pos->0, input.rect)),
            ),
            None => final(pdf_page)@ == old(pdf_page)@,
        },
        feedback.hover_readout == old(pdf_page)@.hover_readout(*input, max_width@, max_height@),
        final(pdf_page)@.fields.order.len() == old(pdf_page)@.fields.order.len() + if feedback.created is Some {
            1nat
        } else {
            0nat
        },
        forall|earlier: u64| #[trigger]
            old(pdf_page)@.fields.fields.contains_key(earlier) ==> final(pdf_page)@.kept(
                old(pdf_page)@,
                earlier,
            ),
{
    let mut created: Option<FieldId> = None;
    match input.interact_pos {
        Some(pos) => {
            if input.clicked {
                let delta_pos = to_page_local(pos, input.rect);
                let rect = Rect::from_center_size(
                    delta_pos,
                    DEFAULT_FIELD_SIZE,
                    DEFAULT_FIELD_SIZE,
                );
                created = pdf_page.input_fields.try_insert(rect);
            }
        },
        None => {},
    }
    let hover_readout = match input.hover_pos {
        Some(pos) => Some(
            to_export_scale(to_page_local(pos, input.rect), pdf_page.size, max_width, max_height),
        ),
        None => None,
    };
    PageFeedback { created, hover_readout }
}

} // verus!
