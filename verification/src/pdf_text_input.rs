//! One input field on a page: its rectangle, its text, and the state
//! machine that lets the pointer drag one of its edges.

use crate::geometry::{
    lemma_resize_keeps_edges_ordered, page_local, to_page_local, Edge, LocalPos, Rect, RectModel,
    ScreenBox, ScreenPos, ScreenRect,
};
use vstd::prelude::*;

verus! {

/// How close below the north edge, or above the south edge, the pointer
/// has to be to take hold of that edge.
pub const NORTH_SOUTH_BAND: i64 = 3;

/// How close right of the west edge, or left of the east edge, the pointer
/// has to be to take hold of that edge. Wider than [`NORTH_SOUTH_BAND`] on
/// purpose.
pub const EAST_WEST_BAND: i64 = 10;

/// What the pointer is doing to a field.
#[derive(Clone, Copy, Debug, PartialEq, Eq, Structural)]
pub enum ResizeState {
    Idle,
    ResizingNorth,
    ResizingSouth,
    ResizingEast,
    ResizingWest,
}

impl ResizeState {
    /// The state in which `edge` is being dragged.
    pub open spec fn resizing(edge: Edge) -> ResizeState {
        match edge {
            Edge::North => ResizeState::ResizingNorth,
            Edge::South => ResizeState::ResizingSouth,
            Edge::West => ResizeState::ResizingWest,
            Edge::East => ResizeState::ResizingEast,
        }
    }

    /// The edge being dragged, if any.
    pub open spec fn dragged_edge(self) -> Option<Edge> {
        match self {
            ResizeState::Idle => None,
            ResizeState::ResizingNorth => Some(Edge::North),
            ResizeState::ResizingSouth => Some(Edge::South),
            ResizeState::ResizingWest => Some(Edge::West),
            ResizeState::ResizingEast => Some(Edge::East),
        }
    }

    /// The state in which `edge` is being dragged.
    pub fn for_edge(edge: Edge) -> (state: ResizeState)
        ensures
            state == ResizeState::resizing(edge),
            state.dragged_edge() == Some(edge),
    {
        match edge {
            Edge::North => ResizeState::ResizingNorth,
            Edge::South => ResizeState::ResizingSouth,
            Edge::West => ResizeState::ResizingWest,
            Edge::East => ResizeState::ResizingEast,
        }
    }

    /// The edge being dragged, if any.
    pub fn edge(&self) -> (edge: Option<Edge>)
        ensures
            edge == self.dragged_edge(),
    {
        match self {
            ResizeState::Idle => None,
            ResizeState::ResizingNorth => Some(Edge::North),
            ResizeState::ResizingSouth => Some(Edge::South),
            ResizeState::ResizingWest => Some(Edge::West),
            ResizeState::ResizingEast => Some(Edge::East),
        }
    }
}

/// What the user interface reports about one field for one frame.
#[derive(Clone, Copy, Debug, PartialEq, Eq, Structural)]
pub struct FieldInput {
    /// The field has input focus.
    pub has_focus: bool,
    /// Where the pointer is while it interacts with the field.
    pub pointer: Option<ScreenPos>,
    /// The field is being dragged with the primary button.
    pub dragged: bool,
    /// The field was clicked in this frame.
    pub clicked: bool,
}

/// Whether a page-local pointer position lies in the band along `edge`.
/// Each band starts at its edge and reaches into the rectangle.
pub open spec fn near_edge(rect: RectModel, edge: Edge, pointer: LocalPos) -> bool {
    match edge {
        Edge::North => rect.top <= pointer.y <= rect.top + NORTH_SOUTH_BAND,
        Edge::South => rect.bottom - NORTH_SOUTH_BAND <= pointer.y <= rect.bottom,
        Edge::West => rect.left <= pointer.x <= rect.left + EAST_WEST_BAND,
        Edge::East => rect.right - EAST_WEST_BAND <= pointer.x <= rect.right,
    }
}

/// The edge the pointer takes hold of. Where bands overlap, north comes
/// before south, south before west, and west before east.
pub open spec fn edge_under_pointer(rect: RectModel, pointer: LocalPos) -> Option<Edge> {
    if near_edge(rect, Edge::North, pointer) {
        Some(Edge::North)
    } else if near_edge(rect, Edge::South, pointer) {
        Some(Edge::South)
    } else if near_edge(rect, Edge::West, pointer) {
        Some(Edge::West)
    } else if near_edge(rect, Edge::East, pointer) {
        Some(Edge::East)
    } else {
        None
    }
}

/// The mathematical content of a [`PdfInputFieldState`].
pub struct FieldModel {
    pub unique_id: Seq<char>,
    pub state: ResizeState,
    pub rect: RectModel,
    pub text: Seq<char>,
}

impl FieldModel {
    /// A field as it is created: no text, no identifier, nothing dragged.
    pub open spec fn fresh(rect: RectModel) -> FieldModel {
        FieldModel { unique_id: Seq::empty(), state: ResizeState::Idle, rect, text: Seq::empty() }
    }

    /// The edge for which a hover cursor is shown: an idle field that has
    /// focus shows one for the edge under the pointer.
    pub open spec fn hover_hint(self, page: ScreenRect, input: FieldInput) -> Option<Edge> {
        if self.state == ResizeState::Idle && input.has_focus && input.pointer is Some {
            edge_under_pointer(self.rect, page_local(input.pointer->0, page))
        } else {
            None
        }
    }

    /// The state after one pointer sample.
    pub open spec fn next_state(self, page: ScreenRect, input: FieldInput) -> ResizeState {
        match self.state.dragged_edge() {
            None => match self.hover_hint(page, input) {
                Some(edge) if input.dragged => ResizeState::resizing(edge),
                _ => ResizeState::Idle,
            },
            Some(_) => if input.dragged && input.pointer is Some {
                self.state
            } else {
                ResizeState::Idle
            },
        }
    }

    /// The rectangle after one pointer sample: only a field whose edge is
    /// being dragged, and still is, changes.
    pub open spec fn next_rect(self, page: ScreenRect, input: FieldInput) -> RectModel {
        match self.state.dragged_edge() {
            Some(edge) if input.dragged && input.pointer is Some => self.rect.resized(
                edge,
                page_local(input.pointer->0, page),
                page,
            ),
            _ => self.rect,
        }
    }

    /// The field after one pointer sample.
    pub open spec fn after_sample(self, page: ScreenRect, input: FieldInput) -> FieldModel {
        FieldModel {
            unique_id: self.unique_id,
            state: self.next_state(page, input),
            rect: self.next_rect(page, input),
            text: self.text,
        }
    }

    /// The snapshot of the field's place on its page.
    pub open spec fn snapshot(self) -> SnapshotModel {
        SnapshotModel {
            unique_id: self.unique_id,
            pos_x: self.rect.left,
            pos_y: self.rect.top,
            width: self.rect.width(),
            height: self.rect.height(),
        }
    }
}

/// The mathematical content of a [`PdfInputFieldSerde`].
pub struct SnapshotModel {
    pub unique_id: Seq<char>,
    pub pos_x: int,
    pub pos_y: int,
    pub width: int,
    pub height: int,
}

/// The place of one field on its page, in page-local coordinates, in the
/// shape in which it is written out.
#[derive(Debug)]
pub struct PdfInputFieldSerde {
    pub unique_id: String,
    pub pos_x: i64,
    pub pos_y: i64,
    pub width: i64,
    pub height: i64,
}

impl View for PdfInputFieldSerde {
    type V = SnapshotModel;

    open spec fn view(&self) -> SnapshotModel {
        SnapshotModel {
            unique_id: self.unique_id@,
            pos_x: self.pos_x as int,
            pos_y: self.pos_y as int,
            width: self.width as int,
            height: self.height as int,
        }
    }
}

/// An input field: a rectangle on a page with a text and a resize state.
#[derive(Debug)]
pub struct PdfInputFieldState {
    unique_id: String,
    cursor_action: ResizeState,
    rect: Rect,
    text: String,
}

impl View for PdfInputFieldState {
    type V = FieldModel;

    closed spec fn view(&self) -> FieldModel {
        FieldModel {
            unique_id: self.unique_id@,
            state: self.cursor_action,
            rect: self.rect@,
            text: self.text@,
        }
    }
}

/// The edge of `rect` that a page-local pointer position takes hold of.
pub fn find_edge_under_pointer(rect: &Rect, pointer: LocalPos) -> (edge: Option<Edge>)
    ensures
        edge == edge_under_pointer(rect@, pointer),
{
    let x: i64 = pointer.x as i64;
    let y: i64 = pointer.y as i64;
    let top: i64 = rect.top();
    let bottom: i64 = rect.bottom();
    let left: i64 = rect.left();
    let right: i64 = rect.right();
    if top <= y && y <= top + NORTH_SOUTH_BAND {
        Some(Edge::North)
    } else if bottom - NORTH_SOUTH_BAND <= y && y <= bottom {
        Some(Edge::South)
    } else if left <= x && x <= left + EAST_WEST_BAND {
        Some(Edge::West)
    } else if right - EAST_WEST_BAND <= x && x <= right {
        Some(Edge::East)
    } else {
        None
    }
}

impl PdfInputFieldState {
    /// A field at `rect` with no text, in the idle state.
    pub fn new(rect: Rect) -> (field: Self)
        ensures
            field@ == FieldModel::fresh(rect@),
    {
        Self {
            unique_id: String::new(),
            cursor_action: ResizeState::Idle,
            rect,
            text: String::new(),
        }
    }

    pub fn rect(&self) -> (rect: Rect)
        ensures
            rect@ == self@.rect,
            rect@.is_valid(),
    {
        proof {
            use_type_invariant(&self.rect);
        }
        self.rect
    }

    pub fn text(&self) -> (text: &str)
        ensures
            text@ == self@.text,
    {
        self.text.as_str()
    }

    pub fn unique_id(&self) -> (unique_id: &str)
        ensures
            unique_id@ == self@.unique_id,
    {
        self.unique_id.as_str()
    }

    pub fn resize_state(&self) -> (state: ResizeState)
        ensures
            state == self@.state,
    {
        self.cursor_action
    }

    /// Replaces the text; nothing else changes.
    pub fn set_text(&mut self, text: String)
        ensures
            final(self)@ == (FieldModel {
                unique_id: old(self)@.unique_id,
                state: old(self)@.state,
                rect: old(self)@.rect,
                text: text@,
            }),
    {
        self.text = text;
    }

    /// Moves the field to `rect`; nothing else changes.
    pub fn set_rect(&mut self, rect: Rect)
        ensures
            final(self)@ == (FieldModel {
                unique_id: old(self)@.unique_id,
                state: old(self)@.state,
                rect: rect@,
                text: old(self)@.text,
            }),
    {
        self.rect = rect;
    }

    /// Replaces the identifier under which the field is written out;
    /// nothing else changes.
    pub fn set_unique_id(&mut self, unique_id: String)
        ensures
            final(self)@ == (FieldModel {
                unique_id: unique_id@,
                state: old(self)@.state,
                rect: old(self)@.rect,
                text: old(self)@.text,
            }),
    {
        self.unique_id = unique_id;
    }

    /// Where the field is painted when its page is shown at `page`. The
    /// four corners of the box are where the resize handles go.
    pub fn screen_box(&self, page: ScreenRect) -> (on_screen: ScreenBox)
        ensures
            on_screen == self@.rect.on_screen(page),
            on_screen.left == self@.rect.left + page.left,
            on_screen.top == self@.rect.top + page.top,
            on_screen.right == self@.rect.right + page.left,
            on_screen.bottom == self@.rect.bottom + page.top,
    {
        self.rect.to_screen(page)
    }

    /// The field's place on its page, as it is written out.
    pub fn snapshot(&self) -> (snapshot: PdfInputFieldSerde)
        ensures
            snapshot@ == self@.snapshot(),
    {
        PdfInputFieldSerde {
            unique_id: self.unique_id.clone(),
            pos_x: self.rect.left(),
            pos_y: self.rect.top(),
            width: self.rect.width(),
            height: self.rect.height(),
        }
    }

    /// One step of an idle field: reports the edge under the pointer of a
    /// focused field, and takes hold of that edge where the pointer drags.
    fn ui_handle_none_cursor_state(&mut self, page: ScreenRect, input: FieldInput) -> (hint:
        Option<Edge>)
        requires
            old(self)@.state == ResizeState::Idle,
        ensures
            final(self)@ == old(self)@.after_sample(page, input),
            hint == old(self)@.hover_hint(page, input),
    {
        if !input.has_focus {
            return None;
        }
        match input.pointer {
            Some(pos) => {
                let hint = find_edge_under_pointer(&self.rect, to_page_local(pos, page));
                match hint {
                    Some(edge) => {
                        if input.dragged {
                            self.cursor_action = ResizeState::for_edge(edge);
                        }
                    },
                    None => {},
                }
                hint
            },
            None => None,
        }
    }

    /// One step of a field whose `edge` is being dragged: moves the edge
    /// with the pointer while the drag lasts, and lets go of it otherwise.
    fn ui_handle_resize_cursor_state(&mut self, edge: Edge, page: ScreenRect, input: FieldInput)
        requires
            old(self)@.state.dragged_edge() == Some(edge),
        ensures
            final(self)@ == old(self)@.after_sample(page, input),
            old(self)@.hover_hint(page, input) is None,
    {
        if input.dragged {
            match input.pointer {
                Some(pos) => {
                    self.rect = self.rect.resize_edge(edge, to_page_local(pos, page), page);
                    return ;
                },
                None => {},
            }
        }
        self.cursor_action = ResizeState::Idle;
    }

    /// Feeds one pointer sample to the field and returns the edge for which
    /// a hover cursor is to be shown.
    ///
    /// An idle field that has focus reports the edge under the pointer and,
    /// where the pointer drags, starts resizing at that edge. A field that
    /// is being resized moves the dragged edge while the drag lasts, and
    /// becomes idle as soon as it does not. The rectangle stays valid.
    pub fn ui_resize_control(&mut self, page: ScreenRect, input: FieldInput) -> (hint: Option<Edge>)
        ensures
            final(self)@ == old(self)@.after_sample(page, input),
            hint == old(self)@.hover_hint(page, input),
            final(self)@.rect.is_valid(),
    {
        let hint = match self.cursor_action.edge() {
            None => self.ui_handle_none_cursor_state(page, input),
            Some(edge) => {
                self.ui_handle_resize_cursor_state(edge, page, input);
                None
            },
        };
        proof {
            use_type_invariant(&self.rect);
        }
        hint
    }
}

/// A pointer sample never spoils a field's rectangle: the rectangle of a
/// field with ordered edges has ordered edges after the sample, whatever the
/// field's state and whatever the sample holds.
pub proof fn lemma_sample_keeps_edges_ordered(field: FieldModel, page: ScreenRect, input: FieldInput)
    requires
        field.rect.is_valid(),
    ensures
        field.after_sample(page, input).rect.is_valid(),
        field.after_sample(page, input).rect.left <= field.after_sample(page, input).rect.right,
        field.after_sample(page, input).rect.top <= field.after_sample(page, input).rect.bottom,
{
    match field.state.dragged_edge() {
        Some(edge) => {
            if input.pointer is Some {
                lemma_resize_keeps_edges_ordered(
                    field.rect,
                    edge,
                    page_local(input.pointer->0, page),
                    page,
                );
            }
        },
        None => {},
    }
}

/// A field that is being resized is idle after the first sample in which
/// the primary button does not drag it, and its rectangle is as it was.
pub proof fn lemma_released_field_is_idle(field: FieldModel, page: ScreenRect, input: FieldInput)
    requires
        field.state != ResizeState::Idle,
        !input.dragged,
    ensures
        field.after_sample(page, input).state == ResizeState::Idle,
        field.after_sample(page, input).rect == field.rect,
{
}

/// An idle field starts resizing only while it has focus and is dragged,
/// and a sample never changes text or identifier.
pub proof fn lemma_idle_field_needs_focus_and_drag(
    field: FieldModel,
    page: ScreenRect,
    input: FieldInput,
)
    requires
        field.state == ResizeState::Idle,
    ensures
        field.after_sample(page, input).state != ResizeState::Idle ==> input.has_focus
            && input.dragged && input.pointer is Some,
        field.after_sample(page, input).rect == field.rect,
        field.after_sample(page, input).text == field.text,
        field.after_sample(page, input).unique_id == field.unique_id,
{
}

} // verus!
