//! Which square the pointer is over and which square was picked.
//!
//! Hover and selection are independent. The hover follows the pointer on every
//! move; the selection changes only when the primary button is pressed while a
//! square is hovered, and then it becomes that square. Nothing ever clears a
//! selection.

use vstd::prelude::*;
use crate::cursor::{normalize_cursor, spec_normalize_cursor, BoardGeometry, GeometryModel};

verus! {

/// The square under the pointer, as `(file, rank)`.
#[derive(Clone, Copy, Debug, Default, PartialEq, Eq, Structural)]
pub struct HoveredCell(pub u8, pub u8);

/// The square picked last, as `(file, rank)`.
#[derive(Clone, Copy, Debug, Default, PartialEq, Eq, Structural)]
pub struct SelectedCell(pub u8, pub u8);

/// A button of the pointer.
#[derive(Clone, Copy, Debug, PartialEq, Eq, Structural)]
pub enum PointerButton {
    Primary,
    Secondary,
    Other,
}

/// What happened to a button.
#[derive(Clone, Copy, Debug, PartialEq, Eq, Structural)]
pub enum ButtonTransition {
    Pressed,
    Released,
}

/// One event of a pointer button.
#[derive(Clone, Copy, Debug, PartialEq, Eq, Structural)]
pub struct ButtonEvent {
    pub button: PointerButton,
    pub transition: ButtonTransition,
}

impl ButtonEvent {
    /// Whether this is a press of the primary button, the one event that selects.
    pub open spec fn spec_is_primary_press(self) -> bool {
        self.button == PointerButton::Primary && self.transition == ButtonTransition::Pressed
    }

    /// Whether this is a press of the primary button, the one event that selects.
    #[verifier::when_used_as_spec(spec_is_primary_press)]
    pub fn is_primary_press(self) -> (r: bool)
        ensures
            r == self.spec_is_primary_press(),
    {
        self.button == PointerButton::Primary && self.transition == ButtonTransition::Pressed
    }
}

/// What one tick brings: where the pointer is, if it is over the window at
/// all, and the button events since the tick before, oldest first.
pub struct Tick {
    pub position: Option<(i32, i32)>,
    pub events: Seq<ButtonEvent>,
}

/// Hover and selection as a mathematical value.
pub struct SelectionModel {
    pub hovered: Option<HoveredCell>,
    pub selected: Option<SelectedCell>,
}

impl SelectionModel {
    /// Both squares, where present, are on the board.
    pub open spec fn wf(self) -> bool {
        &&& self.hovered matches Some(h) ==> h.0 < 8 && h.1 < 8
        &&& self.selected matches Some(s) ==> s.0 < 8 && s.1 < 8
    }

    /// Nothing hovered, nothing selected.
    pub open spec fn initial() -> SelectionModel {
        SelectionModel { hovered: None, selected: None }
    }

    /// The square that a pointer sample hovers: the square under the position,
    /// and none where the pointer is off the window or off the board.
    pub open spec fn hover_of(
        geometry: GeometryModel,
        position: Option<(i32, i32)>,
    ) -> Option<HoveredCell> {
        match position {
            Some(p) => match spec_normalize_cursor(geometry, p.0 as int, p.1 as int) {
                Some(c) => Some(HoveredCell(c.0, c.1)),
                None => None,
            },
            None => None,
        }
    }

    /// After a pointer sample: the hover is recomputed, the selection stays.
    pub open spec fn hover(
        self,
        geometry: GeometryModel,
        position: Option<(i32, i32)>,
    ) -> SelectionModel {
        SelectionModel {
            hovered: SelectionModel::hover_of(geometry, position),
            selected: self.selected,
        }
    }

    /// After one button event: a primary press over a hovered square selects
    /// that square, whatever was selected before; any other event, and a press
    /// while nothing is hovered, changes nothing.
    pub open spec fn button(self, event: ButtonEvent) -> SelectionModel {
        match self.hovered {
            Some(h) if event.is_primary_press() => SelectionModel {
                hovered: self.hovered,
                selected: Some(SelectedCell(h.0, h.1)),
            },
            _ => self,
        }
    }

    /// The selection after a queue of button events, given whether the queue
    /// holds a primary press: with one, and with a square hovered, that square;
    /// otherwise the selection as it was.
    pub open spec fn selection_after(self, pressed: bool) -> Option<SelectedCell> {
        match self.hovered {
            Some(h) if pressed => Some(SelectedCell(h.0, h.1)),
            _ => self.selected,
        }
    }

    /// After a queue of button events, oldest first.
    pub open spec fn buttons(self, events: Seq<ButtonEvent>) -> SelectionModel
        decreases events.len(),
    {
        if events.len() == 0 {
            self
        } else {
            self.buttons(events.drop_last()).button(events.last())
        }
    }

    /// After one tick: the hover is recomputed first, then the button events
    /// are handled against it.
    pub open spec fn tick(self, geometry: GeometryModel, tick: Tick) -> SelectionModel {
        self.hover(geometry, tick.position).buttons(tick.events)
    }

    /// After a run of ticks, first to last.
    pub open spec fn run(self, geometry: GeometryModel, ticks: Seq<Tick>) -> SelectionModel
        decreases ticks.len(),
    {
        if ticks.len() == 0 {
            self
        } else {
            self.run(geometry, ticks.drop_last()).tick(geometry, ticks.last())
        }
    }
}

/// Whether a queue of button events holds a press of the primary button.
pub open spec fn has_primary_press(events: Seq<ButtonEvent>) -> bool {
    exists|i: int| 0 <= i < events.len() && (#[trigger] events[i]).is_primary_press()
}

/// The owner of hover and selection.
pub struct SelectionController {
    hovered: Option<HoveredCell>,
    selected: Option<SelectedCell>,
}

impl View for SelectionController {
    type V = SelectionModel;

    closed spec fn view(&self) -> SelectionModel {
        SelectionModel { hovered: self.hovered, selected: self.selected }
    }
}

impl SelectionController {
    /// Every controller that exists holds squares of the board only.
    #[verifier::type_invariant]
    pub open spec fn inv(&self) -> bool {
        self@.wf()
    }

    /// A controller with nothing hovered and nothing selected.
    pub fn new() -> (controller: SelectionController)
        ensures
            controller@ == SelectionModel::initial(),
    {
        SelectionController { hovered: None, selected: None }
    }

    /// The square under the pointer, if any; it is on the board.
    pub fn hovered(&self) -> (cell: Option<HoveredCell>)
        ensures
            cell == self@.hovered,
            cell matches Some(h) ==> h.0 < 8 && h.1 < 8,
    {
        proof {
            use_type_invariant(self);
        }
        self.hovered
    }

    /// The square picked last, if any; it is on the board.
    pub fn selected(&self) -> (cell: Option<SelectedCell>)
        ensures
            cell == self@.selected,
            cell matches Some(s) ==> s.0 < 8 && s.1 < 8,
    {
        proof {
            use_type_invariant(self);
        }
        self.selected
    }

    /// Takes a pointer sample: the hover becomes the square under the
    /// position, or nothing where the pointer is off the window or off the
    /// board. The selection is not touched.
    pub fn translate_to_hover(&mut self, geometry: &BoardGeometry, position: Option<(i32, i32)>)
        ensures
            final(self)@ == old(self)@.hover(geometry@, position),
            final(self)@.wf(),
    {
        proof {
            use_type_invariant(&*self);
        }
        self.hovered = match position {
            Some(p) => match normalize_cursor(geometry, p) {
                Some((x, y)) => Some(HoveredCell(x, y)),
                None => None,
            },
            None => None,
        };
    }

    /// Handles one button event.
    pub fn handle_button(&mut self, event: ButtonEvent)
        ensures
            final(self)@ == old(self)@.button(event),
            final(self)@.wf(),
    {
        proof {
            use_type_invariant(&*self);
        }
        if event.is_primary_press() {
            match self.hovered {
                Some(h) => {
                    self.selected = Some(SelectedCell(h.0, h.1));
                },
                None => {},
            }
        }
    }

    /// Drains a queue of button events, oldest first.
    ///
    /// Where a square is hovered and the queue holds a primary press, that
    /// square is selected afterwards; otherwise the selection is as before.
    /// The hover is not touched.
    pub fn handle_cell_selection(&mut self, events: &[ButtonEvent])
        ensures
            final(self)@ == old(self)@.buttons(events@),
            final(self)@.hovered == old(self)@.hovered,
            final(self)@.selected == old(self)@.selection_after(has_primary_press(events@)),
            final(self)@.wf(),
    {
        proof {
            use_type_invariant(&*self);
        }
        let ghost before = self@;
        let mut i: usize = 0;
        while i < events.len()
            invariant
                i <= events.len(),
                self@ == before.buttons(events@.take(i as int)),
                self@.wf(),
            decreases events.len() - i,
        {
            proof {
                assert(events@.take(i + 1).drop_last() =~= events@.take(i as int));
            }
            self.handle_button(events[i]);
            i += 1;
        }
        proof {
            assert(events@.take(i as int) =~= events@);
            lemma_buttons_outcome(before, events@);
        }
    }

    /// Runs one tick: the pointer sample first, then the button events, so
    /// that a press selects the square hovered in this tick.
    pub fn update(
        &mut self,
        geometry: &BoardGeometry,
        position: Option<(i32, i32)>,
        events: &[ButtonEvent],
    )
        ensures
            final(self)@ == old(self)@.tick(geometry@, (Tick { position, events: events@ })),
            final(self)@.hovered == SelectionModel::hover_of(geometry@, position),
            final(self)@.selected == old(self)@.hover(geometry@, position).selection_after(
                has_primary_press(events@),
            ),
            final(self)@.wf(),
    {
        self.translate_to_hover(geometry, position);
        self.handle_cell_selection(events);
    }
}

impl Default for SelectionController {
    /// A controller with nothing hovered and nothing selected.
    fn default() -> (controller: SelectionController)
        ensures
            controller@ == SelectionModel::initial(),
    {
        SelectionController::new()
    }
}

/// What a queue of button events comes to: the hover stays; the selection
/// becomes the hovered square where there is one and the queue holds a primary
/// press, and stays otherwise.
pub proof fn lemma_buttons_outcome(state: SelectionModel, events: Seq<ButtonEvent>)
    ensures
        state.buttons(events).hovered == state.hovered,
        state.buttons(events).selected == state.selection_after(has_primary_press(events)),
    decreases events.len(),
{
    if events.len() > 0 {
        let front = events.drop_last();
        lemma_buttons_outcome(state, front);
        if has_primary_press(front) {
            let i = choose|i: int| 0 <= i < front.len() && (#[trigger] front[i]).is_primary_press();
            assert(events[i] == front[i]);
        }
        if has_primary_press(events) && !events.last().is_primary_press() {
            let i = choose|i: int|
                0 <= i < events.len() && (#[trigger] events[i]).is_primary_press();
            assert(front[i] == events[i]);
        }
    }
}

/// A tick keeps both squares on the board.
pub proof fn lemma_tick_wf(state: SelectionModel, geometry: GeometryModel, tick: Tick)
    requires
        state.wf(),
    ensures
        state.tick(geometry, tick).wf(),
{
    lemma_buttons_outcome(state.hover(geometry, tick.position), tick.events);
}

/// Hovering is idempotent: the same pointer sample taken twice in a row gives
/// the hover that it gave the first time, and neither sample touches the
/// selection.
pub proof fn lemma_hover_idempotent(
    state: SelectionModel,
    geometry: GeometryModel,
    position: Option<(i32, i32)>,
)
    ensures
        state.hover(geometry, position).hover(geometry, position) == state.hover(
            geometry,
            position,
        ),
        state.hover(geometry, position).hovered == SelectionModel::hover_of(geometry, position),
        state.hover(geometry, position).selected == state.selected,
{
}

/// A primary press over a hovered square selects that square, whatever was
/// selected before.
pub proof fn lemma_press_overwrites(state: SelectionModel, event: ButtonEvent)
    requires
        state.hovered is Some,
        event.is_primary_press(),
    ensures
        state.button(event).selected == Some(
            SelectedCell(state.hovered.unwrap().0, state.hovered.unwrap().1),
        ),
        state.button(event).hovered == state.hovered,
{
}

/// Without a primary press there is no change of selection: a run of ticks
/// none of which holds one, whatever else they hold, leaves the selection as
/// it was.
pub proof fn lemma_selection_needs_press(
    state: SelectionModel,
    geometry: GeometryModel,
    ticks: Seq<Tick>,
)
    requires
        forall|i: int| 0 <= i < ticks.len() ==> !has_primary_press((#[trigger] ticks[i]).events),
    ensures
        state.run(geometry, ticks).selected == state.selected,
    decreases ticks.len(),
{
    if ticks.len() > 0 {
        let front = ticks.drop_last();
        assert forall|i: int| 0 <= i < front.len() implies !has_primary_press(
            (#[trigger] front[i]).events,
        ) by {
            assert(front[i] == ticks[i]);
        }
        lemma_selection_needs_press(state, geometry, front);
        let last = ticks.last();
        lemma_buttons_outcome(state.run(geometry, front).hover(geometry, last.position), last.events);
    }
}

/// A selection is never cleared: once a square is selected, some square is
/// selected after every run of ticks.
pub proof fn lemma_selection_never_cleared(
    state: SelectionModel,
    geometry: GeometryModel,
    ticks: Seq<Tick>,
)
    requires
        state.selected is Some,
    ensures
        state.run(geometry, ticks).selected is Some,
    decreases ticks.len(),
{
    if ticks.len() > 0 {
        let front = ticks.drop_last();
        lemma_selection_never_cleared(state, geometry, front);
        let last = ticks.last();
        lemma_buttons_outcome(state.run(geometry, front).hover(geometry, last.position), last.events);
    }
}

/// A run of ticks keeps both squares on the board.
pub proof fn lemma_run_wf(state: SelectionModel, geometry: GeometryModel, ticks: Seq<Tick>)
    requires
        state.wf(),
    ensures
        state.run(geometry, ticks).wf(),
    decreases ticks.len(),
{
    if ticks.len() > 0 {
        lemma_run_wf(state, geometry, ticks.drop_last());
        lemma_tick_wf(state.run(geometry, ticks.drop_last()), geometry, ticks.last());
    }
}

} // verus!
