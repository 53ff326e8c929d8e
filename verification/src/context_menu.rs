//! A reusable right-click context menu: its persistent state, its entries and
//! the way an open menu answers pointer and keyboard events.

use iced_core::Point;
use crate::label::IntoLabel;
use vstd::prelude::*;

verus! {

/// What a [`State`] is, as a value: `None` while the menu is closed, and
/// otherwise where it was opened together with the entry the pointer is over.
pub type StateView = Option<(Point, Option<usize>)>;

/// The position an open menu was opened at.
pub open spec fn spec_position(s: StateView) -> Option<Point> {
    match s {
        Some((position, _)) => Some(position),
        None => None,
    }
}

/// The entry the pointer is over, when the menu is open.
pub open spec fn spec_hovered(s: StateView) -> Option<usize> {
    match s {
        Some((_, hovered)) => hovered,
        None => None,
    }
}

/// The state of a menu that was just opened at `position`.
pub open spec fn spec_opened(position: Point) -> StateView {
    Some((position, None))
}

struct Open {
    position: Point,
    hovered: Option<usize>,
}

/// The persistent state of a context menu.
///
/// A widget that wants a context menu stores one of these, opens it with
/// [`State::open`] and shows the menu while it is open.
pub struct State {
    open: Option<Open>,
}

impl View for State {
    type V = StateView;

    closed spec fn view(&self) -> StateView {
        match self.open {
            Some(open) => Some((open.position, open.hovered)),
            None => None,
        }
    }
}

impl State {
    /// Creates a new, closed [`State`].
    pub fn new() -> (state: Self)
        ensures
            state@ is None,
    {
        State { open: None }
    }

    /// Opens the menu at the given position, in window coordinates.
    pub fn open(&mut self, position: Point)
        ensures
            final(self)@ == spec_opened(position),
    {
        self.open = Some(Open { position, hovered: None });
    }

    /// Closes the menu.
    pub fn close(&mut self)
        ensures
            final(self)@ is None,
    {
        self.open = None;
    }

    /// Returns whether the menu is currently open.
    pub fn is_open(&self) -> (open: bool)
        ensures
            open == self@ is Some,
    {
        self.open.is_some()
    }

    /// Returns where the menu was opened, in window coordinates.
    pub fn position(&self) -> (position: Option<Point>)
        ensures
            position == spec_position(self@),
    {
        match &self.open {
            Some(open) => Some(open.position),
            None => None,
        }
    }

    /// Returns the index of the entry the cursor is currently over, if any.
    pub fn hovered(&self) -> (hovered: Option<usize>)
        ensures
            hovered == spec_hovered(self@),
    {
        match &self.open {
            Some(open) => open.hovered,
            None => None,
        }
    }

    /// Records the entry the pointer is now over, and returns whether that
    /// changed anything worth redrawing. A closed menu is left closed.
    pub fn hover(&mut self, entry: Option<usize>) -> (changed: bool)
        ensures
            match old(self)@ {
                Some((position, hovered)) => {
                    &&& final(self)@ == Some((position, entry))
                    &&& changed == (hovered != entry)
                },
                None => final(self)@ is None && !changed,
            },
    {
        match &mut self.open {
            Some(open) => {
                if open.hovered != entry {
                    open.hovered = entry;
                    true
                } else {
                    false
                }
            },
            None => false,
        }
    }
}

impl Default for State {
    fn default() -> (state: Self)
        ensures
            state@ is None,
    {
        State::new()
    }
}

/// Something that produces a message each time an entry is chosen.
trait Select<Message> {
    /// Whether a message can be asked for.
    spec fn can_select(&self) -> bool;

    /// Whether `message` is one that may be produced.
    spec fn produces(&self, message: Message) -> bool;

    fn select(&self) -> (message: Message)
        requires
            self.can_select(),
        ensures
            self.produces(message),
    ;
}

impl<Message, F: Fn() -> Message> Select<Message> for F {
    spec fn can_select(&self) -> bool {
        call_requires(*self, ())
    }

    spec fn produces(&self, message: Message) -> bool {
        call_ensures(*self, (), message)
    }

    /// Produces the message by calling the closure.
    fn select(&self) -> (message: Message) {
        (self)()
    }
}

#[verifier::reject_recursive_types(Message)]
enum Action<'a, Message> {
    /// Produces a message when the entry is chosen.
    Message(Box<dyn Select<Message> + 'a>),
    /// Hands the entry over to the widget that owns the menu.
    Dispatch,
}

/// An [`Entry`], as a value: its label, whether it can be chosen, and whether
/// choosing it hands it back to the widget (rather than producing a message).
pub struct EntryView {
    pub label: Seq<char>,
    pub is_enabled: bool,
    pub is_dispatch: bool,
}

/// A single entry of a context menu.
#[verifier::reject_recursive_types(Message)]
pub struct Entry<'a, Message> {
    label: String,
    is_enabled: bool,
    action: Action<'a, Message>,
}

impl<'a, Message> View for Entry<'a, Message> {
    type V = EntryView;

    closed spec fn view(&self) -> EntryView {
        EntryView {
            label: self.label@,
            is_enabled: self.is_enabled,
            is_dispatch: self.action is Dispatch,
        }
    }
}

/// The values of a list of entries.
pub open spec fn entry_views<Message>(entries: Seq<Entry<'_, Message>>) -> Seq<EntryView> {
    entries.map_values(|entry: Entry<'_, Message>| entry@)
}

impl<'a, Message> Entry<'a, Message> {
    /// An entry that produces messages can always be asked for one.
    #[verifier::type_invariant]
    closed spec fn can_be_chosen(self) -> bool {
        match self.action {
            Action::Message(on_select) => on_select.can_select(),
            Action::Dispatch => true,
        }
    }

    /// Whether choosing the entry may publish `message`: the entry produces
    /// messages, and `message` is one its closure returns.
    pub closed spec fn produces(&self, message: Message) -> bool {
        match self.action {
            Action::Message(on_select) => on_select.produces(message),
            Action::Dispatch => false,
        }
    }

    /// Creates an entry that produces a message, the one `on_select` returns,
    /// when it is chosen.
    pub fn new<L: IntoLabel, F: Fn() -> Message + 'a>(label: L, on_select: F) -> (entry: Self)
        requires
            call_requires(on_select, ()),
        ensures
            entry@ == (EntryView { label: label.text(), is_enabled: true, is_dispatch: false }),
            forall|message: Message| entry.produces(message) == call_ensures(on_select, (), message),
    {
        Entry {
            label: label.into_label(),
            is_enabled: true,
            action: Action::Message(Box::new(on_select)),
        }
    }

    /// Creates an entry that is handed back to the widget that owns the menu
    /// when it is chosen.
    pub fn dispatch<L: IntoLabel>(label: L) -> (entry: Self)
        ensures
            entry@ == (EntryView { label: label.text(), is_enabled: true, is_dispatch: true }),
    {
        Entry { label: label.into_label(), is_enabled: true, action: Action::Dispatch }
    }

    /// Sets whether the entry can be chosen.
    pub fn enabled(self, is_enabled: bool) -> (entry: Self)
        ensures
            entry@ == (EntryView { is_enabled, ..self@ }),
            forall|message: Message| entry.produces(message) == self.produces(message),
    {
        proof {
            use_type_invariant(&self);
        }
        Entry { label: self.label, is_enabled, action: self.action }
    }

    /// Returns the label of the entry.
    pub fn label(&self) -> (label: &str)
        ensures
            label@ == self@.label,
    {
        self.label.as_str()
    }

    /// Returns whether the entry can be chosen.
    pub fn is_enabled(&self) -> (is_enabled: bool)
        ensures
            is_enabled == self@.is_enabled,
    {
        self.is_enabled
    }
}

/// Where the pointer lies relative to an open menu: whether it is within the
/// menu's bounds, and the row of entries it falls in (rows are counted from
/// the first entry, the top padding belonging to the first row).
#[derive(Debug, Clone, Copy, PartialEq, Eq, Structural)]
pub struct Hit {
    pub inside: bool,
    pub row: usize,
}

/// The entry under the pointer: the one of its row, when the pointer is within
/// the menu and that row holds an entry.
pub open spec fn spec_entry_at(hit: Hit, count: nat) -> Option<usize> {
    if hit.inside && hit.row < count {
        Some(hit.row)
    } else {
        None
    }
}

/// Returns the entry under the pointer, if any.
pub fn entry_at(hit: &Hit, count: usize) -> (entry: Option<usize>)
    ensures
        entry == spec_entry_at(*hit, count as nat),
{
    if hit.inside && hit.row < count {
        Some(hit.row)
    } else {
        None
    }
}

/// An event, as an open menu sees it.
pub enum MenuEvent {
    /// The pointer moved.
    CursorMoved(Hit),
    /// The left button was pressed, with the pointer where given, when the
    /// pointer's position is known.
    LeftPressed(Option<Hit>),
    /// Another mouse button was pressed.
    OtherPressed,
    /// The wheel turned, the screen was touched, a key was pressed or the
    /// window lost the focus.
    Dismissed,
    /// Anything else.
    Other,
}

/// What choosing an entry leads to.
pub enum Outcome<Message> {
    /// Nothing: the entry does not exist or is disabled.
    Nothing,
    /// The entry produced this message, to be published.
    Publish(Message),
    /// The entry at this index is to be handed back to the widget.
    Dispatch(usize),
}

/// How an open menu answers an event.
pub struct Response<Message> {
    /// Whether the menu has to be drawn again.
    pub redraw: bool,
    /// Whether the event stops at the menu, rather than reaching the widget
    /// underneath.
    pub capture: bool,
    /// What the entry chosen by the event leads to.
    pub outcome: Outcome<Message>,
}

/// What an event does to a menu, as values: the state it leaves, whether a
/// redraw is asked for, whether the event is captured, and which entry it
/// chooses, if an enabled one.
pub struct MenuStep {
    pub state: StateView,
    pub redraw: bool,
    pub capture: bool,
    pub chosen: Option<usize>,
}

/// The answer of a menu in state `s`, with the given entries, to `event`.
pub open spec fn menu_step(s: StateView, entries: Seq<EntryView>, event: MenuEvent) -> MenuStep {
    let unchanged = MenuStep { state: s, redraw: false, capture: false, chosen: None };
    let closed = MenuStep { state: None, redraw: true, capture: false, chosen: None };
    match s {
        None => unchanged,
        Some((position, hovered)) => match event {
            MenuEvent::CursorMoved(hit) => {
                let entry = spec_entry_at(hit, entries.len());
                MenuStep {
                    state: Some((position, entry)),
                    redraw: entry != hovered,
                    capture: false,
                    chosen: None,
                }
            },
            MenuEvent::LeftPressed(None) => unchanged,
            MenuEvent::LeftPressed(Some(hit)) => {
                if !hit.inside {
                    closed
                } else {
                    match spec_entry_at(hit, entries.len()) {
                        None => MenuStep { capture: true, ..unchanged },
                        Some(index) => MenuStep {
                            state: None,
                            redraw: true,
                            capture: true,
                            chosen: if entries[index as int].is_enabled {
                                Some(index)
                            } else {
                                None
                            },
                        },
                    }
                }
            },
            MenuEvent::OtherPressed => closed,
            MenuEvent::Dismissed => closed,
            MenuEvent::Other => unchanged,
        },
    }
}

/// Whether `outcome` is what choosing `chosen` leads to: nothing when no
/// enabled entry was chosen, the entry's index when it is handed back to the
/// widget, and a message otherwise.
pub open spec fn outcome_of<Message>(
    outcome: Outcome<Message>,
    chosen: Option<usize>,
    entries: Seq<EntryView>,
) -> bool {
    match chosen {
        None => outcome is Nothing,
        Some(index) => if entries[index as int].is_dispatch {
            outcome == Outcome::<Message>::Dispatch(index)
        } else {
            outcome is Publish
        },
    }
}

/// Closes the menu and carries out the entry at `index`.
pub fn choose_entry<Message>(state: &mut State, entries: &[Entry<'_, Message>], index: usize) -> (outcome:
    Outcome<Message>)
    ensures
        final(state)@ is None,
        outcome_of(
            outcome,
            if index < entries@.len() && entries@[index as int]@.is_enabled {
                Some(index)
            } else {
                None
            },
            entry_views(entries@),
        ),
        outcome matches Outcome::Publish(message) ==> index < entries@.len()
            && entries@[index as int].produces(message),
{
    state.close();
    if index >= entries.len() {
        return Outcome::Nothing;
    }
    let entry = &entries[index];
    if !entry.is_enabled {
        return Outcome::Nothing;
    }
    proof {
        use_type_invariant(entry);
    }
    match &entry.action {
        Action::Message(on_select) => Outcome::Publish(on_select.select()),
        Action::Dispatch => Outcome::Dispatch(index),
    }
}

/// Answers an event while the menu is shown: a closed menu ignores
/// everything; an open one tracks the hovered entry, chooses the entry that is
/// clicked, and closes on any click elsewhere, another button, the wheel, a
/// touch, a key press or the loss of focus.
pub fn update<Message>(state: &mut State, entries: &[Entry<'_, Message>], event: MenuEvent) -> (response:
    Response<Message>)
    ensures
        ({
            let step = menu_step(old(state)@, entry_views(entries@), event);
            &&& final(state)@ == step.state
            &&& response.redraw == step.redraw
            &&& response.capture == step.capture
            &&& outcome_of(response.outcome, step.chosen, entry_views(entries@))
            &&& response.outcome matches Outcome::Publish(message) ==> step.chosen matches Some(
                index,
            ) && entries@[index as int].produces(message)
        }),
{
    let nothing = Response { redraw: false, capture: false, outcome: Outcome::Nothing };
    if !state.is_open() {
        return nothing;
    }
    match event {
        MenuEvent::CursorMoved(hit) => {
            let entry = entry_at(&hit, entries.len());
            let changed = state.hover(entry);
            Response { redraw: changed, capture: false, outcome: Outcome::Nothing }
        },
        MenuEvent::LeftPressed(None) => nothing,
        MenuEvent::LeftPressed(Some(hit)) => {
            if !hit.inside {
                // A click elsewhere dismisses the menu and still reaches the
                // widget underneath.
                state.close();
                return Response { redraw: true, capture: false, outcome: Outcome::Nothing };
            }
            match entry_at(&hit, entries.len()) {
                // A click on the padding does not fall through.
                None => Response { redraw: false, capture: true, outcome: Outcome::Nothing },
                Some(index) => {
                    let outcome = choose_entry(state, entries, index);
                    Response { redraw: true, capture: true, outcome }
                },
            }
        },
        MenuEvent::OtherPressed | MenuEvent::Dismissed => {
            state.close();
            Response { redraw: true, capture: false, outcome: Outcome::Nothing }
        },
        MenuEvent::Other => nothing,
    }
}

/// The number of characters of the longest label of `entries`, 0 when there
/// is none.
pub open spec fn spec_longest_label(entries: Seq<EntryView>) -> nat
    decreases entries.len(),
{
    if entries.len() == 0 {
        0
    } else {
        let rest = spec_longest_label(entries.drop_last());
        let last = entries.last().label.len();
        if last > rest {
            last
        } else {
            rest
        }
    }
}

/// Returns the number of characters of the longest label, from which the
/// width of the menu is guessed.
pub fn longest_label<Message>(entries: &[Entry<'_, Message>]) -> (longest: usize)
    ensures
        longest == spec_longest_label(entry_views(entries@)),
{
    let mut longest: usize = 0;
    let mut index: usize = 0;
    while index < entries.len()
        invariant
            index <= entries@.len(),
            longest == spec_longest_label(entry_views(entries@).take(index as int)),
        decreases entries@.len() - index,
    {
        let count = entries[index].label().unicode_len();
        proof {
            let views = entry_views(entries@);
            assert(views.take(index + 1).drop_last() =~= views.take(index as int));
        }
        if count > longest {
            longest = count;
        }
        index = index + 1;
    }
    proof {
        assert(entry_views(entries@).take(entries@.len() as int) =~= entry_views(entries@));
    }
    longest
}

/// The mouse cursor to show over a menu.
#[derive(Debug, Clone, Copy, PartialEq, Eq, Structural)]
pub enum MenuCursor {
    /// A hand: the entry under the pointer can be chosen.
    Pointer,
    /// The arrow, over a disabled entry, rather than whatever the widget
    /// underneath would show.
    Idle,
    /// Whatever the widget underneath shows.
    Default,
}

/// The mouse cursor over a menu with the given entries, with the pointer at
/// `hit` when its position is known.
pub open spec fn spec_cursor(entries: Seq<EntryView>, hit: Option<Hit>) -> MenuCursor {
    match hit {
        None => MenuCursor::Default,
        Some(hit) => match spec_entry_at(hit, entries.len()) {
            None => MenuCursor::Default,
            Some(index) => if entries[index as int].is_enabled {
                MenuCursor::Pointer
            } else {
                MenuCursor::Idle
            },
        },
    }
}

/// Returns the mouse cursor to show over the menu.
pub fn cursor<Message>(entries: &[Entry<'_, Message>], hit: Option<Hit>) -> (cursor: MenuCursor)
    ensures
        cursor == spec_cursor(entry_views(entries@), hit),
{
    match hit {
        None => MenuCursor::Default,
        Some(hit) => match entry_at(&hit, entries.len()) {
            None => MenuCursor::Default,
            Some(index) => {
                if entries[index].is_enabled() {
                    MenuCursor::Pointer
                } else {
                    MenuCursor::Idle
                }
            },
        },
    }
}

/// How an entry is drawn.
#[derive(Debug, Clone, Copy, PartialEq, Eq, Structural)]
pub enum Look {
    /// Greyed out: the entry cannot be chosen.
    Disabled,
    /// Highlighted: the pointer is over the entry.
    Hovered,
    /// Plain.
    Normal,
}

/// Returns how the entry at `index` of a menu in `state` is drawn.
pub fn look<Message>(state: &State, entry: &Entry<'_, Message>, index: usize) -> (look: Look)
    ensures
        look == (if !entry@.is_enabled {
            Look::Disabled
        } else if spec_hovered(state@) == Some(index) {
            Look::Hovered
        } else {
            Look::Normal
        }),
{
    if !entry.is_enabled() {
        Look::Disabled
    } else if state.hovered() == Some(index) {
        Look::Hovered
    } else {
        Look::Normal
    }
}

/// The state of a menu after a right-click at `over` on a widget whose menu
/// can open (`can_open`): opened where the pointer is, when it is over the
/// widget, and untouched otherwise.
pub open spec fn spec_right_click(s: StateView, can_open: bool, over: Option<Point>) -> StateView {
    if can_open && over is Some {
        spec_opened(over.unwrap())
    } else {
        s
    }
}

/// Answers a right-click on the content of a context menu widget: the menu
/// opens where the pointer is when it is enabled, has entries, and the
/// pointer is over the content (`over`). Returns whether it opened, in which
/// case the click is captured and a redraw asked for.
pub fn right_click(state: &mut State, context_menu: bool, entry_count: usize, over: Option<Point>) -> (opened:
    bool)
    ensures
        opened == (context_menu && entry_count > 0 && over is Some),
        final(state)@ == spec_right_click(old(state)@, context_menu && entry_count > 0, over),
{
    if context_menu && entry_count > 0 {
        if let Some(position) = over {
            state.open(position);
            return true;
        }
    }
    false
}

/// The entries of a context menu widget, and whether its menu is enabled.
#[verifier::reject_recursive_types(Message)]
pub struct MenuSettings<'a, Message> {
    /// The entries, in the order they are shown.
    pub entries: Vec<Entry<'a, Message>>,
    /// Whether a right-click opens the menu.
    pub context_menu: bool,
}

impl<'a, Message> MenuSettings<'a, Message> {
    /// Creates the settings of a menu with no entry, enabled.
    pub fn new() -> (settings: Self)
        ensures
            settings.entries@.len() == 0,
            settings.context_menu,
    {
        MenuSettings { entries: Vec::new(), context_menu: true }
    }

    /// Adds an entry after the others.
    pub fn entry(self, entry: Entry<'a, Message>) -> (settings: Self)
        ensures
            settings.entries@ == self.entries@.push(entry),
            settings.context_menu == self.context_menu,
    {
        let mut settings = self;
        settings.entries.push(entry);
        settings
    }

    /// Adds several entries after the others, in their order.
    pub fn entries(self, entries: Vec<Entry<'a, Message>>) -> (settings: Self)
        ensures
            settings.entries@ == self.entries@ + entries@,
            settings.context_menu == self.context_menu,
    {
        let mut settings = self;
        let mut entries = entries;
        settings.entries.append(&mut entries);
        settings
    }

    /// Enables or disables the menu. It is enabled by default.
    pub fn context_menu(self, context_menu: bool) -> (settings: Self)
        ensures
            settings.entries@ == self.entries@,
            settings.context_menu == context_menu,
    {
        let mut settings = self;
        settings.context_menu = context_menu;
        settings
    }

    /// Answers a right-click on the content: see [`right_click`].
    pub fn right_click(&self, state: &mut State, over: Option<Point>) -> (opened: bool)
        ensures
            opened == (self.context_menu && self.entries@.len() > 0 && over is Some),
            final(state)@ == spec_right_click(
                old(state)@,
                self.context_menu && self.entries@.len() > 0,
                over,
            ),
    {
        right_click(state, self.context_menu, self.entries.len(), over)
    }
}

/// A menu remembers where it was opened: its position is the one given to
/// [`State::open`], and no entry is hovered yet.
pub proof fn opened_menu_keeps_its_position(position: Point)
    ensures
        spec_position(spec_opened(position)) == Some(position),
        spec_hovered(spec_opened(position)) is None,
{
}

/// A closed menu ignores every event: it stays closed, asks for no redraw,
/// lets the event through and chooses nothing.
pub proof fn closed_menu_ignores_events(entries: Seq<EntryView>, event: MenuEvent)
    ensures
        menu_step(None, entries, event) == (MenuStep {
            state: None,
            redraw: false,
            capture: false,
            chosen: None,
        }),
{
}

/// A click on an entry of an open menu closes the menu and does not reach
/// the widget underneath, whether or not the entry can be chosen.
pub proof fn choosing_an_entry_closes_the_menu(s: StateView, entries: Seq<EntryView>, hit: Hit)
    requires
        s is Some,
        hit.inside,
        hit.row < entries.len(),
    ensures
        menu_step(s, entries, MenuEvent::LeftPressed(Some(hit))).state is None,
        menu_step(s, entries, MenuEvent::LeftPressed(Some(hit))).capture,
        menu_step(s, entries, MenuEvent::LeftPressed(Some(hit))).chosen == (if entries[hit.row as int].is_enabled {
            Some(hit.row)
        } else {
            None
        }),
{
}

/// A click outside an open menu closes it and still reaches the widget
/// underneath.
pub proof fn a_click_elsewhere_closes_the_menu(s: StateView, entries: Seq<EntryView>, hit: Hit)
    requires
        s is Some,
        !hit.inside,
    ensures
        menu_step(s, entries, MenuEvent::LeftPressed(Some(hit))).state is None,
        !menu_step(s, entries, MenuEvent::LeftPressed(Some(hit))).capture,
        menu_step(s, entries, MenuEvent::LeftPressed(Some(hit))).chosen is None,
{
}

/// Only an existing, enabled entry is ever chosen, whatever the event.
pub proof fn only_enabled_entries_are_chosen(s: StateView, entries: Seq<EntryView>, event: MenuEvent)
    ensures
        menu_step(s, entries, event).chosen matches Some(index) ==> index < entries.len()
            && entries[index as int].is_enabled,
{
}

/// Another button pressed on an open menu closes it and is left to the widget
/// underneath, so that a second right-click opens the menu again where it
/// landed.
pub proof fn a_second_right_click_moves_the_menu(s: StateView, entries: Seq<EntryView>, position: Point)
    requires
        s is Some,
    ensures
        !menu_step(s, entries, MenuEvent::OtherPressed).capture,
        spec_right_click(menu_step(s, entries, MenuEvent::OtherPressed).state, true, Some(position))
            == spec_opened(position),
{
}

/// The hovered entry, when there is one, is an entry of the menu, and every
/// event keeps it so.
pub proof fn hovered_entry_stays_in_the_menu(s: StateView, entries: Seq<EntryView>, event: MenuEvent)
    requires
        spec_hovered(s) matches Some(index) ==> index < entries.len(),
    ensures
        spec_hovered(menu_step(s, entries, event).state) matches Some(index) ==> index
            < entries.len(),
{
}

/// The longest label is at least as long as every label, and is the length
/// of one of them when there is any.
pub proof fn longest_label_is_a_maximum(entries: Seq<EntryView>)
    ensures
        forall|i: int| 0 <= i < entries.len() ==> #[trigger] entries[i].label.len() <= spec_longest_label(entries),
        entries.len() == 0 ==> spec_longest_label(entries) == 0,
        entries.len() > 0 ==> exists|i: int|
            0 <= i < entries.len() && #[trigger] entries[i].label.len() == spec_longest_label(entries),
    decreases entries.len(),
{
    if entries.len() > 0 {
        let rest = entries.drop_last();
        longest_label_is_a_maximum(rest);
        assert forall|i: int| 0 <= i < entries.len() implies #[trigger] entries[i].label.len()
            <= spec_longest_label(entries) by {
            if i < entries.len() - 1 {
                assert(entries[i] == rest[i]);
            }
        }
        if entries.last().label.len() > spec_longest_label(rest) {
            assert(entries[entries.len() - 1].label.len() == spec_longest_label(entries));
        } else if rest.len() > 0 {
            let j = choose|j: int| 0 <= j < rest.len() && #[trigger] rest[j].label.len() == spec_longest_label(rest);
            assert(entries[j] == rest[j]);
        } else {
            assert(entries[0].label.len() == spec_longest_label(entries));
        }
    }
}

/// The highlight follows the pointer: a move inside the menu highlights the
/// entry of the row it lands in (none below the last entry), a move outside
/// the menu highlights nothing, whatever row its height falls in, and the
/// menu is drawn again exactly when the highlighted entry changes. The menu
/// stays where it is and the move is never kept from the widget underneath.
pub proof fn the_highlight_follows_the_pointer(
    position: Point,
    hovered: Option<usize>,
    entries: Seq<EntryView>,
    hit: Hit,
)
    ensures
        ({
            let step = menu_step(Some((position, hovered)), entries, MenuEvent::CursorMoved(hit));
            let highlighted = if hit.inside && hit.row < entries.len() {
                Some(hit.row)
            } else {
                None
            };
            &&& step.state == Some((position, highlighted))
            &&& step.redraw == (highlighted != hovered)
            &&& !step.capture
            &&& step.chosen is None
            &&& !hit.inside ==> step.state == Some((position, None::<usize>))
                && step.redraw == (hovered is Some)
        }),
{
}

/// The cursor over the menu: a hand over an entry that can be chosen, the
/// arrow over a disabled one, and, outside the menu (whatever row its height
/// falls in), below the last entry or with no pointer at all, whatever the
/// widget underneath shows.
pub proof fn the_cursor_shows_what_is_under_the_pointer(entries: Seq<EntryView>, hit: Hit)
    ensures
        spec_cursor(entries, None) == MenuCursor::Default,
        !hit.inside ==> spec_cursor(entries, Some(hit)) == MenuCursor::Default,
        hit.row >= entries.len() ==> spec_cursor(entries, Some(hit)) == MenuCursor::Default,
        hit.inside && hit.row < entries.len() ==> spec_cursor(entries, Some(hit)) == (
        if entries[hit.row as int].is_enabled {
            MenuCursor::Pointer
        } else {
            MenuCursor::Idle
        }),
{
}

} // verus!
