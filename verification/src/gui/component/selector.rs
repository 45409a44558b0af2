//! An input that offers a choice among options and, beside it, a free text.
use vstd::prelude::*;
use vstd::string::*;

verus! {

/// Initializes a [`Selector`].
#[derive(Debug, Clone, PartialEq, Eq)]
pub struct SelectorInit {
    pub entry_placeholder: String,
    pub options: Vec<SelectorOption>,
    pub initial_selection: EntryOrDropDown,
    /// Whether or not this selector should startup in a locked state.
    pub locked: bool,
    pub toggle_icon_name: String,
    pub toggle_tooltip: String,
}

/// One of the options of a [`Selector`].
#[derive(Debug, Clone, PartialEq, Eq)]
pub struct SelectorOption {
    pub id: String,
    pub text: String,
}

/// What is selected: a free text, or the ID of one of the options.
#[derive(PartialEq, Eq, Clone, Debug)]
pub enum EntryOrDropDown {
    Entry(String),
    DropDown(String),
}

/// What an [`EntryOrDropDown`] holds, as mathematical values.
pub enum EntryOrDropDownView {
    Entry(Seq<char>),
    DropDown(Seq<char>),
}

impl View for EntryOrDropDown {
    type V = EntryOrDropDownView;

    open spec fn view(&self) -> EntryOrDropDownView {
        match *self {
            EntryOrDropDown::Entry(text) => EntryOrDropDownView::Entry(text@),
            EntryOrDropDown::DropDown(id) => EntryOrDropDownView::DropDown(id@),
        }
    }
}

impl EntryOrDropDown {
    /// A copy of the selection.
    pub fn duplicate(&self) -> (r: Self)
        ensures
            r@ == self@,
    {
        match self {
            EntryOrDropDown::Entry(text) => EntryOrDropDown::Entry(text.clone()),
            EntryOrDropDown::DropDown(id) => EntryOrDropDown::DropDown(id.clone()),
        }
    }
}

/// What the selector tells its parent.
#[derive(Debug, Clone, PartialEq, Eq)]
pub enum SelectorOutput {
    CurrentSelection(EntryOrDropDown),
}

/// What the selector can be asked to do.
#[derive(Debug, Clone, PartialEq, Eq)]
pub enum SelectorMsg {
    /// Locks this input, preventing user interactions.
    Lock,
    /// Unlocks this input, making it interactive again.
    Unlock,
    /// Forces the input to show this selection.
    SetSelection(EntryOrDropDown),
    /// Switches between the two input modes.
    ToggleMode,
    /// The user changed the selection.
    UpdateSelection(EntryOrDropDown),
}

/// What a [`SelectorMsg`] holds, as mathematical values.
pub enum SelectorMsgView {
    Lock,
    Unlock,
    SetSelection(EntryOrDropDownView),
    ToggleMode,
    UpdateSelection(EntryOrDropDownView),
}

impl View for SelectorMsg {
    type V = SelectorMsgView;

    open spec fn view(&self) -> SelectorMsgView {
        match *self {
            SelectorMsg::Lock => SelectorMsgView::Lock,
            SelectorMsg::Unlock => SelectorMsgView::Unlock,
            SelectorMsg::SetSelection(selection) => SelectorMsgView::SetSelection(selection@),
            SelectorMsg::ToggleMode => SelectorMsgView::ToggleMode,
            SelectorMsg::UpdateSelection(selection) => SelectorMsgView::UpdateSelection(selection@),
        }
    }
}

/// The model of the input.
#[derive(Debug, Clone)]
pub struct Selector {
    selection: EntryOrDropDown,
    locked: bool,
    update_view_event: bool,
    manual_input_only: bool,
    last_entry: String,
    last_option_id: String,
}

/// What a [`Selector`] holds, as mathematical values.
pub struct SelectorView {
    pub selection: EntryOrDropDownView,
    pub locked: bool,
    pub update_view_event: bool,
    /// There are no options to choose from.
    pub manual_input_only: bool,
    /// The free text that was entered last.
    pub last_entry: Seq<char>,
    /// The ID of the option that was chosen last.
    pub last_option_id: Seq<char>,
}

impl View for Selector {
    type V = SelectorView;

    closed spec fn view(&self) -> SelectorView {
        SelectorView {
            selection: self.selection@,
            locked: self.locked,
            update_view_event: self.update_view_event,
            manual_input_only: self.manual_input_only,
            last_entry: self.last_entry@,
            last_option_id: self.last_option_id@,
        }
    }
}

/// The IDs of a list of options.
pub open spec fn option_ids(options: Seq<SelectorOption>) -> Seq<Seq<char>> {
    options.map_values(|option: SelectorOption| option.id@)
}

impl SelectorView {
    /// The input as it is first shown.  Without options only a free text can
    /// be entered, so an initial choice among them gives way to an empty
    /// text.
    pub open spec fn init(
        options: Seq<Seq<char>>,
        initial_selection: EntryOrDropDownView,
        locked: bool,
    ) -> Self {
        let manual_input_only = options.len() == 0;
        let selection = if manual_input_only && initial_selection is DropDown {
            EntryOrDropDownView::Entry(Seq::empty())
        } else {
            initial_selection
        };
        SelectorView {
            selection,
            locked,
            update_view_event: manual_input_only,
            manual_input_only,
            last_entry: match selection {
                EntryOrDropDownView::Entry(text) => text,
                EntryOrDropDownView::DropDown(_) => Seq::empty(),
            },
            last_option_id: match selection {
                EntryOrDropDownView::Entry(_) => if options.len() > 0 {
                    options[0]
                } else {
                    Seq::empty()
                },
                EntryOrDropDownView::DropDown(id) => id,
            },
        }
    }

    /// The input with what is selected now remembered as the last of its
    /// kind.
    pub open spec fn remember(self) -> Self {
        match self.selection {
            EntryOrDropDownView::Entry(text) => SelectorView { last_entry: text, ..self },
            EntryOrDropDownView::DropDown(id) => SelectorView { last_option_id: id, ..self },
        }
    }

    /// The selection of the other kind: the last free text for a chosen
    /// option, the last chosen option for a free text.
    pub open spec fn other_mode(self) -> EntryOrDropDownView {
        match self.selection {
            EntryOrDropDownView::Entry(_) => EntryOrDropDownView::DropDown(self.last_option_id),
            EntryOrDropDownView::DropDown(_) => EntryOrDropDownView::Entry(self.last_entry),
        }
    }

    /// The input after a message, and the selection that it tells its parent
    /// of, if the message led to one.
    pub open spec fn update(self, message: SelectorMsgView) -> (Self, Option<EntryOrDropDownView>) {
        let start = SelectorView { update_view_event: false, ..self };
        match message {
            SelectorMsgView::ToggleMode => if self.manual_input_only {
                let selection = EntryOrDropDownView::Entry(self.last_entry);
                (SelectorView { selection, update_view_event: true, ..start }, Some(selection))
            } else {
                let selection = start.other_mode();
                (SelectorView { selection, ..start.remember() }, Some(selection))
            },
            SelectorMsgView::UpdateSelection(selection) => (
                SelectorView { selection, ..start },
                Some(selection),
            ),
            SelectorMsgView::Lock => (SelectorView { locked: true, ..start }, None),
            SelectorMsgView::Unlock => (SelectorView { locked: false, ..start }, None),
            SelectorMsgView::SetSelection(selection) => if self.manual_input_only && selection is DropDown {
                (start, None)
            } else {
                (
                    SelectorView { selection, update_view_event: true, ..start.remember() },
                    Some(selection),
                )
            },
        }
    }
}

/// The view of an output that may be absent.
pub open spec fn selection_told(output: Option<SelectorOutput>) -> Option<EntryOrDropDownView> {
    match output {
        Some(SelectorOutput::CurrentSelection(selection)) => Some(selection@),
        None => None,
    }
}

impl Selector {
    /// Whether the input can be first shown with this selection: a choice
    /// among the options has to be one of them.
    pub open spec fn can_show(options: Seq<Seq<char>>, selection: EntryOrDropDownView) -> bool {
        selection matches EntryOrDropDownView::DropDown(id) ==> options.len() == 0
            || options.contains(id)
    }

    /// Whether the input can be first shown with the selection of `init`: see
    /// [`Selector::can_show`].
    pub fn accepts(init: &SelectorInit) -> (r: bool)
        ensures
            r == Self::can_show(option_ids(init.options@), init.initial_selection@),
    {
        let ghost ids = option_ids(init.options@);
        match &init.initial_selection {
            EntryOrDropDown::Entry(_) => true,
            EntryOrDropDown::DropDown(id) => {
                if init.options.len() == 0 {
                    return true;
                }
                let mut i: usize = 0;
                while i < init.options.len()
                    invariant
                        i <= init.options.len(),
                        ids == option_ids(init.options@),
                        init.initial_selection@ == EntryOrDropDownView::DropDown(id@),
                        forall|j: int| 0 <= j < i ==> ids[j] != id@,
                    decreases init.options.len() - i,
                {
                    if init.options[i].id == *id {
                        assert(ids[i as int] == id@);
                        assert(ids.contains(id@));
                        return true;
                    }
                    i += 1;
                }
                false
            },
        }
    }

    /// The input as it is first shown: see [`SelectorView::init`].  Where the
    /// result is `true` beside it, the input is to be toggled once more after
    /// the chosen option has been shown, to come back to the free text.
    pub fn init(init: &SelectorInit) -> (r: (Self, bool))
        requires
            Self::can_show(option_ids(init.options@), init.initial_selection@),
        ensures
            r.0@ == SelectorView::init(
                option_ids(init.options@),
                init.initial_selection@,
                init.locked,
            ),
            r.1 == (r.0@.selection is Entry && !r.0@.manual_input_only),
    {
        let manual_input_only = init.options.len() == 0;
        let selection = match &init.initial_selection {
            EntryOrDropDown::DropDown(id) => {
                if manual_input_only {
                    EntryOrDropDown::Entry(String::new())
                } else {
                    EntryOrDropDown::DropDown(id.clone())
                }
            },
            EntryOrDropDown::Entry(text) => EntryOrDropDown::Entry(text.clone()),
        };
        let (last_entry, last_option_id, toggle) = match &selection {
            EntryOrDropDown::Entry(entry) => (
                entry.clone(),
                if init.options.len() > 0 {
                    init.options[0].id.clone()
                } else {
                    String::new()
                },
                !manual_input_only,
            ),
            EntryOrDropDown::DropDown(id) => (String::new(), id.clone(), false),
        };
        (
            Selector {
                selection,
                locked: init.locked,
                update_view_event: manual_input_only,
                manual_input_only,
                last_entry,
                last_option_id,
            },
            toggle,
        )
    }

    /// Answers a message: see [`SelectorView::update`].
    pub fn update(&mut self, message: SelectorMsg) -> (r: Option<SelectorOutput>)
        ensures
            final(self)@ == old(self)@.update(message@).0,
            selection_told(r) == old(self)@.update(message@).1,
    {
        self.update_view_event = false;
        match message {
            SelectorMsg::ToggleMode => {
                if self.manual_input_only {
                    self.selection = EntryOrDropDown::Entry(self.last_entry.clone());
                    self.update_view_event = true;
                    return Some(SelectorOutput::CurrentSelection(self.selection.duplicate()));
                }
                let new = match &self.selection {
                    EntryOrDropDown::Entry(last) => {
                        self.last_entry = last.clone();
                        EntryOrDropDown::DropDown(self.last_option_id.clone())
                    },
                    EntryOrDropDown::DropDown(last) => {
                        self.last_option_id = last.clone();
                        EntryOrDropDown::Entry(self.last_entry.clone())
                    },
                };
                self.selection = new.duplicate();
                Some(SelectorOutput::CurrentSelection(new))
            },
            SelectorMsg::UpdateSelection(new) => {
                self.selection = new.duplicate();
                Some(SelectorOutput::CurrentSelection(new))
            },
            SelectorMsg::Lock => {
                self.locked = true;
                None
            },
            SelectorMsg::Unlock => {
                self.locked = false;
                None
            },
            SelectorMsg::SetSelection(selection) => {
                let dropdown = match &selection {
                    EntryOrDropDown::DropDown(_) => true,
                    EntryOrDropDown::Entry(_) => false,
                };
                if self.manual_input_only && dropdown {
                    return None;
                }
                self.update_view_event = true;
                match &self.selection {
                    EntryOrDropDown::Entry(last) => {
                        self.last_entry = last.clone();
                    },
                    EntryOrDropDown::DropDown(last) => {
                        self.last_option_id = last.clone();
                    },
                }
                self.selection = selection;
                Some(SelectorOutput::CurrentSelection(self.selection.duplicate()))
            },
        }
    }

    /// What is selected.
    pub fn selection(&self) -> (r: &EntryOrDropDown)
        ensures
            r@ == self@.selection,
    {
        &self.selection
    }

    /// Whether the input is locked.
    pub fn locked(&self) -> (r: bool)
        ensures
            r == self@.locked,
    {
        self.locked
    }

    /// Whether only a free text can be entered.
    pub fn manual_input_only(&self) -> (r: bool)
        ensures
            r == self@.manual_input_only,
    {
        self.manual_input_only
    }

    /// Whether the last message asks for the input to be shown anew.
    pub fn update_view_event(&self) -> (r: bool)
        ensures
            r == self@.update_view_event,
    {
        self.update_view_event
    }

    /// Whether the last message asks for the chosen option to be shown anew.
    pub fn dropdown_changed(&self) -> (r: bool)
        ensures
            r == (self@.update_view_event && self@.selection is DropDown),
    {
        self.update_view_event && match &self.selection {
            EntryOrDropDown::DropDown(_) => true,
            EntryOrDropDown::Entry(_) => false,
        }
    }

    /// Whether the last message asks for the free text to be shown anew.
    pub fn entry_changed(&self) -> (r: bool)
        ensures
            r == (self@.update_view_event && self@.selection is Entry),
    {
        self.update_view_event && match &self.selection {
            EntryOrDropDown::Entry(_) => true,
            EntryOrDropDown::DropDown(_) => false,
        }
    }

    /// Whether the toggle beside the input is active: it is while a free text
    /// is entered.
    pub fn toggle_state(&self) -> (r: bool)
        ensures
            r == (self@.selection is Entry),
    {
        match self.selection {
            EntryOrDropDown::Entry(_) => true,
            EntryOrDropDown::DropDown(_) => false,
        }
    }
}

/// An input without options never selects one: whatever it is asked, it goes
/// on to hold a free text.
pub proof fn lemma_manual_input_stays_free_text(selector: SelectorView, message: SelectorMsgView)
    requires
        selector.manual_input_only,
        selector.selection is Entry,
        !(message matches SelectorMsgView::UpdateSelection(selection) && selection is DropDown),
    ensures
        selector.update(message).0.selection is Entry,
        selector.update(message).0.manual_input_only,
{
}

/// Toggling twice brings back what was selected.
pub proof fn lemma_toggle_twice(selector: SelectorView)
    requires
        !selector.manual_input_only,
    ensures
        selector.update(SelectorMsgView::ToggleMode).0.update(SelectorMsgView::ToggleMode).0.selection
            == selector.selection,
{
}

} // verus!
