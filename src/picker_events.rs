//! Keys and events of the session picker, and how an event changes its state.
use vstd::prelude::*;
use crate::pagination::pages;
use crate::picker::{delete_prompt, next_mode, sat_inc, EventOutcome, PickerState, PreviewSource};

verus! {

/// A key press, as far as the picker tells keys apart.
#[derive(Clone, Copy, Debug, PartialEq, Eq, Structural)]
pub enum KeyInput {
    Up,
    Down,
    Home,
    End,
    PageUp,
    PageDown,
    Enter,
    Esc,
    Char(char),
    Other,
}

/// What the user asked the picker to do.
#[derive(Clone, Copy, Debug, PartialEq, Eq, Structural)]
pub enum PickerEvent {
    SelectNext,
    SelectPrev,
    SelectFirst,
    SelectLast,
    PageNext,
    PagePrev,
    ScrollUp,
    ScrollDown,
    /// Resume the selected session.
    Resume,
    /// Ask to delete the selected session.
    Delete,
    ToggleViewMode,
    CopySessionId,
    NewSession,
    /// Cycle Split, FullPreview, SessionOnly.
    CycleViewMode,
    Refresh,
    /// Confirm the open dialog.
    ConfirmAction,
    /// Dismiss the open dialog.
    CancelAction,
    /// Close the picker.
    Exit,
}

/// The event bound to key `k`, if any.
pub open spec fn key_event(k: KeyInput) -> Option<PickerEvent> {
    match k {
        KeyInput::Up => Some(PickerEvent::SelectPrev),
        KeyInput::Down => Some(PickerEvent::SelectNext),
        KeyInput::Home => Some(PickerEvent::SelectFirst),
        KeyInput::End => Some(PickerEvent::SelectLast),
        KeyInput::PageUp => Some(PickerEvent::PagePrev),
        KeyInput::PageDown => Some(PickerEvent::PageNext),
        KeyInput::Char('j') => Some(PickerEvent::ScrollDown),
        KeyInput::Char('k') => Some(PickerEvent::ScrollUp),
        KeyInput::Enter => Some(PickerEvent::Resume),
        KeyInput::Char('d') => Some(PickerEvent::Delete),
        KeyInput::Char('f') => Some(PickerEvent::CycleViewMode),
        KeyInput::Char('c') => Some(PickerEvent::CopySessionId),
        KeyInput::Char('n') => Some(PickerEvent::NewSession),
        KeyInput::Char('r') => Some(PickerEvent::Refresh),
        KeyInput::Char('y') => Some(PickerEvent::ConfirmAction),
        KeyInput::Char('q') => Some(PickerEvent::Exit),
        KeyInput::Esc => Some(PickerEvent::Exit),
        _ => None,
    }
}

impl PickerState {
    /// The event bound to `key`, if any.
    pub fn key_to_event(key: KeyInput) -> (r: Option<PickerEvent>)
        ensures
            r == key_event(key),
    {
        match key {
            KeyInput::Up => Some(PickerEvent::SelectPrev),
            KeyInput::Down => Some(PickerEvent::SelectNext),
            KeyInput::Home => Some(PickerEvent::SelectFirst),
            KeyInput::End => Some(PickerEvent::SelectLast),
            KeyInput::PageUp => Some(PickerEvent::PagePrev),
            KeyInput::PageDown => Some(PickerEvent::PageNext),
            KeyInput::Char('j') => Some(PickerEvent::ScrollDown),
            KeyInput::Char('k') => Some(PickerEvent::ScrollUp),
            KeyInput::Enter => Some(PickerEvent::Resume),
            KeyInput::Char('d') => Some(PickerEvent::Delete),
            KeyInput::Char('f') => Some(PickerEvent::CycleViewMode),
            KeyInput::Char('c') => Some(PickerEvent::CopySessionId),
            KeyInput::Char('n') => Some(PickerEvent::NewSession),
            KeyInput::Char('r') => Some(PickerEvent::Refresh),
            KeyInput::Char('y') => Some(PickerEvent::ConfirmAction),
            KeyInput::Char('q') => Some(PickerEvent::Exit),
            KeyInput::Esc => Some(PickerEvent::Exit),
            _ => None,
        }
    }

    /// Applies `event`. While the dialog is open only confirming (which
    /// drops the selected session from the list and asks the caller to delete
    /// its file) and dismissing count. Otherwise `Resume` hands back the
    /// selected session's id and `Exit` the empty string.
    pub fn handle_event<S: PreviewSource>(&mut self, event: PickerEvent, source: &S) -> (r: EventOutcome)
        requires
            old(self).wf(),
        ensures
            final(self).wf(),
            old(self).modal_active && event == PickerEvent::ConfirmAction && old(self).selected_idx
                < old(self).sessions@.len() ==> ({
                let sel = old(self).selected_idx as int;
                let gone = old(self).sessions@[sel];
                &&& final(self).sessions@ == old(self).sessions@.remove(sel)
                &&& !final(self).modal_active
                &&& final(self).selected_idx == if sel >= final(self).sessions@.len() && sel > 0 {
                    sel - 1
                } else {
                    sel
                }
                &&& final(self).cache.previews() == old(self).cache.previews().remove(gone.id@)
                &&& r.selection is None
                &&& r.delete_path matches Some(p) && p@ == gone.path@
            }),
            old(self).modal_active && event == PickerEvent::ConfirmAction && old(self).selected_idx
                >= old(self).sessions@.len() ==> final(self).sessions@ == old(self).sessions@
                && r.selection is None && r.delete_path is None,
            old(self).modal_active && event == PickerEvent::CancelAction ==> !final(self).modal_active
                && final(self).sessions@ == old(self).sessions@ && final(self).selected_idx == old(
                self).selected_idx && r.selection is None && r.delete_path is None,
            old(self).modal_active && event != PickerEvent::ConfirmAction && event
                != PickerEvent::CancelAction ==> final(self).sessions@ == old(self).sessions@ && final(
                self).selected_idx == old(self).selected_idx && final(self).modal_active && r.selection
                is None && r.delete_path is None,
            !old(self).modal_active ==> final(self).sessions@ == old(self).sessions@
                && r.delete_path is None,
            !old(self).modal_active && event == PickerEvent::Resume ==> *final(self) == *old(self)
                && match r.selection {
                Some(id) => old(self).selected_idx < old(self).sessions@.len() && id@ == old(
                    self).sessions@[old(self).selected_idx as int].id@,
                None => old(self).selected_idx >= old(self).sessions@.len(),
            },
            !old(self).modal_active && event == PickerEvent::Exit ==> *final(self) == *old(self)
                && (r.selection matches Some(s) && s@.len() == 0),
            !old(self).modal_active && event != PickerEvent::Resume && event != PickerEvent::Exit
                ==> r.selection is None,
            !old(self).modal_active && event == PickerEvent::SelectNext ==> final(self).selected_idx
                == if old(self).selected_idx + 1 < old(self).sessions@.len() {
                old(self).selected_idx + 1
            } else {
                old(self).selected_idx as int
            },
            !old(self).modal_active && event == PickerEvent::SelectPrev ==> final(self).selected_idx
                == if old(self).selected_idx > 0 {
                old(self).selected_idx - 1
            } else {
                0
            },
            !old(self).modal_active && event == PickerEvent::SelectFirst ==> final(self).selected_idx
                == 0 && final(self).scroll_offset_right == 0,
            !old(self).modal_active && event == PickerEvent::SelectLast ==> final(self).selected_idx
                == if old(self).sessions@.len() > 0 {
                old(self).sessions@.len() - 1
            } else {
                0
            } && final(self).scroll_offset_right == 0,
            !old(self).modal_active && event == PickerEvent::PageNext ==> final(self).pagination.current_page == if old(self).pagination.current_page + 1 < pages(
                old(self).sessions@.len(),
                old(self).pagination.items_per_page as nat,
            ) {
                old(self).pagination.current_page + 1
            } else {
                old(self).pagination.current_page as int
            },
            !old(self).modal_active && event == PickerEvent::PagePrev ==> final(self).pagination.current_page == if old(self).pagination.current_page > 0 {
                old(self).pagination.current_page - 1
            } else {
                0
            },
            !old(self).modal_active && event == PickerEvent::ScrollUp ==> final(self).scroll_offset_right
                == if old(self).scroll_offset_right > 0 {
                old(self).scroll_offset_right - 1
            } else {
                0
            },
            !old(self).modal_active && event == PickerEvent::ScrollDown ==> final(self).scroll_offset_right == sat_inc(old(self).scroll_offset_right),
            !old(self).modal_active && (event == PickerEvent::ToggleViewMode || event
                == PickerEvent::CycleViewMode) ==> final(self).view_mode == next_mode(old(self).view_mode),
            !old(self).modal_active && event == PickerEvent::Delete ==> (old(self).selected_idx < old(self).sessions@.len() ==> final(self).modal_active && final(self).modal_message@
                == delete_prompt(old(self).sessions@[old(self).selected_idx as int].id@)) && (old(self).selected_idx >= old(self).sessions@.len() ==> *final(self) == *old(self)),
            !old(self).modal_active && (event == PickerEvent::CopySessionId || event
                == PickerEvent::NewSession || event == PickerEvent::Refresh || event
                == PickerEvent::ConfirmAction || event == PickerEvent::CancelAction) ==> *final(self)
                == *old(self),
    {
        let none = EventOutcome { selection: None, delete_path: None };
        if self.modal_active {
            match event {
                PickerEvent::ConfirmAction => {
                    if self.selected_idx < self.sessions.len() {
                        let start = self.pagination.page_start();
                        let gone = self.sessions.remove(self.selected_idx);
                        self.modal_active = false;
                        if self.selected_idx >= self.sessions.len() && self.selected_idx > 0 {
                            self.selected_idx = self.selected_idx - 1;
                        }
                        self.pagination.total_items = self.sessions.len();
                        if start > self.pagination.total_items {
                            self.pagination.current_page = 0;
                            assert(0 * self.pagination.items_per_page == 0);
                            self.pagination.last_page();
                        }
                        self.cache.remove_preview(gone.id.as_str());
                        return EventOutcome { selection: None, delete_path: Some(gone.path) };
                    }
                },
                PickerEvent::CancelAction => {
                    self.close_modal();
                },
                _ => {},
            }
            return none;
        }
        match event {
            PickerEvent::SelectNext => self.select_next(source),
            PickerEvent::SelectPrev => self.select_prev(source),
            PickerEvent::SelectFirst => self.select_first(),
            PickerEvent::SelectLast => self.select_last(),
            PickerEvent::PageNext => self.next_page(source),
            PickerEvent::PagePrev => self.prev_page(source),
            PickerEvent::ScrollUp => self.scroll_preview_up(),
            PickerEvent::ScrollDown => self.scroll_preview_down(),
            PickerEvent::ToggleViewMode | PickerEvent::CycleViewMode => self.toggle_view_mode(),
            PickerEvent::Resume => {
                if let Some(session) = self.selected_session() {
                    return EventOutcome { selection: Some(session.id.clone()), delete_path: None };
                }
            },
            PickerEvent::Delete => self.confirm_delete(),
            PickerEvent::Exit => {
                return EventOutcome { selection: Some(String::new()), delete_path: None };
            },
            _ => {},
        }
        none
    }
}

} // verus!
