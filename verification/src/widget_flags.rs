//! Flags returned to the UI widget that hosts the engine.

use vstd::prelude::*;

verus! {

/// Flags returned to the UI widget that holds the engine, indicating which
/// parts of the surface and UI state must be refreshed after an operation.
#[must_use]
#[derive(Debug, Clone)]
pub struct WidgetFlags {
    /// Needs surface redrawing.
    pub redraw: bool,
    /// Needs surface resizing.
    pub resize: bool,
    /// Opens the sidebar with the equation window.
    pub show_equation_sidebar_ui: bool,
    /// Updates the equation error displayed in the equation sidebar.
    pub update_equation_error: bool,
    /// Refresh the UI with the engine state.
    pub refresh_ui: bool,
    /// Refreshes only the equation UI.
    pub refresh_equation_ui: bool,
    /// Indicates that the store was modified, i.e. new strokes inserted,
    /// modified, etc.
    pub store_modified: bool,
    /// Update the current view offsets and size.
    pub view_modified: bool,
    /// Indicates that the camera has changed its temporary zoom.
    pub zoomed_temporarily: bool,
    /// Indicates that the camera has changed its permanent zoom.
    pub zoomed: bool,
    /// Deselect the elements of the global color picker.
    pub deselect_color_setters: bool,
    /// Is `Some` when undo button visibility should be changed, `None` when
    /// it should be left alone.
    pub hide_undo: Option<bool>,
    /// Is `Some` when redo button visibility should be changed, `None` when
    /// it should be left alone.
    pub hide_redo: Option<bool>,
    /// Changes whether text preprocessing in the UI toolkit should be
    /// enabled.
    pub enable_text_preprocessing: Option<bool>,
}

/// All flags cleared: nothing to refresh.
pub open spec fn spec_widget_flags_default() -> WidgetFlags {
    WidgetFlags {
        redraw: false,
        resize: false,
        show_equation_sidebar_ui: false,
        update_equation_error: false,
        refresh_ui: false,
        refresh_equation_ui: false,
        store_modified: false,
        view_modified: false,
        zoomed_temporarily: false,
        zoomed: false,
        deselect_color_setters: false,
        hide_undo: None,
        hide_redo: None,
        enable_text_preprocessing: None,
    }
}

impl Default for WidgetFlags {
    /// Returns the flag set with every flag cleared.
    fn default() -> (r: WidgetFlags)
        ensures
            r == spec_widget_flags_default(),
    {
        WidgetFlags {
            redraw: false,
            resize: false,
            show_equation_sidebar_ui: false,
            update_equation_error: false,
            refresh_ui: false,
            refresh_equation_ui: false,
            store_modified: false,
            view_modified: false,
            zoomed_temporarily: false,
            zoomed: false,
            deselect_color_setters: false,
            hide_undo: None,
            hide_redo: None,
            enable_text_preprocessing: None,
        }
    }
}

/// The merge of two flag sets: boolean flags are or-ed, optional overrides
/// are taken from `rhs` whenever `rhs` carries one.
pub open spec fn spec_widget_flags_merge(lhs: WidgetFlags, rhs: WidgetFlags) -> WidgetFlags {
    WidgetFlags {
        redraw: lhs.redraw || rhs.redraw,
        resize: lhs.resize || rhs.resize,
        show_equation_sidebar_ui: lhs.show_equation_sidebar_ui || rhs.show_equation_sidebar_ui,
        update_equation_error: lhs.update_equation_error || rhs.update_equation_error,
        refresh_ui: lhs.refresh_ui || rhs.refresh_ui,
        refresh_equation_ui: lhs.refresh_equation_ui || rhs.refresh_equation_ui,
        store_modified: lhs.store_modified || rhs.store_modified,
        view_modified: lhs.view_modified || rhs.view_modified,
        zoomed_temporarily: lhs.zoomed_temporarily || rhs.zoomed_temporarily,
        zoomed: lhs.zoomed || rhs.zoomed,
        deselect_color_setters: lhs.deselect_color_setters || rhs.deselect_color_setters,
        hide_undo: if rhs.hide_undo is Some {
            rhs.hide_undo
        } else {
            lhs.hide_undo
        },
        hide_redo: if rhs.hide_redo is Some {
            rhs.hide_redo
        } else {
            lhs.hide_redo
        },
        enable_text_preprocessing: if rhs.enable_text_preprocessing is Some {
            rhs.enable_text_preprocessing
        } else {
            lhs.enable_text_preprocessing
        },
    }
}

impl WidgetFlags {
    /// Folds `rhs` into `self`: boolean flags are or-ed together, optional
    /// overrides are replaced whenever `rhs` carries one.
    pub fn merge(&mut self, rhs: WidgetFlags)
        ensures
            *final(self) == spec_widget_flags_merge(*old(self), rhs),
    {
        *self = WidgetFlags {
            redraw: self.redraw || rhs.redraw,
            resize: self.resize || rhs.resize,
            show_equation_sidebar_ui: self.show_equation_sidebar_ui
                || rhs.show_equation_sidebar_ui,
            update_equation_error: self.update_equation_error || rhs.update_equation_error,
            refresh_ui: self.refresh_ui || rhs.refresh_ui,
            refresh_equation_ui: self.refresh_equation_ui || rhs.refresh_equation_ui,
            store_modified: self.store_modified || rhs.store_modified,
            view_modified: self.view_modified || rhs.view_modified,
            zoomed_temporarily: self.zoomed_temporarily || rhs.zoomed_temporarily,
            zoomed: self.zoomed || rhs.zoomed,
            deselect_color_setters: self.deselect_color_setters || rhs.deselect_color_setters,
            hide_undo: if rhs.hide_undo.is_some() {
                rhs.hide_undo
            } else {
                self.hide_undo
            },
            hide_redo: if rhs.hide_redo.is_some() {
                rhs.hide_redo
            } else {
                self.hide_redo
            },
            enable_text_preprocessing: if rhs.enable_text_preprocessing.is_some() {
                rhs.enable_text_preprocessing
            } else {
                self.enable_text_preprocessing
            },
        };
    }

    /// The merge of `self` and `rhs`, as a fresh flag set.
    pub fn merged(self, rhs: WidgetFlags) -> (r: WidgetFlags)
        ensures
            r == spec_widget_flags_merge(self, rhs),
    {
        let mut out = self;
        out.merge(rhs);
        out
    }
}

} // verus!
