//! State of the new-session form: title, model picker and mode.
use vstd::prelude::*;

use crate::net::ModelEntry;
use crate::protocol::{all_models_spec, model_display_name, parse_model, Mode, ModelId};
use crate::runtime::model::editor::{composer_lines, Composer};

verus! {

/// Which field of the new-session form has focus.
#[derive(Debug, Clone, Copy, PartialEq, Eq, Structural)]
pub enum NewSessionField {
    Title,
    Model,
    Mode,
}

/// The focus cycle: Title, Model, Mode, and back to Title.
pub open spec fn next_field(f: NewSessionField) -> NewSessionField {
    match f {
        NewSessionField::Title => NewSessionField::Model,
        NewSessionField::Model => NewSessionField::Mode,
        NewSessionField::Mode => NewSessionField::Title,
    }
}

impl NewSessionField {
    /// The next field in the focus cycle: Title → Model → Mode → Title.
    pub fn next(self) -> (f: NewSessionField)
        ensures
            f == next_field(self),
    {
        match self {
            NewSessionField::Title => NewSessionField::Model,
            NewSessionField::Model => NewSessionField::Mode,
            NewSessionField::Mode => NewSessionField::Title,
        }
    }
}

/// The field reached from `f` after `n` presses of Tab.
pub open spec fn advance_field(f: NewSessionField, n: nat) -> NewSessionField
    decreases n,
{
    if n == 0 {
        f
    } else {
        advance_field(next_field(f), (n - 1) as nat)
    }
}

/// The model picker: still loading, or a loaded list with a highlighted entry.
#[derive(Debug)]
pub enum ModelPicker {
    /// The registry request is still in flight.
    Loading,
    /// Models are loaded; `selected` indexes `models`.
    Loaded { models: Vec<ModelId>, selected: usize },
}

/// The catalog models that a registry lists, in the registry's order;
/// entries with an unknown id are skipped.
pub open spec fn known_models(entries: Seq<ModelEntry>) -> Seq<ModelId>
    decreases entries.len(),
{
    if entries.len() == 0 {
        Seq::empty()
    } else {
        let prev = known_models(entries.drop_last());
        match parse_model(entries.last().id@) {
            Some(m) => prev.push(m),
            None => prev,
        }
    }
}

/// The models the picker shows after a registry result.
pub open spec fn registry_models(result: Result<Vec<ModelEntry>, String>) -> Seq<ModelId> {
    match result {
        Ok(v) => known_models(v@),
        Err(_) => Seq::empty(),
    }
}

/// The entry highlighted by a loaded picker, if its index is in range.
pub open spec fn picker_selection(p: ModelPicker) -> Option<ModelId> {
    match p {
        ModelPicker::Loading => None,
        ModelPicker::Loaded { models, selected } => if selected < models@.len() {
            Some(models@[selected as int])
        } else {
            None
        },
    }
}

impl ModelPicker {
    /// Build a loaded picker from a registry result, and say whether it fell
    /// back. Known ids map to one model per entry in the returned order, with
    /// the first selected. A failure, an empty list or an all-unknown list
    /// falls back to the built-in catalog with a "couldn't load models" error.
    pub fn from_registry(result: Result<Vec<ModelEntry>, String>) -> (r: (ModelPicker, Option<String>))
        ensures
            ({
                let found = registry_models(result);
                match r.0 {
                    ModelPicker::Loaded { models, selected } => selected == 0 && if found.len() > 0 {
                        models@ == found && r.1 is None
                    } else {
                        models@ == all_models_spec() && (r.1 matches Some(e) && e@
                            == "couldn't load models"@)
                    },
                    ModelPicker::Loading => false,
                }
            }),
    {
        let ghost found = registry_models(result);
        let mut models: Vec<ModelId> = Vec::new();
        match &result {
            Ok(entries) => {
                let mut i: usize = 0;
                while i < entries.len()
                    invariant
                        i <= entries.len(),
                        models@ == known_models(entries@.take(i as int)),
                    decreases entries.len() - i,
                {
                    let parsed = ModelId::parse(entries[i].id.as_str());
                    proof {
                        assert(entries@.take(i + 1).drop_last() =~= entries@.take(i as int));
                    }
                    match parsed {
                        Some(m) => models.push(m),
                        None => {},
                    }
                    i = i + 1;
                }
                assert(entries@.take(entries.len() as int) =~= entries@);
            },
            Err(_) => {},
        }
        if models.len() == 0 {
            (ModelPicker::Loaded { models: ModelId::all(), selected: 0 }, Some("couldn't load models".to_string()))
        } else {
            (ModelPicker::Loaded { models, selected: 0 }, None)
        }
    }

    /// The highlighted model, or `None` while still loading.
    pub fn selected_model(&self) -> (m: Option<ModelId>)
        ensures
            m == picker_selection(*self),
    {
        match self {
            ModelPicker::Loading => None,
            ModelPicker::Loaded { models, selected } => {
                if *selected < models.len() {
                    Some(models[*selected])
                } else {
                    None
                }
            },
        }
    }

    /// Display name of the highlighted model, or a loading placeholder.
    pub fn display_name(&self) -> (s: &'static str)
        ensures
            s@ == match picker_selection(*self) {
                Some(m) => model_display_name(m),
                None => "loading\u{2026}"@,
            },
    {
        match self.selected_model() {
            Some(m) => m.display_name(),
            None => "loading\u{2026}",
        }
    }

    /// Highlight the previous entry, stopping at the first. Nothing happens while loading.
    pub fn select_prev(&mut self)
        ensures
            *final(self) == picker_prev(*old(self)),
    {
        match self {
            ModelPicker::Loaded { selected, .. } => {
                if *selected > 0 {
                    *selected = *selected - 1;
                }
            },
            ModelPicker::Loading => {},
        }
    }

    /// Highlight the next entry, stopping at the last. Nothing happens while loading.
    pub fn select_next(&mut self)
        ensures
            *final(self) == picker_next(*old(self)),
    {
        match self {
            ModelPicker::Loaded { models, selected } => {
                let last = if models.len() == 0 { 0 } else { models.len() - 1 };
                if *selected >= last {
                    *selected = last;
                } else {
                    *selected = *selected + 1;
                }
            },
            ModelPicker::Loading => {},
        }
    }
}

/// The picker after Left: one entry up, stopping at the first.
pub open spec fn picker_prev(p: ModelPicker) -> ModelPicker {
    match p {
        ModelPicker::Loading => ModelPicker::Loading,
        ModelPicker::Loaded { models, selected } => ModelPicker::Loaded {
            models,
            selected: if selected == 0 { 0 } else { (selected - 1) as usize },
        },
    }
}

/// The picker after Right: one entry down, stopping at the last.
pub open spec fn picker_next(p: ModelPicker) -> ModelPicker {
    match p {
        ModelPicker::Loading => ModelPicker::Loading,
        ModelPicker::Loaded { models, selected } => ModelPicker::Loaded {
            models,
            selected: clamp_next(selected as int, models@.len() as int),
        },
    }
}

/// One step down a list of `len` rows from `i`, without passing the last
/// row (the first row when the list is empty).
pub open spec fn clamp_next(i: int, len: int) -> usize {
    let last = if len == 0 { 0 } else { len - 1 };
    if i + 1 <= last {
        (i + 1) as usize
    } else {
        last as usize
    }
}

/// State of the new-session form.
#[derive(Debug)]
pub struct NewSessionState {
    /// The session title editor.
    pub title: Composer,
    /// The model picker, fed from the server registry.
    pub model: ModelPicker,
    /// Selected interaction mode.
    pub mode: Mode,
    /// Which field has focus.
    pub field: NewSessionField,
    /// `true` while a creation request is in flight.
    pub submitting: bool,
    /// Persistent form error or hint, cleared on the next edit or submit.
    pub error: Option<String>,
}

impl Default for NewSessionState {
    fn default() -> (n: Self)
        ensures
            composer_lines(n.title) == seq![Seq::<char>::empty()],
            n.model is Loading,
            n.mode == Mode::Build,
            n.field == NewSessionField::Title,
            !n.submitting,
            n.error is None,
    {
        NewSessionState {
            title: Composer::new(),
            model: ModelPicker::Loading,
            mode: Mode::Build,
            field: NewSessionField::Title,
            submitting: false,
            error: None,
        }
    }
}

} // verus!
