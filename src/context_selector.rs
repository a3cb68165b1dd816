use vstd::prelude::*;

use crate::messages::{effects_view, ContextSelectorMessage, Effect, EffectView};

verus! {

/// The chooser shown while no session exists: the candidate contexts, the
/// pending selection, and whether a chosen context is being loaded.
#[derive(Debug, Clone)]
pub struct ContextSelector {
    contexts: Vec<String>,
    selection: Option<String>,
    loading: bool,
}

pub struct SelectorView {
    pub candidates: Seq<Seq<char>>,
    pub selection: Option<Seq<char>>,
    pub loading: bool,
}

pub open spec fn strings_view(v: Seq<String>) -> Seq<Seq<char>> {
    v.map_values(|s: String| s@)
}

impl View for ContextSelector {
    type V = SelectorView;

    closed spec fn view(&self) -> SelectorView {
        SelectorView {
            candidates: strings_view(self.contexts@),
            selection: match self.selection {
                Some(s) => Some(s@),
                None => None,
            },
            loading: self.loading,
        }
    }
}

/// How the chooser reacts to an event, and what it asks to run.
pub open spec fn selector_step(s: SelectorView, m: ContextSelectorMessage) -> (
    SelectorView,
    Seq<EffectView>,
) {
    match m {
        ContextSelectorMessage::DropDownItemSelected(name) => (
            SelectorView { candidates: s.candidates, selection: Some(name@), loading: s.loading },
            Seq::empty(),
        ),
        ContextSelectorMessage::DropDownClosed => (s, Seq::empty()),
        ContextSelectorMessage::ContextSelected(name) => (
            SelectorView { candidates: s.candidates, selection: s.selection, loading: true },
            seq![EffectView::LoadContext(name@)],
        ),
    }
}

impl ContextSelector {
    pub fn new(contexts: Vec<String>) -> (r: ContextSelector)
        ensures
            r@ == (SelectorView {
                candidates: strings_view(contexts@),
                selection: None,
                loading: false,
            }),
    {
        ContextSelector { contexts, selection: None, loading: false }
    }

    pub fn contexts(&self) -> (r: &Vec<String>)
        ensures
            strings_view(r@) == self@.candidates,
    {
        &self.contexts
    }

    pub fn selection(&self) -> (r: Option<String>)
        ensures
            r == None::<String> <==> self@.selection == None::<Seq<char>>,
            forall|s: String| r == Some(s) ==> self@.selection == Some(s@),
    {
        self.selection.clone()
    }

    pub fn is_loading(&self) -> (r: bool)
        ensures
            r == self@.loading,
    {
        self.loading
    }

    /// Leaves the loading state, keeping candidates and selection.
    pub fn stop_loading(&mut self)
        ensures
            final(self)@ == (SelectorView {
                candidates: old(self)@.candidates,
                selection: old(self)@.selection,
                loading: false,
            }),
    {
        self.loading = false;
    }

    pub fn update(&mut self, message: ContextSelectorMessage) -> (effects: Vec<Effect>)
        ensures
            (final(self)@, effects_view(effects@)) == selector_step(old(self)@, message),
    {
        match message {
            ContextSelectorMessage::DropDownItemSelected(name) => {
                self.selection = Some(name);
                let effects: Vec<Effect> = Vec::new();
                assert(effects_view(effects@) =~= Seq::empty());
                effects
            },
            ContextSelectorMessage::DropDownClosed => {
                let effects: Vec<Effect> = Vec::new();
                assert(effects_view(effects@) =~= Seq::empty());
                effects
            },
            ContextSelectorMessage::ContextSelected(name) => {
                self.loading = true;
                let effects = vec![Effect::LoadContext(name)];
                assert(effects_view(effects@) =~= seq![EffectView::LoadContext(name@)]);
                effects
            },
        }
    }
}

} // verus!
