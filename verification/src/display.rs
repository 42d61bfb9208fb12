//! The state the rendering loop keeps between frames: the text being typed,
//! the kind of input the worker last asked for, and the chosen session.

use std::rc::Rc;

use vstd::prelude::*;

use crate::cache::SingleCache;
use crate::messages::{Command, InputType, Responce, SpecResponce};

verus! {

/// The search-selector's cache: search text to the matching
/// (display name, choice) pairs.
pub type SelectorCache<A> = SingleCache<String, Vec<(Rc<String>, A)>>;

/// What the rendering loop shows and edits each frame.
pub struct DisplayState {
    /// The text typed into the session selector.
    pub session_input: String,
    /// The selector's one-slot result cache.
    pub search_cache: SelectorCache<(String, String)>,
    /// The text typed into the credential field.
    pub input: String,
    /// The kind of input the worker last asked for, cleared once answered.
    pub input_type: Option<InputType>,
    /// The chosen session as (display name, launch command).
    pub session: (String, String),
}

impl DisplayState {
    /// A fresh frame state around the default session, with nothing typed and
    /// no input requested yet.
    pub fn new(default: String, default_command: String) -> (state: Self)
        ensures
            state.input@ == Seq::<char>::empty(),
            state.input_type is None,
            state.session == (default, default_command),
            state.session_input == default,
            state.search_cache.spec_key() is None,
            !state.search_cache.spec_read(),
    {
        Self {
            input: String::new(),
            input_type: None,
            session: (default.clone(), default_command),
            session_input: default,
            search_cache: SingleCache::default(),
        }
    }

    /// Digest one worker response between frames: remember the input kind a
    /// `GetInput` asks for, and answer `GetSession` at once with the chosen
    /// session's launch command. The display-only responses (`Success`,
    /// `Error`, `Message`) change nothing here and owe no command.
    pub fn apply_response(&mut self, resp: &Responce) -> (cmd: Option<Command>)
        ensures
            final(self).input == old(self).input,
            final(self).session == old(self).session,
            final(self).session_input == old(self).session_input,
            final(self).search_cache == old(self).search_cache,
            final(self).input_type == (match resp@ {
                SpecResponce::GetInput(kind) => Some(kind),
                _ => old(self).input_type,
            }),
            cmd == (if resp@ is GetSession {
                Some(Command::Session(old(self).session.1))
            } else {
                Option::<Command>::None
            }),
    {
        match resp {
            Responce::GetInput(kind) => {
                self.input_type = Some(*kind);
                None
            },
            Responce::GetSession => Some(Command::Session(self.session.1.clone())),
            _ => None,
        }
    }

    /// The command sent when the user submits the pending input: `Next` for a
    /// prompt that wanted no input, `Entered` with the typed text (taken out
    /// of the field) for a credential prompt, nothing when no input is
    /// pending. Either way the pending request is cleared.
    pub fn submit_answer(&mut self) -> (cmd: Option<Command>)
        ensures
            final(self).input_type is None,
            final(self).session == old(self).session,
            final(self).session_input == old(self).session_input,
            final(self).search_cache == old(self).search_cache,
            match old(self).input_type {
                None => cmd is None && final(self).input == old(self).input,
                Some(InputType::NoInput) => cmd == Some(Command::Next) && final(self).input == old(
                    self,
                ).input,
                Some(InputType::Password) | Some(InputType::Visible) => {
                    &&& cmd == Some(Command::Entered(old(self).input))
                    &&& final(self).input@ == Seq::<char>::empty()
                },
            },
    {
        match self.input_type {
            None => None,
            Some(InputType::NoInput) => {
                self.input_type = None;
                Some(Command::Next)
            },
            Some(InputType::Password) | Some(InputType::Visible) => {
                self.input_type = None;
                let text = self.input.clone();
                self.input = String::new();
                Some(Command::Entered(text))
            },
        }
    }
}

} // verus!
