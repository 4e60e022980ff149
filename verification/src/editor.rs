//! What the editor does with the configuration on each user action.
//!
//! The editor's window, its buttons and its file dialog are the caller's. The
//! caller turns a click into a [`Message`], lets [`update`] edit the
//! configuration, and carries out the [`Effect`] that comes back.

use vstd::prelude::*;
use crate::config::{Config, ConfigView};

verus! {

/// A user action, or the outcome of one.
#[derive(Clone, Debug)]
pub enum Message {
    /// Use this path as the background.
    ChangeCurrentBackground(String),
    /// Put this path into the gallery.
    AddBackground(String),
    /// Take this path out of the gallery.
    RemoveBackground(String),
    /// Let the user pick a file to add.
    OpenFilePicker,
    /// The file dialog was closed without a choice.
    CloseFilePicker,
}

/// What the caller has to do after an update.
#[derive(Clone, Copy, Debug, PartialEq, Eq, Structural)]
pub enum Effect {
    /// The configuration was edited: write it to the store. A failed write is
    /// shown to the user and not repeated.
    Persist,
    /// Show the file dialog and feed its outcome back through [`picked`].
    PickFile,
    /// Nothing.
    Idle,
}

/// The configuration after `message`.
pub open spec fn updated(config: ConfigView, message: Message) -> ConfigView {
    match message {
        Message::ChangeCurrentBackground(path) => config.selected(path@),
        Message::AddBackground(path) => config.added(path@),
        Message::RemoveBackground(path) => config.removed(path@),
        Message::OpenFilePicker => config,
        Message::CloseFilePicker => config,
    }
}

/// The effect that `message` asks for.
pub open spec fn effect_of(message: Message) -> Effect {
    match message {
        Message::ChangeCurrentBackground(_) => Effect::Persist,
        Message::AddBackground(_) => Effect::Persist,
        Message::RemoveBackground(_) => Effect::Persist,
        Message::OpenFilePicker => Effect::PickFile,
        Message::CloseFilePicker => Effect::Idle,
    }
}

/// Applies a message to the configuration and says what the caller has to do.
pub fn update(config: &mut Config, message: Message) -> (effect: Effect)
    ensures
        final(config)@ == updated(old(config)@, message),
        effect == effect_of(message),
{
    match message {
        Message::ChangeCurrentBackground(path) => {
            config.select_background(path);
            Effect::Persist
        },
        Message::AddBackground(path) => {
            config.add_background(path);
            Effect::Persist
        },
        Message::RemoveBackground(path) => {
            config.remove_background(path.as_str());
            Effect::Persist
        },
        Message::OpenFilePicker => Effect::PickFile,
        Message::CloseFilePicker => Effect::Idle,
    }
}

/// The message that follows the file dialog: the chosen path is added to the
/// gallery; without a choice the dialog is just closed.
pub fn picked(choice: Option<String>) -> (message: Message)
    ensures
        match choice {
            Some(path) => message matches Message::AddBackground(added) && added@ == path@,
            None => message is CloseFilePicker,
        },
{
    match choice {
        Some(path) => Message::AddBackground(path),
        None => Message::CloseFilePicker,
    }
}

/// Every update keeps a gallery free of duplicates so.
pub proof fn lemma_update_keeps_distinct(config: ConfigView, message: Message)
    requires
        config.distinct(),
    ensures
        updated(config, message).distinct(),
{
    match message {
        Message::ChangeCurrentBackground(path) => {
            crate::config::lemma_select_consistent(config, path@);
        },
        Message::AddBackground(path) => {
            crate::config::lemma_add_twice(config, path@);
        },
        Message::RemoveBackground(path) => {
            crate::config::lemma_remove_gallery(config, path@);
        },
        Message::OpenFilePicker => {},
        Message::CloseFilePicker => {},
    }
}

} // verus!
