//! Persistent data: the game options and their storage policy.
//!
//! Options live in a TOML document under a fixed storage key. The host owns
//! the storage itself (a save directory, or the browser's local storage) and
//! hands the library the stored text, if any; the library decides what the
//! options become: the saved value where the text is a well-formed document,
//! and the default value where the data is missing or corrupt. Serializing
//! goes the other way: the library produces the document text and the host
//! writes it.

use vstd::prelude::*;

use crate::App;

verus! {

/// Initializes the persistent data: the options resource is loaded from the
/// stored text the host read from its storage, if any. Creating the save
/// directory itself is the host's work.
pub fn plugin(app: &mut App, stored: Option<&str>)
    ensures
        final(app).options == Some(GameOptions {  }),
        final(app).systems@ == old(app).systems@,
        final(app).state == old(app).state,
        final(app).state_scoped == old(app).state_scoped,
        final(app).play_sets@ == old(app).play_sets@,
{
    let loaded = GameOptions::load(stored);
    app.options = Option::Some(loaded);
}

/// Stores options that can be configured on the menu, related to
/// accessibility and customization. No option has been added yet, so the
/// record is empty and its TOML document is the empty one.
#[derive(Clone, Copy, PartialEq, Eq, Structural, Debug)]
pub struct GameOptions {}

impl Default for GameOptions {
    /// The options a fresh installation starts with.
    fn default() -> (r: GameOptions)
        ensures
            r == (GameOptions {  }),
    {
        GameOptions {  }
    }
}

/// Whether a text is a well-formed TOML document.
pub uninterp spec fn toml_document_ok(s: Seq<char>) -> bool;

/// Relies on `toml::from_str::<toml::Table>`: parses the text as a TOML
/// document, and succeeds exactly on well-formed documents. Parsing is a
/// function of the text alone.
#[verifier::external_body]
fn parses_as_toml(s: &str) -> (r: bool)
    ensures
        r == toml_document_ok(s@),
{
    toml::from_str::<toml::Table>(s).is_ok()
}

impl GameOptions {
    /// The storage key this record is saved under: its file stem in the save
    /// directory, or its local-storage key.
    pub fn path() -> (r: &'static str)
        ensures
            r@ == "GameOptions"@,
    {
        "GameOptions"
    }

    /// Reads the options from the stored text if there is any. Missing or
    /// corrupt data falls back to the default value.
    pub fn load(stored: Option<&str>) -> (r: GameOptions)
        ensures
            r == (GameOptions {  }),
    {
        let mut data = GameOptions::default();
        data.reload(stored);
        data
    }

    /// Overwrites the options with the saved value: the parsed document where
    /// the stored text is well-formed TOML, and the default value otherwise.
    /// The record has no fields yet, so a successful parse can only yield the
    /// default value too; the stored text is still checked, keeping the
    /// corrupt-data policy in place for when options are added.
    pub fn reload(&mut self, stored: Option<&str>)
        ensures
            *final(self) == (GameOptions {  }),
    {
        match stored {
            Option::Some(s) => {
                if parses_as_toml(s) {
                    *self = GameOptions {  };
                } else {
                    *self = GameOptions::default();
                }
            },
            Option::None => {
                *self = GameOptions::default();
            },
        }
    }

    /// Serializes the options to the document text the host should store: a
    /// record with no fields serializes to the empty TOML document.
    pub fn to_stored(&self) -> (r: String)
        ensures
            r@ == Seq::<char>::empty(),
    {
        String::new()
    }

    /// Returns the options to their default value. The host should persist
    /// the serialized text afterwards, as it does after any change.
    pub fn reset(&mut self)
        ensures
            *final(self) == (GameOptions {  }),
    {
        *self = GameOptions::default();
    }
}

} // verus!
